//! Register transfer notation: the micro-steps that the machine performs,
//! written as `destination <- source`.

use vstd::prelude::*;
use crate::text::{decimal, push_chars, push_decimal, string_from_chars};

verus! {

/// The registers of the machine.
#[derive(Clone, Copy, PartialEq, Eq, Structural, Debug)]
pub enum Register {
    AC,
    MQ,
    MBR,
    IBR,
    IR,
    PC,
    MAR,
}

/// Where a transfer reads from or writes to.
#[derive(Clone, Copy, PartialEq, Eq, Structural, Debug)]
pub enum Addressing {
    Register(Register),
    Unary(Register, UnaryOperation),
    MixedReg(Register, Register, BinaryOperation),
    MixedConst(Register, u16, BinaryOperation),
    Memory,
    Constant(u16),
}

#[derive(Clone, Copy, PartialEq, Eq, Structural, Debug)]
pub enum UnaryOperation {
    BitFlip,
    LeftShift,
    RightShift,
}

#[derive(Clone, Copy, PartialEq, Eq, Structural, Debug)]
pub enum BinaryOperation {
    Addition,
    Subtraction,
    Multiplication,
    Remainder,
    Division,
}

/// The part of a word that a transfer touches: all of it, or the bits
/// `start..=end`.
#[derive(Clone, Copy, PartialEq, Eq, Structural, Debug)]
pub enum Amount {
    Full,
    Range { start: usize, end: usize },
}

#[derive(Clone, Copy, PartialEq, Eq, Structural, Debug)]
pub struct Operand {
    pub operand_type: Addressing,
    pub amount: Amount,
}

/// One micro-step: `to <- from`.
#[derive(Clone, Copy, PartialEq, Eq, Structural, Debug)]
pub struct RegisterTransfer {
    pub from: Operand,
    pub to: Operand,
}

impl Register {
    /// The register's name.
    pub open spec fn text(self) -> Seq<char> {
        match self {
            Register::AC => "AC"@,
            Register::MQ => "MQ"@,
            Register::MBR => "MBR"@,
            Register::IBR => "IBR"@,
            Register::IR => "IR"@,
            Register::PC => "PC"@,
            Register::MAR => "MAR"@,
        }
    }

    /// Appends the register's name to `out`.
    pub fn render(&self, out: &mut Vec<char>)
        ensures
            final(out)@ == old(out)@ + self.text(),
    {
        match self {
            Register::AC => push_chars(out, "AC"),
            Register::MQ => push_chars(out, "MQ"),
            Register::MBR => push_chars(out, "MBR"),
            Register::IBR => push_chars(out, "IBR"),
            Register::IR => push_chars(out, "IR"),
            Register::PC => push_chars(out, "PC"),
            Register::MAR => push_chars(out, "MAR"),
        }
    }
}

impl UnaryOperation {
    /// The operator's symbol.
    pub open spec fn text(self) -> Seq<char> {
        match self {
            UnaryOperation::BitFlip => "~"@,
            UnaryOperation::LeftShift => "<<"@,
            UnaryOperation::RightShift => ">>"@,
        }
    }

    /// Appends the operator's symbol to `out`.
    pub fn render(&self, out: &mut Vec<char>)
        ensures
            final(out)@ == old(out)@ + self.text(),
    {
        match self {
            UnaryOperation::BitFlip => push_chars(out, "~"),
            UnaryOperation::LeftShift => push_chars(out, "<<"),
            UnaryOperation::RightShift => push_chars(out, ">>"),
        }
    }
}

impl BinaryOperation {
    /// The operator's symbol.
    pub open spec fn text(self) -> Seq<char> {
        match self {
            BinaryOperation::Addition => "+"@,
            BinaryOperation::Subtraction => "-"@,
            BinaryOperation::Multiplication => "*"@,
            BinaryOperation::Remainder => "%"@,
            BinaryOperation::Division => "/"@,
        }
    }

    /// Appends the operator's symbol to `out`.
    pub fn render(&self, out: &mut Vec<char>)
        ensures
            final(out)@ == old(out)@ + self.text(),
    {
        match self {
            BinaryOperation::Addition => push_chars(out, "+"),
            BinaryOperation::Subtraction => push_chars(out, "-"),
            BinaryOperation::Multiplication => push_chars(out, "*"),
            BinaryOperation::Remainder => push_chars(out, "%"),
            BinaryOperation::Division => push_chars(out, "/"),
        }
    }
}

impl Addressing {
    /// `R`, `R op`, `R op R`, `R op n`, `M(MAR)` or `n`.
    pub open spec fn text(self) -> Seq<char> {
        match self {
            Addressing::Register(r) => r.text(),
            Addressing::Unary(r, u) => r.text() + " "@ + u.text(),
            Addressing::MixedReg(r1, r2, b) => r1.text() + " "@ + b.text() + " "@ + r2.text(),
            Addressing::MixedConst(r, c, b) => r.text() + " "@ + b.text() + " "@ + decimal(
                c as nat,
            ),
            Addressing::Memory => "M(MAR)"@,
            Addressing::Constant(c) => decimal(c as nat),
        }
    }

    /// Appends the textual form to `out`.
    pub fn render(&self, out: &mut Vec<char>)
        ensures
            final(out)@ == old(out)@ + self.text(),
    {
        match *self {
            Addressing::Register(r) => r.render(out),
            Addressing::Unary(r, u) => render_unary(out, r, u),
            Addressing::MixedReg(r1, r2, b) => render_mixed_reg(out, r1, r2, b),
            Addressing::MixedConst(r, c, b) => render_mixed_const(out, r, c, b),
            Addressing::Memory => push_chars(out, "M(MAR)"),
            Addressing::Constant(c) => push_decimal(out, c as u64),
        }
    }
}

fn render_unary(out: &mut Vec<char>, r: Register, u: UnaryOperation)
    ensures
        final(out)@ == old(out)@ + Addressing::Unary(r, u).text(),
{
    let ghost start = out@;
    r.render(out);
    push_chars(out, " ");
    u.render(out);
    assert(out@ =~= start + Addressing::Unary(r, u).text());
}

fn render_mixed_reg(out: &mut Vec<char>, r1: Register, r2: Register, b: BinaryOperation)
    ensures
        final(out)@ == old(out)@ + Addressing::MixedReg(r1, r2, b).text(),
{
    let ghost start = out@;
    r1.render(out);
    push_chars(out, " ");
    b.render(out);
    push_chars(out, " ");
    r2.render(out);
    assert(out@ =~= start + Addressing::MixedReg(r1, r2, b).text());
}

fn render_mixed_const(out: &mut Vec<char>, r: Register, c: u16, b: BinaryOperation)
    ensures
        final(out)@ == old(out)@ + Addressing::MixedConst(r, c, b).text(),
{
    let ghost start = out@;
    r.render(out);
    push_chars(out, " ");
    b.render(out);
    push_chars(out, " ");
    push_decimal(out, c as u64);
    assert(out@ =~= start + Addressing::MixedConst(r, c, b).text());
}

impl Amount {
    /// Empty for the whole word, `<start..end>` for a bit range.
    pub open spec fn text(self) -> Seq<char> {
        match self {
            Amount::Full => Seq::empty(),
            Amount::Range { start, end } => "<"@ + decimal(start as nat) + ".."@ + decimal(
                end as nat,
            ) + ">"@,
        }
    }

    /// Appends the textual form to `out`.
    pub fn render(&self, out: &mut Vec<char>)
        ensures
            final(out)@ == old(out)@ + self.text(),
    {
        let ghost start_seq = out@;
        match self {
            Amount::Full => {
                assert(out@ =~= start_seq + self.text());
            },
            Amount::Range { start, end } => {
                push_chars(out, "<");
                push_decimal(out, *start as u64);
                push_chars(out, "..");
                push_decimal(out, *end as u64);
                push_chars(out, ">");
                assert(out@ =~= start_seq + self.text());
            },
        }
    }
}

impl Operand {
    /// The addressing followed by the amount.
    pub open spec fn text(self) -> Seq<char> {
        self.operand_type.text() + self.amount.text()
    }

    /// Appends the textual form to `out`.
    pub fn render(&self, out: &mut Vec<char>)
        ensures
            final(out)@ == old(out)@ + self.text(),
    {
        let ghost start = out@;
        self.operand_type.render(out);
        self.amount.render(out);
        assert(out@ =~= start + self.text());
    }
}

impl RegisterTransfer {
    /// `to <- from`.
    pub open spec fn text(self) -> Seq<char> {
        self.to.text() + " <- "@ + self.from.text()
    }

    /// Appends the textual form to `out`.
    pub fn render(&self, out: &mut Vec<char>)
        ensures
            final(out)@ == old(out)@ + self.text(),
    {
        let ghost start = out@;
        self.to.render(out);
        push_chars(out, " <- ");
        self.from.render(out);
        assert(out@ =~= start + self.text());
    }

    /// The textual form, such as `MAR <- PC`.
    pub fn to_debug_string(&self) -> (s: String)
        ensures
            s@ == self.text(),
    {
        let mut out: Vec<char> = Vec::new();
        self.render(&mut out);
        assert(out@ =~= self.text());
        string_from_chars(&out)
    }
}

} // verus!
