//! The intermediate representation of an instruction, and the analysis that
//! turns assembly text into it.

use vstd::prelude::*;

pub mod arithmetic;
pub mod concat;
pub mod jump;
pub mod lexer;
pub mod load;
pub mod stor;
pub mod syntax;
use crate::rtn::Amount;
use crate::text::{decimal, push_chars, push_decimal, string_from_chars};
use arithmetic::{
    add_sub_repr, div_repr_of, handle_add, handle_div, handle_lsh, handle_mul, handle_rsh,
    handle_sub, mul_repr_of, shift_repr_of,
};
use jump::{handle_jump, jump_repr_of};
use lexer::{lex, tokenize};
use load::{handle_load, load_repr};
use stor::{handle_stor, stor_repr_of};
use syntax::{parse_all_lines, parse_lines, LineSyntax, Mnemonic};

verus! {

/// A value that an instruction reads or writes.
#[derive(Clone, Copy, PartialEq, Eq, Structural, Debug)]
pub enum ComplexTerm {
    MQ,
    AC,
    PC,
    M(u16),
    Constant(u16),
}

/// The right-hand side of an assignment.
#[derive(Clone, Copy, PartialEq, Eq, Structural, Debug)]
pub enum ComplexExpr {
    Unary(ComplexUnaryWithSize),
    Binary(ComplexBinary),
    ComplexMachineOp(ComplexMachineOp),
}

/// An effect that is not an arithmetic expression.
#[derive(Clone, Copy, PartialEq, Eq, Structural, Debug)]
pub enum ComplexMachineOp {
    SkipLeftInstruction,
}

/// `op1 op op2`, of which the bits `size` are taken.
#[derive(Clone, Copy, PartialEq, Eq, Structural, Debug)]
pub struct ComplexBinary {
    pub op1: ComplexUnaryWithSize,
    pub op2: ComplexUnaryWithSize,
    pub op: ComplexOperation,
    pub size: Amount,
}

/// A possibly negated, possibly absolute term, of which the bits `size` are
/// taken.
#[derive(Clone, Copy, PartialEq, Eq, Structural, Debug)]
pub struct ComplexUnaryWithSize {
    pub unary: ComplexUnary,
    pub size: Amount,
}

#[derive(Clone, Copy, PartialEq, Eq, Structural, Debug)]
pub enum ComplexOperation {
    Addition,
    Subtraction,
    Division,
    Remainder,
    Multiply,
}

/// `signless`, `-signless`, `|signless|` or `-|signless|`.
#[derive(Clone, Copy, PartialEq, Eq, Structural, Debug)]
pub struct ComplexUnary {
    pub signless: ComplexTerm,
    pub is_neg: bool,
    pub is_abs: bool,
}

/// One assignment `left <- right`, performed only where `condition` holds.
#[derive(Clone, Copy, PartialEq, Eq, Structural, Debug)]
pub struct MedReprSingle {
    pub left: ComplexUnaryWithSize,
    pub right: ComplexExpr,
    pub condition: Option<Condition>,
}

#[derive(Clone, Copy, PartialEq, Eq, Structural, Debug)]
pub enum Condition {
    ACNonNegative,
}

/// The meaning of one instruction: a first assignment and, for some
/// instructions, a second one.
pub type MedRepr = (MedReprSingle, Option<MedReprSingle>);

impl ComplexUnary {
    /// The term itself, neither negated nor absolute.
    pub open spec fn spec_basic(signless: ComplexTerm) -> ComplexUnary {
        ComplexUnary { signless, is_neg: false, is_abs: false }
    }

    /// The term itself, neither negated nor absolute.
    #[verifier::when_used_as_spec(spec_basic)]
    pub fn basic(signless: ComplexTerm) -> (u: Self)
        ensures
            u == Self::spec_basic(signless),
    {
        Self { signless, is_neg: false, is_abs: false }
    }
}

// ---------------------------------------------------------------------------
// Textual form

impl ComplexTerm {
    /// `MQ`, `AC`, `PC`, `M(n)` or `n`.
    pub open spec fn text(self) -> Seq<char> {
        match self {
            ComplexTerm::MQ => "MQ"@,
            ComplexTerm::AC => "AC"@,
            ComplexTerm::PC => "PC"@,
            ComplexTerm::M(n) => "M("@ + decimal(n as nat) + ")"@,
            ComplexTerm::Constant(n) => decimal(n as nat),
        }
    }

    /// Appends the textual form to `out`.
    pub fn render(&self, out: &mut Vec<char>)
        ensures
            final(out)@ == old(out)@ + self.text(),
    {
        let ghost start = out@;
        match *self {
            ComplexTerm::MQ => push_chars(out, "MQ"),
            ComplexTerm::AC => push_chars(out, "AC"),
            ComplexTerm::PC => push_chars(out, "PC"),
            ComplexTerm::M(n) => {
                push_chars(out, "M(");
                push_decimal(out, n as u64);
                push_chars(out, ")");
                assert(out@ =~= start + self.text());
            },
            ComplexTerm::Constant(n) => push_decimal(out, n as u64),
        }
    }
}

impl ComplexUnary {
    /// An optional `-`, then the term, between bars where it is absolute.
    pub open spec fn text(self) -> Seq<char> {
        let sign = if self.is_neg {
            "-"@
        } else {
            Seq::empty()
        };
        if self.is_abs {
            sign + "|"@ + self.signless.text() + "|"@
        } else {
            sign + self.signless.text()
        }
    }

    /// Appends the textual form to `out`.
    pub fn render(&self, out: &mut Vec<char>)
        ensures
            final(out)@ == old(out)@ + self.text(),
    {
        let ghost start = out@;
        if self.is_neg {
            push_chars(out, "-");
        }
        if self.is_abs {
            push_chars(out, "|");
            self.signless.render(out);
            push_chars(out, "|");
        } else {
            self.signless.render(out);
        }
        assert(out@ =~= start + self.text());
    }
}

impl ComplexUnaryWithSize {
    /// The unary followed by its size.
    pub open spec fn text(self) -> Seq<char> {
        self.unary.text() + self.size.text()
    }

    /// Appends the textual form to `out`.
    pub fn render(&self, out: &mut Vec<char>)
        ensures
            final(out)@ == old(out)@ + self.text(),
    {
        let ghost start = out@;
        self.unary.render(out);
        self.size.render(out);
        assert(out@ =~= start + self.text());
    }
}

impl ComplexOperation {
    /// The operator's symbol.
    pub open spec fn text(self) -> Seq<char> {
        match self {
            ComplexOperation::Addition => "+"@,
            ComplexOperation::Subtraction => "-"@,
            ComplexOperation::Division => "/"@,
            ComplexOperation::Remainder => "%"@,
            ComplexOperation::Multiply => "*"@,
        }
    }

    /// Appends the operator's symbol to `out`.
    pub fn render(&self, out: &mut Vec<char>)
        ensures
            final(out)@ == old(out)@ + self.text(),
    {
        match self {
            ComplexOperation::Addition => push_chars(out, "+"),
            ComplexOperation::Subtraction => push_chars(out, "-"),
            ComplexOperation::Division => push_chars(out, "/"),
            ComplexOperation::Remainder => push_chars(out, "%"),
            ComplexOperation::Multiply => push_chars(out, "*"),
        }
    }
}

impl ComplexBinary {
    /// `op1`, the operator, `op2`, then the size of the result.
    pub open spec fn text(self) -> Seq<char> {
        self.op1.text() + self.op.text() + self.op2.text() + self.size.text()
    }

    /// Appends the textual form to `out`.
    pub fn render(&self, out: &mut Vec<char>)
        ensures
            final(out)@ == old(out)@ + self.text(),
    {
        let ghost start = out@;
        self.op1.render(out);
        self.op.render(out);
        self.op2.render(out);
        self.size.render(out);
        assert(out@ =~= start + self.text());
    }
}

impl ComplexExpr {
    /// The textual form of the wrapped value.
    pub open spec fn text(self) -> Seq<char> {
        match self {
            ComplexExpr::Unary(u) => u.text(),
            ComplexExpr::Binary(b) => b.text(),
            ComplexExpr::ComplexMachineOp(ComplexMachineOp::SkipLeftInstruction) => "SkipLeftInstruction"@,
        }
    }

    /// Appends the textual form to `out`.
    pub fn render(&self, out: &mut Vec<char>)
        ensures
            final(out)@ == old(out)@ + self.text(),
    {
        match self {
            ComplexExpr::Unary(u) => u.render(out),
            ComplexExpr::Binary(b) => b.render(out),
            ComplexExpr::ComplexMachineOp(ComplexMachineOp::SkipLeftInstruction) => push_chars(
                out,
                "SkipLeftInstruction",
            ),
        }
    }
}

impl MedReprSingle {
    /// `left <- right`, followed by `*` where the assignment is conditional.
    pub open spec fn text(self) -> Seq<char> {
        self.left.text() + " <- "@ + self.right.text() + if self.condition is Some {
            "*"@
        } else {
            Seq::empty()
        }
    }

    /// Appends the textual form to `out`.
    pub fn render(&self, out: &mut Vec<char>)
        ensures
            final(out)@ == old(out)@ + self.text(),
    {
        let ghost start = out@;
        self.left.render(out);
        push_chars(out, " <- ");
        self.right.render(out);
        if self.condition.is_some() {
            push_chars(out, "*");
        }
        assert(out@ =~= start + self.text());
    }

    /// The textual form, such as `AC <- AC+M(100)`.
    pub fn to_debug_string(&self) -> (s: String)
        ensures
            s@ == self.text(),
    {
        let mut out: Vec<char> = Vec::new();
        self.render(&mut out);
        assert(out@ =~= self.text());
        string_from_chars(&out)
    }
}

/// `None`, or `Some(..)` around the assignment.
pub open spec fn optional_single_text(s: Option<MedReprSingle>) -> Seq<char> {
    match s {
        None => "None"@,
        Some(x) => "Some("@ + x.text() + ")"@,
    }
}

/// `(first, second)`, the second written as an option.
pub open spec fn med_repr_text(m: MedRepr) -> Seq<char> {
    "("@ + m.0.text() + ", "@ + optional_single_text(m.1) + ")"@
}

/// The textual form of an instruction's meaning, such as
/// `(AC <- MQ, None)` or `(PC <- 100, Some(PC <- SkipLeftInstruction))`.
pub fn med_repr_to_string(m: &MedRepr) -> (s: String)
    ensures
        s@ == med_repr_text(*m),
{
    let mut out: Vec<char> = Vec::new();
    push_chars(&mut out, "(");
    m.0.render(&mut out);
    push_chars(&mut out, ", ");
    match &m.1 {
        None => push_chars(&mut out, "None"),
        Some(x) => {
            push_chars(&mut out, "Some(");
            x.render(&mut out);
            push_chars(&mut out, ")");
        },
    }
    push_chars(&mut out, ")");
    assert(out@ =~= med_repr_text(*m));
    string_from_chars(&out)
}

// ---------------------------------------------------------------------------
// Analysis

/// Why a line was refused.
#[derive(Clone, Copy, PartialEq, Eq, Structural, Debug)]
pub enum AnalysisErrorKind {
    /// The line does not follow the grammar.
    Syntax,
    /// The mnemonic does not take these operands.
    InvalidOperands,
    /// An address does not fit in 16 bits.
    AddressOutOfRange,
}

/// A refused line: its 1-based number and the reason.
#[derive(Clone, Copy, PartialEq, Eq, Structural, Debug)]
pub struct AnalysisError {
    pub line: usize,
    pub kind: AnalysisErrorKind,
}

/// A whole word holding `term`, neither negated nor absolute.
pub open spec fn plain_term(term: ComplexTerm) -> ComplexUnaryWithSize {
    ComplexUnaryWithSize { unary: ComplexUnary::spec_basic(term), size: Amount::Full }
}

/// A whole word holding `term`, neither negated nor absolute.
pub fn plain(term: ComplexTerm) -> (u: ComplexUnaryWithSize)
    ensures
        u == plain_term(term),
{
    ComplexUnaryWithSize { unary: ComplexUnary::basic(term), size: Amount::Full }
}

/// A number written as an address: refused where it does not fit in 16 bits.
pub open spec fn address_value(n: u32) -> Result<u16, AnalysisErrorKind> {
    if n <= u16::MAX {
        Ok(n as u16)
    } else {
        Err(AnalysisErrorKind::AddressOutOfRange)
    }
}

/// A number written as an address, as `address_value` defines it.
pub fn address(n: u32) -> (r: Result<u16, AnalysisErrorKind>)
    ensures
        r == address_value(n),
{
    if n <= 65535 {
        Ok(n as u16)
    } else {
        Err(AnalysisErrorKind::AddressOutOfRange)
    }
}

/// The meaning of a line that the grammar accepts, or why its mnemonic
/// refuses its operands.
pub open spec fn line_repr(l: LineSyntax) -> Result<MedRepr, AnalysisErrorKind> {
    match l.mnemonic {
        Mnemonic::Load => load_repr(l.first, l.second),
        Mnemonic::Stor => stor_repr_of(l.first, l.second),
        Mnemonic::Jump => jump_repr_of(l.first, l.second),
        Mnemonic::Add => add_sub_repr(ComplexOperation::Addition, l.first, l.second),
        Mnemonic::Sub => add_sub_repr(ComplexOperation::Subtraction, l.first, l.second),
        Mnemonic::Mul => mul_repr_of(l.first, l.second),
        Mnemonic::Div => div_repr_of(l.first, l.second),
        Mnemonic::Lsh => shift_repr_of(ComplexOperation::Multiply, l.first),
        Mnemonic::Rsh => shift_repr_of(ComplexOperation::Division, l.first),
    }
}

/// The meanings of `lines[i..]`, or the first line among them that is
/// refused.
pub open spec fn reprs_from(lines: Seq<LineSyntax>, i: int) -> Result<Seq<MedRepr>, AnalysisError>
    decreases lines.len() - i,
{
    if i < 0 || i >= lines.len() {
        Ok(Seq::empty())
    } else {
        match line_repr(lines[i]) {
            Err(kind) => Err(AnalysisError { line: lines[i].line, kind }),
            Ok(m) => match reprs_from(lines, i + 1) {
                Ok(ms) => Ok(seq![m] + ms),
                Err(e) => Err(e),
            },
        }
    }
}

/// What the analysis of `code` gives: where any line breaks the grammar,
/// the first such line; else, where a mnemonic refuses its operands, the
/// first such line; else the meaning of each line that holds an
/// instruction, in order. Blank lines are skipped.
pub open spec fn analysis_result(code: Seq<char>) -> Result<Seq<MedRepr>, AnalysisError> {
    match parse_lines(lex(code), 0, 1) {
        Err(line) => Err(AnalysisError { line: line as usize, kind: AnalysisErrorKind::Syntax }),
        Ok(lines) => reprs_from(lines, 0),
    }
}

/// The meaning of one line, as `line_repr` defines it.
pub fn line_semantics(l: &LineSyntax) -> (r: Result<MedRepr, AnalysisErrorKind>)
    ensures
        r == line_repr(*l),
{
    match l.mnemonic {
        Mnemonic::Load => handle_load(l.first, l.second),
        Mnemonic::Stor => handle_stor(l.first, l.second),
        Mnemonic::Jump => handle_jump(l.first, l.second),
        Mnemonic::Add => handle_add(l.first, l.second),
        Mnemonic::Sub => handle_sub(l.first, l.second),
        Mnemonic::Mul => handle_mul(l.first, l.second),
        Mnemonic::Div => handle_div(l.first, l.second),
        Mnemonic::Lsh => handle_lsh(l.first),
        Mnemonic::Rsh => handle_rsh(l.first),
    }
}

/// The characters of `code`.
fn chars_of(code: &str) -> (v: Vec<char>)
    ensures
        v@ == code@,
{
    let mut v: Vec<char> = Vec::new();
    for c in it: code.chars()
        invariant
            v@ == it.seq().take(it.index() as int),
    {
        v.push(c);
    }
    v
}

/// Turns assembly text into the meaning of each instruction, one per
/// non-blank line; or reports the first refused line, as
/// `analysis_result` defines it.
pub fn analysis(code: String) -> (r: Result<Vec<MedRepr>, AnalysisError>)
    ensures
        match analysis_result(code@) {
            Ok(ms) => r matches Ok(v) && v@ == ms,
            Err(e) => r == Err::<Vec<MedRepr>, AnalysisError>(e),
        },
{
    let chars = chars_of(code.as_str());
    let tokens = tokenize(&chars);
    let lines = match parse_all_lines(&tokens) {
        Ok(lines) => lines,
        Err(line) => return Err(AnalysisError { line, kind: AnalysisErrorKind::Syntax }),
    };
    assert(analysis_result(code@) == reprs_from(lines@, 0));
    let mut med_repr: Vec<MedRepr> = Vec::new();
    let n = lines.len();
    for i in 0..n
        invariant
            n == lines@.len(),
            analysis_result(code@) == reprs_from(lines@, 0),
            reprs_from(lines@, 0) == match reprs_from(lines@, i as int) {
                Ok(ms) => Ok(med_repr@ + ms),
                Err(e) => Err(e),
            },
    {
        match line_semantics(&lines[i]) {
            Err(kind) => {
                assert(reprs_from(lines@, i as int) == Err::<Seq<MedRepr>, AnalysisError>(
                    AnalysisError { line: lines@[i as int].line, kind },
                ));
                return Err(AnalysisError { line: lines[i].line, kind });
            },
            Ok(m) => {
                let ghost before = med_repr@;
                med_repr.push(m);
                proof {
                    match reprs_from(lines@, i + 1) {
                        Ok(ms) => {
                            assert(before + (seq![m] + ms) =~= med_repr@ + ms);
                        },
                        Err(_) => {},
                    }
                }
            },
        }
    }
    assert(med_repr@ + Seq::<MedRepr>::empty() =~= med_repr@);
    Ok(med_repr)
}

} // verus!
