//! From an instruction's meaning to its 20-bit code: `opcode << 12 | address`.

use vstd::prelude::*;
use crate::analysis::{
    ComplexBinary, ComplexExpr, ComplexMachineOp, ComplexOperation, ComplexTerm, ComplexUnary,
    ComplexUnaryWithSize, Condition, MedRepr, MedReprSingle,
};
use crate::rtn::Amount;

verus! {

/// The code of the instruction with opcode `op` and address `a`.
pub open spec fn instr_word(op: i64, a: u16) -> i64 {
    (op << 12) | (a as i64)
}

/// `u` is the whole of `term`, neither negated nor absolute.
pub open spec fn is_plain(u: ComplexUnaryWithSize, term: ComplexTerm) -> bool {
    u == ComplexUnaryWithSize { unary: ComplexUnary::spec_basic(term), size: Amount::Full }
}

/// The opcode and address of an assignment to AC, for the right-hand sides
/// that the machine can compute into AC.
pub open spec fn ac_code(right: ComplexExpr) -> Option<(i64, u16)> {
    match right {
        ComplexExpr::Unary(u) => if is_plain(u, ComplexTerm::MQ) {
            Some((10, 0))
        } else if u.size == Amount::Full && u.unary.signless is M {
            let a = u.unary.signless->M_0;
            Some(
                (
                    if !u.unary.is_abs && !u.unary.is_neg {
                        1
                    } else if !u.unary.is_abs {
                        2
                    } else if !u.unary.is_neg {
                        3
                    } else {
                        4
                    },
                    a,
                ),
            )
        } else {
            None
        },
        ComplexExpr::Binary(b) => if b.size == Amount::Full && is_plain(b.op1, ComplexTerm::AC)
            && b.op2.size == Amount::Full && b.op2.unary.signless is M && !b.op2.unary.is_neg && (
        b.op == ComplexOperation::Addition || b.op == ComplexOperation::Subtraction) {
            let a = b.op2.unary.signless->M_0;
            let abs = b.op2.unary.is_abs;
            Some(
                (
                    if b.op == ComplexOperation::Addition {
                        if abs {
                            7
                        } else {
                            5
                        }
                    } else {
                        if abs {
                            8
                        } else {
                            6
                        }
                    },
                    a,
                ),
            )
        } else if b.size == Amount::Full && is_plain(b.op1, ComplexTerm::AC) && b.op
            == ComplexOperation::Remainder && b.op2.size == Amount::Full && b.op2.unary.signless is M
            && !b.op2.unary.is_neg && !b.op2.unary.is_abs {
            Some((12, b.op2.unary.signless->M_0))
        } else if b.size == (Amount::Range { start: 40, end: 79 }) && is_plain(b.op1, ComplexTerm::MQ)
            && b.op == ComplexOperation::Multiply && b.op2.size == Amount::Full
            && b.op2.unary.signless is M && !b.op2.unary.is_neg && !b.op2.unary.is_abs {
            Some((11, b.op2.unary.signless->M_0))
        } else if b.size == Amount::Full && is_plain(b.op1, ComplexTerm::AC) && is_plain(
            b.op2,
            ComplexTerm::Constant(2),
        ) && b.op == ComplexOperation::Multiply {
            Some((20, 0))
        } else if b.size == Amount::Full && is_plain(b.op1, ComplexTerm::AC) && is_plain(
            b.op2,
            ComplexTerm::Constant(2),
        ) && b.op == ComplexOperation::Division {
            Some((21, 0))
        } else {
            None
        },
        _ => None,
    }
}

/// The opcode and address of an assignment to MQ: only `MQ <- M(a)`.
pub open spec fn mq_code(right: ComplexExpr) -> Option<(i64, u16)> {
    match right {
        ComplexExpr::Unary(u) => if u.size == Amount::Full && u.unary.signless is M
            && !u.unary.is_neg && !u.unary.is_abs {
            Some((9, u.unary.signless->M_0))
        } else {
            None
        },
        _ => None,
    }
}

/// The second assignment is `PC <- SkipLeftInstruction`.
pub open spec fn is_skip(line2: Option<MedReprSingle>) -> bool {
    match line2 {
        Some(s) => is_plain(s.left, ComplexTerm::PC) && s.right == ComplexExpr::ComplexMachineOp(
            ComplexMachineOp::SkipLeftInstruction,
        ),
        None => false,
    }
}

/// The opcode and address of an assignment to PC: a jump to a constant,
/// to the right instruction where `line2` skips the left one, and where AC
/// is not negative under the condition.
pub open spec fn pc_code(right: ComplexExpr, condition: Option<Condition>, line2: Option<MedReprSingle>) -> Option<(i64, u16)> {
    match right {
        ComplexExpr::Unary(u) => if u.size == Amount::Full && u.unary.signless is Constant
            && !u.unary.is_neg && !u.unary.is_abs {
            Some(
                (
                    match (condition, is_skip(line2)) {
                        (None, false) => 13,
                        (None, true) => 14,
                        (Some(_), false) => 15,
                        (Some(_), true) => 16,
                    },
                    u.unary.signless->Constant_0,
                ),
            )
        } else {
            None
        },
        _ => None,
    }
}

/// The opcode and address of an assignment to memory from AC: the whole
/// word, or one of its two address fields.
pub open spec fn mem_code(mem_addr: u16, size: Amount) -> Option<(i64, u16)> {
    match size {
        Amount::Full => Some((33, mem_addr)),
        Amount::Range { start: 8, end: 19 } => Some((18, mem_addr)),
        Amount::Range { start: 28, end: 39 } => Some((19, mem_addr)),
        _ => None,
    }
}

/// The opcode and address of an instruction, chosen by what its first
/// assignment writes.
pub open spec fn repr_code(m: MedRepr) -> Option<(i64, u16)> {
    let left = m.0.left;
    if left.unary.is_neg || left.unary.is_abs {
        None
    } else {
        match left.unary.signless {
            ComplexTerm::AC => ac_code(m.0.right),
            ComplexTerm::MQ => mq_code(m.0.right),
            ComplexTerm::PC => pc_code(m.0.right, m.0.condition, m.1),
            ComplexTerm::M(a) => mem_code(a, left.size),
            _ => None,
        }
    }
}

/// The code of an instruction, where it has one.
pub open spec fn encoded(m: MedRepr) -> Option<i64> {
    match repr_code(m) {
        Some((op, a)) => Some(instr_word(op, a)),
        None => None,
    }
}

proof fn lemma_or_zero(x: i64)
    ensures
        x | 0 == x,
{
    assert(x | 0 == x) by (bit_vector);
}

/// The code of a store from AC into memory.
pub fn encode_mem(mem_addr: u16, size: Amount) -> (r: i64)
    requires
        mem_code(mem_addr, size) is Some,
    ensures
        r == instr_word(mem_code(mem_addr, size)->Some_0.0, mem_addr),
{
    (match size {
        Amount::Full => 0b100001 << 12,
        Amount::Range { start: 8, end: 19 } => 0b10010 << 12,
        _ => 0b10011 << 12,
    }) | mem_addr as i64
}

/// The code of a jump.
pub fn encode_pc(right_op: ComplexExpr, condition: Option<Condition>, line2: Option<MedReprSingle>) -> (r: i64)
    requires
        pc_code(right_op, condition, line2) is Some,
    ensures
        r == instr_word(
            pc_code(right_op, condition, line2)->Some_0.0,
            pc_code(right_op, condition, line2)->Some_0.1,
        ),
{
    match right_op {
        ComplexExpr::Unary(ComplexUnaryWithSize {
            unary: ComplexUnary { signless: ComplexTerm::Constant(constant), .. },
            ..
        }) => {
            let line2_is_skip = match line2 {
                Some(
                    MedReprSingle {
                        left: ComplexUnaryWithSize {
                            unary: ComplexUnary { signless: ComplexTerm::PC, is_neg: false, is_abs: false },
                            size: Amount::Full,
                        },
                        right: ComplexExpr::ComplexMachineOp(ComplexMachineOp::SkipLeftInstruction),
                        ..
                    },
                ) => true,
                _ => false,
            };
            (match (condition, line2_is_skip) {
                (None, false) => 0b1101 << 12,
                (None, true) => 0b1110 << 12,
                (Some(Condition::ACNonNegative), false) => 0b1111 << 12,
                (Some(Condition::ACNonNegative), true) => 0b10000 << 12,
            }) | constant as i64
        },
        _ => 0,
    }
}

/// The code of `MQ <- M(a)`.
pub fn encode_mq(right_op: ComplexExpr) -> (r: i64)
    requires
        mq_code(right_op) is Some,
    ensures
        r == instr_word(mq_code(right_op)->Some_0.0, mq_code(right_op)->Some_0.1),
{
    match right_op {
        ComplexExpr::Unary(ComplexUnaryWithSize {
            unary: ComplexUnary { signless: ComplexTerm::M(mem_addr), .. },
            ..
        }) => 0b1001 << 12 | mem_addr as i64,
        _ => 0,
    }
}

/// The code of an assignment to AC.
pub fn encode_ac(right_op: ComplexExpr) -> (r: i64)
    requires
        ac_code(right_op) is Some,
    ensures
        r == instr_word(ac_code(right_op)->Some_0.0, ac_code(right_op)->Some_0.1),
{
    match right_op {
        ComplexExpr::Unary(u) => match u.unary.signless {
            ComplexTerm::MQ => {
                proof {
                    lemma_or_zero(10i64 << 12);
                }
                0b1010 << 12
            },
            ComplexTerm::M(mem_addr) => (match (u.unary.is_abs, u.unary.is_neg) {
                (false, false) => 0b1 << 12,
                (false, true) => 0b10 << 12,
                (true, false) => 0b11 << 12,
                (true, true) => 0b100 << 12,
            }) | mem_addr as i64,
            _ => 0,
        },
        ComplexExpr::Binary(b) => match (b.op, b.op2.unary.signless) {
            (ComplexOperation::Addition, ComplexTerm::M(mem_addr)) => (if b.op2.unary.is_abs {
                0b111 << 12
            } else {
                0b101 << 12
            }) | mem_addr as i64,
            (ComplexOperation::Subtraction, ComplexTerm::M(mem_addr)) => (if b.op2.unary.is_abs {
                0b1000 << 12
            } else {
                0b110 << 12
            }) | mem_addr as i64,
            (ComplexOperation::Remainder, ComplexTerm::M(mem_addr)) => 0b1100 << 12 | mem_addr as i64,
            (ComplexOperation::Multiply, ComplexTerm::M(mem_addr)) => 0b1011 << 12 | mem_addr as i64,
            (ComplexOperation::Multiply, _) => {
                proof {
                    lemma_or_zero(20i64 << 12);
                }
                0b10100 << 12
            },
            _ => {
                proof {
                    lemma_or_zero(21i64 << 12);
                }
                0b10101 << 12
            },
        },
        _ => 0,
    }
}

/// The code of an instruction.
pub fn encode_single(m: &MedRepr) -> (r: i64)
    requires
        encoded(*m) is Some,
    ensures
        encoded(*m) == Some(r),
{
    let first_line = m.0;
    match first_line.left.unary.signless {
        ComplexTerm::AC => encode_ac(first_line.right),
        ComplexTerm::MQ => encode_mq(first_line.right),
        ComplexTerm::PC => encode_pc(first_line.right, first_line.condition, m.1),
        ComplexTerm::M(mem_addr) => encode_mem(mem_addr, first_line.left.size),
        _ => 0,
    }
}

} // verus!
