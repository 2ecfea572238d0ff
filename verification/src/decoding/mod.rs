//! From an instruction's 20-bit code to its meaning.
//!
//! An instruction is an 8-bit opcode followed by a 12-bit address:
//! `opcode << 12 | address`.

use vstd::prelude::*;
use crate::analysis::arithmetic::{ac_op_memory_repr, div_repr, mul_repr, shift_repr};
use crate::analysis::jump::jump_repr;
use crate::analysis::load::{load_memory_repr, load_mq_mx_repr, load_mq_repr};
use crate::analysis::stor::{stor_repr, stor_slice_repr};
use crate::analysis::{
    plain, ComplexBinary, ComplexExpr, ComplexMachineOp, ComplexOperation, ComplexTerm,
    ComplexUnary, ComplexUnaryWithSize, Condition, MedRepr, MedReprSingle,
};
use crate::rtn::Amount;

verus! {

/// The meaning of the instruction with opcode `op` and address `a`; `None`
/// for an opcode that the machine does not have.
pub open spec fn decoded(op: i64, a: u16) -> Option<MedRepr> {
    if op == 1 {
        Some(load_memory_repr(a, false, false))
    } else if op == 2 {
        Some(load_memory_repr(a, true, false))
    } else if op == 3 {
        Some(load_memory_repr(a, false, true))
    } else if op == 4 {
        Some(load_memory_repr(a, true, true))
    } else if op == 5 {
        Some(ac_op_memory_repr(ComplexOperation::Addition, a, false))
    } else if op == 6 {
        Some(ac_op_memory_repr(ComplexOperation::Subtraction, a, false))
    } else if op == 7 {
        Some(ac_op_memory_repr(ComplexOperation::Addition, a, true))
    } else if op == 8 {
        Some(ac_op_memory_repr(ComplexOperation::Subtraction, a, true))
    } else if op == 9 {
        Some(load_mq_mx_repr(a))
    } else if op == 10 {
        Some(load_mq_repr())
    } else if op == 11 {
        Some(mul_repr(a))
    } else if op == 12 {
        Some(div_repr(a))
    } else if op == 13 {
        Some(jump_repr(a, None, false))
    } else if op == 14 {
        Some(jump_repr(a, None, true))
    } else if op == 15 {
        Some(jump_repr(a, Some(Condition::ACNonNegative), false))
    } else if op == 16 {
        Some(jump_repr(a, Some(Condition::ACNonNegative), true))
    } else if op == 18 {
        Some(stor_slice_repr(a, 8, 19))
    } else if op == 19 {
        Some(stor_slice_repr(a, 28, 39))
    } else if op == 20 {
        Some(shift_repr(ComplexOperation::Multiply))
    } else if op == 21 {
        Some(shift_repr(ComplexOperation::Division))
    } else if op == 33 {
        Some(stor_repr(a))
    } else {
        None
    }
}

/// The opcode of an instruction code.
pub open spec fn opcode_of(instruction: i64) -> i64 {
    instruction >> 12
}

/// The address field of an instruction code.
pub open spec fn address_of(instruction: i64) -> u16 {
    (instruction & 0xFFF) as u16
}

/// The meaning of an instruction code.
pub open spec fn decoded_instruction(instruction: i64) -> Option<MedRepr> {
    decoded(opcode_of(instruction), address_of(instruction))
}

proof fn lemma_address_fits(instruction: i64)
    ensures
        0 <= instruction & 0xFFF <= 0xFFF,
{
    assert(0 <= instruction & 0xFFF <= 0xFFF) by (bit_vector);
}

fn unary(signless: ComplexTerm, is_neg: bool, is_abs: bool) -> (u: ComplexUnaryWithSize)
    ensures
        u == (ComplexUnaryWithSize {
            unary: ComplexUnary { signless, is_neg, is_abs },
            size: Amount::Full,
        }),
{
    ComplexUnaryWithSize { unary: ComplexUnary { signless, is_neg, is_abs }, size: Amount::Full }
}

/// The loads and the whole-word store: opcodes 1 to 4, 9, 10 and 33.
pub fn decode_load(instruction: i64) -> (r: MedRepr)
    requires
        opcode_of(instruction) == 1 || opcode_of(instruction) == 2 || opcode_of(instruction) == 3
            || opcode_of(instruction) == 4 || opcode_of(instruction) == 9 || opcode_of(instruction)
            == 10 || opcode_of(instruction) == 33,
    ensures
        decoded_instruction(instruction) == Some(r),
{
    let opcode = instruction >> 12;
    proof {
        lemma_address_fits(instruction);
    }
    let mem = (instruction & 0xFFF) as u16;
    let ac = unary(ComplexTerm::AC, false, false);
    if opcode == 0b00001010 {
        (MedReprSingle { left: ac, right: ComplexExpr::Unary(unary(ComplexTerm::MQ, false, false)), condition: None }, None)
    } else if opcode == 0b00001001 {
        (
            MedReprSingle {
                left: unary(ComplexTerm::MQ, false, false),
                right: ComplexExpr::Unary(unary(ComplexTerm::M(mem), false, false)),
                condition: None,
            },
            None,
        )
    } else if opcode == 0b00100001 {
        (
            MedReprSingle {
                left: unary(ComplexTerm::M(mem), false, false),
                right: ComplexExpr::Unary(ac),
                condition: None,
            },
            None,
        )
    } else {
        let is_neg = opcode == 0b00000010 || opcode == 0b00000100;
        let is_abs = opcode == 0b00000011 || opcode == 0b00000100;
        (
            MedReprSingle {
                left: ac,
                right: ComplexExpr::Unary(unary(ComplexTerm::M(mem), is_neg, is_abs)),
                condition: None,
            },
            None,
        )
    }
}

fn jump(mem: u16, condition: Option<Condition>, to_right: bool) -> (r: MedRepr)
    ensures
        r == jump_repr(mem, condition, to_right),
{
    let pc_operand = plain(ComplexTerm::PC);
    let const_operand = ComplexExpr::Unary(plain(ComplexTerm::Constant(mem)));
    let skip_operand = ComplexExpr::ComplexMachineOp(ComplexMachineOp::SkipLeftInstruction);
    (
        MedReprSingle { left: pc_operand, right: const_operand, condition },
        if to_right {
            Some(MedReprSingle { left: pc_operand, right: skip_operand, condition })
        } else {
            None
        },
    )
}

/// The conditional jumps: opcodes 15 (left instruction) and 16 (right).
pub fn decode_con_jmp(instruction: i64) -> (r: MedRepr)
    requires
        opcode_of(instruction) == 15 || opcode_of(instruction) == 16,
    ensures
        decoded_instruction(instruction) == Some(r),
{
    let opcode = instruction >> 12;
    proof {
        lemma_address_fits(instruction);
    }
    let mem = (instruction & 0xFFF) as u16;
    jump(mem, Some(Condition::ACNonNegative), opcode == 0b00010000)
}

/// The unconditional jumps: opcodes 13 (left instruction) and 14 (right).
pub fn decode_unc_jmp(instruction: i64) -> (r: MedRepr)
    requires
        opcode_of(instruction) == 13 || opcode_of(instruction) == 14,
    ensures
        decoded_instruction(instruction) == Some(r),
{
    let opcode = instruction >> 12;
    proof {
        lemma_address_fits(instruction);
    }
    let mem = (instruction & 0xFFF) as u16;
    jump(mem, None, opcode == 0b00001110)
}

fn binary(op1: ComplexUnaryWithSize, op2: ComplexUnaryWithSize, op: ComplexOperation, size: Amount) -> (e: ComplexExpr)
    ensures
        e == ComplexExpr::Binary(ComplexBinary { op1, op2, op, size }),
{
    ComplexExpr::Binary(ComplexBinary { op1, op2, op, size })
}

/// Addition, subtraction, multiplication, division and the shifts: opcodes
/// 5 to 8, 11, 12, 20 and 21.
pub fn decode_arithmetic(instruction: i64) -> (r: MedRepr)
    requires
        opcode_of(instruction) == 5 || opcode_of(instruction) == 6 || opcode_of(instruction) == 7
            || opcode_of(instruction) == 8 || opcode_of(instruction) == 11 || opcode_of(instruction)
            == 12 || opcode_of(instruction) == 20 || opcode_of(instruction) == 21,
    ensures
        decoded_instruction(instruction) == Some(r),
{
    let opcode = instruction >> 12;
    proof {
        lemma_address_fits(instruction);
    }
    let mem = (instruction & 0xFFF) as u16;
    let ac_operand = plain(ComplexTerm::AC);
    let mq_operand = plain(ComplexTerm::MQ);
    let mx_operand = plain(ComplexTerm::M(mem));
    if opcode == 0b00001011 {
        (
            MedReprSingle {
                left: ac_operand,
                right: binary(mq_operand, mx_operand, ComplexOperation::Multiply, Amount::Range { start: 40, end: 79 }),
                condition: None,
            },
            Some(
                MedReprSingle {
                    left: mq_operand,
                    right: binary(mq_operand, mx_operand, ComplexOperation::Multiply, Amount::Range { start: 0, end: 39 }),
                    condition: None,
                },
            ),
        )
    } else if opcode == 0b00001100 {
        (
            MedReprSingle {
                left: ac_operand,
                right: binary(ac_operand, mx_operand, ComplexOperation::Remainder, Amount::Full),
                condition: None,
            },
            Some(
                MedReprSingle {
                    left: mq_operand,
                    right: binary(ac_operand, mx_operand, ComplexOperation::Division, Amount::Full),
                    condition: None,
                },
            ),
        )
    } else if opcode == 0b00010100 || opcode == 0b00010101 {
        let op = if opcode == 0b00010100 {
            ComplexOperation::Multiply
        } else {
            ComplexOperation::Division
        };
        (
            MedReprSingle {
                left: ac_operand,
                right: binary(ac_operand, plain(ComplexTerm::Constant(2)), op, Amount::Full),
                condition: None,
            },
            None,
        )
    } else {
        let op = if opcode == 0b00000101 || opcode == 0b00000111 {
            ComplexOperation::Addition
        } else {
            ComplexOperation::Subtraction
        };
        let is_abs = opcode == 0b00000111 || opcode == 0b00001000;
        (
            MedReprSingle {
                left: ac_operand,
                right: binary(ac_operand, unary(ComplexTerm::M(mem), false, is_abs), op, Amount::Full),
                condition: None,
            },
            None,
        )
    }
}

/// The stores into an address field: opcodes 18 (bits 8..19) and 19 (bits
/// 28..39).
pub fn decode_addr_modify(instruction: i64) -> (r: MedRepr)
    requires
        opcode_of(instruction) == 18 || opcode_of(instruction) == 19,
    ensures
        decoded_instruction(instruction) == Some(r),
{
    let opcode = instruction >> 12;
    proof {
        lemma_address_fits(instruction);
    }
    let mem = (instruction & 0xFFF) as u16;
    let (start, end): (usize, usize) = if opcode == 0b00010010 {
        (8, 19)
    } else {
        (28, 39)
    };
    (
        MedReprSingle {
            left: ComplexUnaryWithSize {
                unary: ComplexUnary::basic(ComplexTerm::M(mem)),
                size: Amount::Range { start, end },
            },
            right: ComplexExpr::Unary(
                ComplexUnaryWithSize {
                    unary: ComplexUnary::basic(ComplexTerm::AC),
                    size: Amount::Range { start: 28, end: 39 },
                },
            ),
            condition: None,
        },
        None,
    )
}

/// Whether the machine has the opcode of an instruction code.
pub fn is_decodable(instruction: i64) -> (b: bool)
    ensures
        b == decoded_instruction(instruction) is Some,
{
    let opcode = instruction >> 12;
    (1 <= opcode && opcode <= 16) || (18 <= opcode && opcode <= 21) || opcode == 33
}

/// The meaning of an instruction code whose opcode the machine has.
pub fn decode(instruction: i64) -> (r: MedRepr)
    requires
        decoded_instruction(instruction) is Some,
    ensures
        decoded_instruction(instruction) == Some(r),
{
    let opcode = instruction >> 12;
    match opcode {
        0b00001010 | 0b00001001 | 0b00100001 | 0b00000001 | 0b00000010 | 0b00000011
        | 0b00000100 => decode_load(instruction),
        0b00001101 | 0b00001110 => decode_unc_jmp(instruction),
        0b00001111 | 0b00010000 => decode_con_jmp(instruction),
        0b00000101 | 0b00000111 | 0b00000110 | 0b00001000 | 0b00001011 | 0b00001100
        | 0b00010100 | 0b00010101 => decode_arithmetic(instruction),
        _ => decode_addr_modify(instruction),
    }
}

} // verus!
