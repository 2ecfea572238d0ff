//! Instructions that write memory.

use vstd::prelude::*;
use crate::rtn::{Addressing, Amount, Register, RegisterTransfer};
use super::{current_instruction_register, instruction_register, operand, reg_to_mar, transfer};
use crate::analysis::{ComplexExpr, ComplexTerm, ComplexUnary, ComplexUnaryWithSize};
use crate::{MachineState, MachineView};

verus! {

/// `MBR <- AC`.
#[verifier::allow_in_spec]
pub fn ac_to_mbr() -> RegisterTransfer
    returns
        transfer(operand(Addressing::Register(Register::AC), Amount::Full), operand(Addressing::Register(Register::MBR), Amount::Full)),
{
    transfer(operand(Addressing::Register(Register::AC), Amount::Full), operand(Addressing::Register(Register::MBR), Amount::Full))
}

/// `M(MAR) <- MBR`.
#[verifier::allow_in_spec]
pub fn mbr_to_mem() -> RegisterTransfer
    returns
        transfer(operand(Addressing::Register(Register::MBR), Amount::Full), operand(Addressing::Memory, Amount::Full)),
{
    transfer(operand(Addressing::Register(Register::MBR), Amount::Full), operand(Addressing::Memory, Amount::Full))
}

/// `M(MAR)<start1..end1> <- MBR<start2..end2>`.
#[verifier::allow_in_spec]
pub fn mbr_to_mem_part(range_start1: usize, range_end1: usize, range_start2: usize, range_end2: usize) -> RegisterTransfer
    returns
        transfer(operand(Addressing::Register(Register::MBR), Amount::Range { start: range_start2, end: range_end2 }), operand(Addressing::Memory, Amount::Range { start: range_start1, end: range_end1 })),
{
    transfer(operand(Addressing::Register(Register::MBR), Amount::Range { start: range_start2, end: range_end2 }), operand(Addressing::Memory, Amount::Range { start: range_start1, end: range_end1 }))
}

/// The word `w` with the address field at bits `start..=end` (8..19 or
/// 28..39) replaced by the low 12 bits of `ac`.
pub open spec fn with_address_field(w: i64, start: usize, ac: i64) -> i64 {
    if start == 8 {
        (w & 0xFF_000F_FFFF) | ((ac & 0xFFF) << 20u32)
    } else {
        (w & 0xFF_FFFF_F000) | (ac & 0xFFF)
    }
}

/// An assignment to memory from AC: the whole word from the whole of AC, or
/// an address field (8..19 or 28..39) from bits 28..39 of AC; `None` for any
/// other right-hand side or sizes, and for an address outside memory.
pub open spec fn mem_result(mem_addr: u16, left_size: Amount, right: ComplexExpr, s: MachineView) -> Option<
    (MachineView, Seq<RegisterTransfer>),
> {
    match right {
        ComplexExpr::Unary(
            ComplexUnaryWithSize {
                unary: ComplexUnary { signless: ComplexTerm::AC, is_neg: false, is_abs: false },
                size: right_size,
            },
        ) if mem_addr < 1024 => match (left_size, right_size) {
            (Amount::Full, Amount::Full) => Some(
                (
                    MachineView {
                        memory: s.memory.update(mem_addr as int, s.reg_stack.ac),
                        ..s
                    },
                    seq![reg_to_mar(instruction_register(s)), ac_to_mbr(), mbr_to_mem()],
                ),
            ),
            (
                Amount::Range { start: start1, end: end1 },
                Amount::Range { start: 28, end: 39 },
            ) if (start1 == 8 && end1 == 19) || (start1 == 28 && end1 == 39) => Some(
                (
                    MachineView {
                        memory: s.memory.update(
                            mem_addr as int,
                            with_address_field(s.memory[mem_addr as int], start1, s.reg_stack.ac),
                        ),
                        ..s
                    },
                    seq![
                        reg_to_mar(instruction_register(s)),
                        ac_to_mbr(),
                        mbr_to_mem_part(start1, end1, 28, 39),
                    ],
                ),
            ),
            _ => None,
        },
        _ => None,
    }
}

/// Performs an assignment to memory and returns its transfers, as
/// `mem_result` states.
pub fn handle_mem(mem_addr: u16, left_size: Amount, right_op: ComplexExpr, state: &mut MachineState) -> (r:
    Vec<RegisterTransfer>)
    requires
        mem_result(mem_addr, left_size, right_op, old(state)@) is Some,
    ensures
        mem_result(mem_addr, left_size, right_op, old(state)@) == Some((final(state)@, r@)),
{
    let right_size = match right_op {
        ComplexExpr::Unary(ComplexUnaryWithSize { size, .. }) => size,
        _ => return Vec::new(),
    };
    let a = mem_addr as usize;
    let reg = current_instruction_register(state);
    match (left_size, right_size) {
        (Amount::Full, _) => {
            state.memory[a] = state.reg_stack.ac;
            vec![reg_to_mar(reg), ac_to_mbr(), mbr_to_mem()]
        },
        (Amount::Range { start: range_start1, end: range_end1 }, _) => {
            let ac = state.reg_stack.ac;
            let word = state.memory[a];
            if range_start1 == 8 {
                state.memory[a] = (word & 0xFF_000F_FFFF) | ((ac & 0xFFF) << 20u32);
            } else {
                state.memory[a] = (word & 0xFF_FFFF_F000) | (ac & 0xFFF);
            }
            vec![reg_to_mar(reg), ac_to_mbr(), mbr_to_mem_part(range_start1, range_end1, 28, 39)]
        },
    }
}

/// Whether an assignment to memory has a result, as `mem_result` states.
pub fn mem_defined(mem_addr: u16, left_size: Amount, right_op: ComplexExpr) -> (b: bool)
    ensures
        forall|s: MachineView| b == (#[trigger] mem_result(mem_addr, left_size, right_op, s) is Some),
{
    match right_op {
        ComplexExpr::Unary(
            ComplexUnaryWithSize {
                unary: ComplexUnary { signless: ComplexTerm::AC, is_neg: false, is_abs: false },
                size: right_size,
            },
        ) => mem_addr < 1024 && match (left_size, right_size) {
            (Amount::Full, Amount::Full) => true,
            (Amount::Range { start: 8, end: 19 }, Amount::Range { start: 28, end: 39 }) => true,
            (Amount::Range { start: 28, end: 39 }, Amount::Range { start: 28, end: 39 }) => true,
            _ => false,
        },
        _ => false,
    }
}

/// A store into an address field of a 40-bit word replaces the 12 address
/// bits of one of its two instructions by the low 12 bits of AC and keeps
/// every other bit: `8..19` the address of the instruction in bits 20..39,
/// `28..39` that of the instruction in bits 0..19.
pub proof fn lemma_address_field_store(w: i64, ac: i64)
    requires
        0 <= w < 0x100_0000_0000,
    ensures
        with_address_field(w, 8, ac) & 0xFFFFF == w & 0xFFFFF,
        (with_address_field(w, 8, ac) >> 20u32) & 0xFFF == ac & 0xFFF,
        with_address_field(w, 8, ac) >> 32u32 == w >> 32u32,
        with_address_field(w, 28, ac) & 0xFFF == ac & 0xFFF,
        with_address_field(w, 28, ac) >> 12u32 == w >> 12u32,
{
    assert(((w & 0xFF_000F_FFFF) | ((ac & 0xFFF) << 20u32)) & 0xFFFFF == w & 0xFFFFF
        && (((w & 0xFF_000F_FFFF) | ((ac & 0xFFF) << 20u32)) >> 20u32) & 0xFFF == ac & 0xFFF
        && ((w & 0xFF_000F_FFFF) | ((ac & 0xFFF) << 20u32)) >> 32u32 == w >> 32u32
        && ((w & 0xFF_FFFF_F000) | (ac & 0xFFF)) & 0xFFF == ac & 0xFFF
        && ((w & 0xFF_FFFF_F000) | (ac & 0xFFF)) >> 12u32 == w >> 12u32) by (bit_vector)
        requires
            0 <= w < 0x100_0000_0000,
    ;
}

} // verus!
