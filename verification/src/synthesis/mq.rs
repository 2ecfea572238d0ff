//! Instructions that write MQ.

use vstd::prelude::*;
use crate::rtn::{Addressing, Amount, Register, RegisterTransfer};
use super::{current_instruction_register, instruction_register, m_to_mbr, operand, reg_to_mar, transfer};
use crate::analysis::{ComplexExpr, ComplexTerm, ComplexUnary, ComplexUnaryWithSize};
use crate::{MachineState, MachineView, RegisterStack};

verus! {

/// `MQ <- MBR`.
#[verifier::allow_in_spec]
pub fn mbr_to_mq() -> RegisterTransfer
    returns
        transfer(operand(Addressing::Register(Register::MBR), Amount::Full), operand(Addressing::Register(Register::MQ), Amount::Full)),
{
    transfer(operand(Addressing::Register(Register::MBR), Amount::Full), operand(Addressing::Register(Register::MQ), Amount::Full))
}

/// `MQ <- M(a)`: the new state and the transfers; `None` for any other
/// right-hand side and for an address outside memory.
pub open spec fn mq_result(right: ComplexExpr, s: MachineView) -> Option<
    (MachineView, Seq<RegisterTransfer>),
> {
    match right {
        ComplexExpr::Unary(
            ComplexUnaryWithSize {
                unary: ComplexUnary { signless: ComplexTerm::M(a), is_abs: false, is_neg: false },
                size: Amount::Full,
            },
        ) if a < 1024 => Some(
            (
                MachineView {
                    reg_stack: RegisterStack { mq: s.memory[a as int], ..s.reg_stack },
                    ..s
                },
                seq![reg_to_mar(instruction_register(s)), m_to_mbr(false)],
            ),
        ),
        _ => None,
    }
}

/// Performs an assignment to MQ and returns its transfers, as `mq_result`
/// states.
pub fn handle_mq(right_op: ComplexExpr, state: &mut MachineState) -> (r: Vec<RegisterTransfer>)
    requires
        mq_result(right_op, old(state)@) is Some,
    ensures
        mq_result(right_op, old(state)@) == Some((final(state)@, r@)),
{
    match right_op {
        ComplexExpr::Unary(
            ComplexUnaryWithSize { unary: ComplexUnary { signless: ComplexTerm::M(mem_addr), .. }, .. },
        ) => {
            state.reg_stack.mq = state.memory[mem_addr as usize];
            let reg = current_instruction_register(state);
            vec![reg_to_mar(reg), m_to_mbr(false)]
        },
        _ => Vec::new(),
    }
}

/// Whether an assignment to MQ has a result, as `mq_result` states.
pub fn mq_defined(right_op: ComplexExpr) -> (b: bool)
    ensures
        forall|s: MachineView| b == (#[trigger] mq_result(right_op, s) is Some),
{
    match right_op {
        ComplexExpr::Unary(
            ComplexUnaryWithSize {
                unary: ComplexUnary { signless: ComplexTerm::M(a), is_abs: false, is_neg: false },
                size: Amount::Full,
            },
        ) => a < 1024,
        _ => false,
    }
}

} // verus!
