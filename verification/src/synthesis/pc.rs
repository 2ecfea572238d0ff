//! Instructions that write PC: the jumps.

use vstd::prelude::*;
use crate::rtn::{Addressing, Amount, Register, RegisterTransfer};
use super::{operand, transfer};
use crate::analysis::{
    ComplexExpr, ComplexMachineOp, ComplexTerm, ComplexUnary, ComplexUnaryWithSize, Condition,
    MedReprSingle,
};
use crate::encoding::is_skip;
use crate::{MachineState, MachineView, RegisterStack};

verus! {

/// `PC <- constant`.
#[verifier::allow_in_spec]
pub fn const_to_pc(constant: u16) -> RegisterTransfer
    returns
        transfer(operand(Addressing::Constant(constant), Amount::Full), operand(Addressing::Register(Register::PC), Amount::Full)),
{
    transfer(operand(Addressing::Constant(constant), Amount::Full), operand(Addressing::Register(Register::PC), Amount::Full))
}

/// A jump `PC <- c`: taken always, or under the condition only where AC is
/// not negative. A taken jump sets PC to `c`, and continues with the right
/// instruction of that word, still to be fetched, where `line2` skips the
/// left one, else with the left instruction. A jump not taken changes
/// nothing and has no transfers. `None` for a right-hand side that is not
/// a plain constant.
pub open spec fn pc_result(
    right: ComplexExpr,
    condition: Option<Condition>,
    s: MachineView,
    line2: Option<MedReprSingle>,
) -> Option<(MachineView, Seq<RegisterTransfer>)> {
    match right {
        ComplexExpr::Unary(
            ComplexUnaryWithSize {
                unary: ComplexUnary {
                    signless: ComplexTerm::Constant(constant),
                    is_neg: false,
                    is_abs: false,
                },
                size: Amount::Full,
            },
        ) => if condition is None || s.reg_stack.ac >= 0 {
            let skip = is_skip(line2);
            Some(
                (
                    MachineView {
                        reg_stack: RegisterStack { pc: constant as i64, ..s.reg_stack },
                        handling_right: skip,
                        right_fetch: if skip {
                            true
                        } else {
                            s.right_fetch
                        },
                        ..s
                    },
                    seq![const_to_pc(constant)],
                ),
            )
        } else {
            Some((s, Seq::empty()))
        },
        _ => None,
    }
}

/// Performs a jump and returns its transfers, as `pc_result` states.
pub fn handle_pc(
    right_op: ComplexExpr,
    condition: Option<Condition>,
    state: &mut MachineState,
    line2: Option<MedReprSingle>,
) -> (r: Vec<RegisterTransfer>)
    requires
        pc_result(right_op, condition, old(state)@, line2) is Some,
    ensures
        pc_result(right_op, condition, old(state)@, line2) == Some((final(state)@, r@)),
{
    match right_op {
        ComplexExpr::Unary(
            ComplexUnaryWithSize {
                unary: ComplexUnary { signless: ComplexTerm::Constant(constant), .. },
                ..
            },
        ) => {
            let line2_is_skip = match line2 {
                Some(
                    MedReprSingle {
                        left: ComplexUnaryWithSize {
                            unary: ComplexUnary {
                                signless: ComplexTerm::PC,
                                is_neg: false,
                                is_abs: false,
                            },
                            size: Amount::Full,
                        },
                        right: ComplexExpr::ComplexMachineOp(ComplexMachineOp::SkipLeftInstruction),
                        ..
                    },
                ) => true,
                _ => false,
            };
            let ac_nonneg_check = condition.is_some();
            if !ac_nonneg_check || state.reg_stack.ac >= 0 {
                state.reg_stack.pc = constant as i64;
                if line2_is_skip {
                    state.handling_right = true;
                    state.right_fetch = true;
                } else {
                    state.handling_right = false;
                }
                vec![const_to_pc(constant)]
            } else {
                let r = Vec::new();
                assert(r@ =~= Seq::<RegisterTransfer>::empty());
                r
            }
        },
        _ => Vec::new(),
    }
}

/// Whether a jump has a result, as `pc_result` states.
pub fn pc_defined(right_op: ComplexExpr) -> (b: bool)
    ensures
        forall|c: Option<Condition>, s: MachineView, line2: Option<MedReprSingle>|
            b == (#[trigger] pc_result(right_op, c, s, line2) is Some),
{
    match right_op {
        ComplexExpr::Unary(
            ComplexUnaryWithSize {
                unary: ComplexUnary {
                    signless: ComplexTerm::Constant(_),
                    is_neg: false,
                    is_abs: false,
                },
                size: Amount::Full,
            },
        ) => true,
        _ => false,
    }
}

/// A jump to the constant `c`, whatever its condition and second
/// assignment: taken (always without a condition, else where AC is not
/// negative), it sets PC to `c` and nothing else but the half to run next;
/// that is the right half of word `c`, still to be fetched, exactly where
/// the second assignment is `PC <- SkipLeftInstruction`, and otherwise the
/// left half, with the fetch flag kept. Not taken, it changes nothing and
/// has no transfers.
pub proof fn lemma_jump_continues(c: u16, condition: Option<Condition>, s: MachineView, line2: Option<MedReprSingle>)
    ensures
        ({
            let right = ComplexExpr::Unary(
                ComplexUnaryWithSize {
                    unary: ComplexUnary {
                        signless: ComplexTerm::Constant(c),
                        is_neg: false,
                        is_abs: false,
                    },
                    size: Amount::Full,
                },
            );
            let to_right = line2 matches Some(
                MedReprSingle {
                    left: ComplexUnaryWithSize {
                        unary: ComplexUnary { signless: ComplexTerm::PC, is_neg: false, is_abs: false },
                        size: Amount::Full,
                    },
                    right: ComplexExpr::ComplexMachineOp(ComplexMachineOp::SkipLeftInstruction),
                    ..
                },
            );
            let r = pc_result(right, condition, s, line2);
            &&& r is Some
            &&& (condition is None || s.reg_stack.ac >= 0) ==> {
                let t = r->Some_0.0;
                &&& t.reg_stack.pc == c as i64
                &&& t.reg_stack.ac == s.reg_stack.ac
                &&& t.reg_stack.mq == s.reg_stack.mq
                &&& t.memory == s.memory
                &&& t.handling_right == to_right
                &&& t.right_fetch == (to_right || s.right_fetch)
                &&& r->Some_0.1 == seq![const_to_pc(c)]
            }
            &&& (condition is Some && s.reg_stack.ac < 0) ==> r == Some((s, Seq::<RegisterTransfer>::empty()))
        }),
{
}

} // verus!
