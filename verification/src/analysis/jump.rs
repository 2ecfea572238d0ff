//! `JUMP`: to the left or right instruction of a word, always or where AC is
//! not negative.

use vstd::prelude::*;
use super::syntax::{OperandSyntax, Sign, Slice, TermSyntax};
use super::{
    address, address_value, plain, plain_term, AnalysisErrorKind, ComplexExpr, ComplexMachineOp,
    ComplexTerm, Condition, MedRepr, MedReprSingle,
};

verus! {

/// `PC <- a`, followed by `PC <- SkipLeftInstruction` for a jump to the
/// right instruction; both under the condition given.
pub open spec fn jump_repr(a: u16, condition: Option<Condition>, to_right: bool) -> MedRepr {
    (
        MedReprSingle {
            left: plain_term(ComplexTerm::PC),
            right: ComplexExpr::Unary(plain_term(ComplexTerm::Constant(a))),
            condition,
        },
        if to_right {
            Some(
                MedReprSingle {
                    left: plain_term(ComplexTerm::PC),
                    right: ComplexExpr::ComplexMachineOp(ComplexMachineOp::SkipLeftInstruction),
                    condition,
                },
            )
        } else {
            None
        },
    )
}

/// What `JUMP` means with the given operands: `JUMP M(a,0:19)`,
/// `JUMP M(a,20:39)`, and the same with `+` for a jump where AC is not
/// negative; anything else is refused.
pub open spec fn jump_repr_of(first: Option<OperandSyntax>, second: Option<OperandSyntax>) -> Result<
    MedRepr,
    AnalysisErrorKind,
> {
    match first {
        Some(OperandSyntax { sign, is_abs: false, term: TermSyntax::Memory { address, slice } })
            if second is None && sign != Sign::Negative => match address_value(address) {
            Err(k) => Err(k),
            Ok(a) => match slice {
                Some(Slice { from: 0, to: 19 }) => Ok(
                    jump_repr(a, jump_condition(sign), false),
                ),
                Some(Slice { from: 20, to: 39 }) => Ok(jump_repr(a, jump_condition(sign), true)),
                _ => Err(AnalysisErrorKind::InvalidOperands),
            },
        },
        _ => Err(AnalysisErrorKind::InvalidOperands),
    }
}

/// `+` makes a jump conditional on AC not being negative.
pub open spec fn jump_condition(sign: Sign) -> Option<Condition> {
    if sign == Sign::NonNegative {
        Some(Condition::ACNonNegative)
    } else {
        None
    }
}

/// The meaning of `JUMP` with the given operands.
pub fn handle_jump(first: Option<OperandSyntax>, second: Option<OperandSyntax>) -> (r: Result<
    MedRepr,
    AnalysisErrorKind,
>)
    ensures
        r == jump_repr_of(first, second),
{
    if second.is_some() {
        return Err(AnalysisErrorKind::InvalidOperands);
    }
    let (sign, raw, slice) = match first {
        Some(OperandSyntax { sign, is_abs: false, term: TermSyntax::Memory { address, slice } }) => (
            sign,
            address,
            slice,
        ),
        _ => return Err(AnalysisErrorKind::InvalidOperands),
    };
    if sign == Sign::Negative {
        return Err(AnalysisErrorKind::InvalidOperands);
    }
    let a = address(raw)?;
    let to_right = match slice {
        Some(Slice { from: 0, to: 19 }) => false,
        Some(Slice { from: 20, to: 39 }) => true,
        _ => return Err(AnalysisErrorKind::InvalidOperands),
    };
    let condition = if sign == Sign::NonNegative {
        Some(Condition::ACNonNegative)
    } else {
        None
    };
    let pc_operand = plain(ComplexTerm::PC);
    let const_operand = ComplexExpr::Unary(plain(ComplexTerm::Constant(a)));
    let skip_operand = ComplexExpr::ComplexMachineOp(ComplexMachineOp::SkipLeftInstruction);
    Ok(
        (
            MedReprSingle { left: pc_operand, right: const_operand, condition },
            if to_right {
                Some(MedReprSingle { left: pc_operand, right: skip_operand, condition })
            } else {
                None
            },
        ),
    )
}

} // verus!
