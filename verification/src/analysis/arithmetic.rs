//! `ADD`, `SUB`, `MUL`, `DIV`, `LSH` and `RSH`.

use vstd::prelude::*;
use crate::rtn::Amount;
use super::syntax::{OperandSyntax, Sign, TermSyntax};
use super::{
    address, address_value, plain, plain_term, AnalysisErrorKind, ComplexBinary, ComplexExpr,
    ComplexOperation, ComplexTerm, ComplexUnary, ComplexUnaryWithSize, MedRepr, MedReprSingle,
};

verus! {

/// `AC <- AC op [|]M(a)[|]`.
pub open spec fn ac_op_memory_repr(op: ComplexOperation, a: u16, is_abs: bool) -> MedRepr {
    (
        MedReprSingle {
            left: plain_term(ComplexTerm::AC),
            right: ComplexExpr::Binary(
                ComplexBinary {
                    op1: plain_term(ComplexTerm::AC),
                    op2: ComplexUnaryWithSize {
                        unary: ComplexUnary { signless: ComplexTerm::M(a), is_neg: false, is_abs },
                        size: Amount::Full,
                    },
                    op,
                    size: Amount::Full,
                },
            ),
            condition: None,
        },
        None,
    )
}

/// `AC <- MQ*M(a)<40..79>` and `MQ <- MQ*M(a)<0..39>`.
pub open spec fn mul_repr(a: u16) -> MedRepr {
    (
        MedReprSingle {
            left: plain_term(ComplexTerm::AC),
            right: ComplexExpr::Binary(
                ComplexBinary {
                    op1: plain_term(ComplexTerm::MQ),
                    op2: plain_term(ComplexTerm::M(a)),
                    op: ComplexOperation::Multiply,
                    size: Amount::Range { start: 40, end: 79 },
                },
            ),
            condition: None,
        },
        Some(
            MedReprSingle {
                left: plain_term(ComplexTerm::MQ),
                right: ComplexExpr::Binary(
                    ComplexBinary {
                        op1: plain_term(ComplexTerm::MQ),
                        op2: plain_term(ComplexTerm::M(a)),
                        op: ComplexOperation::Multiply,
                        size: Amount::Range { start: 0, end: 39 },
                    },
                ),
                condition: None,
            },
        ),
    )
}

/// `AC <- AC%M(a)` and `MQ <- AC/M(a)`.
pub open spec fn div_repr(a: u16) -> MedRepr {
    (
        MedReprSingle {
            left: plain_term(ComplexTerm::AC),
            right: ComplexExpr::Binary(
                ComplexBinary {
                    op1: plain_term(ComplexTerm::AC),
                    op2: plain_term(ComplexTerm::M(a)),
                    op: ComplexOperation::Remainder,
                    size: Amount::Full,
                },
            ),
            condition: None,
        },
        Some(
            MedReprSingle {
                left: plain_term(ComplexTerm::MQ),
                right: ComplexExpr::Binary(
                    ComplexBinary {
                        op1: plain_term(ComplexTerm::AC),
                        op2: plain_term(ComplexTerm::M(a)),
                        op: ComplexOperation::Division,
                        size: Amount::Full,
                    },
                ),
                condition: None,
            },
        ),
    )
}

/// `AC <- AC op 2`.
pub open spec fn shift_repr(op: ComplexOperation) -> MedRepr {
    (
        MedReprSingle {
            left: plain_term(ComplexTerm::AC),
            right: ComplexExpr::Binary(
                ComplexBinary {
                    op1: plain_term(ComplexTerm::AC),
                    op2: plain_term(ComplexTerm::Constant(2)),
                    op,
                    size: Amount::Full,
                },
            ),
            condition: None,
        },
        None,
    )
}

/// The single operand of `ADD` and `SUB`: a whole memory word, possibly
/// between bars; anything else is refused.
pub open spec fn add_sub_repr(
    op: ComplexOperation,
    first: Option<OperandSyntax>,
    second: Option<OperandSyntax>,
) -> Result<MedRepr, AnalysisErrorKind> {
    match first {
        Some(
            OperandSyntax {
                sign: Sign::Signless,
                is_abs,
                term: TermSyntax::Memory { address, slice: None },
            },
        ) if second is None => match address_value(address) {
            Ok(a) => Ok(ac_op_memory_repr(op, a, is_abs)),
            Err(k) => Err(k),
        },
        _ => Err(AnalysisErrorKind::InvalidOperands),
    }
}

/// The address of the single plain, whole memory operand that `MUL` and
/// `DIV` take; anything else is refused.
pub open spec fn plain_memory_operand(
    first: Option<OperandSyntax>,
    second: Option<OperandSyntax>,
) -> Result<u16, AnalysisErrorKind> {
    match first {
        Some(
            OperandSyntax {
                sign: Sign::Signless,
                is_abs: false,
                term: TermSyntax::Memory { address, slice: None },
            },
        ) if second is None => address_value(address),
        _ => Err(AnalysisErrorKind::InvalidOperands),
    }
}

/// What `MUL` means with the given operands: only `MUL M(a)`.
pub open spec fn mul_repr_of(first: Option<OperandSyntax>, second: Option<OperandSyntax>) -> Result<
    MedRepr,
    AnalysisErrorKind,
> {
    match plain_memory_operand(first, second) {
        Ok(a) => Ok(mul_repr(a)),
        Err(k) => Err(k),
    }
}

/// What `DIV` means with the given operands: only `DIV M(a)`.
pub open spec fn div_repr_of(first: Option<OperandSyntax>, second: Option<OperandSyntax>) -> Result<
    MedRepr,
    AnalysisErrorKind,
> {
    match plain_memory_operand(first, second) {
        Ok(a) => Ok(div_repr(a)),
        Err(k) => Err(k),
    }
}

/// What `LSH` (`op` multiplication) or `RSH` (`op` division) means: they
/// take no operand.
pub open spec fn shift_repr_of(op: ComplexOperation, first: Option<OperandSyntax>) -> Result<
    MedRepr,
    AnalysisErrorKind,
> {
    if first is None {
        Ok(shift_repr(op))
    } else {
        Err(AnalysisErrorKind::InvalidOperands)
    }
}

fn ac_op_memory(op: ComplexOperation, first: Option<OperandSyntax>, second: Option<OperandSyntax>) -> (r:
    Result<MedRepr, AnalysisErrorKind>)
    ensures
        r == add_sub_repr(op, first, second),
{
    if second.is_some() {
        return Err(AnalysisErrorKind::InvalidOperands);
    }
    match first {
        Some(
            OperandSyntax {
                sign: Sign::Signless,
                is_abs,
                term: TermSyntax::Memory { address: raw, slice: None },
            },
        ) => {
            let a = address(raw)?;
            let ac_operand = plain(ComplexTerm::AC);
            let mx_operand = ComplexUnaryWithSize {
                unary: ComplexUnary { signless: ComplexTerm::M(a), is_neg: false, is_abs },
                size: Amount::Full,
            };
            let ac_op_mx_operand = ComplexExpr::Binary(
                ComplexBinary { op1: ac_operand, op2: mx_operand, op, size: Amount::Full },
            );
            Ok((MedReprSingle { left: ac_operand, right: ac_op_mx_operand, condition: None }, None))
        },
        _ => Err(AnalysisErrorKind::InvalidOperands),
    }
}

/// The meaning of `ADD` with the given operands.
pub fn handle_add(first: Option<OperandSyntax>, second: Option<OperandSyntax>) -> (r: Result<
    MedRepr,
    AnalysisErrorKind,
>)
    ensures
        r == add_sub_repr(ComplexOperation::Addition, first, second),
{
    ac_op_memory(ComplexOperation::Addition, first, second)
}

/// The meaning of `SUB` with the given operands.
pub fn handle_sub(first: Option<OperandSyntax>, second: Option<OperandSyntax>) -> (r: Result<
    MedRepr,
    AnalysisErrorKind,
>)
    ensures
        r == add_sub_repr(ComplexOperation::Subtraction, first, second),
{
    ac_op_memory(ComplexOperation::Subtraction, first, second)
}

fn memory_operand(first: Option<OperandSyntax>, second: Option<OperandSyntax>) -> (r: Result<
    u16,
    AnalysisErrorKind,
>)
    ensures
        r == plain_memory_operand(first, second),
{
    if second.is_some() {
        return Err(AnalysisErrorKind::InvalidOperands);
    }
    match first {
        Some(
            OperandSyntax {
                sign: Sign::Signless,
                is_abs: false,
                term: TermSyntax::Memory { address: raw, slice: None },
            },
        ) => address(raw),
        _ => Err(AnalysisErrorKind::InvalidOperands),
    }
}

/// The meaning of `MUL` with the given operands.
pub fn handle_mul(first: Option<OperandSyntax>, second: Option<OperandSyntax>) -> (r: Result<
    MedRepr,
    AnalysisErrorKind,
>)
    ensures
        r == mul_repr_of(first, second),
{
    let a = memory_operand(first, second)?;
    let mq_operand = plain(ComplexTerm::MQ);
    let ac_operand = plain(ComplexTerm::AC);
    let mx_operand = plain(ComplexTerm::M(a));
    let mq_mul_mx_high_operand = ComplexExpr::Binary(
        ComplexBinary {
            op1: mq_operand,
            op2: mx_operand,
            op: ComplexOperation::Multiply,
            size: Amount::Range { start: 40, end: 79 },
        },
    );
    let mq_mul_mx_low_operand = ComplexExpr::Binary(
        ComplexBinary {
            op1: mq_operand,
            op2: mx_operand,
            op: ComplexOperation::Multiply,
            size: Amount::Range { start: 0, end: 39 },
        },
    );
    Ok(
        (
            MedReprSingle { left: ac_operand, right: mq_mul_mx_high_operand, condition: None },
            Some(MedReprSingle { left: mq_operand, right: mq_mul_mx_low_operand, condition: None }),
        ),
    )
}

/// The meaning of `DIV` with the given operands.
pub fn handle_div(first: Option<OperandSyntax>, second: Option<OperandSyntax>) -> (r: Result<
    MedRepr,
    AnalysisErrorKind,
>)
    ensures
        r == div_repr_of(first, second),
{
    let a = memory_operand(first, second)?;
    let mq_operand = plain(ComplexTerm::MQ);
    let ac_operand = plain(ComplexTerm::AC);
    let mx_operand = plain(ComplexTerm::M(a));
    let ac_div_mx_operand = ComplexExpr::Binary(
        ComplexBinary {
            op1: ac_operand,
            op2: mx_operand,
            op: ComplexOperation::Division,
            size: Amount::Full,
        },
    );
    let ac_rem_mx_operand = ComplexExpr::Binary(
        ComplexBinary {
            op1: ac_operand,
            op2: mx_operand,
            op: ComplexOperation::Remainder,
            size: Amount::Full,
        },
    );
    Ok(
        (
            MedReprSingle { left: ac_operand, right: ac_rem_mx_operand, condition: None },
            Some(MedReprSingle { left: mq_operand, right: ac_div_mx_operand, condition: None }),
        ),
    )
}

fn ac_op_two(op: ComplexOperation) -> (r: MedRepr)
    ensures
        r == shift_repr(op),
{
    let ac_operand = plain(ComplexTerm::AC);
    let const_2 = plain(ComplexTerm::Constant(2));
    let ac_op_2 = ComplexExpr::Binary(
        ComplexBinary { op1: ac_operand, op2: const_2, op, size: Amount::Full },
    );
    (MedReprSingle { left: ac_operand, right: ac_op_2, condition: None }, None)
}

/// The meaning of `LSH`, which takes no operand: `AC <- AC*2`.
pub fn handle_lsh(operands: Option<OperandSyntax>) -> (r: Result<MedRepr, AnalysisErrorKind>)
    ensures
        r == shift_repr_of(ComplexOperation::Multiply, operands),
{
    if operands.is_some() {
        return Err(AnalysisErrorKind::InvalidOperands);
    }
    Ok(ac_op_two(ComplexOperation::Multiply))
}

/// The meaning of `RSH`, which takes no operand: `AC <- AC/2`.
pub fn handle_rsh(operands: Option<OperandSyntax>) -> (r: Result<MedRepr, AnalysisErrorKind>)
    ensures
        r == shift_repr_of(ComplexOperation::Division, operands),
{
    if operands.is_some() {
        return Err(AnalysisErrorKind::InvalidOperands);
    }
    Ok(ac_op_two(ComplexOperation::Division))
}

} // verus!
