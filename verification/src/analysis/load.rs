//! `LOAD`: into AC from MQ or from memory, and into MQ from memory.

use vstd::prelude::*;
use crate::rtn::Amount;
use super::syntax::{OperandSyntax, Sign, TermSyntax};
use super::{
    address, address_value, plain, plain_term, AnalysisErrorKind, ComplexExpr, ComplexTerm,
    ComplexUnary, ComplexUnaryWithSize, MedRepr, MedReprSingle,
};

verus! {

/// `AC <- [-][|]M(a)[|]`.
pub open spec fn load_memory_repr(a: u16, is_neg: bool, is_abs: bool) -> MedRepr {
    (
        MedReprSingle {
            left: plain_term(ComplexTerm::AC),
            right: ComplexExpr::Unary(
                ComplexUnaryWithSize {
                    unary: ComplexUnary { signless: ComplexTerm::M(a), is_neg, is_abs },
                    size: Amount::Full,
                },
            ),
            condition: None,
        },
        None,
    )
}

/// `MQ <- M(a)`.
pub open spec fn load_mq_mx_repr(a: u16) -> MedRepr {
    (
        MedReprSingle {
            left: plain_term(ComplexTerm::MQ),
            right: ComplexExpr::Unary(plain_term(ComplexTerm::M(a))),
            condition: None,
        },
        None,
    )
}

/// `AC <- MQ`.
pub open spec fn load_mq_repr() -> MedRepr {
    (
        MedReprSingle {
            left: plain_term(ComplexTerm::AC),
            right: ComplexExpr::Unary(plain_term(ComplexTerm::MQ)),
            condition: None,
        },
        None,
    )
}

/// What `LOAD` means with the given operands: `LOAD MQ`, `LOAD MQ,M(a)`,
/// `LOAD M(a)`, `LOAD -M(a)`, `LOAD |M(a)|` and `LOAD -|M(a)|`; anything
/// else is refused.
pub open spec fn load_repr(first: Option<OperandSyntax>, second: Option<OperandSyntax>) -> Result<
    MedRepr,
    AnalysisErrorKind,
> {
    match first {
        None => Err(AnalysisErrorKind::InvalidOperands),
        Some(op) => match op.term {
            TermSyntax::MulQuo => if op.sign == Sign::Signless && !op.is_abs {
                match second {
                    None => Ok(load_mq_repr()),
                    Some(op2) => load_mq_mx_result(op2),
                }
            } else {
                Err(AnalysisErrorKind::InvalidOperands)
            },
            TermSyntax::Memory { address, slice } => if second is None && slice is None && op.sign
                != Sign::NonNegative {
                match address_value(address) {
                    Ok(a) => Ok(load_memory_repr(a, op.sign == Sign::Negative, op.is_abs)),
                    Err(k) => Err(k),
                }
            } else {
                Err(AnalysisErrorKind::InvalidOperands)
            },
        },
    }
}

/// The second operand of `LOAD MQ,M(a)` must be a plain, whole memory word.
pub open spec fn load_mq_mx_result(op2: OperandSyntax) -> Result<MedRepr, AnalysisErrorKind> {
    match op2.term {
        TermSyntax::Memory { address, slice: None } => if op2.sign == Sign::Signless
            && !op2.is_abs {
            match address_value(address) {
                Ok(a) => Ok(load_mq_mx_repr(a)),
                Err(k) => Err(k),
            }
        } else {
            Err(AnalysisErrorKind::InvalidOperands)
        },
        _ => Err(AnalysisErrorKind::InvalidOperands),
    }
}

/// The meaning of `LOAD` with the given operands.
pub fn handle_load(first: Option<OperandSyntax>, second: Option<OperandSyntax>) -> (r: Result<
    MedRepr,
    AnalysisErrorKind,
>)
    ensures
        r == load_repr(first, second),
{
    let op = match first {
        None => return Err(AnalysisErrorKind::InvalidOperands),
        Some(op) => op,
    };
    match op.term {
        TermSyntax::MulQuo => {
            if op.sign != Sign::Signless || op.is_abs {
                return Err(AnalysisErrorKind::InvalidOperands);
            }
            match second {
                None => Ok(load_mq()),
                Some(op2) => load_mq_mx(op2),
            }
        },
        TermSyntax::Memory { address: raw, slice } => {
            if second.is_some() || slice.is_some() || op.sign == Sign::NonNegative {
                return Err(AnalysisErrorKind::InvalidOperands);
            }
            let a = address(raw)?;
            Ok(load_mx(a, op.sign == Sign::Negative, op.is_abs))
        },
    }
}

/// `LOAD MQ,M(a)`: the meaning for the given second operand.
pub fn load_mq_mx(op2: OperandSyntax) -> (r: Result<MedRepr, AnalysisErrorKind>)
    ensures
        r == load_mq_mx_result(op2),
{
    match op2.term {
        TermSyntax::Memory { address: raw, slice: None } => {
            if op2.sign != Sign::Signless || op2.is_abs {
                return Err(AnalysisErrorKind::InvalidOperands);
            }
            let a = address(raw)?;
            let mq_operand = plain(ComplexTerm::MQ);
            let memory_operand = ComplexExpr::Unary(plain(ComplexTerm::M(a)));
            Ok((MedReprSingle { left: mq_operand, right: memory_operand, condition: None }, None))
        },
        _ => Err(AnalysisErrorKind::InvalidOperands),
    }
}

fn load_mq() -> (r: MedRepr)
    ensures
        r == load_mq_repr(),
{
    let mq_operand = plain(ComplexTerm::MQ);
    let ac_operand = plain(ComplexTerm::AC);
    (
        MedReprSingle {
            left: ac_operand,
            right: ComplexExpr::Unary(mq_operand),
            condition: None,
        },
        None,
    )
}

fn load_mx(a: u16, is_neg: bool, is_abs: bool) -> (r: MedRepr)
    ensures
        r == load_memory_repr(a, is_neg, is_abs),
{
    let memory_operand = ComplexExpr::Unary(
        ComplexUnaryWithSize {
            unary: ComplexUnary { signless: ComplexTerm::M(a), is_neg, is_abs },
            size: Amount::Full,
        },
    );
    let ac_operand = plain(ComplexTerm::AC);
    (MedReprSingle { left: ac_operand, right: memory_operand, condition: None }, None)
}

} // verus!
