//! `STOR`: a memory word, or one of its address fields, from AC.

use vstd::prelude::*;
use crate::rtn::Amount;
use super::syntax::{OperandSyntax, Sign, Slice, TermSyntax};
use super::{
    address, address_value, plain, plain_term, AnalysisErrorKind, ComplexExpr, ComplexTerm,
    ComplexUnary, ComplexUnaryWithSize, MedRepr, MedReprSingle,
};

verus! {

/// `M(a) <- AC`.
pub open spec fn stor_repr(a: u16) -> MedRepr {
    (
        MedReprSingle {
            left: plain_term(ComplexTerm::M(a)),
            right: ComplexExpr::Unary(plain_term(ComplexTerm::AC)),
            condition: None,
        },
        None,
    )
}

/// `M(a)<from..to> <- AC<28..39>`.
pub open spec fn stor_slice_repr(a: u16, from: usize, to: usize) -> MedRepr {
    (
        MedReprSingle {
            left: ComplexUnaryWithSize {
                unary: ComplexUnary::spec_basic(ComplexTerm::M(a)),
                size: Amount::Range { start: from, end: to },
            },
            right: ComplexExpr::Unary(
                ComplexUnaryWithSize {
                    unary: ComplexUnary::spec_basic(ComplexTerm::AC),
                    size: Amount::Range { start: 28, end: 39 },
                },
            ),
            condition: None,
        },
        None,
    )
}

/// The two address fields that `STOR` can replace: bits 8..19 and 28..39.
pub open spec fn is_address_field(s: Slice) -> bool {
    (s.from == 8 && s.to == 19) || (s.from == 28 && s.to == 39)
}

/// What `STOR` means with the given operands: `STOR M(a)`, `STOR M(a,8:19)`
/// and `STOR M(a,28:39)`; anything else is refused.
pub open spec fn stor_repr_of(first: Option<OperandSyntax>, second: Option<OperandSyntax>) -> Result<
    MedRepr,
    AnalysisErrorKind,
> {
    match first {
        Some(
            OperandSyntax {
                sign: Sign::Signless,
                is_abs: false,
                term: TermSyntax::Memory { address, slice },
            },
        ) if second is None => match address_value(address) {
            Err(k) => Err(k),
            Ok(a) => match slice {
                None => Ok(stor_repr(a)),
                Some(s) => if is_address_field(s) {
                    Ok(stor_slice_repr(a, s.from as usize, s.to as usize))
                } else {
                    Err(AnalysisErrorKind::InvalidOperands)
                },
            },
        },
        _ => Err(AnalysisErrorKind::InvalidOperands),
    }
}

/// The meaning of `STOR` with the given operands.
pub fn handle_stor(first: Option<OperandSyntax>, second: Option<OperandSyntax>) -> (r: Result<
    MedRepr,
    AnalysisErrorKind,
>)
    ensures
        r == stor_repr_of(first, second),
{
    if second.is_some() {
        return Err(AnalysisErrorKind::InvalidOperands);
    }
    match first {
        Some(
            OperandSyntax {
                sign: Sign::Signless,
                is_abs: false,
                term: TermSyntax::Memory { address: raw, slice },
            },
        ) => {
            let a = address(raw)?;
            match slice {
                None => Ok(stor_mx(a)),
                Some(s) => stor_mx_slice(a, s),
            }
        },
        _ => Err(AnalysisErrorKind::InvalidOperands),
    }
}

fn stor_mx(a: u16) -> (r: MedRepr)
    ensures
        r == stor_repr(a),
{
    let ac_operand = ComplexExpr::Unary(plain(ComplexTerm::AC));
    let mem_operand = plain(ComplexTerm::M(a));
    (MedReprSingle { left: mem_operand, right: ac_operand, condition: None }, None)
}

fn stor_mx_slice(a: u16, s: Slice) -> (r: Result<MedRepr, AnalysisErrorKind>)
    ensures
        r == if is_address_field(s) {
            Ok(stor_slice_repr(a, s.from as usize, s.to as usize))
        } else {
            Err(AnalysisErrorKind::InvalidOperands)
        },
{
    if !((s.from == 8 && s.to == 19) || (s.from == 28 && s.to == 39)) {
        return Err(AnalysisErrorKind::InvalidOperands);
    }
    let ac_operand = ComplexExpr::Unary(
        ComplexUnaryWithSize {
            unary: ComplexUnary::basic(ComplexTerm::AC),
            size: Amount::Range { start: 28, end: 39 },
        },
    );
    let mem_operand = ComplexUnaryWithSize {
        unary: ComplexUnary::basic(ComplexTerm::M(a)),
        size: Amount::Range { start: s.from as usize, end: s.to as usize },
    };
    Ok((MedReprSingle { left: mem_operand, right: ac_operand, condition: None }, None))
}

} // verus!
