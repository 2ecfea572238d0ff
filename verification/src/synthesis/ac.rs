//! Instructions that write AC.

use vstd::prelude::*;
use crate::rtn::{Addressing, Amount, BinaryOperation, Register, RegisterTransfer, UnaryOperation};
use super::{
    current_instruction_register, instruction_register, m_to_mbr, operand, reg_to_mar, transfer,
};
use super::super::analysis::{
    ComplexBinary, ComplexExpr, ComplexOperation, ComplexTerm, ComplexUnary, ComplexUnaryWithSize,
};
use crate::{MachineState, MachineView, RegisterStack};

verus! {

/// `AC <- MBR`.
#[verifier::allow_in_spec]
pub fn mbr_to_ac() -> RegisterTransfer
    returns
        transfer(operand(Addressing::Register(Register::MBR), Amount::Full), operand(Addressing::Register(Register::AC), Amount::Full)),
{
    transfer(operand(Addressing::Register(Register::MBR), Amount::Full), operand(Addressing::Register(Register::AC), Amount::Full))
}

/// `MQ <- AC / MBR`.
#[verifier::allow_in_spec]
pub fn ac_div_m_to_mq() -> RegisterTransfer
    returns
        transfer(operand(Addressing::MixedReg(Register::AC, Register::MBR, BinaryOperation::Division), Amount::Full), operand(Addressing::Register(Register::MQ), Amount::Full)),
{
    transfer(operand(Addressing::MixedReg(Register::AC, Register::MBR, BinaryOperation::Division), Amount::Full), operand(Addressing::Register(Register::MQ), Amount::Full))
}

/// `AC <- AC % MBR`.
#[verifier::allow_in_spec]
pub fn ac_rem_m_to_ac() -> RegisterTransfer
    returns
        transfer(operand(Addressing::MixedReg(Register::AC, Register::MBR, BinaryOperation::Remainder), Amount::Full), operand(Addressing::Register(Register::AC), Amount::Full)),
{
    transfer(operand(Addressing::MixedReg(Register::AC, Register::MBR, BinaryOperation::Remainder), Amount::Full), operand(Addressing::Register(Register::AC), Amount::Full))
}

/// `AC <- (MQ * MBR)<40..79>`: the high half of the product.
#[verifier::allow_in_spec]
pub fn mq_times_mbr_to_ac() -> RegisterTransfer
    returns
        transfer(operand(Addressing::MixedReg(Register::MQ, Register::MBR, BinaryOperation::Multiplication), Amount::Range { start: 40, end: 79 }), operand(Addressing::Register(Register::AC), Amount::Full)),
{
    transfer(operand(Addressing::MixedReg(Register::MQ, Register::MBR, BinaryOperation::Multiplication), Amount::Range { start: 40, end: 79 }), operand(Addressing::Register(Register::AC), Amount::Full))
}

/// `MQ <- (MQ * MBR)<0..39>`: the low half of the product.
#[verifier::allow_in_spec]
pub fn mq_times_mbr_to_mq() -> RegisterTransfer
    returns
        transfer(operand(Addressing::MixedReg(Register::MQ, Register::MBR, BinaryOperation::Multiplication), Amount::Range { start: 0, end: 39 }), operand(Addressing::Register(Register::MQ), Amount::Full)),
{
    transfer(operand(Addressing::MixedReg(Register::MQ, Register::MBR, BinaryOperation::Multiplication), Amount::Range { start: 0, end: 39 }), operand(Addressing::Register(Register::MQ), Amount::Full))
}

/// `AC <- MQ`.
#[verifier::allow_in_spec]
pub fn mq_to_ac() -> RegisterTransfer
    returns
        transfer(operand(Addressing::Register(Register::MQ), Amount::Full), operand(Addressing::Register(Register::AC), Amount::Full)),
{
    transfer(operand(Addressing::Register(Register::MQ), Amount::Full), operand(Addressing::Register(Register::AC), Amount::Full))
}

/// `AC <- AC + MBR`.
#[verifier::allow_in_spec]
pub fn ac_add_mbr() -> RegisterTransfer
    returns
        transfer(operand(Addressing::MixedReg(Register::AC, Register::MBR, BinaryOperation::Addition), Amount::Full), operand(Addressing::Register(Register::AC), Amount::Full)),
{
    transfer(operand(Addressing::MixedReg(Register::AC, Register::MBR, BinaryOperation::Addition), Amount::Full), operand(Addressing::Register(Register::AC), Amount::Full))
}

/// `AC <- AC - MBR`.
#[verifier::allow_in_spec]
pub fn ac_sub_mbr() -> RegisterTransfer
    returns
        transfer(operand(Addressing::MixedReg(Register::AC, Register::MBR, BinaryOperation::Subtraction), Amount::Full), operand(Addressing::Register(Register::AC), Amount::Full)),
{
    transfer(operand(Addressing::MixedReg(Register::AC, Register::MBR, BinaryOperation::Subtraction), Amount::Full), operand(Addressing::Register(Register::AC), Amount::Full))
}

/// `AC <- AC <<`.
#[verifier::allow_in_spec]
pub fn ac_lsh() -> RegisterTransfer
    returns
        transfer(operand(Addressing::Unary(Register::AC, UnaryOperation::LeftShift), Amount::Full), operand(Addressing::Register(Register::AC), Amount::Full)),
{
    transfer(operand(Addressing::Unary(Register::AC, UnaryOperation::LeftShift), Amount::Full), operand(Addressing::Register(Register::AC), Amount::Full))
}

/// `AC <- AC >>`.
#[verifier::allow_in_spec]
pub fn ac_rsh() -> RegisterTransfer
    returns
        transfer(operand(Addressing::Unary(Register::AC, UnaryOperation::RightShift), Amount::Full), operand(Addressing::Register(Register::AC), Amount::Full)),
{
    transfer(operand(Addressing::Unary(Register::AC, UnaryOperation::RightShift), Amount::Full), operand(Addressing::Register(Register::AC), Amount::Full))
}

/// `AC <- AC % MBR`.
#[verifier::allow_in_spec]
pub fn ac_remainder() -> RegisterTransfer
    returns
        transfer(operand(Addressing::MixedReg(Register::AC, Register::MBR, BinaryOperation::Remainder), Amount::Full), operand(Addressing::Register(Register::AC), Amount::Full)),
{
    transfer(operand(Addressing::MixedReg(Register::AC, Register::MBR, BinaryOperation::Remainder), Amount::Full), operand(Addressing::Register(Register::AC), Amount::Full))
}

/// The largest magnitude that an addition leaves in AC: `2^39 - 1`.
pub open spec fn ac_limit() -> int {
    0x7F_FFFF_FFFF
}

/// `x` brought into `lo..=hi`, where `lo <= hi`.
pub open spec fn clamped(x: int, lo: int, hi: int) -> int {
    if x < lo {
        lo
    } else if x > hi {
        hi
    } else {
        x
    }
}

/// The absolute value of `v`.
pub open spec fn magnitude(v: i64) -> int {
    if v < 0 {
        -v
    } else {
        v as int
    }
}

/// The state with AC replaced.
pub open spec fn with_ac(s: MachineView, ac: i64) -> MachineView {
    MachineView { reg_stack: RegisterStack { ac, ..s.reg_stack }, ..s }
}

/// The state with AC and MQ replaced.
pub open spec fn with_ac_mq(s: MachineView, ac: i64, mq: i64) -> MachineView {
    MachineView { reg_stack: RegisterStack { ac, mq, ..s.reg_stack }, ..s }
}

/// `AC <- [-][|]M(a)[|]` and `AC <- MQ`: the new state and the transfers;
/// `None` for a size other than the whole word, an address outside memory,
/// a right-hand side that is neither, and a magnitude or negation that
/// does not fit in 64 bits.
pub open spec fn ac_unary_result(unary: ComplexUnary, size: Amount, s: MachineView) -> Option<
    (MachineView, Seq<RegisterTransfer>),
> {
    if size != Amount::Full {
        None
    } else if unary == ComplexUnary::spec_basic(ComplexTerm::MQ) {
        Some((with_ac(s, s.reg_stack.mq), seq![mq_to_ac()]))
    } else {
        match unary.signless {
            ComplexTerm::M(a) => if a < 1024 && s.memory[a as int] != i64::MIN {
                let v = s.memory[a as int];
                let v1 = if unary.is_abs {
                    magnitude(v)
                } else {
                    v as int
                };
                let v2 = if unary.is_neg {
                    -v1
                } else {
                    v1
                };
                Some(
                    (
                        with_ac(s, v2 as i64),
                        seq![
                            reg_to_mar(instruction_register(s)),
                            m_to_mbr(unary.is_abs),
                            if unary.is_neg {
                                super::flip_ac()
                            } else {
                                mbr_to_ac()
                            },
                        ],
                    ),
                )
            } else if a < 1024 && !unary.is_abs && !unary.is_neg {
                Some(
                    (
                        with_ac(s, s.memory[a as int]),
                        seq![
                            reg_to_mar(instruction_register(s)),
                            m_to_mbr(false),
                            mbr_to_ac(),
                        ],
                    ),
                )
            } else {
                None
            },
            _ => None,
        }
    }
}

/// `AC <- AC + [|]M(a)[|]`, or `AC <- AC - [|]M(a)[|]` where `subtract`
/// holds, clamped to `-ac_limit()..=ac_limit()`; `None` where the address
/// is outside memory or the magnitude or the result does not fit in 64
/// bits.
pub open spec fn ac_add_result(a: u16, is_abs: bool, subtract: bool, s: MachineView) -> Option<
    (MachineView, Seq<RegisterTransfer>),
> {
    if a >= 1024 {
        None
    } else {
        let v = s.memory[a as int];
        let v1 = if is_abs {
            magnitude(v)
        } else {
            v as int
        };
        let sum = if subtract {
            s.reg_stack.ac - v1
        } else {
            s.reg_stack.ac + v1
        };
        if (is_abs && v == i64::MIN) || sum < i64::MIN || sum > i64::MAX {
            None
        } else {
            Some(
                (
                    with_ac(s, clamped(sum, -ac_limit(), ac_limit()) as i64),
                    seq![
                        reg_to_mar(instruction_register(s)),
                        m_to_mbr(is_abs),
                        if subtract {
                            ac_sub_mbr()
                        } else {
                            ac_add_mbr()
                        },
                    ],
                ),
            )
        }
    }
}

/// `AC <- AC % M(a)` and `MQ <- AC / M(a)`, both rounding toward zero;
/// `None` where the address is outside memory, the divisor is 0, or the
/// quotient does not fit in 64 bits.
pub open spec fn ac_div_result(a: u16, s: MachineView) -> Option<(MachineView, Seq<RegisterTransfer>)> {
    if a >= 1024 {
        None
    } else {
        let m = s.memory[a as int];
        match (s.reg_stack.ac.checked_div(m), s.reg_stack.ac.checked_rem(m)) {
            (Some(quo), Some(rem)) => Some(
                (
                    with_ac_mq(s, rem, quo),
                    seq![
                        reg_to_mar(instruction_register(s)),
                        m_to_mbr(false),
                        ac_div_m_to_mq(),
                        ac_rem_m_to_ac(),
                    ],
                ),
            ),
            _ => None,
        }
    }
}

/// `2^39`: the weight of the lowest bit of the high half of a product.
pub open spec fn half_weight() -> int {
    0x80_0000_0000
}

/// The product `MQ * M(a)` split by magnitude into AC, the bits from 39 to
/// 77 (`|p| / 2^39`, kept to 39 bits), and MQ, the bits from 0 to 38
/// (`|p| % 2^39`), each of them with the sign of the product; `None` where
/// the address is outside memory.
pub open spec fn ac_mul_result(a: u16, s: MachineView) -> Option<(MachineView, Seq<RegisterTransfer>)> {
    if a >= 1024 {
        None
    } else {
        let p = s.reg_stack.mq * s.memory[a as int];
        let mag = if p < 0 {
            -p
        } else {
            p
        };
        let high = (mag / half_weight()) % half_weight();
        let low = mag % half_weight();
        Some(
            (
                if p < 0 {
                    with_ac_mq(s, -high as i64, -low as i64)
                } else {
                    with_ac_mq(s, high as i64, low as i64)
                },
                seq![
                    reg_to_mar(instruction_register(s)),
                    m_to_mbr(false),
                    mq_times_mbr_to_ac(),
                    mq_times_mbr_to_mq(),
                ],
            ),
        )
    }
}

/// Where both factors are below `2^39` in magnitude, the product is whole
/// in AC and MQ: `|AC| * 2^39 + |MQ| == |MQ * M(a)|`, `|MQ| < 2^39`, and
/// neither half has the sign opposite to the product.
pub proof fn lemma_product_split(a: u16, s: MachineView)
    requires
        a < 1024,
        s.memory.len() == 1024,
        -half_weight() < s.reg_stack.mq < half_weight(),
        -half_weight() < s.memory[a as int] < half_weight(),
    ensures
        ({
            let p = s.reg_stack.mq * s.memory[a as int];
            let t = ac_mul_result(a, s)->Some_0.0;
            &&& magnitude(t.reg_stack.ac) * half_weight() + magnitude(t.reg_stack.mq) == (if p < 0 {
                -p
            } else {
                p
            })
            &&& magnitude(t.reg_stack.mq) < half_weight()
            &&& p >= 0 ==> t.reg_stack.ac >= 0 && t.reg_stack.mq >= 0
            &&& p <= 0 ==> t.reg_stack.ac <= 0 && t.reg_stack.mq <= 0
        }),
{
    let x = s.reg_stack.mq as int;
    let y = s.memory[a as int] as int;
    let p = x * y;
    let mag = if p < 0 {
        -p
    } else {
        p
    };
    let w = half_weight();
    assert(0 <= mag < w * w) by (nonlinear_arith)
        requires
            -w < x < w,
            -w < y < w,
            p == x * y,
            mag == (if p < 0 {
                -p
            } else {
                p
            }),
            w == 0x80_0000_0000,
    ;
    assert(mag / w < w && mag / w * w + mag % w == mag && 0 <= mag / w && 0 <= mag % w < w)
        by (nonlinear_arith)
        requires
            0 <= mag < w * w,
            w == 0x80_0000_0000,
    ;
    assert((mag / w) % w == mag / w);
}

/// The assignments to AC from a binary expression: the high half of a
/// product (a first operand other than AC, taken at bits 40..79), `AC + M`,
/// `AC - M`, `AC % M`, `AC * 2` (a shift of the 64-bit word) and `AC / 2`
/// (an arithmetic shift, clamped to `-2^39..=2^39`). Every other form has no
/// result.
pub open spec fn ac_binary_result(
    op1: ComplexUnaryWithSize,
    op2: ComplexUnaryWithSize,
    op: ComplexOperation,
    size: Amount,
    s: MachineView,
) -> Option<(MachineView, Seq<RegisterTransfer>)> {
    if op1.unary.signless != ComplexTerm::AC && size == (Amount::Range { start: 40, end: 79 }) && op
        == ComplexOperation::Multiply {
        match op2.unary.signless {
            ComplexTerm::M(a) => ac_mul_result(a, s),
            _ => None,
        }
    } else {
        match (op, op2.unary) {
            (
                ComplexOperation::Addition,
                ComplexUnary { signless: ComplexTerm::M(a), is_neg: false, is_abs },
            ) => ac_add_result(a, is_abs, false, s),
            (
                ComplexOperation::Subtraction,
                ComplexUnary { signless: ComplexTerm::M(a), is_neg: false, is_abs },
            ) => ac_add_result(a, is_abs, true, s),
            (
                ComplexOperation::Remainder,
                ComplexUnary { signless: ComplexTerm::M(a), is_neg: false, is_abs: false },
            ) => ac_div_result(a, s),
            (
                ComplexOperation::Multiply,
                ComplexUnary { signless: ComplexTerm::Constant(2), is_neg: false, is_abs: false },
            ) => Some((with_ac(s, s.reg_stack.ac << 1u32), seq![ac_lsh()])),
            (
                ComplexOperation::Division,
                ComplexUnary { signless: ComplexTerm::Constant(2), is_neg: false, is_abs: false },
            ) => Some(
                (
                    with_ac(s, clamped((s.reg_stack.ac >> 1u32) as int, -half_weight(), half_weight()) as i64),
                    seq![ac_rsh()],
                ),
            ),
            _ => None,
        }
    }
}

/// An assignment to AC: the new state and the transfers that it takes;
/// `None` for a right-hand side that the machine cannot compute into AC.
pub open spec fn ac_result(right: ComplexExpr, s: MachineView) -> Option<
    (MachineView, Seq<RegisterTransfer>),
> {
    match right {
        ComplexExpr::Unary(u) => ac_unary_result(u.unary, u.size, s),
        ComplexExpr::Binary(b) => ac_binary_result(b.op1, b.op2, b.op, b.size, s),
        _ => None,
    }
}

/// Performs an assignment to AC and returns its transfers, as `ac_result`
/// states.
pub fn handle_ac(right_op: ComplexExpr, state: &mut MachineState) -> (r: Vec<RegisterTransfer>)
    requires
        ac_result(right_op, old(state)@) is Some,
    ensures
        ac_result(right_op, old(state)@) == Some((final(state)@, r@)),
{
    match right_op {
        ComplexExpr::Unary(ComplexUnaryWithSize { unary, size }) => handle_ac_unary(
            unary,
            size,
            state,
        ),
        ComplexExpr::Binary(ComplexBinary { op1, op2, op, size }) => handle_ac_binary(
            op1,
            op2,
            op,
            size,
            state,
        ),
        _ => Vec::new(),
    }
}

fn handle_ac_unary(unary: ComplexUnary, size: Amount, state: &mut MachineState) -> (r: Vec<
    RegisterTransfer,
>)
    requires
        ac_unary_result(unary, size, old(state)@) is Some,
    ensures
        ac_unary_result(unary, size, old(state)@) == Some((final(state)@, r@)),
{
    match unary {
        ComplexUnary { signless: ComplexTerm::MQ, .. } => {
            state.reg_stack.ac = state.reg_stack.mq;
            let r = vec![mq_to_ac()];
            assert(state@ =~= with_ac(old(state)@, old(state).reg_stack.mq));
            r
        },
        ComplexUnary { signless: ComplexTerm::M(mem_addr), is_neg, is_abs } => {
            let value = state.memory[mem_addr as usize];
            let value = if is_abs && value < 0 {
                -value
            } else {
                value
            };
            let value = if is_neg {
                -value
            } else {
                value
            };
            let reg = current_instruction_register(state);
            state.reg_stack.ac = value;
            if is_neg {
                vec![reg_to_mar(reg), m_to_mbr(is_abs), super::flip_ac()]
            } else {
                vec![reg_to_mar(reg), m_to_mbr(is_abs), mbr_to_ac()]
            }
        },
        _ => Vec::new(),
    }
}

fn handle_ac_binary(
    op1: ComplexUnaryWithSize,
    op2: ComplexUnaryWithSize,
    op: ComplexOperation,
    size: Amount,
    state: &mut MachineState,
) -> (r: Vec<RegisterTransfer>)
    requires
        ac_binary_result(op1, op2, op, size, old(state)@) is Some,
    ensures
        ac_binary_result(op1, op2, op, size, old(state)@) == Some((final(state)@, r@)),
{
    let is_high_product = match (op1.unary.signless, size, op) {
        (ComplexTerm::AC, _, _) => false,
        (_, Amount::Range { start: 40, end: 79 }, ComplexOperation::Multiply) => true,
        _ => false,
    };
    if is_high_product {
        if let ComplexTerm::M(mem_addr) = op2.unary.signless {
            return multiply(mem_addr, state);
        }
        return Vec::new();
    }
    match (op, op2.unary) {
        (
            ComplexOperation::Addition,
            ComplexUnary { signless: ComplexTerm::M(mem_addr), is_neg: false, is_abs },
        ) => add_memory(mem_addr, is_abs, false, state),
        (
            ComplexOperation::Subtraction,
            ComplexUnary { signless: ComplexTerm::M(mem_addr), is_neg: false, is_abs },
        ) => add_memory(mem_addr, is_abs, true, state),
        (
            ComplexOperation::Remainder,
            ComplexUnary { signless: ComplexTerm::M(mem_addr), is_neg: false, is_abs: false },
        ) => divide(mem_addr, state),
        (ComplexOperation::Multiply, _) => {
            state.reg_stack.ac = state.reg_stack.ac << 1u32;
            vec![ac_lsh()]
        },
        _ => {
            let half = state.reg_stack.ac >> 1u32;
            let bound: i64 = 0x80_0000_0000;
            state.reg_stack.ac = if half < -bound {
                -bound
            } else if half > bound {
                bound
            } else {
                half
            };
            vec![ac_rsh()]
        },
    }
}

fn add_memory(mem_addr: u16, is_abs: bool, subtract: bool, state: &mut MachineState) -> (r: Vec<
    RegisterTransfer,
>)
    requires
        ac_add_result(mem_addr, is_abs, subtract, old(state)@) is Some,
    ensures
        ac_add_result(mem_addr, is_abs, subtract, old(state)@) == Some((final(state)@, r@)),
{
    let value = state.memory[mem_addr as usize];
    let value = if is_abs && value < 0 {
        -value
    } else {
        value
    };
    let sum = if subtract {
        state.reg_stack.ac - value
    } else {
        state.reg_stack.ac + value
    };
    let limit: i64 = 0x7F_FFFF_FFFF;
    state.reg_stack.ac = if sum < -limit {
        -limit
    } else if sum > limit {
        limit
    } else {
        sum
    };
    let reg = current_instruction_register(state);
    let last = if subtract {
        ac_sub_mbr()
    } else {
        ac_add_mbr()
    };
    vec![reg_to_mar(reg), m_to_mbr(is_abs), last]
}

fn divide(mem_addr: u16, state: &mut MachineState) -> (r: Vec<RegisterTransfer>)
    requires
        ac_div_result(mem_addr, old(state)@) is Some,
    ensures
        ac_div_result(mem_addr, old(state)@) == Some((final(state)@, r@)),
{
    let divisor = state.memory[mem_addr as usize];
    let quo = state.reg_stack.ac.checked_div(divisor);
    let rem = state.reg_stack.ac.checked_rem(divisor);
    match (quo, rem) {
        (Some(quo), Some(rem)) => {
            state.reg_stack.ac = rem;
            state.reg_stack.mq = quo;
        },
        _ => {},
    }
    let reg = current_instruction_register(state);
    vec![reg_to_mar(reg), m_to_mbr(false), ac_div_m_to_mq(), ac_rem_m_to_ac()]
}

proof fn lemma_half_masks(x: u128)
    ensures
        (x >> 39u32) & 0x7F_FFFF_FFFF == (x / 0x80_0000_0000) % 0x80_0000_0000,
        x & 0x7F_FFFF_FFFF == x % 0x80_0000_0000,
        (x >> 39u32) & 0x7F_FFFF_FFFF < 0x80_0000_0000,
{
    assert((x >> 39u32) & 0x7F_FFFF_FFFF == (x / 0x80_0000_0000) % 0x80_0000_0000
        && x & 0x7F_FFFF_FFFF == x % 0x80_0000_0000 && (x >> 39u32) & 0x7F_FFFF_FFFF
        < 0x80_0000_0000) by (bit_vector);
}

fn multiply(mem_addr: u16, state: &mut MachineState) -> (r: Vec<RegisterTransfer>)
    requires
        ac_mul_result(mem_addr, old(state)@) is Some,
    ensures
        ac_mul_result(mem_addr, old(state)@) == Some((final(state)@, r@)),
{
    let mq = state.reg_stack.mq;
    let m = state.memory[mem_addr as usize];
    assert(-0x8000_0000_0000_0000 * 0x8000_0000_0000_0000 <= mq * m <= 0x8000_0000_0000_0000
        * 0x8000_0000_0000_0000) by (nonlinear_arith)
        requires
            i64::MIN <= mq <= i64::MAX,
            i64::MIN <= m <= i64::MAX,
    ;
    let res: i128 = mq as i128 * m as i128;
    let mag: u128 = if res < 0 {
        (-res) as u128
    } else {
        res as u128
    };
    proof {
        lemma_half_masks(mag);
    }
    let high = ((mag >> 39u32) & 0x7F_FFFF_FFFF) as i64;
    let low = (mag & 0x7F_FFFF_FFFF) as i64;
    // each half takes the sign of the product
    if res < 0 {
        state.reg_stack.ac = -high;
        state.reg_stack.mq = -low;
    } else {
        state.reg_stack.ac = high;
        state.reg_stack.mq = low;
    }
    let reg = current_instruction_register(state);
    vec![reg_to_mar(reg), m_to_mbr(false), mq_times_mbr_to_ac(), mq_times_mbr_to_mq()]
}

/// Whether an assignment to AC has a result, as `ac_result` states.
pub fn ac_defined(right_op: ComplexExpr, state: &MachineState) -> (b: bool)
    ensures
        b == ac_result(right_op, state@) is Some,
{
    match right_op {
        ComplexExpr::Unary(ComplexUnaryWithSize { unary, size }) => {
            match size {
                Amount::Full => {},
                _ => return false,
            }
            match unary {
                ComplexUnary { signless: ComplexTerm::MQ, is_neg: false, is_abs: false } => true,
                ComplexUnary { signless: ComplexTerm::M(a), is_neg, is_abs } => a < 1024 && (
                state.memory[a as usize] != i64::MIN || (!is_abs && !is_neg)),
                _ => false,
            }
        },
        ComplexExpr::Binary(ComplexBinary { op1, op2, op, size }) => {
            let is_high_product = match (op1.unary.signless, size, op) {
                (ComplexTerm::AC, _, _) => false,
                (_, Amount::Range { start: 40, end: 79 }, ComplexOperation::Multiply) => true,
                _ => false,
            };
            if is_high_product {
                return match op2.unary.signless {
                    ComplexTerm::M(a) => a < 1024,
                    _ => false,
                };
            }
            match (op, op2.unary) {
                (
                    ComplexOperation::Addition,
                    ComplexUnary { signless: ComplexTerm::M(a), is_neg: false, is_abs },
                )
                | (
                    ComplexOperation::Subtraction,
                    ComplexUnary { signless: ComplexTerm::M(a), is_neg: false, is_abs },
                ) => {
                    if a >= 1024 {
                        return false;
                    }
                    let v = state.memory[a as usize];
                    if is_abs && v == i64::MIN {
                        return false;
                    }
                    let v = if is_abs && v < 0 {
                        -v
                    } else {
                        v
                    };
                    if op == ComplexOperation::Subtraction {
                        state.reg_stack.ac.checked_sub(v).is_some()
                    } else {
                        state.reg_stack.ac.checked_add(v).is_some()
                    }
                },
                (
                    ComplexOperation::Remainder,
                    ComplexUnary { signless: ComplexTerm::M(a), is_neg: false, is_abs: false },
                ) => {
                    if a >= 1024 {
                        return false;
                    }
                    let m = state.memory[a as usize];
                    state.reg_stack.ac.checked_div(m).is_some() && state.reg_stack.ac.checked_rem(
                        m,
                    ).is_some()
                },
                (
                    ComplexOperation::Multiply,
                    ComplexUnary { signless: ComplexTerm::Constant(2), is_neg: false, is_abs: false },
                )
                | (
                    ComplexOperation::Division,
                    ComplexUnary { signless: ComplexTerm::Constant(2), is_neg: false, is_abs: false },
                ) => true,
                _ => false,
            }
        },
        _ => false,
    }
}

/// Whether an assignment to AC has a result depends only on memory, AC and
/// MQ.
pub proof fn lemma_ac_defined_frame(right: ComplexExpr, s: MachineView, t: MachineView)
    requires
        s.memory == t.memory,
        s.reg_stack.ac == t.reg_stack.ac,
        s.reg_stack.mq == t.reg_stack.mq,
    ensures
        (ac_result(right, s) is Some) == (ac_result(right, t) is Some),
{
}

} // verus!
