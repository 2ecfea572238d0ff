//! Executing one instruction of the machine, step by step in register
//! transfer notation.

use vstd::prelude::*;
use crate::rtn::{
    Addressing, Amount, BinaryOperation, Operand, Register, RegisterTransfer, UnaryOperation,
};
use crate::analysis::{ComplexTerm, MedRepr};
use crate::decoding::{decode, decoded_instruction, is_decodable};
use crate::{MachineState, MachineView, RegisterStack};
use ac::{ac_defined, ac_result, handle_ac, lemma_ac_defined_frame};
use mem::{handle_mem, mem_defined, mem_result};
use mq::{handle_mq, mq_defined, mq_result};
use pc::{handle_pc, pc_defined, pc_result};

pub mod ac;
pub mod instructions;
pub mod mem;
pub mod mq;
pub mod pc;

verus! {

/// The register that holds the instruction being executed: IBR for a right
/// instruction, MBR for a left one.
pub open spec fn instruction_register(s: MachineView) -> Register {
    if s.handling_right {
        Register::IBR
    } else {
        Register::MBR
    }
}

/// The register that holds the instruction being executed.
pub fn current_instruction_register(state: &MachineState) -> (r: Register)
    ensures
        r == instruction_register(state@),
{
    if state.handling_right {
        Register::IBR
    } else {
        Register::MBR
    }
}

/// The given part of the given place.
#[verifier::allow_in_spec]
pub fn operand(operand_type: Addressing, amount: Amount) -> Operand
    returns
        (Operand { operand_type, amount }),
{
    Operand { operand_type, amount }
}

/// `to <- from`.
#[verifier::allow_in_spec]
pub fn transfer(from: Operand, to: Operand) -> RegisterTransfer
    returns
        (RegisterTransfer { from, to }),
{
    RegisterTransfer { from, to }
}

/// `AC<1..1> <- AC ~<1..1>`: the sign of AC flipped.
#[verifier::allow_in_spec]
pub fn flip_ac() -> RegisterTransfer
    returns
        transfer(operand(Addressing::Unary(Register::AC, UnaryOperation::BitFlip), Amount::Range { start: 1, end: 1 }), operand(Addressing::Register(Register::AC), Amount::Range { start: 1, end: 1 })),
{
    transfer(operand(Addressing::Unary(Register::AC, UnaryOperation::BitFlip), Amount::Range { start: 1, end: 1 }), operand(Addressing::Register(Register::AC), Amount::Range { start: 1, end: 1 }))
}

/// `MAR <- reg<8..19>`: the address field of the instruction in `reg`.
#[verifier::allow_in_spec]
pub fn reg_to_mar(reg: Register) -> RegisterTransfer
    returns
        transfer(operand(Addressing::Register(reg), Amount::Range { start: 8, end: 19 }), operand(Addressing::Register(Register::MAR), Amount::Full)),
{
    transfer(operand(Addressing::Register(reg), Amount::Range { start: 8, end: 19 }), operand(Addressing::Register(Register::MAR), Amount::Full))
}

/// `PC <- 1`.
#[verifier::allow_in_spec]
pub fn init_pc() -> RegisterTransfer
    returns
        transfer(operand(Addressing::Constant(1), Amount::Full), operand(Addressing::Register(Register::PC), Amount::Full)),
{
    transfer(operand(Addressing::Constant(1), Amount::Full), operand(Addressing::Register(Register::PC), Amount::Full))
}

/// `MBR <- M(MAR)`, without the sign bit where `abs` holds.
#[verifier::allow_in_spec]
pub fn m_to_mbr(abs: bool) -> RegisterTransfer
    returns
        transfer(operand(Addressing::Memory, if abs { Amount::Range { start: 1, end: 39 } } else { Amount::Full }), operand(Addressing::Register(Register::MBR), Amount::Full)),
{
    transfer(operand(Addressing::Memory, if abs { Amount::Range { start: 1, end: 39 } } else { Amount::Full }), operand(Addressing::Register(Register::MBR), Amount::Full))
}

/// `MAR <- PC`.
#[verifier::allow_in_spec]
pub fn pc_to_mar() -> RegisterTransfer
    returns
        transfer(operand(Addressing::Register(Register::PC), Amount::Full), operand(Addressing::Register(Register::MAR), Amount::Full)),
{
    transfer(operand(Addressing::Register(Register::PC), Amount::Full), operand(Addressing::Register(Register::MAR), Amount::Full))
}

/// `IBR <- MBR<20..39>`: the right instruction kept for later.
#[verifier::allow_in_spec]
pub fn mbr_to_ibr() -> RegisterTransfer
    returns
        transfer(operand(Addressing::Register(Register::MBR), Amount::Range { start: 20, end: 39 }), operand(Addressing::Register(Register::IBR), Amount::Full)),
{
    transfer(operand(Addressing::Register(Register::MBR), Amount::Range { start: 20, end: 39 }), operand(Addressing::Register(Register::IBR), Amount::Full))
}

/// `IR <- MBR<0..7>`: the opcode of the left instruction.
#[verifier::allow_in_spec]
pub fn mbr_to_ir() -> RegisterTransfer
    returns
        transfer(operand(Addressing::Register(Register::MBR), Amount::Range { start: 0, end: 7 }), operand(Addressing::Register(Register::IR), Amount::Full)),
{
    transfer(operand(Addressing::Register(Register::MBR), Amount::Range { start: 0, end: 7 }), operand(Addressing::Register(Register::IR), Amount::Full))
}

/// `IR <- IBR<0..7>`: the opcode of the right instruction.
#[verifier::allow_in_spec]
pub fn ibr_to_ir() -> RegisterTransfer
    returns
        transfer(operand(Addressing::Register(Register::IBR), Amount::Range { start: 0, end: 7 }), operand(Addressing::Register(Register::IR), Amount::Full)),
{
    transfer(operand(Addressing::Register(Register::IBR), Amount::Range { start: 0, end: 7 }), operand(Addressing::Register(Register::IR), Amount::Full))
}

/// `PC <- PC + 1`.
#[verifier::allow_in_spec]
pub fn inc_pc() -> RegisterTransfer
    returns
        transfer(operand(Addressing::MixedConst(Register::PC, 1, BinaryOperation::Addition), Amount::Full), operand(Addressing::Register(Register::PC), Amount::Full)),
{
    transfer(operand(Addressing::MixedConst(Register::PC, 1, BinaryOperation::Addition), Amount::Full), operand(Addressing::Register(Register::PC), Amount::Full))
}

/// The transfers that bring the next instruction into IR: the whole word
/// at PC for a left instruction; for a right one, IBR, fetched first where
/// that is still to be done.
pub open spec fn fetch_transfers(s: MachineView) -> Seq<RegisterTransfer> {
    if !s.handling_right {
        seq![pc_to_mar(), m_to_mbr(false), mbr_to_ibr(), mbr_to_ir()]
    } else if s.right_fetch {
        seq![pc_to_mar(), m_to_mbr(false), mbr_to_ibr(), ibr_to_ir()]
    } else {
        seq![ibr_to_ir()]
    }
}

/// The code of the next instruction: the low 20 bits of word `PC - 1` for a
/// left instruction, the bits above them for a right one.
pub open spec fn current_code(s: MachineView) -> i64 {
    let word = s.memory[s.reg_stack.pc - 1];
    if !s.handling_right {
        word & 0xFFFFF
    } else {
        word >> 20u32
    }
}

/// What performing the meaning `m` does, chosen by what its first
/// assignment writes.
pub open spec fn execute_result(m: MedRepr, s: MachineView) -> Option<
    (MachineView, Seq<RegisterTransfer>),
> {
    let first = m.0;
    if first.left.unary.is_neg || first.left.unary.is_abs {
        None
    } else {
        match first.left.unary.signless {
            ComplexTerm::AC => ac_result(first.right, s),
            ComplexTerm::MQ => mq_result(first.right, s),
            ComplexTerm::PC => pc_result(first.right, first.condition, s, m.1),
            ComplexTerm::M(a) => mem_result(a, first.left.size, first.right, s),
            _ => None,
        }
    }
}

/// One instruction: fetched as `fetch_transfers` states, decoded from
/// `current_code`, and performed as `execute_result` states. After any
/// instruction but a jump, the machine turns to the other half of the word,
/// and after a right instruction PC moves to the next word. `None` where PC
/// lies outside `1..=1024`, the code has no meaning, or performing it has
/// no result.
pub open spec fn next_instruction_result(s: MachineView) -> Option<
    (MachineView, Seq<RegisterTransfer>),
> {
    if !(1 <= s.reg_stack.pc <= 1024) {
        None
    } else {
        let fetched = if s.handling_right {
            MachineView { right_fetch: false, ..s }
        } else {
            s
        };
        match decoded_instruction(current_code(s)) {
            None => None,
            Some(m) => match execute_result(m, fetched) {
                None => None,
                Some((t, transfers)) => if m.0.left.unary.signless is PC {
                    Some((t, fetch_transfers(s) + transfers))
                } else if t.handling_right {
                    Some(
                        (
                            MachineView {
                                handling_right: false,
                                reg_stack: RegisterStack {
                                    pc: (t.reg_stack.pc + 1) as i64,
                                    ..t.reg_stack
                                },
                                ..t
                            },
                            fetch_transfers(s) + transfers + seq![inc_pc()],
                        ),
                    )
                } else {
                    Some(
                        (
                            MachineView { handling_right: true, ..t },
                            fetch_transfers(s) + transfers,
                        ),
                    )
                },
            },
        }
    }
}

/// Fetches, decodes and performs the next instruction, and returns the
/// transfers that this takes, as `next_instruction_result` states.
pub fn syn_next_instr(state: &mut MachineState) -> (r: Vec<RegisterTransfer>)
    requires
        next_instruction_result(old(state)@) is Some,
    ensures
        next_instruction_result(old(state)@) == Some((final(state)@, r@)),
{
    let ghost s0 = state@;
    let mut final_list: Vec<RegisterTransfer> = Vec::new();
    if !state.handling_right {
        final_list.push(pc_to_mar());
        final_list.push(m_to_mbr(false));
        final_list.push(mbr_to_ibr());
        final_list.push(mbr_to_ir());
    } else {
        if state.right_fetch {
            final_list.push(pc_to_mar());
            final_list.push(m_to_mbr(false));
            final_list.push(mbr_to_ibr());
            state.right_fetch = false;
        }
        final_list.push(ibr_to_ir());
    }
    assert(final_list@ =~= fetch_transfers(s0));
    let word = state.memory[(state.reg_stack.pc - 1) as usize];
    let instr_string = if !state.handling_right {
        word & 0xFFFFF
    } else {
        word >> 20u32
    };
    let line = decode(instr_string);
    let first_line = line.0;
    let mut normal_pc = true;
    let mut transfers = match first_line.left.unary.signless {
        ComplexTerm::AC => handle_ac(first_line.right, state),
        ComplexTerm::MQ => handle_mq(first_line.right, state),
        ComplexTerm::PC => {
            normal_pc = false;
            handle_pc(first_line.right, first_line.condition, state, line.1)
        },
        ComplexTerm::M(mem_addr) => handle_mem(mem_addr, first_line.left.size, first_line.right, state),
        _ => Vec::new(),
    };
    final_list.append(&mut transfers);
    if normal_pc {
        state.handling_right = !state.handling_right;
        if !state.handling_right {
            state.reg_stack.pc = state.reg_stack.pc + 1;
            final_list.push(inc_pc());
        }
    }
    assert(state@ =~= next_instruction_result(s0)->Some_0.0);
    assert(final_list@ =~= next_instruction_result(s0)->Some_0.1);
    final_list
}

/// The state with PC replaced.
pub open spec fn with_pc(s: MachineView, pc: i64) -> MachineView {
    MachineView { reg_stack: RegisterStack { pc, ..s.reg_stack }, ..s }
}

/// Whether the next instruction, with PC taken as `pc`, has a result, as
/// `next_instruction_result` states.
pub fn instruction_defined(state: &MachineState, pc: i64) -> (b: bool)
    ensures
        b == next_instruction_result(with_pc(state@, pc)) is Some,
{
    let ghost s = with_pc(state@, pc);
    if !(1 <= pc && pc <= 1024) {
        return false;
    }
    let word = state.memory[(pc - 1) as usize];
    let code = if !state.handling_right {
        word & 0xFFFFF
    } else {
        word >> 20u32
    };
    assert(code == current_code(s));
    if !is_decodable(code) {
        return false;
    }
    let line = decode(code);
    let first_line = line.0;
    if first_line.left.unary.is_neg || first_line.left.unary.is_abs {
        return false;
    }
    let ghost fetched = if s.handling_right {
        MachineView { right_fetch: false, ..s }
    } else {
        s
    };
    match first_line.left.unary.signless {
        ComplexTerm::AC => {
            proof {
                lemma_ac_defined_frame(first_line.right, state@, fetched);
            }
            ac_defined(first_line.right, state)
        },
        ComplexTerm::MQ => mq_defined(first_line.right),
        ComplexTerm::PC => pc_defined(first_line.right),
        ComplexTerm::M(mem_addr) => mem_defined(mem_addr, first_line.left.size, first_line.right),
        _ => false,
    }
}

/// After any instruction but a jump, the machine turns to the other half of
/// the word, and PC moves on by one exactly after a right instruction.
pub proof fn lemma_sequential_progress(s: MachineView)
    requires
        next_instruction_result(s) is Some,
        !(decoded_instruction(current_code(s))->Some_0.0.left.unary.signless is PC),
    ensures
        next_instruction_result(s)->Some_0.0.handling_right == !s.handling_right,
        next_instruction_result(s)->Some_0.0.reg_stack.pc == s.reg_stack.pc + if s.handling_right {
            1int
        } else {
            0int
        },
{
}

/// Only the stores write memory: after an instruction whose first
/// assignment is not to memory, memory is unchanged.
pub proof fn lemma_only_stores_write_memory(s: MachineView)
    requires
        next_instruction_result(s) is Some,
        !(decoded_instruction(current_code(s))->Some_0.0.left.unary.signless is M),
    ensures
        next_instruction_result(s)->Some_0.0.memory == s.memory,
{
}

/// A jump that is taken sets PC to its target; one that is not taken (a
/// conditional jump while AC is negative) changes nothing but the fetch.
pub proof fn lemma_jump_target(s: MachineView)
    requires
        next_instruction_result(s) is Some,
        decoded_instruction(current_code(s))->Some_0.0.left.unary.signless is PC,
    ensures
        ({
            let m = decoded_instruction(current_code(s))->Some_0;
            let t = next_instruction_result(s)->Some_0.0;
            if m.0.condition is None || s.reg_stack.ac >= 0 {
                t.reg_stack.pc == m.0.right->Unary_0.unary.signless->Constant_0
            } else {
                t.reg_stack == s.reg_stack && t.memory == s.memory && t.handling_right
                    == s.handling_right
            }
        }),
{
}

/// Every instruction's transfers begin with those of its fetch.
pub proof fn lemma_fetch_first(s: MachineView)
    requires
        next_instruction_result(s) is Some,
    ensures
        next_instruction_result(s)->Some_0.1.subrange(0, fetch_transfers(s).len() as int)
            == fetch_transfers(s),
{
    let r = next_instruction_result(s)->Some_0.1;
    assert(r.subrange(0, fetch_transfers(s).len() as int) =~= fetch_transfers(s));
}

} // verus!
