//! An assembler and simulator for the IAS machine: assembly text is
//! analysed into the meaning of each instruction, encoded into memory two
//! instructions to a word, and executed one instruction at a time, each
//! step reported as register transfers.

use vstd::prelude::*;

pub mod analysis;
pub mod decoding;
pub mod encoding;
pub mod roundtrip;
pub mod rtn;
pub mod synthesis;
pub mod text;

use analysis::{analysis, analysis_result, AnalysisError, MedRepr};
use encoding::{encode_single, encoded};
use rtn::RegisterTransfer;
use synthesis::{init_pc, instruction_defined, next_instruction_result, syn_next_instr};

verus! {

/// The number of words in memory.
pub const MEMORY_WORDS: usize = 1024;

/// The registers that a program can observe.
#[derive(Clone, Copy, PartialEq, Eq, Structural, Debug, Default)]
pub struct RegisterStack {
    pub ac: i64,
    pub mq: i64,
    pub pc: i64,
}

/// Memory, registers, and where the next instruction comes from: the left
/// half of the word at PC, or the right half, which may still have to be
/// fetched.
#[derive(Debug)]
pub struct MachineState {
    pub memory: [i64; 1024],
    pub reg_stack: RegisterStack,
    pub handling_right: bool,
    pub right_fetch: bool,
}

/// The machine state as values.
#[verifier::ext_equal]
pub struct MachineView {
    pub memory: Seq<i64>,
    pub reg_stack: RegisterStack,
    pub handling_right: bool,
    pub right_fetch: bool,
}

impl View for MachineState {
    type V = MachineView;

    open spec fn view(&self) -> MachineView {
        MachineView {
            memory: self.memory@,
            reg_stack: self.reg_stack,
            handling_right: self.handling_right,
            right_fetch: self.right_fetch,
        }
    }
}

/// A list of register transfers, as one step produces it.
#[derive(Debug)]
pub struct RegisterTransferList {
    pub transfer: Vec<crate::rtn::RegisterTransfer>,
}

impl MachineState {
    /// Memory all zero, registers zero, the next instruction the left one.
    pub open spec fn spec_fresh() -> MachineView {
        MachineView {
            memory: Seq::new(1024, |i: int| 0i64),
            reg_stack: RegisterStack { ac: 0, mq: 0, pc: 0 },
            handling_right: false,
            right_fetch: false,
        }
    }

    /// A machine with memory all zero and registers zero.
    pub fn new() -> (s: MachineState)
        ensures
            s@ == Self::spec_fresh(),
    {
        Self::default()
    }
}

impl MachineState {
    /// A copy of memory.
    pub fn memory(&self) -> (v: Vec<i64>)
        ensures
            v@ == self.memory@,
    {
        let mut v: Vec<i64> = Vec::new();
        for i in 0..1024
            invariant
                v@ == self.memory@.take(i as int),
        {
            v.push(self.memory[i]);
            assert(v@ =~= self.memory@.take(i + 1));
        }
        assert(self.memory@.take(1024) =~= self.memory@);
        v
    }

    /// Replaces memory by the 1024 words of `mem`.
    pub fn set_memory(&mut self, mem: Vec<i64>)
        requires
            mem@.len() == 1024,
        ensures
            final(self)@ == (MachineView { memory: mem@, ..old(self)@ }),
    {
        for i in 0..1024
            invariant
                mem@.len() == 1024,
                self.memory@.len() == 1024,
                self.reg_stack == old(self).reg_stack,
                self.handling_right == old(self).handling_right,
                self.right_fetch == old(self).right_fetch,
                forall|k: int| 0 <= k < i ==> self.memory@[k] == mem@[k],
        {
            self.memory[i] = mem[i];
        }
        assert(self.memory@ =~= mem@);
    }

    /// The registers.
    pub fn get_reg_stack(&self) -> (r: RegisterStack)
        ensures
            r == self.reg_stack,
    {
        self.reg_stack
    }
}

impl RegisterStack {
    pub fn get_ac(&self) -> (r: i64)
        ensures
            r == self.ac,
    {
        self.ac
    }

    pub fn get_mq(&self) -> (r: i64)
        ensures
            r == self.mq,
    {
        self.mq
    }

    pub fn get_pc(&self) -> (r: i64)
        ensures
            r == self.pc,
    {
        self.pc
    }
}

impl RegisterTransferList {
    /// A copy of the transfers.
    pub fn get_transfer(&self) -> (v: Vec<RegisterTransfer>)
        ensures
            v@ == self.transfer@,
    {
        let mut v: Vec<RegisterTransfer> = Vec::new();
        let n = self.transfer.len();
        for i in 0..n
            invariant
                n == self.transfer@.len(),
                v@ == self.transfer@.take(i as int),
        {
            v.push(self.transfer[i]);
            assert(v@ =~= self.transfer@.take(i + 1));
        }
        assert(self.transfer@.take(n as int) =~= self.transfer@);
        v
    }
}

impl Default for MachineState {
    fn default() -> (s: MachineState)
        ensures
            s@ == MachineState::spec_fresh(),
    {
        let s = MachineState {
            memory: [0i64; 1024],
            reg_stack: RegisterStack { ac: 0, mq: 0, pc: 0 },
            handling_right: false,
            right_fetch: false,
        };
        assert(s@ =~= MachineState::spec_fresh());
        s
    }
}

/// One step of the machine: where PC is 0, it is first set to 1 (`PC <- 1`);
/// then the next instruction is executed as `next_instruction_result`
/// states.
pub open spec fn step_result(s: MachineView) -> Option<(MachineView, Seq<RegisterTransfer>)> {
    if s.reg_stack.pc == 0 {
        let started = MachineView { reg_stack: RegisterStack { pc: 1, ..s.reg_stack }, ..s };
        match next_instruction_result(started) {
            Some((t, transfers)) => Some((t, seq![init_pc()] + transfers)),
            None => None,
        }
    } else {
        next_instruction_result(s)
    }
}

/// Executes one step of the machine and returns its transfers, as
/// `step_result` states.
pub fn step(state: &mut MachineState) -> (r: Vec<RegisterTransfer>)
    requires
        step_result(old(state)@) is Some,
    ensures
        step_result(old(state)@) == Some((final(state)@, r@)),
{
    let ghost s0 = state@;
    let mut reg_transfers: Vec<RegisterTransfer> = Vec::new();
    if state.reg_stack.pc == 0 {
        state.reg_stack.pc = 1;
        reg_transfers.push(init_pc());
    }
    let mut next = syn_next_instr(state);
    reg_transfers.append(&mut next);
    reg_transfers
}

/// Whether the next step has a result, as `step_result` states: the
/// condition under which `step` may be called.
pub fn can_step(state: &MachineState) -> (b: bool)
    ensures
        b == step_result(state@) is Some,
{
    if state.reg_stack.pc == 0 {
        instruction_defined(state, 1)
    } else {
        let b = instruction_defined(state, state.reg_stack.pc);
        assert(synthesis::with_pc(state@, state.reg_stack.pc) =~= state@);
        b
    }
}

/// The code of an instruction whose meaning has one.
pub open spec fn code_of(m: MedRepr) -> i64 {
    encoded(m)->Some_0
}

/// Memory after a program is written into it: word `k` holds instruction
/// `2k` in its low 20 bits and instruction `2k + 1` above them (nothing
/// where the program has no such instruction); words past the program keep
/// their value.
pub open spec fn loaded_memory(mem: Seq<i64>, program: Seq<MedRepr>) -> Seq<i64> {
    Seq::new(
        mem.len(),
        |k: int|
            if 2 * k + 1 < program.len() {
                code_of(program[2 * k]) | (code_of(program[2 * k + 1]) << 20u32)
            } else if 2 * k + 1 == program.len() {
                code_of(program[2 * k])
            } else {
                mem[k]
            },
    )
}

/// Every instruction of the program has a code.
pub open spec fn all_encodable(program: Seq<MedRepr>) -> bool {
    forall|i: int| 0 <= i < program.len() ==> (#[trigger] encoded(program[i])) is Some
}

/// The code of an instruction has a nonzero opcode and fits in 20 bits.
pub proof fn lemma_code_bounds(m: MedRepr)
    requires
        encoded(m) is Some,
    ensures
        0x1000 <= code_of(m) < 0x100000,
{
    let (op, a) = encoding::repr_code(m)->Some_0;
    assert(1 <= op <= 33);
    assert(0x1000 <= ((op << 12) | (a as i64)) < 0x100000) by (bit_vector)
        requires
            1 <= op <= 33,
    ;
}

/// Writes the codes of a program into memory, two instructions to a word,
/// as `loaded_memory` states.
pub fn encode_instr(semantics: &[MedRepr], mem: &mut [i64; 1024])
    requires
        all_encodable(semantics@),
        semantics@.len() <= 2048,
    ensures
        final(mem)@ == loaded_memory(old(mem)@, semantics@),
{
    let mut counter: usize = 0;
    let mut curr_line: i64 = 0;
    let mut is_right = false;
    let n = semantics.len();
    for i in 0..n
        invariant
            n == semantics@.len(),
            n <= 2048,
            all_encodable(semantics@),
            counter == i / 2,
            is_right == (i % 2 == 1),
            is_right ==> curr_line == code_of(semantics@[i - 1]),
            !is_right ==> curr_line == 0,
            mem@.len() == 1024,
            forall|k: int|
                0 <= k < 1024 ==> #[trigger] mem@[k] == if 2 * k + 1 < i {
                    loaded_memory(old(mem)@, semantics@)[k]
                } else {
                    old(mem)@[k]
                },
    {
        proof {
            lemma_code_bounds(semantics@[i as int]);
        }
        let enc_simple = encode_single(&semantics[i]);
        if !is_right {
            curr_line = curr_line | enc_simple;
            assert(0 | enc_simple == enc_simple) by (bit_vector);
        } else {
            curr_line = curr_line | (enc_simple << 20u32);
            mem[counter] = curr_line;
            curr_line = 0;
            counter = counter + 1;
        }
        is_right = !is_right;
    }
    if curr_line != 0 && is_right {
        mem[counter] = curr_line;
    }
    proof {
        if is_right {
            lemma_code_bounds(semantics@[n - 1]);
        }
    }
    assert(mem@ =~= loaded_memory(old(mem)@, semantics@));
}

/// Analyses a program and writes its codes into memory, as `encode_instr`
/// does; where the analysis refuses a line, returns that error and leaves
/// the machine as it was.
pub fn gen_encoding(code: String, state: &mut MachineState) -> (r: Result<(), AnalysisError>)
    requires
        analysis_result(code@) matches Ok(ms) ==> ms.len() <= 2048,
    ensures
        match analysis_result(code@) {
            Ok(ms) => r is Ok && final(state)@ == (MachineView {
                memory: loaded_memory(old(state)@.memory, ms),
                ..old(state)@
            }),
            Err(e) => r == Err::<(), AnalysisError>(e) && final(state)@ == old(state)@,
        },
{
    let ghost code_view = code@;
    let semantics = analysis(code)?;
    proof {
        roundtrip::lemma_analysis_encodable(code_view);
    }
    encode_instr(semantics.as_slice(), &mut state.memory);
    Ok(())
}

} // verus!
