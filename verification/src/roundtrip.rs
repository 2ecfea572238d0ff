//! What assembling and disassembling undo of each other.

use vstd::prelude::*;
use crate::analysis::syntax::{LineSyntax, Mnemonic, OperandSyntax, Sign, Slice, TermSyntax};
use crate::analysis::{
    analysis_result, line_repr, reprs_from, AnalysisErrorKind, ComplexExpr, ComplexTerm,
    ComplexUnaryWithSize, MedRepr, MedReprSingle,
};
use crate::analysis::lexer::lex;
use crate::analysis::syntax::parse_lines;
use crate::{all_encodable, code_of, lemma_code_bounds, loaded_memory, MachineView};
use crate::synthesis::current_code;
use crate::decoding::{address_of, decoded, decoded_instruction, opcode_of};
use crate::encoding::{encoded, instr_word};

verus! {

/// The opcodes of the machine.
pub open spec fn is_opcode(op: i64) -> bool {
    decoded(op, 0) is Some
}

/// An instruction code splits back into its opcode and its address, where
/// the address fits in the 12-bit field.
pub proof fn lemma_instr_word_fields(op: i64, a: u16)
    requires
        0 <= op < 256,
        a < 4096,
    ensures
        opcode_of(instr_word(op, a)) == op,
        address_of(instr_word(op, a)) == a,
        0 <= instr_word(op, a) < 0x100000,
{
    let w = instr_word(op, a);
    let a64 = a as i64;
    assert(((op << 12) | a64) >> 12 == op && ((op << 12) | a64) & 0xFFF == a64 && 0 <= ((op << 12)
        | a64) < 0x100000) by (bit_vector)
        requires
            0 <= op < 256,
            0 <= a64 < 4096,
    ;
}

/// The opcodes whose meaning does not name their address field:
/// `LOAD MQ`, `LSH` and `RSH`.
pub open spec fn ignores_address(op: i64) -> bool {
    op == 10 || op == 20 || op == 21
}

/// Encoding the meaning of an instruction code gives the code back, for
/// every opcode of the machine and every address that fits in the field
/// (0 for the opcodes that ignore it).
pub proof fn lemma_encode_decoded(op: i64, a: u16)
    requires
        is_opcode(op),
        a < 4096,
        ignores_address(op) ==> a == 0,
    ensures
        decoded(op, a) is Some,
        encoded(decoded(op, a)->Some_0) == Some(instr_word(op, a)),
{
}

/// Decoding the code of an instruction's meaning gives the meaning back,
/// for every opcode of the machine and every address that fits in the
/// field.
pub proof fn lemma_decode_encoded(op: i64, a: u16)
    requires
        is_opcode(op),
        a < 4096,
    ensures
        decoded_instruction(instr_word(op, a)) == decoded(op, a),
{
    assert(0 <= op < 256);
    lemma_instr_word_fields(op, a);
}

/// Every address that an operand of the line names is below `bound`.
pub open spec fn operand_addresses_below(op: Option<OperandSyntax>, bound: nat) -> bool {
    match op {
        Some(OperandSyntax { term: TermSyntax::Memory { address, .. }, .. }) => address < bound,
        _ => true,
    }
}

pub open spec fn line_addresses_below(l: LineSyntax, bound: nat) -> bool {
    operand_addresses_below(l.first, bound) && operand_addresses_below(l.second, bound)
}

/// The address that an operand names, cut to 16 bits.
pub open spec fn operand_address(op: Option<OperandSyntax>) -> u16 {
    match op {
        Some(OperandSyntax { term: TermSyntax::Memory { address, .. }, .. }) => address as u16,
        _ => 0,
    }
}

/// The opcode and address that a line assembles to, read off its mnemonic
/// and the form of its operands.
pub open spec fn line_code(l: LineSyntax) -> (i64, u16) {
    let first = l.first->Some_0;
    let a = operand_address(l.first);
    match l.mnemonic {
        Mnemonic::Load => if first.term is MulQuo {
            if l.second is None {
                (10, 0)
            } else {
                (9, operand_address(l.second))
            }
        } else {
            (
                if first.sign == Sign::Negative {
                    if first.is_abs {
                        4
                    } else {
                        2
                    }
                } else {
                    if first.is_abs {
                        3
                    } else {
                        1
                    }
                },
                a,
            )
        },
        Mnemonic::Stor => match first.term {
            TermSyntax::Memory { slice: None, .. } => (33, a),
            TermSyntax::Memory { slice: Some(Slice { from: 8, .. }), .. } => (18, a),
            _ => (19, a),
        },
        Mnemonic::Jump => {
            let to_right = first.term->Memory_slice->Some_0.from == 20;
            (
                if first.sign == Sign::NonNegative {
                    if to_right {
                        16
                    } else {
                        15
                    }
                } else {
                    if to_right {
                        14
                    } else {
                        13
                    }
                },
                a,
            )
        },
        Mnemonic::Add => (if first.is_abs { 7 } else { 5 }, a),
        Mnemonic::Sub => (if first.is_abs { 8 } else { 6 }, a),
        Mnemonic::Mul => (11, a),
        Mnemonic::Div => (12, a),
        Mnemonic::Lsh => (20, 0),
        Mnemonic::Rsh => (21, 0),
    }
}

/// The meaning of every line that the analysis accepts is the meaning of
/// the instruction code that `line_code` gives.
pub proof fn lemma_line_is_decodable(l: LineSyntax, m: MedRepr)
    requires
        line_repr(l) == Ok::<MedRepr, AnalysisErrorKind>(m),
    ensures
        decoded(line_code(l).0, line_code(l).1) == Some(m),
{
}

/// Assembling a line and disassembling the code gives back the line's
/// meaning, where every address that the line names fits in the 12-bit
/// address field.
pub proof fn lemma_assemble_disassemble(l: LineSyntax, m: MedRepr)
    requires
        line_repr(l) == Ok::<MedRepr, AnalysisErrorKind>(m),
        line_addresses_below(l, 4096),
    ensures
        encoded(m) is Some,
        decoded_instruction(encoded(m)->Some_0) == Some(m),
{
    lemma_line_is_decodable(l, m);
    let (op, a) = line_code(l);
    assert(a < 4096);
    lemma_encode_decoded(op, a);
    lemma_decode_encoded(op, a);
}

/// Every meaning of the machine's opcodes has a code.
pub proof fn lemma_decoded_encodable(op: i64, a: u16)
    requires
        is_opcode(op),
    ensures
        decoded(op, a) is Some,
        encoded(decoded(op, a)->Some_0) is Some,
{
}

/// The meanings that `reprs_from` gives are those of the lines, one each.
pub proof fn lemma_reprs_from(lines: Seq<LineSyntax>, i: int)
    requires
        0 <= i <= lines.len(),
    ensures
        reprs_from(lines, i) matches Ok(ms) ==> ms.len() == lines.len() - i && forall|j: int|
            0 <= j < ms.len() ==> line_repr(#[trigger] lines[i + j]) == Ok::<
                MedRepr,
                AnalysisErrorKind,
            >(ms[j]),
    decreases lines.len() - i,
{
    if i < lines.len() {
        lemma_reprs_from(lines, i + 1);
        if let Ok(ms) = reprs_from(lines, i) {
            let rest = reprs_from(lines, i + 1)->Ok_0;
            assert forall|j: int| 0 <= j < ms.len() implies line_repr(#[trigger] lines[i + j])
                == Ok::<MedRepr, AnalysisErrorKind>(ms[j]) by {
                if j > 0 {
                    assert(lines[i + j] == lines[(i + 1) + (j - 1)]);
                }
            }
        }
    }
}

/// Every instruction that the analysis gives has a code.
pub proof fn lemma_analysis_encodable(code: Seq<char>)
    ensures
        analysis_result(code) matches Ok(ms) ==> all_encodable(ms),
{
    if let Ok(lines) = parse_lines(lex(code), 0, 1) {
        lemma_reprs_from(lines, 0);
        if let Ok(ms) = analysis_result(code) {
            assert forall|i: int| 0 <= i < ms.len() implies (#[trigger] encoded(ms[i])) is Some by {
                assert(lines[0 + i] == lines[i]);
                lemma_line_is_decodable(lines[i], ms[i]);
                let (op, a) = line_code(lines[i]);
                lemma_decoded_encodable(op, a);
            }
        }
    }
}

/// A word holding two instruction codes gives each of them back: the low
/// 20 bits the first, the bits above them the second.
pub proof fn lemma_word_halves(left: i64, right: i64)
    requires
        0 <= left < 0x100000,
        0 <= right < 0x100000,
    ensures
        (left | (right << 20u32)) & 0xFFFFF == left,
        (left | (right << 20u32)) >> 20u32 == right,
        left & 0xFFFFF == left,
{
    assert((left | (right << 20u32)) & 0xFFFFF == left && (left | (right << 20u32)) >> 20u32 == right
        && left & 0xFFFFF == left) by (bit_vector)
        requires
            0 <= left < 0x100000,
            0 <= right < 0x100000,
    ;
}

/// The code that the machine reads for instruction `i` of a program
/// written into memory: from word `i / 2`, the left half for an even `i`
/// and the right half for an odd one.
pub open spec fn half_word(w: i64, right_half: bool) -> i64 {
    if right_half {
        w >> 20u32
    } else {
        w & 0xFFFFF
    }
}

/// In memory that a program was written into, instruction `i` of the
/// program is found in word `i / 2`, in the half that the parity of `i`
/// selects.
pub proof fn lemma_loaded_instruction(mem: Seq<i64>, program: Seq<MedRepr>, i: int)
    requires
        mem.len() == 1024,
        program.len() <= 2048,
        all_encodable(program),
        0 <= i < program.len(),
    ensures
        half_word(loaded_memory(mem, program)[i / 2], i % 2 == 1) == code_of(program[i]),
{
    let k = i / 2;
    assert(encoded(program[2 * k]) is Some);
    lemma_code_bounds(program[2 * k]);
    if 2 * k + 1 < program.len() {
        assert(encoded(program[2 * k + 1]) is Some);
        lemma_code_bounds(program[2 * k + 1]);
        lemma_word_halves(code_of(program[2 * k]), code_of(program[2 * k + 1]));
    } else {
        lemma_word_halves(code_of(program[2 * k]), 0);
    }
}

/// Every address that a program's lines name is below `bound`.
pub open spec fn program_addresses_below(code: Seq<char>, bound: nat) -> bool {
    parse_lines(lex(code), 0, 1) matches Ok(lines) && forall|j: int|
        0 <= j < lines.len() ==> line_addresses_below(#[trigger] lines[j], bound)
}

/// A machine runs what was assembled: once a program is written into
/// memory, the machine at word `PC - 1 = i / 2`, in the half that the
/// parity of `i` selects, decodes instruction `i` of the program into the
/// meaning of line `i`, where every address that the program names fits in
/// the 12-bit address field.
pub proof fn lemma_machine_runs_program(code: Seq<char>, before: Seq<i64>, s: MachineView, i: int)
    requires
        analysis_result(code) matches Ok(ms) && ms.len() <= 2048 && 0 <= i < ms.len() && s.memory
            == loaded_memory(before, ms),
        program_addresses_below(code, 4096),
        before.len() == 1024,
        s.reg_stack.pc == i / 2 + 1,
        s.handling_right == (i % 2 == 1),
    ensures
        decoded_instruction(current_code(s)) == Some(analysis_result(code)->Ok_0[i]),
{
    let ms = analysis_result(code)->Ok_0;
    let lines = parse_lines(lex(code), 0, 1)->Ok_0;
    lemma_analysis_encodable(code);
    lemma_loaded_instruction(before, ms, i);
    lemma_reprs_from(lines, 0);
    assert(lines[0 + i] == lines[i]);
    assert(line_addresses_below(lines[i], 4096));
    lemma_assemble_disassemble(lines[i], ms[i]);
}

/// The address that a term names, if any, is below `bound`.
pub open spec fn term_below(t: ComplexTerm, bound: nat) -> bool {
    match t {
        ComplexTerm::M(a) => a < bound,
        ComplexTerm::Constant(c) => c < bound,
        _ => true,
    }
}

pub open spec fn unary_below(u: ComplexUnaryWithSize, bound: nat) -> bool {
    term_below(u.unary.signless, bound)
}

pub open spec fn expr_below(e: ComplexExpr, bound: nat) -> bool {
    match e {
        ComplexExpr::Unary(u) => unary_below(u, bound),
        ComplexExpr::Binary(b) => unary_below(b.op1, bound) && unary_below(b.op2, bound),
        _ => true,
    }
}

pub open spec fn single_below(s: MedReprSingle, bound: nat) -> bool {
    unary_below(s.left, bound) && expr_below(s.right, bound)
}

/// Every address and constant that a meaning names is below `bound`.
pub open spec fn repr_addresses_below(m: MedRepr, bound: nat) -> bool {
    single_below(m.0, bound) && match m.1 {
        Some(x) => single_below(x, bound),
        None => true,
    }
}

/// Decoding the code of an instruction's meaning gives the meaning back,
/// for the meaning of every opcode and every address that fits in the
/// field, where the meaning names no address or constant of 4096 or more.
pub proof fn lemma_decoded_roundtrip(op: i64, a: u16, m: MedRepr)
    requires
        decoded(op, a) == Some(m),
        ignores_address(op) ==> a == 0,
        repr_addresses_below(m, 4096),
    ensures
        encoded(m) is Some,
        decoded_instruction(encoded(m)->Some_0) == Some(m),
{
    assert(is_opcode(op));
    assert(a < 4096);
    lemma_encode_decoded(op, a);
    lemma_decode_encoded(op, a);
}

/// Assembling a line and disassembling the code gives back the line's
/// meaning, second assignment and condition included, where the meaning
/// names no address or constant of 4096 or more.
pub proof fn lemma_assemble_disassemble_meaning(l: LineSyntax, m: MedRepr)
    requires
        line_repr(l) == Ok::<MedRepr, AnalysisErrorKind>(m),
        repr_addresses_below(m, 4096),
    ensures
        encoded(m) is Some,
        decoded_instruction(encoded(m)->Some_0) == Some(m),
{
    lemma_line_is_decodable(l, m);
    let (op, a) = line_code(l);
    lemma_decoded_roundtrip(op, a, m);
}

/// Every instruction that the analysis of a program gives, whose meaning
/// names no address or constant of 4096 or more, decodes from its code
/// back to itself.
pub proof fn lemma_analysis_roundtrip(code: Seq<char>, i: int)
    requires
        analysis_result(code) matches Ok(ms) && 0 <= i < ms.len() && repr_addresses_below(
            ms[i],
            4096,
        ),
    ensures
        encoded(analysis_result(code)->Ok_0[i]) is Some,
        decoded_instruction(encoded(analysis_result(code)->Ok_0[i])->Some_0) == Some(
            analysis_result(code)->Ok_0[i],
        ),
{
    let ms = analysis_result(code)->Ok_0;
    let lines = parse_lines(lex(code), 0, 1)->Ok_0;
    lemma_reprs_from(lines, 0);
    assert(lines[0 + i] == lines[i]);
    lemma_assemble_disassemble_meaning(lines[i], ms[i]);
}

} // verus!
