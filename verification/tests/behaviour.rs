use assembler::analysis::{
    analysis, med_repr_to_string, AnalysisError, AnalysisErrorKind, ComplexTerm, ComplexUnary,
    MedRepr,
};
use assembler::decoding::{decode, is_decodable};
use assembler::encoding::encode_single;
use assembler::rtn::{Addressing, Amount, Register, RegisterTransfer};
use assembler::{can_step, encode_instr, gen_encoding, step, MachineState, RegisterTransferList};

fn reprs(code: &str) -> Vec<MedRepr> {
    analysis(code.to_string()).expect("program should be accepted")
}

fn error_of(code: &str) -> AnalysisError {
    analysis(code.to_string()).expect_err("program should be refused")
}

fn run(program: &str, setup: &[(usize, i64)]) -> MachineState {
    let mut state = MachineState::new();
    for &(addr, value) in setup {
        state.memory[addr] = value;
    }
    gen_encoding(program.to_string(), &mut state).expect("program should be accepted");
    state
}

fn transfer_strings(ts: &[RegisterTransfer]) -> Vec<String> {
    ts.iter().map(|t| t.to_debug_string()).collect()
}

#[test]
fn blank_lines_and_spaces_are_skipped() {
    let ms = reprs("\n\n   LOAD   M( 7 )  \n\t\nLSH\n");
    assert_eq!(ms.len(), 2);
    assert_eq!(med_repr_to_string(&ms[0]), "(AC <- M(7), None)");
    assert_eq!(med_repr_to_string(&ms[1]), "(AC <- AC*2, None)");
    assert_eq!(reprs("").len(), 0);
}

#[test]
fn syntax_error_reports_its_line() {
    assert_eq!(
        error_of("LOAD M(1)\n\nFOO M(2)\n"),
        AnalysisError { line: 3, kind: AnalysisErrorKind::Syntax }
    );
    assert_eq!(error_of("LOAD M(1"), AnalysisError { line: 1, kind: AnalysisErrorKind::Syntax });
    assert_eq!(error_of("LOAD M(1) ?"), AnalysisError { line: 1, kind: AnalysisErrorKind::Syntax });
    assert_eq!(
        error_of("LOAD M(1), M(2), M(3)"),
        AnalysisError { line: 1, kind: AnalysisErrorKind::Syntax }
    );
}

#[test]
fn syntax_errors_come_before_operand_errors() {
    assert_eq!(
        error_of("ADD -M(1)\nLOAD M(1"),
        AnalysisError { line: 2, kind: AnalysisErrorKind::Syntax }
    );
}

#[test]
fn refused_operands() {
    let invalid = |code: &str| {
        assert_eq!(
            error_of(code),
            AnalysisError { line: 1, kind: AnalysisErrorKind::InvalidOperands },
            "{}",
            code
        )
    };
    invalid("ADD -M(1)");
    invalid("ADD M(1,0:19)");
    invalid("JUMP M(1)");
    invalid("JUMP M(1,0:20)");
    invalid("JUMP -M(1,0:19)");
    invalid("STOR M(1,0:19)");
    invalid("STOR |M(1)|");
    invalid("LOAD +M(1)");
    invalid("LOAD M(1),M(2)");
    invalid("LOAD MQ,-M(2)");
    invalid("MUL |M(1)|");
    invalid("DIV MQ");
    invalid("LSH M(1)");
    invalid("RSH MQ");
    invalid("LOAD");
}

#[test]
fn address_out_of_range() {
    assert_eq!(
        error_of("LOAD M(1)\nLOAD M(65536)"),
        AnalysisError { line: 2, kind: AnalysisErrorKind::AddressOutOfRange }
    );
    assert_eq!(
        error_of("JUMP M(99999999999999999999,0:19)"),
        AnalysisError { line: 1, kind: AnalysisErrorKind::AddressOutOfRange }
    );
    assert_eq!(med_repr_to_string(&reprs("LOAD M(65535)")[0]), "(AC <- M(65535), None)");
}

#[test]
fn encode_gives_opcode_and_address() {
    let codes: Vec<i64> = reprs(
        "LOAD MQ\nLOAD MQ,M(100)\nSTOR M(100)\nLOAD M(100)\nLOAD -M(100)\nLOAD |M(100)|\n\
         LOAD -|M(100)|\nJUMP M(100,0:19)\nJUMP M(100,20:39)\nJUMP +M(100,0:19)\n\
         JUMP +M(100,20:39)\nADD M(100)\nADD |M(100)|\nSUB M(100)\nSUB |M(100)|\nMUL M(100)\n\
         DIV M(100)\nLSH\nRSH\nSTOR M(100, 8:19)\nSTOR M(100, 28:39)",
    )
    .iter()
    .map(encode_single)
    .collect();
    let opcodes = [10, 9, 33, 1, 2, 3, 4, 13, 14, 15, 16, 5, 7, 6, 8, 11, 12, 20, 21, 18, 19];
    for (code, op) in codes.iter().zip(opcodes) {
        let address = if op == 10 || op == 20 || op == 21 { 0 } else { 100 };
        assert_eq!(*code, (op << 12) | address);
    }
}

#[test]
fn decode_undoes_encode() {
    for m in reprs(
        "LOAD MQ\nLOAD MQ,M(100)\nSTOR M(100)\nLOAD M(4095)\nLOAD -M(1)\nLOAD |M(2)|\n\
         LOAD -|M(3)|\nJUMP M(4,0:19)\nJUMP M(5,20:39)\nJUMP +M(6,0:19)\nJUMP +M(7,20:39)\n\
         ADD M(8)\nADD |M(9)|\nSUB M(10)\nSUB |M(11)|\nMUL M(12)\nDIV M(13)\nLSH\nRSH\n\
         STOR M(14, 8:19)\nSTOR M(15, 28:39)",
    ) {
        let code = encode_single(&m);
        assert!(is_decodable(code));
        assert_eq!(decode(code), m);
    }
}

#[test]
fn decode_known_codes() {
    assert_eq!(med_repr_to_string(&decode((1 << 12) | 500)), "(AC <- M(500), None)");
    assert_eq!(
        med_repr_to_string(&decode((16 << 12) | 42)),
        "(PC <- 42*, Some(PC <- SkipLeftInstruction*))"
    );
    assert!(!is_decodable(17 << 12));
    assert!(!is_decodable(0));
    assert!(!is_decodable(34 << 12));
}

#[test]
fn encode_instr_packs_two_per_word() {
    let ms = reprs("LOAD M(1)\nADD M(2)\nSTOR M(3)");
    let mut mem = [7i64; 1024];
    encode_instr(&ms, &mut mem);
    assert_eq!(mem[0], ((1 << 12) | 1) | (((5 << 12) | 2) << 20));
    assert_eq!(mem[1], (33 << 12) | 3);
    assert_eq!(mem[2], 7);
    assert_eq!(mem[1023], 7);
}

#[test]
fn gen_encoding_refusal_leaves_state() {
    let mut state = MachineState::new();
    state.memory[0] = 99;
    assert_eq!(
        gen_encoding("LOAD X".to_string(), &mut state),
        Err(AnalysisError { line: 1, kind: AnalysisErrorKind::Syntax })
    );
    assert_eq!(state.memory[0], 99);
}

#[test]
fn first_step_transfers() {
    let mut state = run("LOAD M(500)\nADD M(501)\nSTOR M(502)\n", &[(500, 2), (501, 3)]);
    assert!(can_step(&state));
    let ts = step(&mut state);
    assert_eq!(
        transfer_strings(&ts),
        vec![
            "PC <- 1",
            "MAR <- PC",
            "MBR <- M(MAR)",
            "IBR <- MBR<20..39>",
            "IR <- MBR<0..7>",
            "MAR <- MBR<8..19>",
            "MBR <- M(MAR)",
            "AC <- MBR",
        ]
    );
    assert!(state.handling_right);
    let ts = step(&mut state);
    assert_eq!(
        transfer_strings(&ts),
        vec!["IR <- IBR<0..7>", "MAR <- IBR<8..19>", "MBR <- M(MAR)", "AC <- AC + MBR", "PC <- PC + 1"]
    );
    assert_eq!(state.reg_stack.pc, 2);
    assert!(!state.handling_right);
    let ts = step(&mut state);
    assert_eq!(
        transfer_strings(&ts),
        vec![
            "MAR <- PC",
            "MBR <- M(MAR)",
            "IBR <- MBR<20..39>",
            "IR <- MBR<0..7>",
            "MAR <- MBR<8..19>",
            "MBR <- AC",
            "M(MAR) <- MBR",
        ]
    );
    assert_eq!(state.memory[502], 5);
}

#[test]
fn loads_negate_and_take_magnitude() {
    let mut state = run("LOAD -M(10)\nLOAD |M(11)|\nLOAD -|M(11)|\nLOAD MQ,M(10)\nLOAD MQ", &[(10, 6), (11, -4)]);
    step(&mut state);
    assert_eq!(state.reg_stack.ac, -6);
    step(&mut state);
    assert_eq!(state.reg_stack.ac, 4);
    let ts = step(&mut state);
    assert_eq!(state.reg_stack.ac, -4);
    assert_eq!(ts.last().unwrap().to_debug_string(), "AC<1..1> <- AC ~<1..1>");
    step(&mut state);
    assert_eq!(state.reg_stack.mq, 6);
    step(&mut state);
    assert_eq!(state.reg_stack.ac, 6);
}

#[test]
fn addition_is_clamped_to_40_bits() {
    let limit: i64 = (1 << 39) - 1;
    let mut state = run("LOAD M(10)\nADD M(10)\nADD |M(11)|", &[(10, limit), (11, -5)]);
    step(&mut state);
    step(&mut state);
    assert_eq!(state.reg_stack.ac, limit);
    let mut state = run("LOAD M(10)\nADD |M(11)|", &[(10, 1), (11, -5)]);
    step(&mut state);
    step(&mut state);
    assert_eq!(state.reg_stack.ac, 6);
}

#[test]
fn subtraction_subtracts_the_operand() {
    let mut state = run("LOAD M(10)\nSUB M(11)", &[(10, 10), (11, 3)]);
    step(&mut state);
    let ts = step(&mut state);
    assert_eq!(state.reg_stack.ac, 7);
    assert_eq!(ts[3].to_debug_string(), "AC <- AC - MBR");
    let mut state = run("LOAD M(10)\nSUB |M(11)|", &[(10, 0), (11, -3)]);
    step(&mut state);
    step(&mut state);
    assert_eq!(state.reg_stack.ac, -3);
    let limit: i64 = (1 << 39) - 1;
    let mut state = run("LOAD -M(10)\nSUB M(10)", &[(10, limit)]);
    step(&mut state);
    step(&mut state);
    assert_eq!(state.reg_stack.ac, -limit);
}

#[test]
fn division_sets_remainder_and_quotient() {
    let mut state = run("LOAD M(10)\nDIV M(11)", &[(10, -17), (11, 5)]);
    step(&mut state);
    let ts = step(&mut state);
    assert_eq!(state.reg_stack.ac, -2);
    assert_eq!(state.reg_stack.mq, -3);
    assert_eq!(
        transfer_strings(&ts[1..]),
        vec!["MAR <- IBR<8..19>", "MBR <- M(MAR)", "MQ <- AC / MBR", "AC <- AC % MBR", "PC <- PC + 1"]
    );
}

#[test]
fn division_by_zero_cannot_step() {
    let mut state = run("LOAD M(10)\nDIV M(11)", &[(10, 7)]);
    step(&mut state);
    assert!(!can_step(&state));
}

#[test]
fn shifts() {
    let mut state = run("LOAD M(10)\nLSH\nRSH\nRSH", &[(10, 21)]);
    step(&mut state);
    let ts = step(&mut state);
    assert_eq!(state.reg_stack.ac, 42);
    assert_eq!(ts.last().unwrap().to_debug_string(), "PC <- PC + 1");
    assert_eq!(ts[1].to_debug_string(), "AC <- AC <<");
    let ts = step(&mut state);
    assert_eq!(state.reg_stack.ac, 21);
    assert_eq!(ts.last().unwrap().to_debug_string(), "AC <- AC >>");
    step(&mut state);
    assert_eq!(state.reg_stack.ac, 10);
}

#[test]
fn multiplication_splits_the_product() {
    let mut state = run("LOAD MQ,M(10)\nMUL M(11)", &[(10, 3), (11, 4)]);
    step(&mut state);
    assert_eq!(state.reg_stack.mq, 3);
    assert!(can_step(&state));
    let ts = step(&mut state);
    assert_eq!((state.reg_stack.ac, state.reg_stack.mq), (0, 12));
    assert_eq!(
        transfer_strings(&ts[1..]),
        vec![
            "MAR <- IBR<8..19>",
            "MBR <- M(MAR)",
            "AC <- MQ * MBR<40..79>",
            "MQ <- MQ * MBR<0..39>",
            "PC <- PC + 1",
        ]
    );
    let mut state = run("LOAD MQ,M(10)\nMUL M(11)", &[(10, 1 << 38), (11, -6)]);
    step(&mut state);
    step(&mut state);
    // -6 * 2^38 = -(3 * 2^39)
    assert_eq!((state.reg_stack.ac, state.reg_stack.mq), (-3, 0));
    let mut state = run("LOAD MQ,M(10)\nMUL M(11)", &[(10, (1 << 39) - 1), (11, (1 << 39) - 1)]);
    step(&mut state);
    step(&mut state);
    let p: i128 = ((1i128 << 39) - 1) * ((1i128 << 39) - 1);
    assert_eq!(state.reg_stack.ac as i128 * (1i128 << 39) + state.reg_stack.mq as i128, p);
}

#[test]
fn store_into_address_fields() {
    let mut state = run(
        "LOAD M(10)\nSTOR M(11, 8:19)\nSTOR M(12, 28:39)\nLSH",
        &[(10, 0xABC), (11, 0xFF_FFFF_FFFF), (12, 0)],
    );
    step(&mut state);
    let ts = step(&mut state);
    assert_eq!(state.memory[11], 0xFF_ABCF_FFFF);
    assert_eq!(ts[3].to_debug_string(), "M(MAR)<8..19> <- MBR<28..39>");
    step(&mut state);
    assert_eq!(state.memory[12], 0xABC);
}

#[test]
fn unconditional_jumps() {
    // word 0: JUMP M(3,20:39) | LOAD M(10); word 2 (PC 3): LOAD M(11) | LOAD M(12)
    let mut state = run(
        "JUMP M(3,20:39)\nLOAD M(10)\nLSH\nLSH\nLOAD M(11)\nLOAD M(12)",
        &[(10, 1), (11, 2), (12, 3)],
    );
    let ts = step(&mut state);
    assert_eq!(ts.last().unwrap().to_debug_string(), "PC <- 3");
    assert_eq!(state.reg_stack.pc, 3);
    assert!(state.handling_right);
    let ts = step(&mut state);
    assert_eq!(
        transfer_strings(&ts),
        vec![
            "MAR <- PC",
            "MBR <- M(MAR)",
            "IBR <- MBR<20..39>",
            "IR <- IBR<0..7>",
            "MAR <- IBR<8..19>",
            "MBR <- M(MAR)",
            "AC <- MBR",
            "PC <- PC + 1",
        ]
    );
    assert_eq!(state.reg_stack.ac, 3);
}

#[test]
fn conditional_jump_depends_on_sign_of_ac() {
    let mut state = run("LOAD -M(10)\nJUMP +M(3,0:19)", &[(10, 5)]);
    step(&mut state);
    let ts = step(&mut state);
    assert_eq!(ts.len(), 1);
    assert_eq!(state.reg_stack.pc, 1);
    assert!(state.handling_right);

    let mut state = run("LOAD M(10)\nJUMP +M(3,0:19)", &[(10, 5)]);
    step(&mut state);
    step(&mut state);
    assert_eq!(state.reg_stack.pc, 3);
    assert!(!state.handling_right);
}

#[test]
fn cannot_step_outside_memory() {
    let mut state = MachineState::new();
    state.reg_stack.pc = 1025;
    assert!(!can_step(&state));
    state.reg_stack.pc = -1;
    assert!(!can_step(&state));
    let state = MachineState::new();
    assert!(!can_step(&state));
}

#[test]
fn rendering_of_transfers_and_terms() {
    let t = RegisterTransfer {
        from: assembler::rtn::Operand {
            operand_type: Addressing::MixedConst(Register::PC, 1, assembler::rtn::BinaryOperation::Addition),
            amount: Amount::Full,
        },
        to: assembler::rtn::Operand {
            operand_type: Addressing::Register(Register::PC),
            amount: Amount::Range { start: 0, end: 1234567 },
        },
    };
    assert_eq!(t.to_debug_string(), "PC<0..1234567> <- PC + 1");
    let m = decode((9 << 12) | 0);
    assert_eq!(med_repr_to_string(&m), "(MQ <- M(0), None)");
    assert_eq!(ComplexUnary::basic(ComplexTerm::AC), ComplexUnary { signless: ComplexTerm::AC, is_neg: false, is_abs: false });
}

#[test]
fn memory_and_register_accessors() {
    let mut state = MachineState::new();
    let mut words = vec![0i64; 1024];
    words[3] = 9;
    state.set_memory(words.clone());
    assert_eq!(state.memory(), words);
    state.reg_stack.ac = 4;
    let regs = state.get_reg_stack();
    assert_eq!((regs.get_ac(), regs.get_mq(), regs.get_pc()), (4, 0, 0));
    let list = RegisterTransferList { transfer: vec![] };
    assert!(list.get_transfer().is_empty());
}

#[test]
fn only_stores_write_memory() {
    let mut state = run("LOAD M(10)\nADD M(11)\nLSH\nLOAD MQ,M(10)", &[(10, 4), (11, 5)]);
    let before = state.memory();
    for _ in 0..4 {
        step(&mut state);
        assert_eq!(state.memory(), before);
    }
    assert_eq!((state.reg_stack.ac, state.reg_stack.mq), (18, 4));
}

#[test]
fn analysis_of_concatenated_programs() {
    let a = "LOAD M(1)\n\nADD |M(2)|\n";
    let b = "  JUMP +M(3,20:39)\nDIV M(4)\nLSH";
    let ra = reprs(a);
    let rb = reprs(b);
    let joined = reprs(&format!("{}{}", a, b));
    assert_eq!(joined.len(), ra.len() + rb.len());
    let expected: Vec<MedRepr> = ra.iter().chain(rb.iter()).copied().collect();
    assert_eq!(joined, expected);
}
