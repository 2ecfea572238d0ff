use assembler::analysis::{analysis, med_repr_to_string, MedRepr};
use assembler::{encode_instr, gen_encoding, step, MachineState};

const ALL_FORMS: &str = "
            LOAD MQ
            LOAD MQ,M(100)
            STOR M(100)
            LOAD M(100)
            LOAD -M(100)
            LOAD |M(100)|
            LOAD -|M(100)|
            JUMP M(100,0:19)
            JUMP M(100,20:39)
            JUMP +M(100,0:19)
            JUMP +M(100,20:39)
            ADD M(100)
            ADD |M(100)|
            SUB M(100)
            SUB |M(100)|
            MUL M(100)
            DIV M(100)
            LSH
            RSH
            STOR M(100, 8:19)
            STOR M(100, 28:39)
        ";

#[test]
fn all_med_repr() {
    let raw = ALL_FORMS;
    assert!(analysis(raw.to_string()).is_ok());
}

#[test]
fn all_encode() {
    let raw = ALL_FORMS;
    let mut mem: [i64; 1024] = [0; 1024];
    let semantics: Vec<MedRepr> = analysis(raw.to_string()).expect("Unsuccessful parse");
    encode_instr(&semantics, &mut mem);
}

#[test]
fn all_med_repr_correct() {
    let raw = ALL_FORMS;
    let analyzed = analysis(raw.to_string()).unwrap();
    let correct = [
        "(AC <- MQ, None)",
        "(MQ <- M(100), None)",
        "(M(100) <- AC, None)",
        "(AC <- M(100), None)",
        "(AC <- -M(100), None)",
        "(AC <- |M(100)|, None)",
        "(AC <- -|M(100)|, None)",
        "(PC <- 100, None)",
        "(PC <- 100, Some(PC <- SkipLeftInstruction))",
        "(PC <- 100*, None)",
        "(PC <- 100*, Some(PC <- SkipLeftInstruction*))",
        "(AC <- AC+M(100), None)",
        "(AC <- AC+|M(100)|, None)",
        "(AC <- AC-M(100), None)",
        "(AC <- AC-|M(100)|, None)",
        "(AC <- MQ*M(100)<40..79>, Some(MQ <- MQ*M(100)<0..39>))",
        "(AC <- AC%M(100), Some(MQ <- AC/M(100)))",
        "(AC <- AC*2, None)",
        "(AC <- AC/2, None)",
        "(M(100)<8..19> <- AC<28..39>, None)",
        "(M(100)<28..39> <- AC<28..39>, None)",
    ];

    for (line, compare) in analyzed.into_iter().zip(correct) {
        assert_eq!(med_repr_to_string(&line), compare);
    }
}

#[test]
fn test_program_1() {
    let program = "LOAD M(500)\nADD M(501)\nSTOR M(502)\n";
    let mut state = MachineState::new();
    state.memory[500] = 2;
    state.memory[501] = 3;
    gen_encoding(program.to_string(), &mut state).expect("Unsuccessful parse");
    let transfers = step(&mut state);
    println!("{:?}", transfers);
    assert_eq!(state.reg_stack.ac, 2);
    let transfers = step(&mut state);
    println!("{:?}", transfers);
    assert_eq!(state.reg_stack.ac, 5);
    let transfers = step(&mut state);
    println!("{:?}", transfers);
    assert_eq!(state.memory[502], 5);
}

#[test]
fn test_program_2() {
    let _program = "
            LOAD M(501)
            SUB M(502)
            DIV M(503)
            STOR M(505)
            LOAD MQ
            STOR M(504)
        ";
}
