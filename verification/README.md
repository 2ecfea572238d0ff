# assembler

An assembler and simulator for the IAS machine, verified with Verus.

Assembly text (`LOAD M(500)`, `ADD |M(501)|`, `JUMP +M(7,20:39)`, ...) is
analysed line by line into the meaning of each instruction, one or two
assignments such as `AC <- AC+M(501)`. The meanings are encoded as 20-bit
instruction codes (an 8-bit opcode and a 12-bit address), two to a 40-bit
memory word, and the machine executes them one instruction at a time,
reporting each step as register transfers (`MAR <- PC`, `MBR <- M(MAR)`, ...).

## Layout

- `src/analysis/`: the intermediate representation, the lexer and line
  grammar, and the meaning of each mnemonic; `analysis` ties them together.
- `src/encoding/`, `src/decoding/`: meaning to instruction code and back.
- `src/synthesis/`: executing one instruction, one module per register that
  an instruction writes (AC, MQ, PC, memory).
- `src/lib.rs`: the machine state, `encode_instr`, `gen_encoding`, `step`.
- `src/rtn.rs`, `src/text.rs`: register transfer notation and the textual
  form of values.
- `src/roundtrip.rs`: what assembling and disassembling undo of each other,
  and that the machine runs what was assembled.
- `app/`: the WebAssembly interface (`wasm_bindgen`, `serde`, `tsify`).

Every function in `src/` carries a contract that Verus proves; the only
trusted item is `text::string_from_chars`.
