//! What single instructions do to the machine, stated over the opcode and
//! address of the code being executed and the numbers involved.

use vstd::prelude::*;
use crate::decoding::{address_of, opcode_of};
use crate::MachineView;
use super::{current_code, fetch_transfers, next_instruction_result};

verus! {

/// The jumps (opcodes 13 to 16) with target word X, the address field. A
/// jump that is taken (13 and 14 always, 15 and 16 where AC is not
/// negative) sets PC to X and continues with the left instruction of word
/// X for 13 and 15, and with its right instruction, still to be fetched,
/// for 14 and 16. A conditional jump that is not taken leaves the registers
/// and the half being executed as they were, and only fetches. No jump
/// touches memory, AC or MQ.
pub proof fn lemma_jump_lands(s: MachineView)
    requires
        1 <= s.reg_stack.pc <= 1024,
        13 <= opcode_of(current_code(s)) <= 16,
    ensures
        next_instruction_result(s) is Some,
        ({
            let code = current_code(s);
            let op = opcode_of(code);
            let t = next_instruction_result(s)->Some_0.0;
            &&& t.memory == s.memory
            &&& t.reg_stack.ac == s.reg_stack.ac
            &&& t.reg_stack.mq == s.reg_stack.mq
            &&& (op == 13 || op == 14 || s.reg_stack.ac >= 0) ==> {
                &&& t.reg_stack.pc == address_of(code) as i64
                &&& t.handling_right == (op == 14 || op == 16)
                &&& (op == 14 || op == 16) ==> t.right_fetch
                &&& (op == 13 || op == 15) ==> t.right_fetch == (s.right_fetch
                    && !s.handling_right)
            }
            &&& ((op == 15 || op == 16) && s.reg_stack.ac < 0) ==> {
                &&& t.reg_stack == s.reg_stack
                &&& t.handling_right == s.handling_right
                &&& next_instruction_result(s)->Some_0.1 == fetch_transfers(s)
            }
        }),
{
    let op = opcode_of(current_code(s));
    if op == 13 {
    } else if op == 14 {
    } else if op == 15 {
    } else {
    }
    if (op == 15 || op == 16) && s.reg_stack.ac < 0 {
        assert(next_instruction_result(s)->Some_0.1 =~= fetch_transfers(s));
    }
}

/// The loads from memory (opcodes 1 to 4) with address X below 1024 and
/// M(X) other than `i64::MIN`: `LOAD M(X)` sets AC to M(X), `LOAD -M(X)` to
/// its negation, `LOAD |M(X)|` to its absolute value, and `LOAD -|M(X)|` to
/// the negation of that; MQ and memory stay as they were.
pub proof fn lemma_load_values(s: MachineView)
    requires
        1 <= s.reg_stack.pc <= 1024,
        s.memory.len() == 1024,
        1 <= opcode_of(current_code(s)) <= 4,
        address_of(current_code(s)) < 1024,
        s.memory[address_of(current_code(s)) as int] != i64::MIN,
    ensures
        next_instruction_result(s) is Some,
        ({
            let op = opcode_of(current_code(s));
            let v = s.memory[address_of(current_code(s)) as int] as int;
            let t = next_instruction_result(s)->Some_0.0;
            &&& op == 1 ==> t.reg_stack.ac == v
            &&& op == 2 ==> t.reg_stack.ac == -v
            &&& op == 3 ==> t.reg_stack.ac == (if v < 0 {
                -v
            } else {
                v
            })
            &&& op == 4 ==> t.reg_stack.ac == (if v < 0 {
                v
            } else {
                -v
            })
            &&& t.reg_stack.mq == s.reg_stack.mq
            &&& t.memory == s.memory
        }),
{
    let op = opcode_of(current_code(s));
    if op == 1 {
    } else if op == 2 {
    } else if op == 3 {
    } else {
    }
}

/// Addition and subtraction (opcodes 5 to 8) with address X below 1024:
/// `ADD M(X)`, `SUB M(X)`, `ADD |M(X)|` and `SUB |M(X)|` set AC to AC plus
/// or minus M(X) or its absolute value wherever that lies within
/// `-(2^39 - 1)..=2^39 - 1`, negative results included; a result beyond
/// either end is cut to that end. MQ and memory stay as they were. Left
/// out: the inputs on which the exact result does not fit in 64 bits.
pub proof fn lemma_add_sub_values(s: MachineView)
    requires
        1 <= s.reg_stack.pc <= 1024,
        s.memory.len() == 1024,
        5 <= opcode_of(current_code(s)) <= 8,
        address_of(current_code(s)) < 1024,
        ({
            let op = opcode_of(current_code(s));
            let m = s.memory[address_of(current_code(s)) as int] as int;
            let v = if (op == 7 || op == 8) && m < 0 {
                -m
            } else {
                m
            };
            let exact = if op == 6 || op == 8 {
                s.reg_stack.ac - v
            } else {
                s.reg_stack.ac + v
            };
            &&& (op == 7 || op == 8) ==> m != i64::MIN
            &&& i64::MIN <= exact <= i64::MAX
        }),
    ensures
        next_instruction_result(s) is Some,
        ({
            let op = opcode_of(current_code(s));
            let m = s.memory[address_of(current_code(s)) as int] as int;
            let v = if (op == 7 || op == 8) && m < 0 {
                -m
            } else {
                m
            };
            let exact = if op == 6 || op == 8 {
                s.reg_stack.ac - v
            } else {
                s.reg_stack.ac + v
            };
            let t = next_instruction_result(s)->Some_0.0;
            &&& -0x7F_FFFF_FFFF <= exact <= 0x7F_FFFF_FFFF ==> t.reg_stack.ac == exact
            &&& exact > 0x7F_FFFF_FFFF ==> t.reg_stack.ac == 0x7F_FFFF_FFFF
            &&& exact < -0x7F_FFFF_FFFF ==> t.reg_stack.ac == -0x7F_FFFF_FFFF
            &&& t.reg_stack.mq == s.reg_stack.mq
            &&& t.memory == s.memory
        }),
{
    let op = opcode_of(current_code(s));
    if op == 5 {
    } else if op == 6 {
    } else if op == 7 {
    } else {
    }
}

/// `STOR M(X)` (opcode 33) with address X below 1024 writes the value of AC,
/// sign included, into word X and leaves every other word, AC and MQ as
/// they were.
pub proof fn lemma_store_value(s: MachineView)
    requires
        1 <= s.reg_stack.pc <= 1024,
        s.memory.len() == 1024,
        opcode_of(current_code(s)) == 33,
        address_of(current_code(s)) < 1024,
    ensures
        next_instruction_result(s) is Some,
        ({
            let x = address_of(current_code(s)) as int;
            let t = next_instruction_result(s)->Some_0.0;
            &&& t.memory.len() == 1024
            &&& t.memory[x] == s.reg_stack.ac
            &&& forall|j: int| 0 <= j < 1024 && j != x ==> t.memory[j] == s.memory[j]
            &&& t.reg_stack.ac == s.reg_stack.ac
            &&& t.reg_stack.mq == s.reg_stack.mq
        }),
{
}

/// Division rounding toward zero, as the machine's `DIV` performs it: for a
/// divisor `d` other than 0 and not the case `i64::MIN / -1`, the quotient
/// `q` and remainder `r` both exist, `q * d + r == x`, `|r| < |d|`, and `r`
/// is 0 or has the sign of `x`.
pub proof fn lemma_truncated_division(x: i64, d: i64)
    requires
        d != 0,
        !(x == i64::MIN && d == -1),
    ensures
        x.checked_div(d) is Some,
        x.checked_rem(d) is Some,
        ({
            let q = x.checked_div(d)->Some_0 as int;
            let r = x.checked_rem(d)->Some_0 as int;
            &&& q * d + r == x
            &&& (if r < 0 {
                -r
            } else {
                r
            }) < (if d < 0 {
                -d
            } else {
                d as int
            })
            &&& r == 0 || (r < 0) == (x < 0)
        }),
{
    let xa: int = if x < 0 {
        -x
    } else {
        x as int
    };
    let da: int = if d < 0 {
        -d
    } else {
        d as int
    };
    let qa = xa / da;
    let ra = xa % da;
    assert(da * qa + ra == xa && 0 <= ra < da && 0 <= qa <= xa && (da >= 2 ==> 2 * qa <= xa))
        by (nonlinear_arith)
        requires
            xa >= 0,
            da >= 1,
            qa == xa / da,
            ra == xa % da,
    ;
    let q: int = if x == 0 {
        0
    } else if (x > 0) == (d > 0) {
        qa
    } else {
        -qa
    };
    let r: int = if x == 0 {
        0
    } else if x > 0 {
        ra
    } else {
        -ra
    };
    assert(q * d + r == x) by (nonlinear_arith)
        requires
            da * qa + ra == xa,
            xa == (if x < 0 {
                -x
            } else {
                x as int
            }),
            da == (if d < 0 {
                -d
            } else {
                d as int
            }),
            d != 0,
            q == (if x == 0 {
                0
            } else if (x > 0) == (d > 0) {
                qa
            } else {
                -qa
            }),
            r == (if x == 0 {
                0
            } else if x > 0 {
                ra
            } else {
                -ra
            }),
            x == 0 ==> xa == 0,
            0 <= ra < da,
    ;
    assert(x.checked_div(d) == Some(q as i64));
    assert(x.checked_rem(d) == Some(r as i64));
}

/// `DIV M(X)` (opcode 12) with address X below 1024, M(X) not 0, and not
/// the case `i64::MIN / -1`: MQ gets the quotient and AC the remainder of
/// AC divided by M(X), rounded toward zero, so that `MQ * M(X) + AC` is the
/// old AC, `|AC| < |M(X)|`, and AC is 0 or has the sign of the old AC.
/// Memory stays as it was.
pub proof fn lemma_divide_values(s: MachineView)
    requires
        1 <= s.reg_stack.pc <= 1024,
        s.memory.len() == 1024,
        opcode_of(current_code(s)) == 12,
        address_of(current_code(s)) < 1024,
        s.memory[address_of(current_code(s)) as int] != 0,
        !(s.reg_stack.ac == i64::MIN && s.memory[address_of(current_code(s)) as int] == -1),
    ensures
        next_instruction_result(s) is Some,
        ({
            let m = s.memory[address_of(current_code(s)) as int] as int;
            let a = s.reg_stack.ac as int;
            let t = next_instruction_result(s)->Some_0.0;
            let q = t.reg_stack.mq as int;
            let r = t.reg_stack.ac as int;
            &&& q * m + r == a
            &&& (if r < 0 {
                -r
            } else {
                r
            }) < (if m < 0 {
                -m
            } else {
                m
            })
            &&& r == 0 || (r < 0) == (a < 0)
            &&& t.memory == s.memory
        }),
{
    lemma_truncated_division(s.reg_stack.ac, s.memory[address_of(current_code(s)) as int]);
}

/// The loads that involve MQ: `LOAD MQ` (opcode 10) copies MQ into AC, and
/// `LOAD MQ,M(X)` (opcode 9, X below 1024) copies M(X) into MQ and leaves
/// AC as it was. Memory stays as it was.
pub proof fn lemma_mq_loads(s: MachineView)
    requires
        1 <= s.reg_stack.pc <= 1024,
        s.memory.len() == 1024,
        opcode_of(current_code(s)) == 9 || opcode_of(current_code(s)) == 10,
        opcode_of(current_code(s)) == 9 ==> address_of(current_code(s)) < 1024,
    ensures
        next_instruction_result(s) is Some,
        ({
            let op = opcode_of(current_code(s));
            let t = next_instruction_result(s)->Some_0.0;
            &&& op == 10 ==> t.reg_stack.ac == s.reg_stack.mq && t.reg_stack.mq == s.reg_stack.mq
            &&& op == 9 ==> t.reg_stack.mq == s.memory[address_of(current_code(s)) as int]
                && t.reg_stack.ac == s.reg_stack.ac
            &&& t.memory == s.memory
        }),
{
    if opcode_of(current_code(s)) == 9 {
    } else {
    }
}

/// `MUL M(X)` (opcode 11, X below 1024) where MQ and M(X) are below `2^39`
/// in magnitude: the product `MQ * M(X)` is split into AC, its high part,
/// and MQ, its low 39 bits, so that `|AC| * 2^39 + |MQ|` is the magnitude
/// of the product, `|MQ| < 2^39`, and neither part has the sign opposite to
/// the product. Memory stays as it was.
pub proof fn lemma_multiply_values(s: MachineView)
    requires
        1 <= s.reg_stack.pc <= 1024,
        s.memory.len() == 1024,
        opcode_of(current_code(s)) == 11,
        address_of(current_code(s)) < 1024,
        -0x80_0000_0000 < s.reg_stack.mq < 0x80_0000_0000,
        -0x80_0000_0000 < s.memory[address_of(current_code(s)) as int] < 0x80_0000_0000,
    ensures
        next_instruction_result(s) is Some,
        ({
            let p = s.reg_stack.mq * s.memory[address_of(current_code(s)) as int];
            let t = next_instruction_result(s)->Some_0.0;
            let high = t.reg_stack.ac as int;
            let low = t.reg_stack.mq as int;
            &&& (if high < 0 {
                -high
            } else {
                high
            }) * 0x80_0000_0000 + (if low < 0 {
                -low
            } else {
                low
            }) == (if p < 0 {
                -p
            } else {
                p
            })
            &&& -0x80_0000_0000 < low < 0x80_0000_0000
            &&& p >= 0 ==> high >= 0 && low >= 0
            &&& p <= 0 ==> high <= 0 && low <= 0
            &&& t.memory == s.memory
        }),
{
    super::ac::lemma_product_split(address_of(current_code(s)), s);
}

/// `LSH` (opcode 20) doubles AC wherever the double fits in 64 bits; `RSH`
/// (opcode 21) halves it, rounding toward minus infinity, and cuts the
/// result to `-2^39..=2^39`. MQ and memory stay as they were.
pub proof fn lemma_shift_values(s: MachineView)
    requires
        1 <= s.reg_stack.pc <= 1024,
        opcode_of(current_code(s)) == 20 || opcode_of(current_code(s)) == 21,
    ensures
        next_instruction_result(s) is Some,
        ({
            let op = opcode_of(current_code(s));
            let a = s.reg_stack.ac as int;
            let t = next_instruction_result(s)->Some_0.0;
            let r = t.reg_stack.ac as int;
            &&& op == 20 && -0x4000_0000_0000_0000 <= a < 0x4000_0000_0000_0000 ==> r == 2 * a
            &&& op == 21 && -0x100_0000_0000 <= a <= 0x100_0000_0001 ==> 2 * r <= a <= 2 * r + 1
            &&& op == 21 && a > 0x100_0000_0001 ==> r == 0x80_0000_0000
            &&& op == 21 && a < -0x100_0000_0000 ==> r == -0x80_0000_0000
            &&& t.reg_stack.mq == s.reg_stack.mq
            &&& t.memory == s.memory
        }),
{
    let a = s.reg_stack.ac;
    assert(-0x4000_0000_0000_0000 <= a < 0x4000_0000_0000_0000 ==> (a << 1u32) == 2 * a)
        by (bit_vector);
    assert(2 * (a >> 1u32) <= a <= 2 * (a >> 1u32) + 1) by (bit_vector);
}

/// The stores into an address field with X below 1024 and word X a 40-bit
/// word: `STOR M(X,8:19)` (opcode 18) puts the low 12 bits of AC into the
/// address of the instruction in bits 20..39 and keeps the other
/// instruction and the opcode; `STOR M(X,28:39)` (opcode 19) puts them into
/// the address of the instruction in bits 0..19 and keeps every bit above
/// it. Every other word stays as it was.
pub proof fn lemma_store_address_fields(s: MachineView)
    requires
        1 <= s.reg_stack.pc <= 1024,
        s.memory.len() == 1024,
        opcode_of(current_code(s)) == 18 || opcode_of(current_code(s)) == 19,
        address_of(current_code(s)) < 1024,
        0 <= s.memory[address_of(current_code(s)) as int] < 0x100_0000_0000,
    ensures
        next_instruction_result(s) is Some,
        ({
            let op = opcode_of(current_code(s));
            let x = address_of(current_code(s)) as int;
            let w = s.memory[x];
            let ac = s.reg_stack.ac;
            let t = next_instruction_result(s)->Some_0.0;
            let n = t.memory[x];
            &&& t.memory.len() == 1024
            &&& op == 18 ==> n & 0xFFFFF == w & 0xFFFFF && (n >> 20u32) & 0xFFF == ac & 0xFFF
                && n >> 32u32 == w >> 32u32
            &&& op == 19 ==> n & 0xFFF == ac & 0xFFF && n >> 12u32 == w >> 12u32
            &&& forall|j: int| 0 <= j < 1024 && j != x ==> t.memory[j] == s.memory[j]
            &&& t.reg_stack.ac == s.reg_stack.ac
            &&& t.reg_stack.mq == s.reg_stack.mq
        }),
{
    let x = address_of(current_code(s)) as int;
    super::mem::lemma_address_field_store(s.memory[x], s.reg_stack.ac);
    if opcode_of(current_code(s)) == 18 {
    } else {
    }
}

} // verus!
