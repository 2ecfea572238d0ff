//! The line grammar of the assembly language, over tokens.
//!
//! ```text
//! line     := mnemonic [operand ["," operand]]
//! operand  := "-" signless | "+" signless | signless
//! signless := "|" term "|" | term
//! term     := "MQ" | "M" "(" number ["," number ":" number] ")"
//! ```

use vstd::prelude::*;
use super::lexer::{Token, Word};

verus! {

#[derive(Clone, Copy, PartialEq, Eq, Structural, Debug)]
pub enum Mnemonic {
    Load,
    Stor,
    Jump,
    Add,
    Sub,
    Mul,
    Div,
    Lsh,
    Rsh,
}

/// The prefix of an operand: none, `-` or `+`.
#[derive(Clone, Copy, PartialEq, Eq, Structural, Debug)]
pub enum Sign {
    Signless,
    Negative,
    NonNegative,
}

/// A bit range `from:to` written after an address.
#[derive(Clone, Copy, PartialEq, Eq, Structural, Debug)]
pub struct Slice {
    pub from: u32,
    pub to: u32,
}

#[derive(Clone, Copy, PartialEq, Eq, Structural, Debug)]
pub enum TermSyntax {
    MulQuo,
    Memory { address: u32, slice: Option<Slice> },
}

#[derive(Clone, Copy, PartialEq, Eq, Structural, Debug)]
pub struct OperandSyntax {
    pub sign: Sign,
    pub is_abs: bool,
    pub term: TermSyntax,
}

/// A line that the grammar accepts, with its 1-based line number.
#[derive(Clone, Copy, PartialEq, Eq, Structural, Debug)]
pub struct LineSyntax {
    pub line: usize,
    pub mnemonic: Mnemonic,
    pub first: Option<OperandSyntax>,
    pub second: Option<OperandSyntax>,
}

/// The mnemonic that a word names, if it names one.
pub open spec fn mnemonic_of(w: Word) -> Option<Mnemonic> {
    match w {
        Word::Load => Some(Mnemonic::Load),
        Word::Stor => Some(Mnemonic::Stor),
        Word::Jump => Some(Mnemonic::Jump),
        Word::Add => Some(Mnemonic::Add),
        Word::Sub => Some(Mnemonic::Sub),
        Word::Mul => Some(Mnemonic::Mul),
        Word::Div => Some(Mnemonic::Div),
        Word::Lsh => Some(Mnemonic::Lsh),
        Word::Rsh => Some(Mnemonic::Rsh),
        _ => None,
    }
}

/// A term in `t[p..end]` starting at `p`, and the position after it.
pub open spec fn parse_term(t: Seq<Token>, p: int, end: int) -> Option<(TermSyntax, int)> {
    if 0 <= p < end <= t.len() && t[p] == Token::Word(Word::MulQuo) {
        Some((TermSyntax::MulQuo, p + 1))
    } else if 0 <= p && p + 4 <= end <= t.len() && t[p] == Token::Word(Word::M) && t[p + 1]
        == Token::LParen && t[p + 2] is Number && t[p + 3] == Token::RParen {
        Some((TermSyntax::Memory { address: t[p + 2]->Number_0, slice: None }, p + 4))
    } else if 0 <= p && p + 8 <= end <= t.len() && t[p] == Token::Word(Word::M) && t[p + 1]
        == Token::LParen && t[p + 2] is Number && t[p + 3] == Token::Comma && t[p + 4] is Number
        && t[p + 5] == Token::Colon && t[p + 6] is Number && t[p + 7] == Token::RParen {
        Some(
            (
                TermSyntax::Memory {
                    address: t[p + 2]->Number_0,
                    slice: Some(Slice { from: t[p + 4]->Number_0, to: t[p + 6]->Number_0 }),
                },
                p + 8,
            ),
        )
    } else {
        None
    }
}

/// A term, or a term between bars, starting at `p`.
pub open spec fn parse_signless(t: Seq<Token>, p: int, end: int) -> Option<(bool, TermSyntax, int)> {
    if 0 <= p < end <= t.len() && t[p] == Token::Bar {
        match parse_term(t, p + 1, end) {
            Some((term, q)) => if q < end && t[q] == Token::Bar {
                Some((true, term, q + 1))
            } else {
                None
            },
            None => None,
        }
    } else {
        match parse_term(t, p, end) {
            Some((term, q)) => Some((false, term, q)),
            None => None,
        }
    }
}

/// An operand starting at `p`, and the position after it.
pub open spec fn parse_operand(t: Seq<Token>, p: int, end: int) -> Option<(OperandSyntax, int)> {
    let (sign, q) = if 0 <= p < end <= t.len() && t[p] == Token::Minus {
        (Sign::Negative, p + 1)
    } else if 0 <= p < end <= t.len() && t[p] == Token::Plus {
        (Sign::NonNegative, p + 1)
    } else {
        (Sign::Signless, p)
    };
    match parse_signless(t, q, end) {
        Some((is_abs, term, r)) => Some((OperandSyntax { sign, is_abs, term }, r)),
        None => None,
    }
}

/// The line held by the tokens `t[p..end]`, which are not empty and hold no
/// line break; `None` where the grammar refuses them.
pub open spec fn parse_line(t: Seq<Token>, p: int, end: int, line: usize) -> Option<LineSyntax> {
    if !(0 <= p < end <= t.len()) {
        None
    } else if !(t[p] is Word) || mnemonic_of(t[p]->Word_0) is None {
        None
    } else {
        let mnemonic = mnemonic_of(t[p]->Word_0)->Some_0;
        if p + 1 == end {
            Some(LineSyntax { line, mnemonic, first: None, second: None })
        } else {
            match parse_operand(t, p + 1, end) {
                None => None,
                Some((first, q)) => if q == end {
                    Some(LineSyntax { line, mnemonic, first: Some(first), second: None })
                } else if q < end && t[q] == Token::Comma {
                    match parse_operand(t, q + 1, end) {
                        Some((second, r)) => if r == end {
                            Some(
                                LineSyntax {
                                    line,
                                    mnemonic,
                                    first: Some(first),
                                    second: Some(second),
                                },
                            )
                        } else {
                            None
                        },
                        None => None,
                    }
                } else {
                    None
                },
            }
        }
    }
}

/// The position of the first line break at or after `p`, or the end.
pub open spec fn line_end(t: Seq<Token>, p: int) -> int
    decreases t.len() - p,
{
    if 0 <= p < t.len() && t[p] != Token::Newline {
        line_end(t, p + 1)
    } else {
        p
    }
}

pub proof fn lemma_line_end_bounds(t: Seq<Token>, p: int)
    requires
        0 <= p <= t.len(),
    ensures
        p <= line_end(t, p) <= t.len(),
        line_end(t, p) < t.len() ==> t[line_end(t, p)] == Token::Newline,
        forall|k: int| p <= k < line_end(t, p) ==> t[k] != Token::Newline,
    decreases t.len() - p,
{
    if p < t.len() && t[p] != Token::Newline {
        lemma_line_end_bounds(t, p + 1);
    }
}

/// The lines of `t[p..]` that hold tokens, the first of them numbered `line`;
/// or the number of the first line that the grammar refuses.
pub open spec fn parse_lines(t: Seq<Token>, p: int, line: nat) -> Result<Seq<LineSyntax>, nat>
    decreases t.len() - p,
{
    if p < 0 || p > t.len() {
        Ok(Seq::empty())
    } else {
        let e = line_end(t, p);
        proof {
            lemma_line_end_bounds(t, p);
        }
        let rest = if e < t.len() {
            parse_lines(t, e + 1, line + 1)
        } else {
            Ok(Seq::empty())
        };
        if e == p {
            rest
        } else {
            match parse_line(t, p, e, line as usize) {
                None => Err(line),
                Some(l) => match rest {
                    Ok(ls) => Ok(seq![l] + ls),
                    Err(k) => Err(k),
                },
            }
        }
    }
}

fn mnemonic_from(w: Word) -> (m: Option<Mnemonic>)
    ensures
        m == mnemonic_of(w),
{
    match w {
        Word::Load => Some(Mnemonic::Load),
        Word::Stor => Some(Mnemonic::Stor),
        Word::Jump => Some(Mnemonic::Jump),
        Word::Add => Some(Mnemonic::Add),
        Word::Sub => Some(Mnemonic::Sub),
        Word::Mul => Some(Mnemonic::Mul),
        Word::Div => Some(Mnemonic::Div),
        Word::Lsh => Some(Mnemonic::Lsh),
        Word::Rsh => Some(Mnemonic::Rsh),
        _ => None,
    }
}

fn token_number(t: Token) -> (n: Option<u32>)
    ensures
        n == (if t is Number {
            Some(t->Number_0)
        } else {
            None::<u32>
        }),
{
    match t {
        Token::Number(v) => Some(v),
        _ => None,
    }
}

fn term_at(t: &Vec<Token>, p: usize, end: usize) -> (r: Option<(TermSyntax, usize)>)
    requires
        end <= t@.len(),
    ensures
        match parse_term(t@, p as int, end as int) {
            Some((term, q)) => r == Some((term, q as usize)),
            None => r is None,
        },
{
    if p < end && t[p] == Token::Word(Word::MulQuo) {
        return Some((TermSyntax::MulQuo, p + 1));
    }
    if end >= 4 && p <= end - 4 && t[p] == Token::Word(Word::M) && t[p + 1] == Token::LParen {
        if let Some(address) = token_number(t[p + 2]) {
            if t[p + 3] == Token::RParen {
                return Some((TermSyntax::Memory { address, slice: None }, p + 4));
            }
            if end >= 8 && p <= end - 8 && t[p + 3] == Token::Comma && t[p + 5] == Token::Colon
                && t[p + 7] == Token::RParen {
                if let Some(from) = token_number(t[p + 4]) {
                    if let Some(to) = token_number(t[p + 6]) {
                        return Some(
                            (
                                TermSyntax::Memory { address, slice: Some(Slice { from, to }) },
                                p + 8,
                            ),
                        );
                    }
                }
            }
        }
    }
    None
}

fn signless_at(t: &Vec<Token>, p: usize, end: usize) -> (r: Option<(bool, TermSyntax, usize)>)
    requires
        end <= t@.len(),
    ensures
        match parse_signless(t@, p as int, end as int) {
            Some((a, term, q)) => r == Some((a, term, q as usize)),
            None => r is None,
        },
{
    if p < end && t[p] == Token::Bar {
        match term_at(t, p + 1, end) {
            Some((term, q)) => if q < end && t[q] == Token::Bar {
                Some((true, term, q + 1))
            } else {
                None
            },
            None => None,
        }
    } else {
        match term_at(t, p, end) {
            Some((term, q)) => Some((false, term, q)),
            None => None,
        }
    }
}

fn operand_at(t: &Vec<Token>, p: usize, end: usize) -> (r: Option<(OperandSyntax, usize)>)
    requires
        end <= t@.len(),
    ensures
        match parse_operand(t@, p as int, end as int) {
            Some((op, q)) => r == Some((op, q as usize)),
            None => r is None,
        },
{
    let (sign, q) = if p < end && t[p] == Token::Minus {
        (Sign::Negative, p + 1)
    } else if p < end && t[p] == Token::Plus {
        (Sign::NonNegative, p + 1)
    } else {
        (Sign::Signless, p)
    };
    match signless_at(t, q, end) {
        Some((is_abs, term, r)) => Some((OperandSyntax { sign, is_abs, term }, r)),
        None => None,
    }
}

/// The line held by `t[p..end]`, as `parse_line` defines it.
pub fn line_at(t: &Vec<Token>, p: usize, end: usize, line: usize) -> (r: Option<LineSyntax>)
    requires
        p < end <= t@.len(),
    ensures
        r == parse_line(t@, p as int, end as int, line),
{
    let mnemonic = match t[p] {
        Token::Word(w) => match mnemonic_from(w) {
            Some(m) => m,
            None => return None,
        },
        _ => return None,
    };
    if p + 1 == end {
        return Some(LineSyntax { line, mnemonic, first: None, second: None });
    }
    match operand_at(t, p + 1, end) {
        None => None,
        Some((first, q)) => if q == end {
            Some(LineSyntax { line, mnemonic, first: Some(first), second: None })
        } else if q < end && t[q] == Token::Comma {
            match operand_at(t, q + 1, end) {
                Some((second, r)) => if r == end {
                    Some(LineSyntax { line, mnemonic, first: Some(first), second: Some(second) })
                } else {
                    None
                },
                None => None,
            }
        } else {
            None
        },
    }
}

/// The lines of the whole token sequence, numbered from 1; or the number of
/// the first line that the grammar refuses.
pub fn parse_all_lines(t: &Vec<Token>) -> (r: Result<Vec<LineSyntax>, usize>)
    ensures
        match parse_lines(t@, 0, 1) {
            Ok(ls) => r matches Ok(v) && v@ == ls,
            Err(k) => r == Err::<Vec<LineSyntax>, usize>(k as usize),
        },
{
    let mut lines: Vec<LineSyntax> = Vec::new();
    let mut p: usize = 0;
    // the number of line breaks before `p`
    let mut breaks: usize = 0;
    let n = t.len();
    loop
        invariant
            n == t@.len(),
            p <= n,
            breaks <= p,
            parse_lines(t@, 0, 1) == match parse_lines(t@, p as int, breaks as nat + 1) {
                Ok(ls) => Ok(lines@ + ls),
                Err(k) => Err(k),
            },
        decreases n - p,
    {
        let mut e = p;
        while e < n && t[e] != Token::Newline
            invariant
                n == t@.len(),
                p <= e <= n,
                line_end(t@, p as int) == line_end(t@, e as int),
            decreases n - e,
        {
            e = e + 1;
        }
        proof {
            lemma_line_end_bounds(t@, p as int);
        }
        let ghost rest = if e < n {
            parse_lines(t@, e + 1, breaks as nat + 2)
        } else {
            Ok(Seq::empty())
        };
        if e > p {
            let line = breaks + 1;
            match line_at(t, p, e, line) {
                None => return Err(line),
                Some(l) => {
                    let ghost before = lines@;
                    lines.push(l);
                    assert(lines@ == before + seq![l]);
                    proof {
                        match rest {
                            Ok(ls) => {
                                assert(before + (seq![l] + ls) =~= lines@ + ls);
                            },
                            Err(_) => {},
                        }
                    }
                },
            }
        }
        if e >= n {
            assert(lines@ + Seq::<LineSyntax>::empty() =~= lines@);
            return Ok(lines);
        }
        breaks = breaks + 1;
        p = e + 1;
    }
}

} // verus!
