//! Splitting assembly text into tokens.

use vstd::prelude::*;

verus! {

/// A run of letters, classified.
#[derive(Clone, Copy, PartialEq, Eq, Structural, Debug)]
pub enum Word {
    Load,
    Stor,
    Jump,
    Add,
    Sub,
    Mul,
    Div,
    Lsh,
    Rsh,
    MulQuo,
    M,
    Other,
}

/// One token of the assembly text.
///
/// A number holds its decimal value, or `NUMBER_CAP` where that value is
/// larger than any address.
#[derive(Clone, Copy, PartialEq, Eq, Structural, Debug)]
pub enum Token {
    Word(Word),
    Number(u32),
    LParen,
    RParen,
    Comma,
    Colon,
    Bar,
    Plus,
    Minus,
    Newline,
    Unknown,
}

/// Stands for every number above `u16::MAX`.
pub const NUMBER_CAP: u32 = 65536;

pub open spec fn is_space(c: char) -> bool {
    c == ' ' || c == '\t' || c == '\r'
}

pub open spec fn is_letter(c: char) -> bool {
    ('A' <= c && c <= 'Z') || ('a' <= c && c <= 'z')
}

pub open spec fn is_digit(c: char) -> bool {
    '0' <= c && c <= '9'
}

/// The value of a decimal digit.
pub open spec fn digit_value(c: char) -> nat {
    (c as int - '0' as int) as nat
}

/// The end of the run of letters that starts at `i`.
pub open spec fn letter_run_end(s: Seq<char>, i: int) -> int
    decreases s.len() - i,
{
    if 0 <= i < s.len() && is_letter(s[i]) {
        letter_run_end(s, i + 1)
    } else {
        i
    }
}

/// The end of the run of digits that starts at `i`.
pub open spec fn digit_run_end(s: Seq<char>, i: int) -> int
    decreases s.len() - i,
{
    if 0 <= i < s.len() && is_digit(s[i]) {
        digit_run_end(s, i + 1)
    } else {
        i
    }
}

/// The decimal value of the digits `s[i..j]`.
pub open spec fn digits_value(s: Seq<char>, i: int, j: int) -> nat
    decreases j - i,
{
    if j <= i {
        0
    } else {
        digits_value(s, i, j - 1) * 10 + digit_value(s[j - 1])
    }
}

/// A number as a token holds it: values above `u16::MAX` become `NUMBER_CAP`.
pub open spec fn capped(n: nat) -> nat {
    if n > u16::MAX {
        NUMBER_CAP as nat
    } else {
        n
    }
}

/// The class of a run of letters: a mnemonic, `MQ`, `M`, or anything else.
pub open spec fn classify(w: Seq<char>) -> Word {
    if w == seq!['L', 'O', 'A', 'D'] {
        Word::Load
    } else if w == seq!['S', 'T', 'O', 'R'] {
        Word::Stor
    } else if w == seq!['J', 'U', 'M', 'P'] {
        Word::Jump
    } else if w == seq!['A', 'D', 'D'] {
        Word::Add
    } else if w == seq!['S', 'U', 'B'] {
        Word::Sub
    } else if w == seq!['M', 'U', 'L'] {
        Word::Mul
    } else if w == seq!['D', 'I', 'V'] {
        Word::Div
    } else if w == seq!['L', 'S', 'H'] {
        Word::Lsh
    } else if w == seq!['R', 'S', 'H'] {
        Word::Rsh
    } else if w == seq!['M', 'Q'] {
        Word::MulQuo
    } else if w == seq!['M'] {
        Word::M
    } else {
        Word::Other
    }
}

/// The token that a single punctuation or line-break character stands for.
pub open spec fn single_char_token(c: char) -> Token {
    if c == '\n' {
        Token::Newline
    } else if c == '(' {
        Token::LParen
    } else if c == ')' {
        Token::RParen
    } else if c == ',' {
        Token::Comma
    } else if c == ':' {
        Token::Colon
    } else if c == '|' {
        Token::Bar
    } else if c == '+' {
        Token::Plus
    } else if c == '-' {
        Token::Minus
    } else {
        Token::Unknown
    }
}

pub proof fn lemma_letter_run_end_bounds(s: Seq<char>, i: int)
    requires
        0 <= i <= s.len(),
    ensures
        i <= letter_run_end(s, i) <= s.len(),
        i < s.len() && is_letter(s[i]) ==> letter_run_end(s, i) > i,
    decreases s.len() - i,
{
    if i < s.len() && is_letter(s[i]) {
        lemma_letter_run_end_bounds(s, i + 1);
    }
}

pub proof fn lemma_digit_run_end_bounds(s: Seq<char>, i: int)
    requires
        0 <= i <= s.len(),
    ensures
        i <= digit_run_end(s, i) <= s.len(),
        i < s.len() && is_digit(s[i]) ==> digit_run_end(s, i) > i,
    decreases s.len() - i,
{
    if i < s.len() && is_digit(s[i]) {
        lemma_digit_run_end_bounds(s, i + 1);
    }
}

/// The tokens of `s[i..]`: blanks separate tokens and are dropped, a run of
/// letters is a word, a run of digits a number, and every other character a
/// token of its own.
pub open spec fn lex_from(s: Seq<char>, i: int) -> Seq<Token>
    decreases s.len() - i,
{
    if i < 0 || i >= s.len() {
        Seq::empty()
    } else if is_space(s[i]) {
        lex_from(s, i + 1)
    } else if is_letter(s[i]) {
        let e = letter_run_end(s, i);
        proof {
            lemma_letter_run_end_bounds(s, i);
        }
        seq![Token::Word(classify(s.subrange(i, e)))] + lex_from(s, e)
    } else if is_digit(s[i]) {
        let e = digit_run_end(s, i);
        proof {
            lemma_digit_run_end_bounds(s, i);
        }
        seq![Token::Number(capped(digits_value(s, i, e)) as u32)] + lex_from(s, e)
    } else {
        seq![single_char_token(s[i])] + lex_from(s, i + 1)
    }
}

/// The tokens of the whole text.
pub open spec fn lex(s: Seq<char>) -> Seq<Token> {
    lex_from(s, 0)
}

fn run_equals(s: &Vec<char>, i: usize, e: usize, w: &[char]) -> (r: bool)
    requires
        i <= e <= s@.len(),
    ensures
        r == (s@.subrange(i as int, e as int) == w@),
{
    if e - i != w.len() {
        return false;
    }
    let mut k: usize = 0;
    while k < w.len()
        invariant
            i <= e <= s@.len(),
            e - i == w@.len(),
            k <= w@.len(),
            forall|j: int| 0 <= j < k ==> s@[i + j] == w@[j],
        decreases w@.len() - k,
    {
        if s[i + k] != w[k] {
            assert(s@.subrange(i as int, e as int)[k as int] != w@[k as int]);
            return false;
        }
        k = k + 1;
    }
    assert(s@.subrange(i as int, e as int) =~= w@);
    true
}

fn classify_run(s: &Vec<char>, i: usize, e: usize) -> (w: Word)
    requires
        i <= e <= s@.len(),
    ensures
        w == classify(s@.subrange(i as int, e as int)),
{
    let load: [char; 4] = ['L', 'O', 'A', 'D'];
    let stor: [char; 4] = ['S', 'T', 'O', 'R'];
    let jump: [char; 4] = ['J', 'U', 'M', 'P'];
    let add: [char; 3] = ['A', 'D', 'D'];
    let sub: [char; 3] = ['S', 'U', 'B'];
    let mul: [char; 3] = ['M', 'U', 'L'];
    let div: [char; 3] = ['D', 'I', 'V'];
    let lsh: [char; 3] = ['L', 'S', 'H'];
    let rsh: [char; 3] = ['R', 'S', 'H'];
    let mq: [char; 2] = ['M', 'Q'];
    let m: [char; 1] = ['M'];
    proof {
        assert(load@ =~= seq!['L', 'O', 'A', 'D']);
        assert(stor@ =~= seq!['S', 'T', 'O', 'R']);
        assert(jump@ =~= seq!['J', 'U', 'M', 'P']);
        assert(add@ =~= seq!['A', 'D', 'D']);
        assert(sub@ =~= seq!['S', 'U', 'B']);
        assert(mul@ =~= seq!['M', 'U', 'L']);
        assert(div@ =~= seq!['D', 'I', 'V']);
        assert(lsh@ =~= seq!['L', 'S', 'H']);
        assert(rsh@ =~= seq!['R', 'S', 'H']);
        assert(mq@ =~= seq!['M', 'Q']);
        assert(m@ =~= seq!['M']);
    }
    if run_equals(s, i, e, load.as_slice()) {
        Word::Load
    } else if run_equals(s, i, e, stor.as_slice()) {
        Word::Stor
    } else if run_equals(s, i, e, jump.as_slice()) {
        Word::Jump
    } else if run_equals(s, i, e, add.as_slice()) {
        Word::Add
    } else if run_equals(s, i, e, sub.as_slice()) {
        Word::Sub
    } else if run_equals(s, i, e, mul.as_slice()) {
        Word::Mul
    } else if run_equals(s, i, e, div.as_slice()) {
        Word::Div
    } else if run_equals(s, i, e, lsh.as_slice()) {
        Word::Lsh
    } else if run_equals(s, i, e, rsh.as_slice()) {
        Word::Rsh
    } else if run_equals(s, i, e, mq.as_slice()) {
        Word::MulQuo
    } else if run_equals(s, i, e, m.as_slice()) {
        Word::M
    } else {
        Word::Other
    }
}

fn single_token(c: char) -> (t: Token)
    ensures
        t == single_char_token(c),
{
    if c == '\n' {
        Token::Newline
    } else if c == '(' {
        Token::LParen
    } else if c == ')' {
        Token::RParen
    } else if c == ',' {
        Token::Comma
    } else if c == ':' {
        Token::Colon
    } else if c == '|' {
        Token::Bar
    } else if c == '+' {
        Token::Plus
    } else if c == '-' {
        Token::Minus
    } else {
        Token::Unknown
    }
}

/// The tokens of `s`, as `lex` defines them.
pub fn tokenize(s: &Vec<char>) -> (toks: Vec<Token>)
    ensures
        toks@ == lex(s@),
{
    let mut toks: Vec<Token> = Vec::new();
    let mut i: usize = 0;
    let n = s.len();
    while i < n
        invariant
            n == s@.len(),
            i <= n,
            lex(s@) == toks@ + lex_from(s@, i as int),
        decreases n - i,
    {
        let c = s[i];
        if c == ' ' || c == '\t' || c == '\r' {
            i = i + 1;
        } else if ('A' <= c && c <= 'Z') || ('a' <= c && c <= 'z') {
            let mut e = i + 1;
            while e < n && (('A' <= s[e] && s[e] <= 'Z') || ('a' <= s[e] && s[e] <= 'z'))
                invariant
                    n == s@.len(),
                    i < e <= n,
                    letter_run_end(s@, i as int) == letter_run_end(s@, e as int),
                decreases n - e,
            {
                e = e + 1;
            }
            let w = classify_run(s, i, e);
            let ghost before = toks@;
            toks.push(Token::Word(w));
            assert(toks@ + lex_from(s@, e as int) =~= before + lex_from(s@, i as int));
            i = e;
        } else if '0' <= c && c <= '9' {
            let mut e = i + 1;
            let mut value: u32 = (c as u32) - ('0' as u32);
            assert(digits_value(s@, i as int, i + 1) == digit_value(c)) by {
                reveal_with_fuel(digits_value, 2);
            }
            while e < n && '0' <= s[e] && s[e] <= '9'
                invariant
                    n == s@.len(),
                    i < e <= n,
                    digit_run_end(s@, i as int) == digit_run_end(s@, e as int),
                    value as nat == capped(digits_value(s@, i as int, e as int)),
                decreases n - e,
            {
                let d = (s[e] as u32) - ('0' as u32);
                let ghost old_v = digits_value(s@, i as int, e as int);
                assert(digits_value(s@, i as int, e + 1) == old_v * 10 + digit_value(s@[e as int]));
                if value > 65535 {
                    value = NUMBER_CAP;
                } else {
                    let next = value * 10 + d;
                    value = if next > 65535 {
                        NUMBER_CAP
                    } else {
                        next
                    };
                }
                e = e + 1;
            }
            let ghost before = toks@;
            toks.push(Token::Number(value));
            assert(toks@ + lex_from(s@, e as int) =~= before + lex_from(s@, i as int));
            i = e;
        } else {
            let t = single_token(c);
            let ghost before = toks@;
            toks.push(t);
            assert(toks@ + lex_from(s@, i + 1) =~= before + lex_from(s@, i as int));
            i = i + 1;
        }
    }
    toks
}

} // verus!
