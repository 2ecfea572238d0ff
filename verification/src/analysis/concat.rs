//! Analysing a program line by line: the analysis of two programs written
//! one after the other is the analysis of the first followed by that of the
//! second.

use vstd::prelude::*;
use super::lexer::{
    digit_run_end, digits_value, is_digit, is_letter, is_space, lemma_digit_run_end_bounds,
    lemma_letter_run_end_bounds, letter_run_end, lex, lex_from, Token,
};
use super::syntax::{
    lemma_line_end_bounds, line_end, parse_line, parse_lines, parse_operand, parse_signless,
    parse_term, LineSyntax,
};
use super::{analysis_result, line_repr, reprs_from, AnalysisError, MedRepr};

verus! {

/// The run ends at the same place whether or not more text follows, where
/// the text so far ends with a line break.
proof fn lemma_runs_prefix(a: Seq<char>, b: Seq<char>, i: int)
    requires
        0 <= i < a.len(),
        a.last() == '\n',
    ensures
        letter_run_end(a + b, i) == letter_run_end(a, i),
        digit_run_end(a + b, i) == digit_run_end(a, i),
        letter_run_end(a, i) < a.len(),
        digit_run_end(a, i) < a.len(),
    decreases a.len() - i,
{
    assert((a + b)[i] == a[i]);
    if i + 1 < a.len() {
        lemma_runs_prefix(a, b, i + 1);
    } else {
        assert(i == a.len() - 1);
    }
}

/// A run in text after a prefix ends where it ends in the text alone,
/// shifted by the prefix.
proof fn lemma_runs_shift(p: Seq<char>, b: Seq<char>, j: int)
    requires
        0 <= j <= b.len(),
    ensures
        letter_run_end(p + b, p.len() + j) == p.len() + letter_run_end(b, j),
        digit_run_end(p + b, p.len() + j) == p.len() + digit_run_end(b, j),
    decreases b.len() - j,
{
    if j < b.len() {
        assert((p + b)[p.len() + j] == b[j]);
        lemma_runs_shift(p, b, j + 1);
        assert(p.len() + j + 1 == p.len() + (j + 1));
    }
}

/// The value of digits depends only on the digits.
proof fn lemma_digits_value_same(s: Seq<char>, t: Seq<char>, i: int, j: int, d: int)
    requires
        0 <= i <= j <= s.len(),
        0 <= i + d <= j + d <= t.len(),
        forall|k: int| i <= k < j ==> s[k] == t[k + d],
    ensures
        digits_value(s, i, j) == digits_value(t, i + d, j + d),
    decreases j - i,
{
    if i < j {
        lemma_digits_value_same(s, t, i, j - 1, d);
        assert(s[j - 1] == t[j - 1 + d]);
        assert(j - 1 + d == (j + d) - 1);
    }
}

/// The tokens of text after a prefix are the tokens of the text alone.
proof fn lemma_lex_shift(p: Seq<char>, b: Seq<char>, j: int)
    requires
        0 <= j <= b.len(),
    ensures
        lex_from(p + b, p.len() + j) == lex_from(b, j),
    decreases b.len() - j,
{
    let s = p + b;
    let i = p.len() + j;
    if j < b.len() {
        assert(s[i] == b[j]);
        lemma_runs_shift(p, b, j);
        lemma_letter_run_end_bounds(b, j);
        lemma_digit_run_end_bounds(b, j);
        if is_space(b[j]) {
            lemma_lex_shift(p, b, j + 1);
            assert(i + 1 == p.len() + (j + 1));
        } else if is_letter(b[j]) {
            let e = letter_run_end(b, j);
            lemma_lex_shift(p, b, e);
            assert(s.subrange(i, p.len() + e) =~= b.subrange(j, e));
        } else if is_digit(b[j]) {
            let e = digit_run_end(b, j);
            lemma_lex_shift(p, b, e);
            lemma_digits_value_same(b, s, j, e, p.len() as int);
        } else {
            lemma_lex_shift(p, b, j + 1);
            assert(i + 1 == p.len() + (j + 1));
        }
    }
}

/// The tokens of text that ends with a line break, followed by more text,
/// are those of the first text followed by those of the second.
proof fn lemma_lex_from_concat(a: Seq<char>, b: Seq<char>, i: int)
    requires
        0 <= i <= a.len(),
        a.len() > 0 ==> a.last() == '\n',
    ensures
        lex_from(a + b, i) == lex_from(a, i) + lex_from(b, 0),
    decreases a.len() - i,
{
    let s = a + b;
    if i == a.len() {
        lemma_lex_shift(a, b, 0);
        assert(lex_from(a, i) =~= Seq::<Token>::empty());
        assert(lex_from(a, i) + lex_from(b, 0) =~= lex_from(b, 0));
    } else {
        assert(s[i] == a[i]);
        lemma_runs_prefix(a, b, i);
        lemma_letter_run_end_bounds(a, i);
        lemma_digit_run_end_bounds(a, i);
        if is_space(a[i]) {
            lemma_lex_from_concat(a, b, i + 1);
        } else if is_letter(a[i]) {
            let e = letter_run_end(a, i);
            lemma_lex_from_concat(a, b, e);
            assert(s.subrange(i, e) =~= a.subrange(i, e));
            assert(lex_from(s, i) =~= lex_from(a, i) + lex_from(b, 0));
        } else if is_digit(a[i]) {
            let e = digit_run_end(a, i);
            lemma_lex_from_concat(a, b, e);
            lemma_digits_value_same(s, a, i, e, 0);
            assert(lex_from(s, i) =~= lex_from(a, i) + lex_from(b, 0));
        } else {
            lemma_lex_from_concat(a, b, i + 1);
            assert(lex_from(s, i) =~= lex_from(a, i) + lex_from(b, 0));
        }
    }
}

/// The tokens of text that is empty or ends with a line break, followed by
/// more text, are those of the first text followed by those of the second.
pub proof fn lemma_lex_concat(a: Seq<char>, b: Seq<char>)
    requires
        a.len() > 0 ==> a.last() == '\n',
    ensures
        lex(a + b) == lex(a) + lex(b),
{
    lemma_lex_from_concat(a, b, 0);
}

/// The tokens of text that ends with a line break end with a line break.
pub proof fn lemma_lex_ends_with_newline(a: Seq<char>, i: int)
    requires
        0 <= i < a.len(),
        a.last() == '\n',
    ensures
        lex_from(a, i).len() > 0,
        lex_from(a, i).last() == Token::Newline,
    decreases a.len() - i,
{
    lemma_runs_prefix(a, Seq::empty(), i);
    assert(a + Seq::<char>::empty() =~= a);
    lemma_letter_run_end_bounds(a, i);
    lemma_digit_run_end_bounds(a, i);
    if is_space(a[i]) {
        lemma_lex_ends_with_newline(a, i + 1);
    } else if is_letter(a[i]) {
        lemma_lex_ends_with_newline(a, letter_run_end(a, i));
    } else if is_digit(a[i]) {
        lemma_lex_ends_with_newline(a, digit_run_end(a, i));
    } else if i + 1 < a.len() {
        lemma_lex_ends_with_newline(a, i + 1);
    } else {
        assert(lex_from(a, i + 1) =~= Seq::<Token>::empty());
    }
}

/// `t1[q1..q1 + len]` and `t2[q2..q2 + len]` hold the same tokens.
pub open spec fn same_window(t1: Seq<Token>, q1: int, t2: Seq<Token>, q2: int, len: int) -> bool {
    &&& 0 <= q1
    &&& 0 <= q2
    &&& 0 <= len
    &&& q1 + len <= t1.len()
    &&& q2 + len <= t2.len()
    &&& forall|k: int| 0 <= k < len ==> #[trigger] t1[q1 + k] == t2[q2 + k]
}

proof fn lemma_window_skip(t1: Seq<Token>, q1: int, t2: Seq<Token>, q2: int, len: int, d: int)
    requires
        same_window(t1, q1, t2, q2, len),
        0 <= d <= len,
    ensures
        same_window(t1, q1 + d, t2, q2 + d, len - d),
{
    assert forall|k: int| 0 <= k < len - d implies #[trigger] t1[(q1 + d) + k] == t2[(q2 + d) + k] by {
        assert(t1[q1 + (d + k)] == t2[q2 + (d + k)]);
        assert(q1 + (d + k) == (q1 + d) + k);
        assert(q2 + (d + k) == (q2 + d) + k);
    }
}

proof fn lemma_window_first(t1: Seq<Token>, q1: int, t2: Seq<Token>, q2: int, len: int)
    requires
        same_window(t1, q1, t2, q2, len),
    ensures
        len > 0 ==> t1[q1] == t2[q2],
        len > 1 ==> t1[q1 + 1] == t2[q2 + 1],
        len > 2 ==> t1[q1 + 2] == t2[q2 + 2],
        len > 3 ==> t1[q1 + 3] == t2[q2 + 3],
        len > 4 ==> t1[q1 + 4] == t2[q2 + 4],
        len > 5 ==> t1[q1 + 5] == t2[q2 + 5],
        len > 6 ==> t1[q1 + 6] == t2[q2 + 6],
        len > 7 ==> t1[q1 + 7] == t2[q2 + 7],
{
    if len > 0 {
        assert(t1[q1 + 0] == t2[q2 + 0]);
    }
    if len > 1 {
        assert(t1[q1 + 1] == t2[q2 + 1]);
    }
    if len > 2 {
        assert(t1[q1 + 2] == t2[q2 + 2]);
    }
    if len > 3 {
        assert(t1[q1 + 3] == t2[q2 + 3]);
    }
    if len > 4 {
        assert(t1[q1 + 4] == t2[q2 + 4]);
    }
    if len > 5 {
        assert(t1[q1 + 5] == t2[q2 + 5]);
    }
    if len > 6 {
        assert(t1[q1 + 6] == t2[q2 + 6]);
    }
    if len > 7 {
        assert(t1[q1 + 7] == t2[q2 + 7]);
    }
}

proof fn lemma_term_window(t1: Seq<Token>, q1: int, e1: int, t2: Seq<Token>, q2: int, e2: int)
    requires
        same_window(t1, q1, t2, q2, e1 - q1),
        e1 - q1 == e2 - q2,
    ensures
        match (parse_term(t1, q1, e1), parse_term(t2, q2, e2)) {
            (Some((x, r1)), Some((y, r2))) => x == y && r1 - q1 == r2 - q2,
            (None, None) => true,
            _ => false,
        },
{
    lemma_window_first(t1, q1, t2, q2, e1 - q1);
}

proof fn lemma_signless_window(t1: Seq<Token>, q1: int, e1: int, t2: Seq<Token>, q2: int, e2: int)
    requires
        same_window(t1, q1, t2, q2, e1 - q1),
        e1 - q1 == e2 - q2,
    ensures
        match (parse_signless(t1, q1, e1), parse_signless(t2, q2, e2)) {
            (Some((a1, x, r1)), Some((a2, y, r2))) => a1 == a2 && x == y && r1 - q1 == r2 - q2,
            (None, None) => true,
            _ => false,
        },
{
    lemma_window_first(t1, q1, t2, q2, e1 - q1);
    lemma_term_window(t1, q1, e1, t2, q2, e2);
    if e1 - q1 >= 1 {
        lemma_window_skip(t1, q1, t2, q2, e1 - q1, 1);
        lemma_term_window(t1, q1 + 1, e1, t2, q2 + 1, e2);
        match (parse_term(t1, q1 + 1, e1), parse_term(t2, q2 + 1, e2)) {
            (Some((x, r1)), Some((y, r2))) => {
                if r1 < e1 {
                    assert(t1[q1 + (r1 - q1)] == t2[q2 + (r1 - q1)]);
                }
            },
            _ => {},
        }
    }
}

proof fn lemma_operand_window(t1: Seq<Token>, q1: int, e1: int, t2: Seq<Token>, q2: int, e2: int)
    requires
        same_window(t1, q1, t2, q2, e1 - q1),
        e1 - q1 == e2 - q2,
    ensures
        match (parse_operand(t1, q1, e1), parse_operand(t2, q2, e2)) {
            (Some((x, r1)), Some((y, r2))) => x == y && r1 - q1 == r2 - q2,
            (None, None) => true,
            _ => false,
        },
{
    lemma_window_first(t1, q1, t2, q2, e1 - q1);
    lemma_signless_window(t1, q1, e1, t2, q2, e2);
    if e1 - q1 >= 1 {
        lemma_window_skip(t1, q1, t2, q2, e1 - q1, 1);
        lemma_signless_window(t1, q1 + 1, e1, t2, q2 + 1, e2);
    }
}

/// A line depends only on its own tokens.
proof fn lemma_line_window(
    t1: Seq<Token>,
    p1: int,
    e1: int,
    t2: Seq<Token>,
    p2: int,
    e2: int,
    line: usize,
)
    requires
        same_window(t1, p1, t2, p2, e1 - p1),
        e1 - p1 == e2 - p2,
    ensures
        parse_line(t1, p1, e1, line) == parse_line(t2, p2, e2, line),
{
    lemma_window_first(t1, p1, t2, p2, e1 - p1);
    if e1 - p1 >= 1 {
        lemma_window_skip(t1, p1, t2, p2, e1 - p1, 1);
        lemma_operand_window(t1, p1 + 1, e1, t2, p2 + 1, e2);
        match (parse_operand(t1, p1 + 1, e1), parse_operand(t2, p2 + 1, e2)) {
            (Some((x, r1)), Some((y, r2))) => {
                if r1 < e1 {
                    let d = r1 - p1;
                    assert(t1[p1 + d] == t2[p2 + d]);
                    lemma_window_skip(t1, p1, t2, p2, e1 - p1, d + 1);
                    lemma_operand_window(t1, r1 + 1, e1, t2, r2 + 1, e2);
                }
            },
            _ => {},
        }
    }
}

proof fn lemma_line_end_shift(pre: Seq<Token>, t: Seq<Token>, q: int)
    requires
        0 <= q <= t.len(),
    ensures
        line_end(pre + t, pre.len() + q) == pre.len() + line_end(t, q),
    decreases t.len() - q,
{
    if q < t.len() {
        assert((pre + t)[pre.len() + q] == t[q]);
        lemma_line_end_shift(pre, t, q + 1);
        assert(pre.len() + q + 1 == pre.len() + (q + 1));
    }
}

proof fn lemma_line_end_prefix(t: Seq<Token>, u: Seq<Token>, p: int)
    requires
        0 <= p < t.len(),
        t.last() == Token::Newline,
    ensures
        line_end(t + u, p) == line_end(t, p),
        line_end(t, p) < t.len(),
    decreases t.len() - p,
{
    assert((t + u)[p] == t[p]);
    if p + 1 < t.len() {
        lemma_line_end_prefix(t, u, p + 1);
    }
}

/// The lines of tokens after a prefix are those of the tokens alone.
proof fn lemma_lines_shift(pre: Seq<Token>, t: Seq<Token>, q: int, line: nat)
    requires
        0 <= q <= t.len(),
    ensures
        parse_lines(pre + t, pre.len() + q, line) == parse_lines(t, q, line),
    decreases t.len() - q,
{
    let s = pre + t;
    let p = pre.len() + q;
    lemma_line_end_shift(pre, t, q);
    lemma_line_end_bounds(t, q);
    let e = line_end(t, q);
    if e < t.len() {
        lemma_lines_shift(pre, t, e + 1, line + 1);
        assert(pre.len() + e + 1 == pre.len() + (e + 1));
    }
    if e > q {
        assert(same_window(s, p, t, q, e - q)) by {
            assert forall|k: int| 0 <= k < e - q implies #[trigger] s[p + k] == t[q + k] by {
                assert(p + k == pre.len() + (q + k));
            }
        }
        lemma_line_window(s, p, pre.len() + e, t, q, e, line as usize);
    }
}

/// The line syntax without its line number.
pub open spec fn unnumbered(l: LineSyntax) -> LineSyntax {
    LineSyntax { line: 0, ..l }
}

/// Lines without their line numbers.
pub open spec fn strip(ls: Seq<LineSyntax>) -> Seq<LineSyntax> {
    ls.map_values(|l: LineSyntax| unnumbered(l))
}

/// The number that the first line is given changes no line but in its
/// number.
proof fn lemma_lines_renumber(t: Seq<Token>, q: int, n: nat, m: nat)
    requires
        0 <= q <= t.len(),
    ensures
        parse_lines(t, q, n) is Ok == parse_lines(t, q, m) is Ok,
        parse_lines(t, q, n) is Ok ==> strip(parse_lines(t, q, n)->Ok_0) == strip(
            parse_lines(t, q, m)->Ok_0,
        ),
    decreases t.len() - q,
{
    lemma_line_end_bounds(t, q);
    let e = line_end(t, q);
    if e < t.len() {
        lemma_lines_renumber(t, e + 1, n + 1, m + 1);
    }
    if e > q {
        let ln = parse_line(t, q, e, n as usize);
        let lm = parse_line(t, q, e, m as usize);
        assert(ln is Some == lm is Some);
        if ln is Some {
            assert(unnumbered(ln->Some_0) == unnumbered(lm->Some_0));
        }
    }
    if parse_lines(t, q, n) is Ok {
        let rest_n = if e < t.len() {
            parse_lines(t, e + 1, n + 1)->Ok_0
        } else {
            Seq::empty()
        };
        let rest_m = if e < t.len() {
            parse_lines(t, e + 1, m + 1)->Ok_0
        } else {
            Seq::empty()
        };
        assert(strip(rest_n) == strip(rest_m));
        if e > q {
            let ln = parse_line(t, q, e, n as usize)->Some_0;
            let lm = parse_line(t, q, e, m as usize)->Some_0;
            lemma_strip_prepend(ln, rest_n);
            lemma_strip_prepend(lm, rest_m);
            assert(parse_lines(t, q, n)->Ok_0 == seq![ln] + rest_n);
            assert(parse_lines(t, q, m)->Ok_0 == seq![lm] + rest_m);
        } else {
            assert(parse_lines(t, q, n)->Ok_0 == rest_n);
            assert(parse_lines(t, q, m)->Ok_0 == rest_m);
        }
    }
}

proof fn lemma_strip_concat(x: Seq<LineSyntax>, y: Seq<LineSyntax>)
    ensures
        strip(x + y) == strip(x) + strip(y),
{
    assert(strip(x + y) =~= strip(x) + strip(y));
}

proof fn lemma_strip_prepend(l: LineSyntax, x: Seq<LineSyntax>)
    ensures
        strip(seq![l] + x) == seq![unnumbered(l)] + strip(x),
{
    assert(strip(seq![l] + x) =~= seq![unnumbered(l)] + strip(x));
}

/// The lines of tokens that end with a line break, followed by more tokens,
/// are those of the first tokens followed by those of the second, up to
/// their line numbers.
proof fn lemma_lines_concat(ta: Seq<Token>, tb: Seq<Token>, p: int, n: nat)
    requires
        0 <= p <= ta.len(),
        ta.len() > 0 ==> ta.last() == Token::Newline,
        parse_lines(ta, p, n) is Ok,
        parse_lines(tb, 0, 1) is Ok,
    ensures
        parse_lines(ta + tb, p, n) is Ok,
        strip(parse_lines(ta + tb, p, n)->Ok_0) == strip(parse_lines(ta, p, n)->Ok_0) + strip(
            parse_lines(tb, 0, 1)->Ok_0,
        ),
    decreases ta.len() - p,
{
    let s = ta + tb;
    let y = parse_lines(tb, 0, 1)->Ok_0;
    if p == ta.len() {
        lemma_lines_shift(ta, tb, 0, n);
        assert(ta.len() + 0 == ta.len());
        lemma_lines_renumber(tb, 0, n, 1);
        lemma_line_end_bounds(ta, p);
        assert(parse_lines(ta, p, n) == Ok::<Seq<LineSyntax>, nat>(Seq::empty()));
        assert(strip(Seq::<LineSyntax>::empty()) + strip(y) =~= strip(y));
    } else {
        lemma_line_end_prefix(ta, tb, p);
        lemma_line_end_bounds(ta, p);
        lemma_line_end_bounds(s, p);
        let e = line_end(ta, p);
        lemma_lines_concat(ta, tb, e + 1, n + 1);
        let rest_s = parse_lines(s, e + 1, n + 1)->Ok_0;
        let rest_a = parse_lines(ta, e + 1, n + 1)->Ok_0;
        if e > p {
            assert(same_window(s, p, ta, p, e - p)) by {
                assert forall|k: int| 0 <= k < e - p implies #[trigger] s[p + k] == ta[p + k] by {}
            }
            lemma_line_window(s, p, e, ta, p, e, n as usize);
            let l = parse_line(ta, p, e, n as usize)->Some_0;
            lemma_strip_prepend(l, rest_s);
            lemma_strip_prepend(l, rest_a);
            assert(seq![unnumbered(l)] + (strip(rest_a) + strip(y)) =~= (seq![unnumbered(l)]
                + strip(rest_a)) + strip(y));
        }
    }
}

/// The meanings of lines do not depend on their line numbers.
proof fn lemma_reprs_strip(x: Seq<LineSyntax>, y: Seq<LineSyntax>, i: int)
    requires
        strip(x) == strip(y),
        0 <= i <= x.len(),
    ensures
        reprs_from(x, i) is Ok == reprs_from(y, i) is Ok,
        reprs_from(x, i) is Ok ==> reprs_from(x, i) == reprs_from(y, i),
    decreases x.len() - i,
{
    assert(x.len() == strip(x).len() == strip(y).len() == y.len());
    if i < x.len() {
        assert(strip(x)[i] == strip(y)[i]);
        assert(strip(x)[i] == unnumbered(x[i]));
        assert(strip(y)[i] == unnumbered(y[i]));
        assert(line_repr(x[i]) == line_repr(unnumbered(x[i])));
        assert(line_repr(y[i]) == line_repr(unnumbered(y[i])));
        lemma_reprs_strip(x, y, i + 1);
    }
}

proof fn lemma_reprs_shift(x: Seq<LineSyntax>, y: Seq<LineSyntax>, j: int)
    requires
        0 <= j <= y.len(),
    ensures
        reprs_from(x + y, x.len() + j) == reprs_from(y, j),
    decreases y.len() - j,
{
    if j < y.len() {
        assert((x + y)[x.len() + j] == y[j]);
        lemma_reprs_shift(x, y, j + 1);
        assert(x.len() + j + 1 == x.len() + (j + 1));
    }
}

proof fn lemma_reprs_concat(x: Seq<LineSyntax>, y: Seq<LineSyntax>, i: int)
    requires
        0 <= i <= x.len(),
        reprs_from(x, i) is Ok,
        reprs_from(y, 0) is Ok,
    ensures
        reprs_from(x + y, i) == Ok::<Seq<MedRepr>, AnalysisError>(
            reprs_from(x, i)->Ok_0 + reprs_from(y, 0)->Ok_0,
        ),
    decreases x.len() - i,
{
    let ry = reprs_from(y, 0)->Ok_0;
    if i == x.len() {
        lemma_reprs_shift(x, y, 0);
        assert(x.len() + 0 == x.len());
        assert(Seq::<MedRepr>::empty() + ry =~= ry);
    } else {
        assert((x + y)[i] == x[i]);
        lemma_reprs_concat(x, y, i + 1);
        let m = line_repr(x[i])->Ok_0;
        let rest = reprs_from(x, i + 1)->Ok_0;
        assert(seq![m] + (rest + ry) =~= (seq![m] + rest) + ry);
    }
}

/// Lines are analysed one by one, in order: where two programs are each
/// accepted, and the first is empty or ends with a line break, the program
/// made of the first followed by the second is accepted, and its
/// instructions are those of the first followed by those of the second.
pub proof fn lemma_analysis_concat(a: Seq<char>, b: Seq<char>)
    requires
        a.len() > 0 ==> a.last() == '\n',
        analysis_result(a) is Ok,
        analysis_result(b) is Ok,
    ensures
        analysis_result(a + b) == Ok::<Seq<MedRepr>, AnalysisError>(
            analysis_result(a)->Ok_0 + analysis_result(b)->Ok_0,
        ),
{
    let ta = lex(a);
    let tb = lex(b);
    lemma_lex_concat(a, b);
    if a.len() > 0 {
        lemma_lex_ends_with_newline(a, 0);
    } else {
        assert(ta =~= Seq::<Token>::empty());
    }
    let x = parse_lines(ta, 0, 1)->Ok_0;
    let y = parse_lines(tb, 0, 1)->Ok_0;
    lemma_lines_concat(ta, tb, 0, 1);
    let z = parse_lines(ta + tb, 0, 1)->Ok_0;
    lemma_strip_concat(x, y);
    lemma_reprs_strip(z, x + y, 0);
    lemma_reprs_concat(x, y, 0);
}

} // verus!
