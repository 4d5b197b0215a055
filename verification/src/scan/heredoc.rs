//! Here-documents: a statement holding `<<WORD` (or `<<-WORD`, or a quoted
//! word) is followed, after its newline, by body lines up to the line that
//! is exactly `WORD` (with leading tabs removed for `<<-`). The body is
//! opaque to the scanners: it carries no separators, keywords or quoting.

use vstd::prelude::*;
use crate::bytes::{eq_bytes, is_ascii_whitespace, is_space, DQUOTE, LT, MINUS, NL, SQUOTE, TAB};

verus! {

/// A byte that ends an unquoted here-document word.
pub open spec fn ends_word(b: u8) -> bool {
    is_space(b) || b == 0x3bu8 || b == 0x26u8 || b == 0x7cu8 || b == 0x3cu8 || b == 0x3eu8
        || b == 0x28u8 || b == 0x29u8
}

/// The index of the first `<<` operator (not part of `<<<`) in `seg` from
/// `k` on that is outside double quotes, given whether `k` is inside them.
pub open spec fn find_op(seg: Seq<u8>, k: int, in_q: bool) -> Option<int>
    decreases seg.len() - k,
{
    if k < 0 || k + 1 >= seg.len() {
        None
    } else if seg[k] == 0x22u8 {
        find_op(seg, k + 1, !in_q)
    } else if !in_q && seg[k] == 0x3cu8 && seg[k + 1] == 0x3cu8 && (k + 2 >= seg.len()
        || seg[k + 2] != 0x3cu8) && (k == 0 || seg[k - 1] != 0x3cu8) {
        Some(k)
    } else {
        find_op(seg, k + 1, in_q)
    }
}

/// The first index at or after `k` holding `b`, or the length.
pub open spec fn find_byte(s: Seq<u8>, k: int, b: u8) -> int
    decreases s.len() - k,
{
    if k < 0 || k >= s.len() {
        s.len() as int
    } else if s[k] == b {
        k
    } else {
        find_byte(s, k + 1, b)
    }
}

/// The first index at or after `k` that is not a space or tab.
pub open spec fn skip_blanks(s: Seq<u8>, k: int) -> int
    decreases s.len() - k,
{
    if k < 0 || k >= s.len() {
        k
    } else if s[k] == 0x20u8 || s[k] == 0x09u8 {
        skip_blanks(s, k + 1)
    } else {
        k
    }
}

/// The first index at or after `k` that ends an unquoted word.
pub open spec fn word_stop(s: Seq<u8>, k: int) -> int
    decreases s.len() - k,
{
    if k < 0 || k >= s.len() {
        s.len() as int
    } else if ends_word(s[k]) {
        k
    } else {
        word_stop(s, k + 1)
    }
}

/// The here-document a statement opens: its delimiter word and whether
/// leading tabs are stripped from the body lines (`<<-`).
pub open spec fn heredoc_delim(seg: Seq<u8>) -> Option<(Seq<u8>, bool)> {
    match find_op(seg, 0, false) {
        None => None,
        Some(k) => {
            let p = k + 2;
            let strip = p < seg.len() && seg[p] == 0x2du8;
            let w = skip_blanks(seg, if strip { p + 1 } else { p });
            if w < seg.len() && (seg[w] == 0x27u8 || seg[w] == 0x22u8) {
                let e = find_byte(seg, w + 1, seg[w]);
                Some((seg.subrange(w + 1, e), strip))
            } else {
                let e = word_stop(seg, w);
                if e <= w {
                    None
                } else {
                    Some((seg.subrange(w, e), strip))
                }
            }
        }
    }
}

/// The first index at or after `k` that is not a tab, up to `e`.
pub open spec fn skip_tabs(s: Seq<u8>, k: int, e: int) -> int
    decreases e - k,
{
    if k < e && s[k] == 0x09u8 {
        skip_tabs(s, k + 1, e)
    } else {
        k
    }
}

/// Where a here-document body starting at `p` ends: the newline after the
/// delimiter line, or the end of the text when no line closes it.
pub open spec fn body_end(line: Seq<u8>, p: int, delim: Seq<u8>, strip: bool) -> int
    decreases line.len() - p,
{
    if p < 0 || p >= line.len() {
        line.len() as int
    } else {
        let e = find_byte(line, p, 0x0au8);
        let c = if strip { skip_tabs(line, p, e) } else { p };
        if line.subrange(c, e) == delim {
            e
        } else if e >= line.len() {
            line.len() as int
        } else {
            proof {
                lemma_find_byte(line, p, 0x0au8);
            }
            body_end(line, e + 1, delim, strip)
        }
    }
}

/// Where scanning resumes when the statement `line[start..i]` ends at the
/// newline `i`: at the newline that closes its here-document body, when it
/// opens one.
pub open spec fn heredoc_skip_spec(line: Seq<u8>, start: int, i: int) -> Option<int> {
    if 0 <= start <= i < line.len() && line[i] == 0x0au8 {
        match heredoc_delim(line.subrange(start, i)) {
            Some((d, strip)) => Some(body_end(line, i + 1, d, strip)),
            None => None,
        }
    } else {
        None
    }
}

pub proof fn lemma_find_byte(s: Seq<u8>, k: int, b: u8)
    requires
        0 <= k <= s.len(),
    ensures
        k <= find_byte(s, k, b) <= s.len(),
        find_byte(s, k, b) < s.len() ==> s[find_byte(s, k, b)] == b,
    decreases s.len() - k,
{
    if k < s.len() && s[k] != b {
        lemma_find_byte(s, k + 1, b);
    }
}

pub proof fn lemma_skip_tabs(s: Seq<u8>, k: int, e: int)
    requires
        0 <= k <= e <= s.len(),
    ensures
        k <= skip_tabs(s, k, e) <= e,
    decreases e - k,
{
    if k < e && s[k] == 0x09u8 {
        lemma_skip_tabs(s, k + 1, e);
    }
}

pub proof fn lemma_body_end(line: Seq<u8>, p: int, delim: Seq<u8>, strip: bool)
    requires
        0 <= p,
    ensures
        p <= line.len() ==> p <= body_end(line, p, delim, strip) <= line.len(),
    decreases line.len() - p,
{
    if p < line.len() {
        lemma_find_byte(line, p, 0x0au8);
        let e = find_byte(line, p, 0x0au8);
        if e < line.len() {
            lemma_body_end(line, e + 1, delim, strip);
        }
    }
}

/// A here-document body resumes the scan strictly past the newline that
/// ends its statement, and never past the end of the text.
pub proof fn lemma_heredoc_skip(line: Seq<u8>, start: int, i: int)
    ensures
        heredoc_skip_spec(line, start, i) matches Some(r) ==> i < r <= line.len(),
{
    if 0 <= start <= i < line.len() && line[i] == 0x0au8 {
        if let Some((d, strip)) = heredoc_delim(line.subrange(start, i)) {
            lemma_body_end(line, i + 1, d, strip);
        }
    }
}

fn find_op_exec(seg: &[u8]) -> (r: Option<usize>)
    ensures
        r matches Some(k) ==> find_op(seg@, 0, false) == Some(k as int),
        r is None ==> find_op(seg@, 0, false) is None,
{
    let mut k: usize = 0;
    let mut in_q = false;
    while seg.len() > 0 && k < seg.len() - 1
        invariant
            k <= seg@.len(),
            find_op(seg@, 0, false) == find_op(seg@, k as int, in_q),
        decreases seg@.len() - k,
    {
        if seg[k] == DQUOTE {
            in_q = !in_q;
        } else if !in_q && seg[k] == LT && seg[k + 1] == LT && (k + 2 >= seg.len() || seg[k + 2]
            != LT) && (k == 0 || seg[k - 1] != LT) {
            return Some(k);
        }
        k = k + 1;
    }
    None
}

fn find_byte_exec(s: &[u8], k: usize, b: u8) -> (r: usize)
    requires
        k <= s@.len(),
    ensures
        r == find_byte(s@, k as int, b),
{
    let mut j = k;
    while j < s.len() && s[j] != b
        invariant
            k <= j <= s@.len(),
            find_byte(s@, k as int, b) == find_byte(s@, j as int, b),
        decreases s@.len() - j,
    {
        j = j + 1;
    }
    j
}

fn skip_blanks_exec(s: &[u8], k: usize) -> (r: usize)
    requires
        k <= s@.len(),
    ensures
        r == skip_blanks(s@, k as int),
        k <= r <= s@.len(),
{
    let mut j = k;
    while j < s.len() && (s[j] == 0x20 || s[j] == TAB)
        invariant
            k <= j <= s@.len(),
            skip_blanks(s@, k as int) == skip_blanks(s@, j as int),
        decreases s@.len() - j,
    {
        j = j + 1;
    }
    j
}

fn word_stop_exec(s: &[u8], k: usize) -> (r: usize)
    requires
        k <= s@.len(),
    ensures
        r == word_stop(s@, k as int),
{
    let mut j = k;
    while j < s.len()
        invariant
            k <= j <= s@.len(),
            word_stop(s@, k as int) == word_stop(s@, j as int),
        decreases s@.len() - j,
    {
        let b = s[j];
        if is_ascii_whitespace(b) || b == 0x3b || b == 0x26 || b == 0x7c || b == 0x3c || b == 0x3e
            || b == 0x28 || b == 0x29 {
            return j;
        }
        j = j + 1;
    }
    j
}

/// The delimiter of the here-document the statement `seg` opens, if any.
pub fn delimiter(seg: &[u8]) -> (r: Option<(Vec<u8>, bool)>)
    ensures
        r matches Some((d, strip)) ==> heredoc_delim(seg@) == Some((d@, strip)),
        r is None ==> heredoc_delim(seg@) is None,
{
    let k = match find_op_exec(seg) {
        Some(k) => k,
        None => {
            return None;
        },
    };
    proof {
        lemma_find_op_bound(seg@, 0, false);
    }
    let n = seg.len();
    let p = k + 2;
    let strip = p < seg.len() && seg[p] == MINUS;
    let w = skip_blanks_exec(seg, if strip { p + 1 } else { p });
    if w < seg.len() && (seg[w] == SQUOTE || seg[w] == DQUOTE) {
        proof {
            lemma_find_byte(seg@, w + 1, seg@[w as int]);
        }
        let e = find_byte_exec(seg, w + 1, seg[w]);
        Some((crate::bytes::copy_range(seg, w + 1, e), strip))
    } else {
        proof {
            lemma_word_stop(seg@, w as int);
        }
        let e = word_stop_exec(seg, w);
        if e <= w {
            None
        } else {
            Some((crate::bytes::copy_range(seg, w, e), strip))
        }
    }
}

pub proof fn lemma_find_op_bound(seg: Seq<u8>, k: int, in_q: bool)
    ensures
        find_op(seg, k, in_q) matches Some(j) ==> 0 <= j && j + 2 <= seg.len(),
    decreases seg.len() - k,
{
    if !(k < 0 || k + 1 >= seg.len()) {
        if seg[k] == 0x22u8 {
            lemma_find_op_bound(seg, k + 1, !in_q);
        } else {
            lemma_find_op_bound(seg, k + 1, in_q);
        }
    }
}

pub proof fn lemma_word_stop(s: Seq<u8>, k: int)
    requires
        0 <= k <= s.len(),
    ensures
        k <= word_stop(s, k) <= s.len(),
    decreases s.len() - k,
{
    if k < s.len() && !ends_word(s[k]) {
        lemma_word_stop(s, k + 1);
    }
}

/// Where the scan resumes after the here-document body that the statement
/// `line[start..i]` opens, when `i` is the newline ending that statement.
pub fn skip(line: &[u8], start: usize, i: usize) -> (r: Option<usize>)
    ensures
        r matches Some(v) ==> heredoc_skip_spec(line@, start as int, i as int) == Some(v as int),
        r is None ==> heredoc_skip_spec(line@, start as int, i as int) is None,
{
    if !(start <= i && i < line.len() && line[i] == NL) {
        return None;
    }
    let seg = &line[start..i];
    let (delim, strip) = match delimiter(seg) {
        Some(x) => x,
        None => {
            return None;
        },
    };
    let ghost d = delim@;
    let mut p = i + 1;
    loop
        invariant
            i + 1 <= p <= line@.len(),
            d == delim@,
            heredoc_skip_spec(line@, start as int, i as int) == Some(body_end(line@, p as int, d, strip)),
        decreases line@.len() - p,
    {
        if p >= line.len() {
            return Some(line.len());
        }
        proof {
            lemma_find_byte(line@, p as int, NL);
        }
        let e = find_byte_exec(line, p, NL);
        let c = if strip {
            proof {
                lemma_skip_tabs(line@, p as int, e as int);
            }
            skip_tabs_exec(line, p, e)
        } else {
            p
        };
        if eq_bytes(&line[c..e], delim.as_slice()) {
            return Some(e);
        }
        if e >= line.len() {
            return Some(line.len());
        }
        p = e + 1;
    }
}

fn skip_tabs_exec(s: &[u8], k: usize, e: usize) -> (r: usize)
    requires
        k <= e <= s@.len(),
    ensures
        r == skip_tabs(s@, k as int, e as int),
{
    let mut j = k;
    while j < e && s[j] == TAB
        invariant
            k <= j <= e <= s@.len(),
            skip_tabs(s@, k as int, e as int) == skip_tabs(s@, j as int, e as int),
        decreases e - j,
    {
        j = j + 1;
    }
    j
}

} // verus!
