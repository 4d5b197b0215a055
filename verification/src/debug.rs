//! How a parse error is shown: the input line holding the error position,
//! and where and how wide the caret under it is.

use vstd::prelude::*;
use vstd::string::StringSliceAdditionalSpecFns;
use vstd::utf8::{decode_utf8, valid_utf8};
use crate::bytes::{eq_bytes, is_ascii_whitespace, is_space, NL};

verus! {

/// Calls `core::str::from_utf8`. Trusted, not proved: it gives text exactly
/// when the bytes are valid UTF-8 (no overlong forms, no surrogates, as
/// `valid_utf8` states it), and that text is the bytes decoded.
#[verifier::external_body]
fn utf8_text(bytes: &[u8]) -> (r: Option<&str>)
    ensures
        r is Some <==> valid_utf8(bytes@),
        r matches Some(s) ==> s@ == decode_utf8(bytes@),
{
    core::str::from_utf8(bytes).ok()
}

/// One past the last newline before `pos`, or 0.
pub open spec fn line_start_spec(input: Seq<u8>, pos: int) -> int
    decreases pos,
{
    if pos <= 0 || pos > input.len() {
        0
    } else if input[pos - 1] == 0x0au8 {
        pos
    } else {
        line_start_spec(input, pos - 1)
    }
}

/// The first newline at or after `pos`, or the end of the input.
pub open spec fn line_end_spec(input: Seq<u8>, pos: int) -> int
    decreases input.len() - pos,
{
    if pos < 0 || pos >= input.len() {
        input.len() as int
    } else if input[pos] == 0x0au8 {
        pos
    } else {
        line_end_spec(input, pos + 1)
    }
}

proof fn lemma_line_start(input: Seq<u8>, pos: int)
    ensures
        0 <= line_start_spec(input, pos),
        0 <= pos <= input.len() ==> line_start_spec(input, pos) <= pos,
        pos > input.len() ==> line_start_spec(input, pos) == 0,
    decreases pos,
{
    if 0 < pos <= input.len() && input[pos - 1] != 0x0au8 {
        lemma_line_start(input, pos - 1);
    }
}

proof fn lemma_line_end(input: Seq<u8>, pos: int)
    ensures
        0 <= pos ==> pos <= line_end_spec(input, pos) || pos > input.len(),
        line_end_spec(input, pos) <= input.len(),
    decreases input.len() - pos,
{
    if 0 <= pos < input.len() && input[pos] != 0x0au8 {
        lemma_line_end(input, pos + 1);
    }
}

/// The keywords whose whole width the caret covers: `if fi then else elif
/// for while until done`.
pub open spec fn caret_keywords() -> Seq<Seq<u8>> {
    seq![
        seq![0x69u8, 0x66u8],
        seq![0x66u8, 0x69u8],
        seq![0x74u8, 0x68u8, 0x65u8, 0x6eu8],
        seq![0x65u8, 0x6cu8, 0x73u8, 0x65u8],
        seq![0x65u8, 0x6cu8, 0x69u8, 0x66u8],
        seq![0x66u8, 0x6fu8, 0x72u8],
        seq![0x77u8, 0x68u8, 0x69u8, 0x6cu8, 0x65u8],
        seq![0x75u8, 0x6eu8, 0x74u8, 0x69u8, 0x6cu8],
        seq![0x64u8, 0x6fu8, 0x6eu8, 0x65u8],
    ]
}

/// The `k`-th caret keyword.
fn caret_keyword(k: usize) -> (r: Vec<u8>)
    requires
        k < 9,
    ensures
        r@ == caret_keywords()[k as int],
{
    let r = if k == 0 {
        vec![0x69u8, 0x66]
    } else if k == 1 {
        vec![0x66u8, 0x69]
    } else if k == 2 {
        vec![0x74u8, 0x68, 0x65, 0x6e]
    } else if k == 3 {
        vec![0x65u8, 0x6c, 0x73, 0x65]
    } else if k == 4 {
        vec![0x65u8, 0x6c, 0x69, 0x66]
    } else if k == 5 {
        vec![0x66u8, 0x6f, 0x72]
    } else if k == 6 {
        vec![0x77u8, 0x68, 0x69, 0x6c, 0x65]
    } else if k == 7 {
        vec![0x75u8, 0x6e, 0x74, 0x69, 0x6c]
    } else {
        vec![0x64u8, 0x6f, 0x6e, 0x65]
    };
    assert(r@ =~= caret_keywords()[k as int]);
    r
}

/// The caret width for the keywords of `kws` from index `k` on: the first
/// keyword found at `local` in `rest` and followed by the end or ASCII
/// whitespace gives its length; else 1.
pub open spec fn caret_len_from(rest: Seq<u8>, local: int, kws: Seq<Seq<u8>>, k: int) -> int
    decreases kws.len() - k,
{
    if k < 0 || k >= kws.len() {
        1
    } else {
        let kw = kws[k];
        let after = local + kw.len();
        if after <= rest.len() && rest.subrange(local, after) == kw && (after >= rest.len()
            || is_space(rest[after])) {
            kw.len() as int
        } else {
            caret_len_from(rest, local, kws, k + 1)
        }
    }
}

/// The caret width at `pos` for the line starting at `line_start`.
pub open spec fn caret_len_spec(input: Seq<u8>, pos: int, line_start: int) -> int {
    let rest = if line_start <= input.len() {
        input.subrange(line_start, input.len() as int)
    } else {
        Seq::empty()
    };
    caret_len_from(rest, pos - line_start, caret_keywords(), 0)
}

/// The caret is as wide as the keyword at `pos` when one of the block
/// keywords stands there as a whole word, else one byte.
pub fn compute_caret_len(input: &[u8], pos: usize, line_start: usize) -> (r: usize)
    requires
        line_start <= pos,
        pos - line_start <= usize::MAX - 5,
    ensures
        r == caret_len_spec(input@, pos as int, line_start as int),
{
    let local_pos = pos - line_start;
    let rest: &[u8] = if line_start <= input.len() {
        &input[line_start..input.len()]
    } else {
        &[]
    };
    let ghost rs = if line_start <= input@.len() {
        input@.subrange(line_start as int, input@.len() as int)
    } else {
        Seq::<u8>::empty()
    };
    assert(rest@ =~= rs);
    let mut k: usize = 0;
    while k < 9
        invariant
            k <= 9,
            rest@ == rs,
            rs == (if line_start <= input@.len() {
                input@.subrange(line_start as int, input@.len() as int)
            } else {
                Seq::<u8>::empty()
            }),
            local_pos == pos - line_start,
            local_pos <= usize::MAX - 5,
            caret_len_from(rs, local_pos as int, caret_keywords(), 0) == caret_len_from(
                rs,
                local_pos as int,
                caret_keywords(),
                k as int,
            ),
        decreases 9 - k,
    {
        let kw = caret_keyword(k);
        let kw_len = kw.len();
        let after = local_pos + kw_len;
        if after <= rest.len() && eq_bytes(&rest[local_pos..after], kw.as_slice()) {
            if after >= rest.len() || is_ascii_whitespace(rest[after]) {
                assert(rs.subrange(local_pos as int, after as int) == kw@);
                assert(caret_len_from(rs, local_pos as int, caret_keywords(), k as int) == kw_len);
                return kw_len;
            }
        }
        k = k + 1;
    }
    1
}

/// The line holding `pos` (`?` when it is not valid UTF-8), the caret's
/// column in it, and the caret's width.
pub fn format_line_and_caret(input: &[u8], pos: usize) -> (r: (String, usize, usize))
    requires
        pos <= usize::MAX - 5,
    ensures
        ({
            let ls = line_start_spec(input@, pos as int);
            let le = line_end_spec(input@, if pos <= input@.len() { pos as int } else { input@.len() as int });
            let line = input@.subrange(ls, le);
            &&& r.0@ == (if valid_utf8(line) { decode_utf8(line) } else { "?"@ })
            &&& r.1 == pos - ls
            &&& r.2 == caret_len_spec(input@, pos as int, ls)
        }),
{
    let mut line_start: usize = 0;
    if pos <= input.len() {
        let mut p = pos;
        while p > 0 && input[p - 1] != NL
            invariant
                p <= pos <= input@.len(),
                line_start_spec(input@, pos as int) == line_start_spec(input@, p as int),
            decreases p,
        {
            p = p - 1;
        }
        line_start = p;
    }
    proof {
        lemma_line_start(input@, pos as int);
    }
    let from = if pos <= input.len() {
        pos
    } else {
        input.len()
    };
    let mut line_end = from;
    while line_end < input.len() && input[line_end] != NL
        invariant
            from <= line_end <= input@.len(),
            line_end_spec(input@, from as int) == line_end_spec(input@, line_end as int),
        decreases input.len() - line_end,
    {
        line_end = line_end + 1;
    }
    proof {
        lemma_line_end(input@, from as int);
    }
    assert(line_start <= from);
    let line = match utf8_text(&input[line_start..line_end]) {
        Some(s) => s.to_owned(),
        None => "?".to_owned(),
    };
    let caret_col = pos - line_start;
    let caret_len = compute_caret_len(input, pos, line_start);
    (line, caret_col, caret_len)
}

} // verus!
