//! How a statement changes the nesting depth of compound commands: every
//! word that opens one (`if while until for case`) adds a level, every word
//! that closes one (`fi done esac`) removes a level.

use vstd::prelude::*;
use crate::bytes::{eq_bytes, is_ascii_whitespace, is_space, SEMI};

verus! {

/// A byte that separates words for keyword counting.
pub open spec fn is_word_sep(b: u8) -> bool {
    is_space(b) || b == 0x3bu8
}

/// `if`
pub open spec fn kw_if() -> Seq<u8> {
    seq![0x69u8, 0x66u8]
}

/// `while`
pub open spec fn kw_while() -> Seq<u8> {
    seq![0x77u8, 0x68u8, 0x69u8, 0x6cu8, 0x65u8]
}

/// `until`
pub open spec fn kw_until() -> Seq<u8> {
    seq![0x75u8, 0x6eu8, 0x74u8, 0x69u8, 0x6cu8]
}

/// `for`
pub open spec fn kw_for() -> Seq<u8> {
    seq![0x66u8, 0x6fu8, 0x72u8]
}

/// `case`
pub open spec fn kw_case() -> Seq<u8> {
    seq![0x63u8, 0x61u8, 0x73u8, 0x65u8]
}

/// `fi`
pub open spec fn kw_fi() -> Seq<u8> {
    seq![0x66u8, 0x69u8]
}

/// `done`
pub open spec fn kw_done() -> Seq<u8> {
    seq![0x64u8, 0x6fu8, 0x6eu8, 0x65u8]
}

/// `esac`
pub open spec fn kw_esac() -> Seq<u8> {
    seq![0x65u8, 0x73u8, 0x61u8, 0x63u8]
}

/// `+1` for a word that opens a compound command, `-1` for one that closes
/// it, `0` otherwise.
pub open spec fn keyword_delta(w: Seq<u8>) -> int {
    if w == kw_if() || w == kw_while() || w == kw_until() || w == kw_for() || w == kw_case() {
        1
    } else if w == kw_fi() || w == kw_done() || w == kw_esac() {
        -1
    } else {
        0
    }
}

/// The end of the word starting at `k`.
pub open spec fn word_end(s: Seq<u8>, k: int) -> int
    decreases s.len() - k,
{
    if k < 0 || k >= s.len() || is_word_sep(s[k]) {
        k
    } else {
        word_end(s, k + 1)
    }
}

pub proof fn lemma_word_end(s: Seq<u8>, k: int)
    requires
        0 <= k <= s.len(),
    ensures
        k <= word_end(s, k) <= s.len(),
        word_end(s, k) < s.len() ==> is_word_sep(s[word_end(s, k)]),
    decreases s.len() - k,
{
    if k < s.len() && !is_word_sep(s[k]) {
        lemma_word_end(s, k + 1);
    }
}

/// The summed keyword deltas of the words of `s` from `i` on.
pub open spec fn delta_from(s: Seq<u8>, i: int) -> int
    decreases s.len() - i,
{
    if i < 0 || i >= s.len() {
        0
    } else if is_word_sep(s[i]) {
        delta_from(s, i + 1)
    } else {
        let e = word_end(s, i + 1);
        proof {
            lemma_word_end(s, i + 1);
        }
        keyword_delta(s.subrange(i, e)) + delta_from(s, e)
    }
}

/// The depth change of a statement. A statement that begins inside a quote
/// or a backtick substitution changes nothing.
pub open spec fn depth_delta_spec(raw: Seq<u8>, run_quote: bool, run_backtick: bool) -> int {
    if run_quote || run_backtick {
        0
    } else {
        delta_from(raw, 0)
    }
}

/// The depth after adding `delta`, kept within `0..=u32::MAX`.
pub open spec fn next_depth(depth: u32, delta: int) -> u32 {
    if depth + delta < 0 {
        0
    } else if depth + delta > u32::MAX {
        u32::MAX
    } else {
        (depth + delta) as u32
    }
}

/// The keyword delta of one word.
pub fn keyword(w: &[u8]) -> (r: i8)
    ensures
        r == keyword_delta(w@),
{
    let k_if: [u8; 2] = [0x69, 0x66];
    let k_while: [u8; 5] = [0x77, 0x68, 0x69, 0x6c, 0x65];
    let k_until: [u8; 5] = [0x75, 0x6e, 0x74, 0x69, 0x6c];
    let k_for: [u8; 3] = [0x66, 0x6f, 0x72];
    let k_case: [u8; 4] = [0x63, 0x61, 0x73, 0x65];
    let k_fi: [u8; 2] = [0x66, 0x69];
    let k_done: [u8; 4] = [0x64, 0x6f, 0x6e, 0x65];
    let k_esac: [u8; 4] = [0x65, 0x73, 0x61, 0x63];
    assert(k_if@ == kw_if());
    assert(k_while@ == kw_while());
    assert(k_until@ == kw_until());
    assert(k_for@ == kw_for());
    assert(k_case@ == kw_case());
    assert(k_fi@ == kw_fi());
    assert(k_done@ == kw_done());
    assert(k_esac@ == kw_esac());
    if eq_bytes(w, &k_if) || eq_bytes(w, &k_while) || eq_bytes(w, &k_until) || eq_bytes(w, &k_for)
        || eq_bytes(w, &k_case) {
        1
    } else if eq_bytes(w, &k_fi) || eq_bytes(w, &k_done) || eq_bytes(w, &k_esac) {
        -1
    } else {
        0
    }
}

/// The depth change of the statement `raw`, as the number of opening and
/// of closing keywords.
pub fn depth_delta(raw: &[u8], run_quote: bool, run_backtick: bool) -> (r: (usize, usize))
    ensures
        r.0 - r.1 == depth_delta_spec(raw@, run_quote, run_backtick),
{
    if run_quote || run_backtick {
        return (0, 0);
    }
    let mut opens: usize = 0;
    let mut closes: usize = 0;
    let mut i: usize = 0;
    while i < raw.len()
        invariant
            i <= raw@.len(),
            opens + closes <= i,
            opens - closes + delta_from(raw@, i as int) == delta_from(raw@, 0),
        decreases raw@.len() - i,
    {
        let b = raw[i];
        if is_ascii_whitespace(b) || b == SEMI {
            i = i + 1;
        } else {
            proof {
                lemma_word_end(raw@, i + 1);
            }
            let mut e = i + 1;
            while e < raw.len() && !(is_ascii_whitespace(raw[e]) || raw[e] == SEMI)
                invariant
                    i < e <= raw@.len(),
                    word_end(raw@, i + 1) == word_end(raw@, e as int),
                decreases raw@.len() - e,
            {
                e = e + 1;
            }
            let k = keyword(&raw[i..e]);
            if k > 0 {
                opens = opens + 1;
            } else if k < 0 {
                closes = closes + 1;
            }
            i = e;
        }
    }
    (opens, closes)
}

/// Adds a depth change to `depth`, saturating at both ends.
pub fn apply_delta(depth: u32, opens: usize, closes: usize) -> (r: u32)
    ensures
        r == next_depth(depth, opens - closes),
{
    if opens >= closes {
        let d = opens - closes;
        if d >= (u32::MAX - depth) as usize {
            u32::MAX
        } else {
            depth + d as u32
        }
    } else {
        let d = closes - opens;
        if d >= depth as usize {
            0
        } else {
            depth - d as u32
        }
    }
}


/// The words that open a compound command are exactly `if`, `while`,
/// `until`, `for` and `case`, each adding one level; the words that close
/// one are exactly `fi`, `done` and `esac`, each removing one; every other
/// word leaves the depth alone.
pub proof fn lemma_keyword_classes(w: Seq<u8>)
    ensures
        keyword_delta(w) == 1 <==> (w == seq![0x69u8, 0x66u8] || w == seq![
            0x77u8,
            0x68u8,
            0x69u8,
            0x6cu8,
            0x65u8,
        ] || w == seq![0x75u8, 0x6eu8, 0x74u8, 0x69u8, 0x6cu8] || w == seq![0x66u8, 0x6fu8, 0x72u8]
            || w == seq![0x63u8, 0x61u8, 0x73u8, 0x65u8]),
        keyword_delta(w) == -1 <==> (w == seq![0x66u8, 0x69u8] || w == seq![
            0x64u8,
            0x6fu8,
            0x6eu8,
            0x65u8,
        ] || w == seq![0x65u8, 0x73u8, 0x61u8, 0x63u8]),
        keyword_delta(w) == 0 || keyword_delta(w) == 1 || keyword_delta(w) == -1,
{
    assert(kw_fi() != kw_if()) by {
        assert(kw_fi()[0] != kw_if()[0]);
    }
    assert(kw_done() != kw_case()) by {
        assert(kw_done()[0] != kw_case()[0]);
    }
    assert(kw_esac() != kw_case()) by {
        assert(kw_esac()[0] != kw_case()[0]);
    }
    assert(kw_fi().len() != kw_while().len() && kw_fi().len() != kw_until().len() && kw_fi().len()
        != kw_for().len() && kw_fi().len() != kw_case().len());
    assert(kw_done().len() != kw_if().len() && kw_done().len() != kw_while().len()
        && kw_done().len() != kw_until().len() && kw_done().len() != kw_for().len());
    assert(kw_esac().len() != kw_if().len() && kw_esac().len() != kw_while().len()
        && kw_esac().len() != kw_until().len() && kw_esac().len() != kw_for().len());
}

/// A loop opened by `for` and closed by `done` leaves the depth of the
/// block around it unchanged: the two words cancel.
pub proof fn lemma_for_done_cancel()
    ensures
        keyword_delta(seq![0x66u8, 0x6fu8, 0x72u8]) + keyword_delta(seq![0x64u8, 0x6fu8, 0x6eu8, 0x65u8]) == 0,
{
    lemma_keyword_classes(seq![0x66u8, 0x6fu8, 0x72u8]);
    lemma_keyword_classes(seq![0x64u8, 0x6fu8, 0x6eu8, 0x65u8]);
}

} // verus!
