//! Byte-level helpers shared by the scanners and argument parsers.

use vstd::prelude::*;
use vstd::string::StringSliceAdditionalSpecFns;

verus! {

/// `"`
pub const DQUOTE: u8 = 0x22;
/// `#`
pub const HASH: u8 = 0x23;
/// `$`
pub const DOLLAR: u8 = 0x24;
/// `%`
pub const PERCENT: u8 = 0x25;
/// `&`
pub const AMP: u8 = 0x26;
/// `'`
pub const SQUOTE: u8 = 0x27;
/// `(`
pub const LPAREN: u8 = 0x28;
/// `)`
pub const RPAREN: u8 = 0x29;
/// `+`
pub const PLUS: u8 = 0x2b;
/// `-`
pub const MINUS: u8 = 0x2d;
/// `/`
pub const SLASH: u8 = 0x2f;
/// `0`
pub const ZERO: u8 = 0x30;
/// `7`
pub const SEVEN: u8 = 0x37;
/// `9`
pub const NINE: u8 = 0x39;
/// `;`
pub const SEMI: u8 = 0x3b;
/// `<`
pub const LT: u8 = 0x3c;
/// `=`
pub const EQ: u8 = 0x3d;
/// `\`
pub const BACKSLASH: u8 = 0x5c;
/// `` ` ``
pub const BACKTICK: u8 = 0x60;
/// `|`
pub const PIPE: u8 = 0x7c;
/// newline
pub const NL: u8 = 0x0a;
/// tab
pub const TAB: u8 = 0x09;
/// space
pub const SPACE: u8 = 0x20;

/// ASCII whitespace as Rust's `u8::is_ascii_whitespace` defines it: space,
/// tab, line feed, form feed and carriage return.
pub open spec fn is_space(b: u8) -> bool {
    b == 0x20u8 || b == 0x09u8 || b == 0x0au8 || b == 0x0cu8 || b == 0x0du8
}

/// Whether `b` is ASCII whitespace.
pub fn is_ascii_whitespace(b: u8) -> (r: bool)
    ensures
        r == is_space(b),
{
    b == 0x20 || b == 0x09 || b == 0x0a || b == 0x0c || b == 0x0d
}

/// The bytes `s[a..b]`, or nothing when the range is not within `s`
/// (what `s.get(a..b).unwrap_or(b"")` gives).
pub open spec fn get_or_empty(s: Seq<u8>, a: int, b: int) -> Seq<u8> {
    if 0 <= a <= b <= s.len() {
        s.subrange(a, b)
    } else {
        Seq::empty()
    }
}

/// The byte contents of a list of arguments.
pub open spec fn arg_views(a: Seq<Vec<u8>>) -> Seq<Seq<u8>> {
    a.map_values(|v: Vec<u8>| v@)
}

/// Number of leading whitespace bytes.
pub open spec fn lead_len(s: Seq<u8>) -> nat
    decreases s.len(),
{
    if s.len() > 0 && is_space(s[0]) {
        1 + lead_len(s.drop_first())
    } else {
        0
    }
}

/// Number of trailing whitespace bytes.
pub open spec fn trail_len(s: Seq<u8>) -> nat
    decreases s.len(),
{
    if s.len() > 0 && is_space(s.last()) {
        1 + trail_len(s.drop_last())
    } else {
        0
    }
}

/// `s` without leading and trailing ASCII whitespace (`trim_ascii`).
pub open spec fn trim(s: Seq<u8>) -> Seq<u8> {
    let t = s.skip(lead_len(s) as int);
    t.take(t.len() - trail_len(t))
}

pub proof fn lemma_lead_len(s: Seq<u8>)
    ensures
        lead_len(s) <= s.len(),
        forall|k: int| 0 <= k < lead_len(s) ==> is_space(#[trigger] s[k]),
        lead_len(s) < s.len() ==> !is_space(s[lead_len(s) as int]),
    decreases s.len(),
{
    if s.len() > 0 && is_space(s[0]) {
        lemma_lead_len(s.drop_first());
        assert forall|k: int| 0 <= k < lead_len(s) implies is_space(#[trigger] s[k]) by {
            if k > 0 {
                assert(s[k] == s.drop_first()[k - 1]);
            }
        }
    }
}

pub proof fn lemma_trail_len(s: Seq<u8>)
    ensures
        trail_len(s) <= s.len(),
        forall|k: int| s.len() - trail_len(s) <= k < s.len() ==> is_space(#[trigger] s[k]),
        trail_len(s) < s.len() ==> !is_space(s[s.len() - trail_len(s) - 1]),
    decreases s.len(),
{
    if s.len() > 0 && is_space(s.last()) {
        lemma_trail_len(s.drop_last());
        assert forall|k: int| s.len() - trail_len(s) <= k < s.len() implies is_space(
            #[trigger] s[k],
        ) by {
            if k < s.len() - 1 {
                assert(s[k] == s.drop_last()[k]);
            }
        }
    }
}

/// A trimmed sequence is empty exactly when every byte is whitespace.
pub proof fn lemma_trim_empty(s: Seq<u8>)
    ensures
        trim(s).len() == 0 <==> forall|k: int| 0 <= k < s.len() ==> is_space(#[trigger] s[k]),
{
    lemma_lead_len(s);
    let t = s.skip(lead_len(s) as int);
    lemma_trail_len(t);
    if trim(s).len() == 0 {
        assert forall|k: int| 0 <= k < s.len() implies is_space(#[trigger] s[k]) by {
            if k >= lead_len(s) {
                assert(s[k] == t[k - lead_len(s)]);
            }
        }
    } else {
        let k = lead_len(s) as int;
        assert(k < s.len());
    }
}

/// The plain contents of a byte-vector result.
pub open spec fn vres<E>(r: Result<Vec<u8>, E>) -> Result<Seq<u8>, E> {
    match r {
        Ok(v) => Ok(v@),
        Err(e) => Err(e),
    }
}

/// The plain contents of an optional byte vector.
pub open spec fn vopt(o: Option<Vec<u8>>) -> Option<Seq<u8>> {
    match o {
        Some(v) => Some(v@),
        None => None,
    }
}

/// The byte-wise equality of two slices.
pub fn eq_bytes(a: &[u8], b: &[u8]) -> (r: bool)
    ensures
        r <==> a@ == b@,
{
    if a.len() != b.len() {
        return false;
    }
    let mut i: usize = 0;
    while i < a.len()
        invariant
            a.len() == b.len(),
            i <= a.len(),
            forall|j: int| 0 <= j < i ==> a@[j] == b@[j],
        decreases a.len() - i,
    {
        if a[i] != b[i] {
            return false;
        }
        i = i + 1;
    }
    assert(a@ =~= b@);
    true
}

/// Whether `s` holds the byte `b` anywhere.
pub fn contains_byte(s: &[u8], b: u8) -> (r: bool)
    ensures
        r <==> s@.contains(b),
{
    let mut i: usize = 0;
    while i < s.len()
        invariant
            i <= s.len(),
            forall|j: int| 0 <= j < i ==> s@[j] != b,
        decreases s.len() - i,
    {
        if s[i] == b {
            assert(s@[i as int] == b);
            return true;
        }
        i = i + 1;
    }
    false
}

/// `s` with the byte `b` removed from its front, if it starts with it.
pub fn strip_byte_prefix(s: &[u8], b: u8) -> (r: Option<Vec<u8>>)
    ensures
        r matches Some(v) ==> s@.len() > 0 && s@[0] == b && v@ == s@.drop_first(),
        r is None ==> s@.len() == 0 || s@[0] != b,
{
    if s.len() > 0 && s[0] == b {
        Some(copy_range(s, 1, s.len()))
    } else {
        None
    }
}

/// A fresh vector holding `s[a..b]`.
pub fn copy_range(s: &[u8], a: usize, b: usize) -> (r: Vec<u8>)
    requires
        a <= b <= s@.len(),
    ensures
        r@ == s@.subrange(a as int, b as int),
{
    let mut out: Vec<u8> = Vec::new();
    let mut i = a;
    while i < b
        invariant
            a <= i <= b <= s@.len(),
            out@ == s@.subrange(a as int, i as int),
        decreases b - i,
    {
        out.push(s[i]);
        i = i + 1;
        assert(out@ =~= s@.subrange(a as int, i as int));
    }
    out
}

/// Appends all of `s` to `out`.
pub fn push_all(out: &mut Vec<u8>, s: &[u8])
    ensures
        final(out)@ == old(out)@ + s@,
{
    let ghost start = out@;
    let mut i: usize = 0;
    while i < s.len()
        invariant
            i <= s@.len(),
            out@ == start + s@.subrange(0, i as int),
        decreases s.len() - i,
    {
        out.push(s[i]);
        i = i + 1;
        assert(out@ =~= start + s@.subrange(0, i as int));
    }
    assert(s@.subrange(0, s@.len() as int) =~= s@);
}

/// Appends the UTF-8 bytes of `s` to `out`.
pub fn push_str(out: &mut Vec<u8>, s: &str)
    ensures
        final(out)@ == old(out)@ + s.spec_bytes(),
{
    push_all(out, s.as_bytes());
}

/// Indices of the trimmed part of `s[a..b]`: the first and one past the
/// last byte that is not ASCII whitespace.
pub fn trim_range(s: &[u8], a: usize, b: usize) -> (r: (usize, usize))
    requires
        a <= b <= s@.len(),
    ensures
        a <= r.0 <= r.1 <= b,
        s@.subrange(r.0 as int, r.1 as int) == trim(s@.subrange(a as int, b as int)),
        r.0 - a == lead_len(s@.subrange(a as int, b as int)),
{
    let ghost sub = s@.subrange(a as int, b as int);
    proof {
        lemma_lead_len(sub);
    }
    let mut lo = a;
    while lo < b && is_ascii_whitespace(s[lo])
        invariant
            a <= lo <= b <= s@.len(),
            sub == s@.subrange(a as int, b as int),
            lo - a <= lead_len(sub),
            lead_len(sub) <= sub.len(),
            forall|k: int| 0 <= k < lead_len(sub) ==> is_space(#[trigger] sub[k]),
            lead_len(sub) < sub.len() ==> !is_space(sub[lead_len(sub) as int]),
        decreases b - lo,
    {
        assert(sub[lo - a] == s@[lo as int]);
        lo = lo + 1;
    }
    assert(lo - a == lead_len(sub)) by {
        if lo < b {
            assert(sub[lo - a] == s@[lo as int]);
        }
    }
    let ghost t = sub.skip(lead_len(sub) as int);
    assert(t =~= s@.subrange(lo as int, b as int));
    proof {
        lemma_trail_len(t);
    }
    let mut hi = b;
    while hi > lo && is_ascii_whitespace(s[hi - 1])
        invariant
            a <= lo <= hi <= b <= s@.len(),
            t == s@.subrange(lo as int, b as int),
            b - hi <= trail_len(t),
            trail_len(t) <= t.len(),
            forall|k: int| t.len() - trail_len(t) <= k < t.len() ==> is_space(#[trigger] t[k]),
            trail_len(t) < t.len() ==> !is_space(t[t.len() - trail_len(t) - 1]),
        decreases hi - lo,
    {
        assert(t[hi - 1 - lo] == s@[hi - 1]);
        hi = hi - 1;
    }
    assert(b - hi == trail_len(t)) by {
        if hi > lo {
            assert(t[hi - 1 - lo] == s@[hi - 1]);
        }
    }
    assert(s@.subrange(lo as int, hi as int) =~= t.take(t.len() - trail_len(t)));
    (lo, hi)
}

/// The UTF-8 bytes of an ASCII text are its characters, one byte each.
pub proof fn lemma_ascii_bytes(s: &str)
    requires
        vstd::utf8::is_ascii_chars(s@),
    ensures
        s.spec_bytes() == s@.map_values(|c: char| c as u8),
{
    vstd::utf8::is_ascii_chars_encode_utf8(s@);
    assert(s.spec_bytes() =~= s@.map_values(|c: char| c as u8));
}

} // verus!
