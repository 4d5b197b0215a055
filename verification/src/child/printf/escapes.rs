//! Backslash escapes in the `printf` format string.

use vstd::prelude::*;
use crate::bytes::BACKSLASH;

verus! {

/// The byte a named escape letter maps to: `\n \t \r \a \b \f \v \\`.
pub open spec fn escaped_spec(c: u8) -> Option<u8> {
    if c == 0x6eu8 {
        Some(0x0au8)
    } else if c == 0x74u8 {
        Some(0x09u8)
    } else if c == 0x72u8 {
        Some(0x0du8)
    } else if c == 0x61u8 {
        Some(0x07u8)
    } else if c == 0x62u8 {
        Some(0x08u8)
    } else if c == 0x66u8 {
        Some(0x0cu8)
    } else if c == 0x76u8 {
        Some(0x0bu8)
    } else if c == 0x5cu8 {
        Some(0x5cu8)
    } else {
        None
    }
}

pub open spec fn is_octal(c: u8) -> bool {
    0x30u8 <= c <= 0x37u8
}

/// How many octal digits, at most `max`, stand in `fmt` from `j` on.
pub open spec fn octal_count(fmt: Seq<u8>, j: int, max: nat) -> nat
    decreases max,
{
    if max == 0 || j < 0 || j >= fmt.len() || !is_octal(fmt[j]) {
        0
    } else {
        1 + octal_count(fmt, j + 1, (max - 1) as nat)
    }
}

/// The value of a run of octal digits.
pub open spec fn octal_value(s: Seq<u8>) -> nat
    decreases s.len(),
{
    if s.len() == 0 {
        0
    } else {
        octal_value(s.drop_last()) * 8 + (s.last() - 0x30u8) as nat
    }
}

/// `\ddd`: the byte of up to three octal digits after the backslash at
/// `i`, and the index past them.
pub open spec fn octal_escape(fmt: Seq<u8>, i: int) -> (u8, int) {
    let k = octal_count(fmt, i + 1, 3);
    ((octal_value(fmt.subrange(i + 1, i + 1 + k)) % 256) as u8, i + 1 + k)
}

/// The bytes the escape starting at the backslash `fmt[i]` emits, and the
/// index of the byte after it. An unknown escape (or a trailing backslash)
/// keeps the backslash and lets the next byte be read as a literal.
pub open spec fn escape_spec(fmt: Seq<u8>, i: int) -> (Seq<u8>, int) {
    if i + 1 < fmt.len() && escaped_spec(fmt[i + 1]) is Some {
        (seq![escaped_spec(fmt[i + 1])->0], i + 2)
    } else if i + 1 < fmt.len() && is_octal(fmt[i + 1]) {
        let (b, j) = octal_escape(fmt, i);
        (seq![b], j)
    } else {
        (seq![0x5cu8], i + 1)
    }
}

pub proof fn lemma_octal_count_bound(fmt: Seq<u8>, j: int, max: nat)
    requires
        0 <= j,
    ensures
        octal_count(fmt, j, max) <= max,
        j <= fmt.len() ==> j + octal_count(fmt, j, max) <= fmt.len(),
        forall|k: int| j <= k < j + octal_count(fmt, j, max) ==> is_octal(#[trigger] fmt[k]),
    decreases max,
{
    if !(max == 0 || j >= fmt.len() || !is_octal(fmt[j])) {
        lemma_octal_count_bound(fmt, j + 1, (max - 1) as nat);
    }
}

/// The escape always moves past the backslash, and never past the end.
pub proof fn lemma_escape_advances(fmt: Seq<u8>, i: int)
    requires
        0 <= i < fmt.len(),
    ensures
        i < escape_spec(fmt, i).1 <= fmt.len(),
{
    lemma_octal_count_bound(fmt, i + 1, 3);
}

/// The byte a recognized escape maps to.
pub fn escaped(c: u8) -> (r: Option<u8>)
    ensures
        r == escaped_spec(c),
{
    match c {
        0x6e => Some(0x0a),
        0x74 => Some(0x09),
        0x72 => Some(0x0d),
        0x61 => Some(0x07),
        0x62 => Some(0x08),
        0x66 => Some(0x0c),
        0x76 => Some(0x0b),
        0x5c => Some(0x5c),
        _ => None,
    }
}

/// The value of an octal digit.
pub fn octal_digit(c: u8) -> (r: Option<u32>)
    ensures
        r == (if is_octal(c) { Some((c - 0x30u8) as u32) } else { None::<u32> }),
{
    if 0x30 <= c && c <= 0x37 {
        Some((c - 0x30) as u32)
    } else {
        None
    }
}

/// Emits `\ddd` (up to three octal digits after the backslash at `i`) as
/// one byte; returns the index past the consumed digits.
pub fn emit_octal(fmt: &[u8], i: usize, out: &mut Vec<u8>) -> (r: usize)
    requires
        i < fmt.len(),
    ensures
        final(out)@ == old(out)@.push(octal_escape(fmt@, i as int).0),
        r == octal_escape(fmt@, i as int).1,
{
    let ghost k = octal_count(fmt@, i + 1, 3);
    proof {
        lemma_octal_count_bound(fmt@, i + 1, 3);
    }
    let mut value: u32 = 0;
    let mut digits: usize = 0;
    let mut j = i + 1;
    while digits < 3
        invariant
            i < fmt@.len(),
            j == i + 1 + digits,
            digits <= 3,
            digits <= k,
            k == octal_count(fmt@, i + 1, 3),
            k == digits + octal_count(fmt@, j as int, (3 - digits) as nat),
            value == octal_value(fmt@.subrange(i + 1, j as int)),
            value < (if digits == 0 { 1int } else if digits == 1 { 8int } else if digits == 2 {
                64int
            } else {
                512int
            }),
            j <= fmt@.len(),
        ensures
            j == i + 1 + k,
            value == octal_value(fmt@.subrange(i + 1, j as int)),
        decreases 3 - digits,
    {
        let d = if j < fmt.len() {
            octal_digit(fmt[j])
        } else {
            None
        };
        match d {
            Some(d) => {
                let ghost prev = fmt@.subrange(i + 1, j as int);
                value = value * 8 + d;
                digits = digits + 1;
                j = j + 1;
                assert(fmt@.subrange(i + 1, j as int).drop_last() =~= prev);
            },
            None => {
                assert(octal_count(fmt@, j as int, (3 - digits) as nat) == 0);
                break;
            },
        }
    }
    out.push((value % 256) as u8);
    j
}

/// Emits the backslash escape starting at `i`; returns the index of the
/// byte after the sequence. Unknown escapes keep the backslash and let the
/// next byte be processed as a literal.
pub fn emit_escape(fmt: &[u8], i: usize, out: &mut Vec<u8>) -> (r: usize)
    requires
        i < fmt.len(),
    ensures
        final(out)@ == old(out)@ + escape_spec(fmt@, i as int).0,
        r == escape_spec(fmt@, i as int).1,
{
    let next = if i + 1 < fmt.len() {
        Some(fmt[i + 1])
    } else {
        None
    };
    let named = match next {
        Some(c) => escaped(c),
        None => None,
    };
    match named {
        Some(b) => {
            out.push(b);
            assert(out@ =~= old(out)@ + escape_spec(fmt@, i as int).0);
            i + 2
        },
        None => {
            if i + 1 < fmt.len() && 0x30 <= fmt[i + 1] && fmt[i + 1] <= 0x37 {
                let r = emit_octal(fmt, i, out);
                assert(out@ =~= old(out)@ + escape_spec(fmt@, i as int).0);
                r
            } else {
                out.push(BACKSLASH);
                assert(out@ =~= old(out)@ + escape_spec(fmt@, i as int).0);
                i + 1
            }
        },
    }
}

} // verus!
