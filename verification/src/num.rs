//! Decimal parsing of integers and the decimal, octal and hexadecimal text
//! of integers, as `str::parse::<i64>` and `format!` give them.

use vstd::prelude::*;

verus! {

pub open spec fn is_digit(b: u8) -> bool {
    0x30u8 <= b <= 0x39u8
}

pub open spec fn all_digits(s: Seq<u8>) -> bool {
    forall|i: int| 0 <= i < s.len() ==> is_digit(#[trigger] s[i])
}

/// The value of `s` read as a decimal numeral, each byte counting as its
/// distance from `0`.
pub open spec fn decimal_value(s: Seq<u8>) -> int
    decreases s.len(),
{
    if s.len() == 0 {
        0
    } else {
        decimal_value(s.drop_last()) * 10 + (s.last() - 0x30u8)
    }
}

/// What `str::parse::<i64>` gives for `s`: an optional `+` or `-`, then one
/// or more decimal digits whose value fits in an `i64`.
pub open spec fn parse_i64_spec(s: Seq<u8>) -> Option<i64> {
    let signed = s.len() > 0 && (s[0] == 0x2du8 || s[0] == 0x2bu8);
    let digits = if signed { s.drop_first() } else { s };
    let magnitude = decimal_value(digits);
    let value = if s.len() > 0 && s[0] == 0x2du8 { -magnitude } else { magnitude };
    if digits.len() == 0 || !all_digits(digits) {
        None
    } else if i64::MIN <= value <= i64::MAX {
        Some(value as i64)
    } else {
        None
    }
}

pub proof fn lemma_decimal_value_nonneg(s: Seq<u8>)
    requires
        forall|i: int| 0 <= i < s.len() ==> #[trigger] s[i] >= 0x30u8,
    ensures
        decimal_value(s) >= 0,
    decreases s.len(),
{
    if s.len() > 0 {
        lemma_decimal_value_nonneg(s.drop_last());
    }
}

/// A longer numeral is worth at least as much as its prefix.
pub proof fn lemma_decimal_value_prefix(s: Seq<u8>, k: int)
    requires
        0 <= k <= s.len(),
        forall|i: int| 0 <= i < s.len() ==> #[trigger] s[i] >= 0x30u8,
    ensures
        decimal_value(s.take(k)) <= decimal_value(s),
    decreases s.len() - k,
{
    if k < s.len() {
        lemma_decimal_value_prefix(s, k + 1);
        assert(s.take(k + 1).drop_last() =~= s.take(k));
        lemma_decimal_value_nonneg(s.take(k));
    } else {
        assert(s.take(k) =~= s);
    }
}

/// Parses a decimal `i64` as `str::parse::<i64>` does.
#[verifier::loop_isolation(false)]
pub fn parse_i64(s: &[u8]) -> (r: Option<i64>)
    ensures
        r == parse_i64_spec(s@),
{
    let n = s.len();
    if n == 0 {
        return None;
    }
    let neg = s[0] == 0x2d;
    let start: usize = if s[0] == 0x2d || s[0] == 0x2b {
        1
    } else {
        0
    };
    let ghost digits = if start == 1 {
        s@.drop_first()
    } else {
        s@
    };
    assert(digits =~= s@.subrange(start as int, n as int));
    if start == n {
        return None;
    }
    let limit: u128 = 0x8000_0000_0000_0000;
    let mut acc: u128 = 0;
    let mut i = start;
    while i < n
        invariant
            start <= i <= n == s@.len(),
            digits == s@.subrange(start as int, n as int),
            all_digits(s@.subrange(start as int, i as int)),
            acc == decimal_value(s@.subrange(start as int, i as int)),
            acc <= limit,
            limit == 0x8000_0000_0000_0000u128,
        decreases n - i,
    {
        let b = s[i];
        assert(digits[i - start] == s@[i as int]);
        if !(0x30 <= b && b <= 0x39) {
            assert(!is_digit(digits[i - start]));
            assert(!all_digits(digits));
            return None;
        }
        let ghost prev = s@.subrange(start as int, i as int);
        assert(acc * 10 <= limit * 10) by (nonlinear_arith)
            requires
                acc <= limit,
        ;
        acc = acc * 10 + (b - 0x30) as u128;
        i = i + 1;
        assert(s@.subrange(start as int, i as int).drop_last() =~= prev);
        if acc > limit {
            proof {
                if all_digits(digits) {
                    assert(digits.take(i - start) =~= s@.subrange(start as int, i as int));
                    lemma_decimal_value_prefix(digits, i - start);
                }
            }
            return None;
        }
    }
    assert(s@.subrange(start as int, n as int) =~= digits);
    if neg {
        let v: i128 = 0i128 - (acc as i128);
        Some(v as i64)
    } else if acc < limit {
        Some(acc as i64)
    } else {
        None
    }
}

/// The byte of digit `d` in bases up to 16, upper- or lower-case.
pub open spec fn digit_char(d: nat, upper: bool) -> u8 {
    if d < 10 {
        (0x30 + d) as u8
    } else if upper {
        (0x41 + d - 10) as u8
    } else {
        (0x61 + d - 10) as u8
    }
}

/// The digits of `n` in `base`, most significant first, without leading
/// zeros (`0` is the single digit `0`).
pub open spec fn radix_digits(n: nat, base: nat, upper: bool) -> Seq<u8>
    decreases n,
{
    if base < 2 || n < base {
        seq![digit_char(n % 16, upper)]
    } else {
        proof {
            lemma_div_smaller(n, base);
        }
        radix_digits(n / base, base, upper).push(digit_char(n % base, upper))
    }
}

pub proof fn lemma_div_smaller(n: nat, base: nat)
    requires
        base >= 2,
        n >= base,
    ensures
        n / base < n,
        n / base >= 1,
{
    assert(n / base < n) by (nonlinear_arith)
        requires
            base >= 2,
            n >= base,
    ;
    assert(n / base >= 1) by (nonlinear_arith)
        requires
            base >= 2,
            n >= base,
    ;
}

/// The decimal text of `v`, with a leading `-` when negative.
pub open spec fn signed_decimal(v: int) -> Seq<u8> {
    if v < 0 {
        seq![0x2du8] + radix_digits((-v) as nat, 10, false)
    } else {
        radix_digits(v as nat, 10, false)
    }
}

/// `v as u64`: the two's-complement bits of `v` read unsigned.
pub open spec fn twos_u64(v: i64) -> nat {
    if v >= 0 {
        v as nat
    } else {
        (v + 0x1_0000_0000_0000_0000) as nat
    }
}

/// Appends the digits of `n` in `base` (2 to 16).
pub fn push_radix(out: &mut Vec<u8>, n: u64, base: u64, upper: bool)
    requires
        2 <= base <= 16,
    ensures
        final(out)@ == old(out)@ + radix_digits(n as nat, base as nat, upper),
    decreases n,
{
    if n >= base {
        proof {
            lemma_div_smaller(n as nat, base as nat);
        }
        push_radix(out, n / base, base, upper);
    }
    let d = n % base;
    let c: u8 = if d < 10 {
        (0x30 + d) as u8
    } else if upper {
        (0x41 + d - 10) as u8
    } else {
        (0x61 + d - 10) as u8
    };
    proof {
        if n < base {
            assert(n % base == n) by (nonlinear_arith)
                requires
                    n < base,
                    base >= 2,
            ;
            assert(n % 16 == n);
        }
    }
    out.push(c);
    assert(out@ =~= old(out)@ + radix_digits(n as nat, base as nat, upper));
}

/// Appends the decimal text of `v`.
pub fn push_signed_decimal(out: &mut Vec<u8>, v: i64)
    ensures
        final(out)@ == old(out)@ + signed_decimal(v as int),
{
    if v < 0 {
        out.push(0x2d);
        let m: u64 = (0i128 - (v as i128)) as u64;
        push_radix(out, m, 10, false);
        assert(out@ =~= old(out)@ + signed_decimal(v as int));
    } else {
        push_radix(out, v as u64, 10, false);
    }
}

/// `v as u64`.
pub fn twos_complement(v: i64) -> (r: u64)
    ensures
        r == twos_u64(v),
{
    if v >= 0 {
        v as u64
    } else {
        ((v as i128) + 0x1_0000_0000_0000_0000i128) as u64
    }
}

pub proof fn lemma_radix_digits_are_digits(n: nat)
    ensures
        all_digits(radix_digits(n, 10, false)),
        radix_digits(n, 10, false).len() >= 1,
        decimal_value(radix_digits(n, 10, false)) == n,
    decreases n,
{
    let d = radix_digits(n, 10, false);
    if n < 10 {
        assert(n % 16 == n);
        assert(d.drop_last() =~= Seq::<u8>::empty());
        assert(d.last() == 0x30 + n);
        assert(decimal_value(d.drop_last()) == 0);
    } else {
        lemma_div_smaller(n, 10);
        lemma_radix_digits_are_digits(n / 10);
        let p = radix_digits(n / 10, 10, false);
        assert(d.drop_last() =~= p);
        assert(d.last() == 0x30 + n % 10);
        assert(n == (n / 10) * 10 + n % 10);
        assert forall|i: int| 0 <= i < d.len() implies is_digit(#[trigger] d[i]) by {
            if i < p.len() {
                assert(d[i] == p[i]);
            }
        }
    }
}

/// The decimal text of an `i64` parses back to the same value: what
/// `printf %d` prints, the number parser of the builtins reads unchanged.
pub proof fn lemma_decimal_roundtrip(v: i64)
    ensures
        parse_i64_spec(signed_decimal(v as int)) == Some(v),
{
    let t = signed_decimal(v as int);
    if v < 0 {
        let m = (-v) as nat;
        lemma_radix_digits_are_digits(m);
        assert(t.drop_first() =~= radix_digits(m, 10, false));
    } else {
        lemma_radix_digits_are_digits(v as nat);
        let d = radix_digits(v as nat, 10, false);
        assert(is_digit(d[0]));
    }
}

} // verus!
