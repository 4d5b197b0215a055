//! Conversion specifiers of `printf`.

use vstd::prelude::*;
use crate::bytes::push_all;
use crate::error::{Arg, BuiltinError};
use crate::num::{
    parse_i64, parse_i64_spec, push_radix, push_signed_decimal, radix_digits, signed_decimal,
    twos_complement, twos_u64,
};

verus! {

/// `s d i u o x X c`.
pub open spec fn is_conv_spec(c: u8) -> bool {
    c == 0x73u8 || c == 0x64u8 || c == 0x69u8 || c == 0x75u8 || c == 0x6fu8 || c == 0x78u8
        || c == 0x58u8 || c == 0x63u8
}

/// `%s` or `%c`: the conversions that take a string argument.
pub open spec fn is_string_conv(c: u8) -> bool {
    c == 0x73u8 || c == 0x63u8
}

/// The text a numeric conversion prints for `v`: signed decimal for `d` and
/// `i`; for `u`, `o`, `x` and `X` the two's-complement bits read unsigned,
/// in decimal, octal, lower-case and upper-case hex.
pub open spec fn num_text(c: u8, v: i64) -> Seq<u8> {
    if c == 0x75u8 {
        radix_digits(twos_u64(v), 10, false)
    } else if c == 0x6fu8 {
        radix_digits(twos_u64(v), 8, false)
    } else if c == 0x78u8 {
        radix_digits(twos_u64(v), 16, false)
    } else if c == 0x58u8 {
        radix_digits(twos_u64(v), 16, true)
    } else {
        signed_decimal(v as int)
    }
}

/// One conversion `c` applied with the arguments from index `pos` on: the
/// bytes it prints, the index of the next unused argument, and whether it
/// counts as consuming an argument. `%s`/`%c` print nothing when the
/// arguments are exhausted; numeric conversions print `0` then (bash
/// semantics). `%c` prints the first byte of its argument.
pub open spec fn conv_spec(c: u8, args: Seq<Seq<u8>>, pos: int) -> Result<
    (Seq<u8>, int, bool),
    BuiltinError,
> {
    if is_string_conv(c) {
        if pos < args.len() {
            let a = args[pos];
            let text = if c == 0x63u8 {
                if a.len() > 0 {
                    seq![a[0]]
                } else {
                    Seq::empty()
                }
            } else {
                a
            };
            Ok((text, pos + 1, true))
        } else {
            Ok((Seq::empty(), pos, false))
        }
    } else if is_conv_spec(c) {
        if pos < args.len() {
            match parse_i64_spec(args[pos]) {
                Some(v) => Ok((num_text(c, v), pos + 1, true)),
                None => Err(BuiltinError::InvalidArgument(Arg::Number)),
            }
        } else {
            Ok((num_text(c, 0), pos, true))
        }
    } else {
        Err(BuiltinError::Never)
    }
}

pub fn is_conv(c: u8) -> (r: bool)
    ensures
        r == is_conv_spec(c),
{
    c == 0x73 || c == 0x64 || c == 0x69 || c == 0x75 || c == 0x6f || c == 0x78 || c == 0x58
        || c == 0x63
}

/// Applies one conversion; returns `true` when it counts as consuming an
/// argument. `pos` is the index of the next unused argument.
pub fn apply_conv(c: u8, args: &[Vec<u8>], pos: &mut usize, out: &mut Vec<u8>) -> (r: Result<
    bool,
    BuiltinError,
>)
    requires
        *old(pos) <= args@.len(),
    ensures
        *final(pos) <= args@.len(),
        match conv_spec(c, crate::bytes::arg_views(args@), *old(pos) as int) {
            Ok((text, next, used)) => {
                &&& r == Ok::<bool, BuiltinError>(used)
                &&& final(out)@ == old(out)@ + text
                &&& *final(pos) == next
            },
            Err(e) => r == Err::<bool, BuiltinError>(e) && final(out)@ == old(out)@,
        },
{
    if c == 0x73 || c == 0x63 {
        string_conv(c, args, pos, out)
    } else if is_conv(c) {
        num_conv(c, args, pos, out)
    } else {
        Err(BuiltinError::Never)
    }
}

/// `%s` / `%c` take one argument, or print nothing when the arguments are
/// exhausted (bash semantics).
pub fn string_conv(c: u8, args: &[Vec<u8>], pos: &mut usize, out: &mut Vec<u8>) -> (r: Result<
    bool,
    BuiltinError,
>)
    requires
        *old(pos) <= args@.len(),
        c == 0x73u8 || c == 0x63u8,
    ensures
        *final(pos) <= args@.len(),
        match conv_spec(c, crate::bytes::arg_views(args@), *old(pos) as int) {
            Ok((text, next, used)) => {
                &&& r == Ok::<bool, BuiltinError>(used)
                &&& final(out)@ == old(out)@ + text
                &&& *final(pos) == next
            },
            Err(e) => r == Err::<bool, BuiltinError>(e) && final(out)@ == old(out)@,
        },
{
    if *pos < args.len() {
        let a = &args[*pos];
        *pos = *pos + 1;
        if c == 0x63 {
            if a.len() > 0 {
                out.push(a[0]);
                assert(out@ =~= old(out)@ + seq![a@[0]]);
            } else {
                assert(out@ =~= old(out)@ + Seq::<u8>::empty());
            }
        } else {
            push_all(out, a.as_slice());
        }
        Ok(true)
    } else {
        assert(out@ =~= old(out)@ + Seq::<u8>::empty());
        Ok(false)
    }
}

/// Numeric conversions take one argument, or `0` when the arguments are
/// exhausted (bash semantics).
pub fn num_conv(c: u8, args: &[Vec<u8>], pos: &mut usize, out: &mut Vec<u8>) -> (r: Result<
    bool,
    BuiltinError,
>)
    requires
        *old(pos) <= args@.len(),
        is_conv_spec(c),
        !(c == 0x73u8 || c == 0x63u8),
    ensures
        *final(pos) <= args@.len(),
        match conv_spec(c, crate::bytes::arg_views(args@), *old(pos) as int) {
            Ok((text, next, used)) => {
                &&& r == Ok::<bool, BuiltinError>(used)
                &&& final(out)@ == old(out)@ + text
                &&& *final(pos) == next
            },
            Err(e) => r == Err::<bool, BuiltinError>(e) && final(out)@ == old(out)@,
        },
{
    let v = take(args, pos)?;
    push_num(out, c, v);
    Ok(true)
}

/// The next argument parsed as a decimal `i64`, or `0` when the arguments
/// are exhausted.
pub fn take(args: &[Vec<u8>], pos: &mut usize) -> (r: Result<i64, BuiltinError>)
    requires
        *old(pos) <= args@.len(),
    ensures
        *final(pos) <= args@.len(),
        *old(pos) < args@.len() ==> match parse_i64_spec(args@[*old(pos) as int]@) {
            Some(v) => r == Ok::<i64, BuiltinError>(v) && *final(pos) == *old(pos) + 1,
            None => r == Err::<i64, BuiltinError>(BuiltinError::InvalidArgument(Arg::Number)),
        },
        *old(pos) == args@.len() ==> r == Ok::<i64, BuiltinError>(0) && *final(pos) == *old(pos),
{
    if *pos < args.len() {
        let a = &args[*pos];
        *pos = *pos + 1;
        match parse_i64(a.as_slice()) {
            Some(v) => Ok(v),
            None => Err(BuiltinError::InvalidArgument(Arg::Number)),
        }
    } else {
        Ok(0)
    }
}

/// Appends the text of the numeric conversion `c` of `v`.
pub fn push_num(out: &mut Vec<u8>, c: u8, v: i64)
    ensures
        final(out)@ == old(out)@ + num_text(c, v),
{
    if c == 0x75 {
        push_radix(out, twos_complement(v), 10, false);
    } else if c == 0x6f {
        push_radix(out, twos_complement(v), 8, false);
    } else if c == 0x78 {
        push_radix(out, twos_complement(v), 16, false);
    } else if c == 0x58 {
        push_radix(out, twos_complement(v), 16, true);
    } else {
        push_signed_decimal(out, v);
    }
}

} // verus!
