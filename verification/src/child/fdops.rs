//! `lseek`, `ftruncate`, `fsync`: file operations on an existing `%var` fd.
//!
//! The first argument is always a `%var` fd-variable name (`lseek %fd OFFSET
//! [WHENCE]`, `ftruncate %fd [LENGTH]`, `fsync %fd`). Numbers come from the
//! substituted words; the `%var` comes from the words as written. `lseek`
//! prints the new offset; `ftruncate` without LENGTH truncates at the
//! current offset.

use vstd::prelude::*;
use crate::bytes::{arg_views, contains_byte, copy_range, vres, NL, PERCENT};
use crate::error::{Arg, BuiltinError};
use crate::num::{parse_i64, parse_i64_spec, push_signed_decimal, signed_decimal};
use super::argparse::{wants_help, wants_help_spec};

verus! {

/// `lseek` whence values.
pub const SEEK_SET: i32 = 0;
pub const SEEK_CUR: i32 = 1;
pub const SEEK_END: i32 = 2;

/// The fd variable named by the first word as written: `%name`, where the
/// name holds no further `%`.
pub open spec fn var_arg_spec(args: Seq<Seq<u8>>) -> Result<Seq<u8>, BuiltinError> {
    if args.len() == 0 {
        Err(BuiltinError::MissingArgument(Arg::FdVar))
    } else if args[0].len() == 0 || args[0][0] != 0x25u8 {
        Err(BuiltinError::InvalidArgument(Arg::FdVar))
    } else if args[0].drop_first().contains(0x25u8) {
        Err(BuiltinError::InvalidArgument(Arg::FdVar))
    } else {
        Ok(args[0].drop_first())
    }
}

/// Parse the `%var` of an fd-op builtin.
pub fn var_arg(args: &[Vec<u8>]) -> (r: Result<Vec<u8>, BuiltinError>)
    ensures
        vres(r) == var_arg_spec(arg_views(args@)),
{
    if args.len() == 0 {
        return Err(BuiltinError::MissingArgument(Arg::FdVar));
    }
    let first = args[0].as_slice();
    assert(arg_views(args@)[0] == first@);
    if first.len() == 0 || first[0] != PERCENT {
        return Err(BuiltinError::InvalidArgument(Arg::FdVar));
    }
    let name = copy_range(first, 1, first.len());
    assert(name@ =~= first@.drop_first());
    if contains_byte(name.as_slice(), PERCENT) {
        return Err(BuiltinError::InvalidArgument(Arg::FdVar));
    }
    Ok(name)
}

/// A decimal `i64` argument; anything else is an invalid `what`.
pub open spec fn number_spec(s: Seq<u8>, what: Arg) -> Result<i64, BuiltinError> {
    match parse_i64_spec(s) {
        Some(n) => Ok(n),
        None => Err(BuiltinError::InvalidArgument(what)),
    }
}

/// Parse a decimal `i64` argument.
pub fn number(s: &[u8], what: Arg) -> (r: Result<i64, BuiltinError>)
    ensures
        r == number_spec(s@, what),
{
    match parse_i64(s) {
        Some(n) => Ok(n),
        None => Err(BuiltinError::InvalidArgument(what)),
    }
}

/// A non-negative length.
pub open spec fn length_spec(s: Seq<u8>) -> Result<i64, BuiltinError> {
    match number_spec(s, Arg::Length) {
        Ok(n) => if n < 0 {
            Err(BuiltinError::InvalidArgument(Arg::Length))
        } else {
            Ok(n)
        },
        Err(e) => Err(e),
    }
}

/// Parse a non-negative length.
pub fn length(s: &[u8]) -> (r: Result<i64, BuiltinError>)
    ensures
        r == length_spec(s@),
{
    let n = number(s, Arg::Length)?;
    if n < 0 {
        return Err(BuiltinError::InvalidArgument(Arg::Length));
    }
    Ok(n)
}

/// `0`, `1` or `2`, the numeric whence values.
pub open spec fn whence_spec(s: Seq<u8>) -> Result<i32, BuiltinError> {
    if s == seq![0x30u8] {
        Ok(SEEK_SET)
    } else if s == seq![0x31u8] {
        Ok(SEEK_CUR)
    } else if s == seq![0x32u8] {
        Ok(SEEK_END)
    } else {
        Err(BuiltinError::InvalidArgument(Arg::Whence))
    }
}

/// Parse a numeric whence.
pub fn whence(s: &[u8]) -> (r: Result<i32, BuiltinError>)
    ensures
        r == whence_spec(s@),
{
    if s.len() == 1 && s[0] == 0x30 {
        assert(s@ =~= seq![0x30u8]);
        Ok(SEEK_SET)
    } else if s.len() == 1 && s[0] == 0x31 {
        assert(s@ =~= seq![0x31u8]);
        Ok(SEEK_CUR)
    } else if s.len() == 1 && s[0] == 0x32 {
        assert(s@ =~= seq![0x32u8]);
        Ok(SEEK_END)
    } else {
        Err(BuiltinError::InvalidArgument(Arg::Whence))
    }
}

/// At most `max` words.
pub open spec fn no_extra_spec(actual: nat, max: nat) -> Result<(), BuiltinError> {
    if actual > max {
        Err(BuiltinError::InvalidArgument(Arg::Arg))
    } else {
        Ok(())
    }
}

/// Refuse more than `max` words.
pub fn no_extra(actual: usize, max: usize) -> (r: Result<(), BuiltinError>)
    ensures
        r == no_extra_spec(actual as nat, max as nat),
{
    if actual > max {
        return Err(BuiltinError::InvalidArgument(Arg::Arg));
    }
    Ok(())
}

/// `lseek %var OFFSET [WHENCE]`.
#[derive(Debug)]
pub struct LseekConfig {
    pub var: Vec<u8>,
    pub offset: i64,
    pub whence: i32,
}

/// `ftruncate %var [LENGTH]`.
#[derive(Debug)]
pub struct FtruncateConfig {
    pub var: Vec<u8>,
    pub length: Option<i64>,
}

/// `fsync %var`.
#[derive(Debug)]
pub struct FsyncConfig {
    pub var: Vec<u8>,
}

/// `lseek %var OFFSET [WHENCE]`: the variable, the offset and the whence
/// (`SEEK_SET` when omitted), checked in that order, then at most three words.
pub open spec fn lseek_parse_spec(refs: Seq<Seq<u8>>, args: Seq<Seq<u8>>) -> Result<
    (Seq<u8>, i64, i32),
    BuiltinError,
> {
    if wants_help_spec(refs) {
        Err(BuiltinError::Help)
    } else {
        match var_arg_spec(args) {
            Err(e) => Err(e),
            Ok(var) => if refs.len() < 2 {
                Err(BuiltinError::MissingArgument(Arg::Offset))
            } else {
                match number_spec(refs[1], Arg::Offset) {
                    Err(e) => Err(e),
                    Ok(offset) => {
                        let w = if refs.len() > 2 {
                            whence_spec(refs[2])
                        } else {
                            Ok(SEEK_SET)
                        };
                        match w {
                            Err(e) => Err(e),
                            Ok(w) => match no_extra_spec(refs.len(), 3) {
                                Err(e) => Err(e),
                                Ok(_) => Ok((var, offset, w)),
                            },
                        }
                    },
                }
            },
        }
    }
}

/// The plain contents of an `lseek` parse.
pub open spec fn lseek_view(r: Result<LseekConfig, BuiltinError>) -> Result<
    (Seq<u8>, i64, i32),
    BuiltinError,
> {
    match r {
        Ok(c) => Ok((c.var@, c.offset, c.whence)),
        Err(e) => Err(e),
    }
}

/// Parse `lseek` arguments.
pub fn lseek_parse(refs: &[Vec<u8>], args: &[Vec<u8>]) -> (r: Result<LseekConfig, BuiltinError>)
    ensures
        lseek_view(r) == lseek_parse_spec(arg_views(refs@), arg_views(args@)),
{
    if wants_help(refs) {
        return Err(BuiltinError::Help);
    }
    let var = var_arg(args)?;
    if refs.len() < 2 {
        return Err(BuiltinError::MissingArgument(Arg::Offset));
    }
    assert(arg_views(refs@)[1] == refs@[1]@);
    let offset = number(refs[1].as_slice(), Arg::Offset)?;
    let w = if refs.len() > 2 {
        assert(arg_views(refs@)[2] == refs@[2]@);
        whence(refs[2].as_slice())?
    } else {
        SEEK_SET
    };
    no_extra(refs.len(), 3)?;
    Ok(LseekConfig { var, offset, whence: w })
}

/// `ftruncate %var [LENGTH]`: the variable and the optional length, then at
/// most two words.
pub open spec fn ftruncate_parse_spec(refs: Seq<Seq<u8>>, args: Seq<Seq<u8>>) -> Result<
    (Seq<u8>, Option<i64>),
    BuiltinError,
> {
    if wants_help_spec(refs) {
        Err(BuiltinError::Help)
    } else {
        match var_arg_spec(args) {
            Err(e) => Err(e),
            Ok(var) => {
                let len = if refs.len() > 1 {
                    match length_spec(refs[1]) {
                        Ok(n) => Ok(Some(n)),
                        Err(e) => Err(e),
                    }
                } else {
                    Ok(None)
                };
                match len {
                    Err(e) => Err(e),
                    Ok(len) => match no_extra_spec(refs.len(), 2) {
                        Err(e) => Err(e),
                        Ok(_) => Ok((var, len)),
                    },
                }
            },
        }
    }
}

/// The plain contents of an `ftruncate` parse.
pub open spec fn ftruncate_view(r: Result<FtruncateConfig, BuiltinError>) -> Result<
    (Seq<u8>, Option<i64>),
    BuiltinError,
> {
    match r {
        Ok(c) => Ok((c.var@, c.length)),
        Err(e) => Err(e),
    }
}

/// Parse `ftruncate` arguments.
pub fn ftruncate_parse(refs: &[Vec<u8>], args: &[Vec<u8>]) -> (r: Result<
    FtruncateConfig,
    BuiltinError,
>)
    ensures
        ftruncate_view(r) == ftruncate_parse_spec(arg_views(refs@), arg_views(args@)),
{
    if wants_help(refs) {
        return Err(BuiltinError::Help);
    }
    let var = var_arg(args)?;
    let len = if refs.len() > 1 {
        assert(arg_views(refs@)[1] == refs@[1]@);
        Some(length(refs[1].as_slice())?)
    } else {
        None
    };
    no_extra(refs.len(), 2)?;
    Ok(FtruncateConfig { var, length: len })
}

/// `fsync %var`: the variable, and no other word.
pub open spec fn fsync_parse_spec(refs: Seq<Seq<u8>>, args: Seq<Seq<u8>>) -> Result<
    Seq<u8>,
    BuiltinError,
> {
    if wants_help_spec(refs) {
        Err(BuiltinError::Help)
    } else {
        match var_arg_spec(args) {
            Err(e) => Err(e),
            Ok(var) => match no_extra_spec(refs.len(), 1) {
                Err(e) => Err(e),
                Ok(_) => Ok(var),
            },
        }
    }
}

/// Parse `fsync` arguments.
pub fn fsync_parse(refs: &[Vec<u8>], args: &[Vec<u8>]) -> (r: Result<FsyncConfig, BuiltinError>)
    ensures
        match r {
            Ok(c) => fsync_parse_spec(arg_views(refs@), arg_views(args@)) == Ok::<
                Seq<u8>,
                BuiltinError,
            >(c.var@),
            Err(e) => fsync_parse_spec(arg_views(refs@), arg_views(args@)) == Err::<
                Seq<u8>,
                BuiltinError,
            >(e),
        },
{
    if wants_help(refs) {
        return Err(BuiltinError::Help);
    }
    let var = var_arg(args)?;
    no_extra(refs.len(), 1)?;
    Ok(FsyncConfig { var })
}

/// What `lseek` prints: the new offset and a newline.
pub fn offset_line(pos: i64) -> (r: Vec<u8>)
    ensures
        r@ == signed_decimal(pos as int).push(0x0au8),
{
    let mut out: Vec<u8> = Vec::new();
    push_signed_decimal(&mut out, pos);
    out.push(NL);
    out
}

/// An accepted whence is one of the three values, written as its single
/// digit.
pub proof fn lemma_whence_values(s: Seq<u8>)
    ensures
        whence_spec(s) matches Ok(w) ==> (w == SEEK_SET || w == SEEK_CUR || w == SEEK_END) && s.len()
            == 1 && s[0] == 0x30u8 + w,
{
}

} // verus!
