//! `exec_fd %var ARGV...` and `exec_at %dir PATH ARGV...`: run a program
//! through an fd variable without a further fork.

use vstd::prelude::*;
use crate::bytes::{arg_views, strip_byte_prefix, vres, PERCENT};
use crate::error::{Arg, BuiltinError};

verus! {

/// The fd variable named by the first word as written, `%name`.
pub open spec fn lookup_var_spec(args: Seq<Seq<u8>>) -> Result<Seq<u8>, BuiltinError> {
    if args.len() > 0 && args[0].len() > 0 && args[0][0] == 0x25u8 {
        Ok(args[0].drop_first())
    } else {
        Err(BuiltinError::InvalidArgument(Arg::Var))
    }
}

pub fn lookup_var(args: &[Vec<u8>]) -> (r: Result<Vec<u8>, BuiltinError>)
    ensures
        vres(r) == lookup_var_spec(arg_views(args@)),
{
    if args.len() == 0 {
        return Err(BuiltinError::InvalidArgument(Arg::Var));
    }
    assert(arg_views(args@)[0] == args@[0]@);
    match strip_byte_prefix(args[0].as_slice(), PERCENT) {
        Some(v) => Ok(v),
        None => Err(BuiltinError::InvalidArgument(Arg::Var)),
    }
}

/// Where the program's argv starts in the substituted words: after the
/// `skip` words naming the fd (and path); there must be that many.
pub open spec fn argv_start_spec(n_refs: nat, skip: nat) -> Result<usize, BuiltinError> {
    if skip <= n_refs {
        Ok(skip as usize)
    } else {
        Err(BuiltinError::InvalidArgument(Arg::Arg))
    }
}

pub fn argv_start(refs: &[Vec<u8>], skip: usize) -> (r: Result<usize, BuiltinError>)
    ensures
        r == argv_start_spec(refs@.len(), skip as nat),
{
    if skip <= refs.len() {
        Ok(skip)
    } else {
        Err(BuiltinError::InvalidArgument(Arg::Arg))
    }
}

/// The status of an exec that returned: the program ran, or the exec
/// failed with this exit code.
pub fn exec_status(r: Result<(), i32>) -> (s: i32)
    ensures
        s == match r {
            Ok(()) => 0i32,
            Err(code) => code,
        },
{
    match r {
        Ok(()) => 0,
        Err(code) => code,
    }
}

} // verus!
