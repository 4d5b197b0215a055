//! `ls %dirfd` or `ls PATH [--dir %d]`: list a directory's entry names.
//!
//! Lists the names in the directory behind an open `%dirfd` fd-variable, or
//! in the directory at `PATH` (opened read-only, resolved against `--dir %d`
//! or the working directory), one name per line.

use vstd::prelude::*;
use crate::bytes::{arg_views, vopt};
use crate::error::BuiltinError;
use super::target::{at_target, at_target_spec, AtTarget, TargetView};

verus! {

/// What `ls` and `readlink` act on.
#[derive(Debug)]
pub enum Target {
    /// `%fd`: the open handle behind the variable.
    Fd { var: Vec<u8> },
    /// `PATH [--dir %d]`.
    Path { path: Vec<u8>, dir: Option<Vec<u8>> },
}

/// The plain contents of a [`Target`].
pub enum PlainTarget {
    Fd { var: Seq<u8> },
    Path { path: Seq<u8>, dir: Option<Seq<u8>> },
}

impl View for Target {
    type V = PlainTarget;

    open spec fn view(&self) -> PlainTarget {
        match self {
            Target::Fd { var } => PlainTarget::Fd { var: var@ },
            Target::Path { path, dir } => PlainTarget::Path { path: path@, dir: vopt(*dir) },
        }
    }
}

/// The operand of `ls` and `readlink`: a handle or a path, without
/// `--nofollow`.
pub open spec fn parse_spec(refs: Seq<Seq<u8>>, args: Seq<Seq<u8>>) -> Result<PlainTarget, BuiltinError> {
    match at_target_spec(refs, args, false) {
        Ok(TargetView::Fd { var, .. }) => Ok(PlainTarget::Fd { var }),
        Ok(TargetView::Path { path, dir, .. }) => Ok(PlainTarget::Path { path, dir }),
        Err(e) => Err(e),
    }
}

pub open spec fn plain_view(r: Result<Target, BuiltinError>) -> Result<PlainTarget, BuiltinError> {
    match r {
        Ok(t) => Ok(t@),
        Err(e) => Err(e),
    }
}

/// Parse `ls` arguments: `%dirfd`, or `PATH [--dir %d]`.
pub fn ls_parse(refs: &[Vec<u8>], args: &[Vec<u8>]) -> (r: Result<Target, BuiltinError>)
    ensures
        plain_view(r) == parse_spec(arg_views(refs@), arg_views(args@)),
{
    match at_target(refs, args, false)? {
        AtTarget::Fd { var, .. } => Ok(Target::Fd { var }),
        AtTarget::Path { path, dir, .. } => Ok(Target::Path { path, dir }),
    }
}

} // verus!
