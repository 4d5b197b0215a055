//! `readlink PATH [--dir %d]` or `readlink %fd`: a symlink's target.
//!
//! Path form: the link at the path resolved against the directory fd in
//! `%dir` (or the working directory). Fd form: the symlink behind the open
//! handle in `%fd`, read through an empty path, so the result reflects the
//! exact link the handle points at. The target is printed with a newline.

use vstd::prelude::*;
use crate::bytes::{arg_views, push_all, NL};
use crate::error::BuiltinError;
use super::ls::{ls_parse, parse_spec, plain_view};

pub use super::ls::Target;

verus! {

/// Parse `readlink` arguments; they take the same forms as those of `ls`.
pub fn readlink_parse(refs: &[Vec<u8>], args: &[Vec<u8>]) -> (r: Result<Target, BuiltinError>)
    ensures
        plain_view(r) == parse_spec(arg_views(refs@), arg_views(args@)),
{
    ls_parse(refs, args)
}

/// What `readlink` prints for a link whose target is `target`.
pub fn target_line(target: &[u8]) -> (r: Vec<u8>)
    ensures
        r@ == target@.push(0x0au8),
{
    let mut out: Vec<u8> = Vec::new();
    push_all(&mut out, target);
    out.push(NL);
    out
}

} // verus!
