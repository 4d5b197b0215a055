//! The operand shared by the builtins that act on a path or an open handle
//! (`ls`, `readlink`, `statx`): `%fd`, or `PATH [--dir %d]`, optionally
//! with `--nofollow`.
//!
//! The first word and the flags come from the words as written, because the
//! `--dir` value is an fd-variable reference that must stay `%d`; the path
//! itself comes from the substituted words.

use vstd::prelude::*;
use crate::bytes::{arg_views, eq_bytes, vopt};
use crate::error::{Arg, BuiltinError};
use super::argparse::{wants_help, wants_help_spec};
use super::fdops::{var_arg, var_arg_spec};
use super::flags::{dir_var, dir_var_spec, split_eq, split_eq_spec};

verus! {

/// `--dir`
pub open spec fn w_dir() -> Seq<u8> {
    seq![0x2du8, 0x2du8, 0x64u8, 0x69u8, 0x72u8]
}

/// `--nofollow`
pub open spec fn w_nofollow() -> Seq<u8> {
    seq![0x2du8, 0x2du8, 0x6eu8, 0x6fu8, 0x66u8, 0x6fu8, 0x6cu8, 0x6cu8, 0x6fu8, 0x77u8]
}

/// The flags from word `i` on, given what the earlier ones set: `--dir %d`
/// or `--dir=%d` at most once, and, where `nofollow_ok`, `--nofollow`
/// without a value. Any other word is an unknown flag.
pub open spec fn flags_from(
    args: Seq<Seq<u8>>,
    i: int,
    nofollow_ok: bool,
    nofollow: bool,
    dir: Option<Seq<u8>>,
) -> Result<(bool, Option<Seq<u8>>), BuiltinError>
    decreases args.len() - i,
{
    if i < 0 || i >= args.len() {
        Ok((nofollow, dir))
    } else {
        let key = split_eq_spec(args[i]).0;
        let val = split_eq_spec(args[i]).1;
        if nofollow_ok && key == w_nofollow() {
            if val is Some {
                Err(BuiltinError::InvalidArgument(Arg::NofollowFlag))
            } else {
                flags_from(args, i + 1, nofollow_ok, true, dir)
            }
        } else if key == w_dir() {
            if dir is Some {
                Err(BuiltinError::InvalidArgument(Arg::DirFlag))
            } else {
                match val {
                    Some(inline) => match dir_var_spec(inline) {
                        Ok(d) => flags_from(args, i + 1, nofollow_ok, nofollow, Some(d)),
                        Err(e) => Err(e),
                    },
                    None => if i + 1 < args.len() {
                        match dir_var_spec(args[i + 1]) {
                            Ok(d) => flags_from(args, i + 2, nofollow_ok, nofollow, Some(d)),
                            Err(e) => Err(e),
                        }
                    } else {
                        Err(BuiltinError::InvalidArgument(Arg::DirFlag))
                    },
                }
            }
        } else {
            Err(BuiltinError::InvalidArgument(Arg::Flag))
        }
    }
}

/// A handle or a path to act on.
#[derive(Debug)]
pub enum AtTarget {
    /// `%fd [--nofollow]`: the open handle behind the variable.
    Fd { var: Vec<u8>, nofollow: bool },
    /// `PATH [--dir %d] [--nofollow]`: a path resolved against the
    /// directory in `%d`, or the working directory.
    Path { path: Vec<u8>, dir: Option<Vec<u8>>, nofollow: bool },
}

/// The plain contents of an [`AtTarget`].
pub enum TargetView {
    Fd { var: Seq<u8>, nofollow: bool },
    Path { path: Seq<u8>, dir: Option<Seq<u8>>, nofollow: bool },
}

impl View for AtTarget {
    type V = TargetView;

    open spec fn view(&self) -> TargetView {
        match self {
            AtTarget::Fd { var, nofollow } => TargetView::Fd { var: var@, nofollow: *nofollow },
            AtTarget::Path { path, dir, nofollow } => TargetView::Path {
                path: path@,
                dir: vopt(*dir),
                nofollow: *nofollow,
            },
        }
    }
}

pub open spec fn target_view(r: Result<AtTarget, BuiltinError>) -> Result<TargetView, BuiltinError> {
    match r {
        Ok(t) => Ok(t@),
        Err(e) => Err(e),
    }
}

/// The operand of `refs` / `args`: `%fd` when the first word as written
/// starts with `%` (then `--dir` is refused), else the first substituted
/// word as a non-empty path.
pub open spec fn at_target_spec(refs: Seq<Seq<u8>>, args: Seq<Seq<u8>>, nofollow_ok: bool) -> Result<
    TargetView,
    BuiltinError,
> {
    if wants_help_spec(refs) {
        Err(BuiltinError::Help)
    } else if args.len() == 0 {
        Err(BuiltinError::MissingArgument(Arg::Path))
    } else {
        match flags_from(args, 1, nofollow_ok, false, None) {
            Err(e) => Err(e),
            Ok((nofollow, dir)) => if args[0].len() > 0 && args[0][0] == 0x25u8 {
                if dir is Some {
                    Err(BuiltinError::InvalidArgument(Arg::DirFlag))
                } else {
                    match var_arg_spec(args) {
                        Ok(var) => Ok(TargetView::Fd { var, nofollow }),
                        Err(e) => Err(e),
                    }
                }
            } else if refs.len() == 0 {
                Err(BuiltinError::MissingArgument(Arg::Path))
            } else if refs[0].len() == 0 {
                Err(BuiltinError::InvalidArgument(Arg::Path))
            } else {
                Ok(TargetView::Path { path: refs[0], dir, nofollow })
            },
        }
    }
}

fn flag_words() -> (r: ([u8; 5], [u8; 10]))
    ensures
        r.0@ == w_dir() && r.1@ == w_nofollow(),
{
    let dir: [u8; 5] = [0x2d, 0x2d, 0x64, 0x69, 0x72];
    let nofollow: [u8; 10] = [0x2d, 0x2d, 0x6e, 0x6f, 0x66, 0x6f, 0x6c, 0x6c, 0x6f, 0x77];
    assert(dir@ == w_dir() && nofollow@ == w_nofollow());
    (dir, nofollow)
}

/// The flags after the first word.
pub fn parse_flags(args: &[Vec<u8>], nofollow_ok: bool) -> (r: Result<
    (bool, Option<Vec<u8>>),
    BuiltinError,
>)
    ensures
        match r {
            Ok((n, d)) => flags_from(arg_views(args@), 1, nofollow_ok, false, None) == Ok::<
                (bool, Option<Seq<u8>>),
                BuiltinError,
            >((n, vopt(d))),
            Err(e) => flags_from(arg_views(args@), 1, nofollow_ok, false, None) == Err::<
                (bool, Option<Seq<u8>>),
                BuiltinError,
            >(e),
        },
{
    let ghost av = arg_views(args@);
    let (w_d, w_nf) = flag_words();
    let mut nofollow = false;
    let mut dir: Option<Vec<u8>> = None;
    let mut i: usize = 1;
    while i < args.len()
        invariant
            1 <= i,
            av == arg_views(args@),
            w_d@ == w_dir() && w_nf@ == w_nofollow(),
            flags_from(av, 1, nofollow_ok, false, None) == flags_from(
                av,
                i as int,
                nofollow_ok,
                nofollow,
                vopt(dir),
            ),
        decreases args.len() - i,
    {
        assert(av[i as int] == args@[i as int]@);
        let (key, val) = split_eq(args[i].as_slice());
        if nofollow_ok && eq_bytes(key.as_slice(), &w_nf) {
            if val.is_some() {
                return Err(BuiltinError::InvalidArgument(Arg::NofollowFlag));
            }
            nofollow = true;
            i = i + 1;
        } else if eq_bytes(key.as_slice(), &w_d) {
            if dir.is_some() {
                return Err(BuiltinError::InvalidArgument(Arg::DirFlag));
            }
            match val {
                Some(inline) => {
                    let d = dir_var(inline.as_slice())?;
                    dir = Some(d);
                    i = i + 1;
                },
                None => {
                    if i + 1 < args.len() {
                        assert(av[i + 1] == args@[i + 1]@);
                        let d = dir_var(args[i + 1].as_slice())?;
                        dir = Some(d);
                        i = i + 2;
                    } else {
                        return Err(BuiltinError::InvalidArgument(Arg::DirFlag));
                    }
                },
            }
        } else {
            return Err(BuiltinError::InvalidArgument(Arg::Flag));
        }
    }
    Ok((nofollow, dir))
}

/// Parse the operand of a path-or-handle builtin.
pub fn at_target(refs: &[Vec<u8>], args: &[Vec<u8>], nofollow_ok: bool) -> (r: Result<
    AtTarget,
    BuiltinError,
>)
    ensures
        target_view(r) == at_target_spec(arg_views(refs@), arg_views(args@), nofollow_ok),
{
    if wants_help(refs) {
        return Err(BuiltinError::Help);
    }
    if args.len() == 0 {
        return Err(BuiltinError::MissingArgument(Arg::Path));
    }
    let (nofollow, dir) = parse_flags(args, nofollow_ok)?;
    let first = args[0].as_slice();
    assert(arg_views(args@)[0] == first@);
    if first.len() > 0 && first[0] == 0x25 {
        if dir.is_some() {
            return Err(BuiltinError::InvalidArgument(Arg::DirFlag));
        }
        let var = var_arg(args)?;
        return Ok(AtTarget::Fd { var, nofollow });
    }
    if refs.len() == 0 {
        return Err(BuiltinError::MissingArgument(Arg::Path));
    }
    assert(arg_views(refs@)[0] == refs@[0]@);
    if refs[0].len() == 0 {
        return Err(BuiltinError::InvalidArgument(Arg::Path));
    }
    Ok(AtTarget::Path { path: refs[0].clone(), dir, nofollow })
}

/// A path operand is never empty, a handle operand comes from a first word
/// starting with `%`, and where `--nofollow` is not accepted no operand
/// asks for it.
pub proof fn lemma_target_shape(refs: Seq<Seq<u8>>, args: Seq<Seq<u8>>, nofollow_ok: bool)
    ensures
        at_target_spec(refs, args, nofollow_ok) matches Ok(TargetView::Path { path, .. }) ==> path.len()
            > 0,
        at_target_spec(refs, args, nofollow_ok) matches Ok(TargetView::Fd { .. }) ==> args.len() > 0
            && args[0].len() > 0 && args[0][0] == 0x25u8,
        !nofollow_ok ==> (at_target_spec(refs, args, nofollow_ok) matches Ok(t) ==> match t {
            TargetView::Fd { nofollow, .. } => !nofollow,
            TargetView::Path { nofollow, .. } => !nofollow,
        }),
{
    if !nofollow_ok && args.len() > 0 {
        lemma_flags_keep_nofollow(args, 1, None);
    }
}

proof fn lemma_flags_keep_nofollow(args: Seq<Seq<u8>>, i: int, dir: Option<Seq<u8>>)
    ensures
        flags_from(args, i, false, false, dir) matches Ok((n, _)) ==> !n,
    decreases args.len() - i,
{
    if 0 <= i < args.len() {
        let key = split_eq_spec(args[i]).0;
        let val = split_eq_spec(args[i]).1;
        if key == w_dir() && dir is None {
            match val {
                Some(inline) => {
                    if let Ok(d) = dir_var_spec(inline) {
                        lemma_flags_keep_nofollow(args, i + 1, Some(d));
                    }
                },
                None => {
                    if i + 1 < args.len() {
                        if let Ok(d) = dir_var_spec(args[i + 1]) {
                            lemma_flags_keep_nofollow(args, i + 2, Some(d));
                        }
                    }
                },
            }
        }
    }
}

} // verus!
