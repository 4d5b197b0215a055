//! `flock %var [--shared] [--wait] [--nowait] [--unlock]`: advisory lock on
//! an existing `%var` fd.
//!
//! The lock is taken on the fd var's open file description, so it outlives
//! this builtin's child and is held by the shell until `--unlock` or the var
//! is closed. Defaults to an exclusive blocking lock.

use vstd::prelude::*;
use crate::bytes::{arg_views, eq_bytes, vres};
use crate::error::{Arg, BuiltinError};
use super::argparse::{wants_help, wants_help_spec};
use super::fdops::{var_arg, var_arg_spec};

verus! {

/// `flock(2)` operations.
pub const LOCK_SH: i32 = 1;
pub const LOCK_EX: i32 = 2;
pub const LOCK_NB: i32 = 4;
pub const LOCK_UN: i32 = 8;

/// `--shared`
pub open spec fn w_shared() -> Seq<u8> {
    seq![0x2du8, 0x2du8, 0x73u8, 0x68u8, 0x61u8, 0x72u8, 0x65u8, 0x64u8]
}

/// `--unlock`
pub open spec fn w_unlock() -> Seq<u8> {
    seq![0x2du8, 0x2du8, 0x75u8, 0x6eu8, 0x6cu8, 0x6fu8, 0x63u8, 0x6bu8]
}

/// `--wait`
pub open spec fn w_wait() -> Seq<u8> {
    seq![0x2du8, 0x2du8, 0x77u8, 0x61u8, 0x69u8, 0x74u8]
}

/// `--nowait`
pub open spec fn w_nowait() -> Seq<u8> {
    seq![0x2du8, 0x2du8, 0x6eu8, 0x6fu8, 0x77u8, 0x61u8, 0x69u8, 0x74u8]
}

pub open spec fn is_lock_flag(w: Seq<u8>) -> bool {
    w == w_shared() || w == w_unlock() || w == w_wait() || w == w_nowait()
}

/// Whether some word of `flags` is `w`.
pub open spec fn has_word(flags: Seq<Seq<u8>>, w: Seq<u8>) -> bool {
    exists|i: int| 0 <= i < flags.len() && #[trigger] flags[i] == w
}

/// The `flock(2)` operation the words after the `%var` ask for: every word
/// must be a known flag, `--unlock` goes with neither `--shared` nor
/// `--nowait`, `--wait` is the default and changes nothing.
pub open spec fn parse_flags_spec(refs: Seq<Seq<u8>>) -> Result<i32, BuiltinError> {
    lock_op_spec(
        if refs.len() > 0 {
            refs.drop_first()
        } else {
            refs
        },
    )
}

/// The operation the flag words `flags` ask for.
pub open spec fn lock_op_spec(flags: Seq<Seq<u8>>) -> Result<i32, BuiltinError> {
    let shared = has_word(flags, w_shared());
    let unlock = has_word(flags, w_unlock());
    let nowait = has_word(flags, w_nowait());
    if exists|i: int| 0 <= i < flags.len() && !is_lock_flag(#[trigger] flags[i]) {
        Err(BuiltinError::InvalidArgument(Arg::Flag))
    } else if unlock && (shared || nowait) {
        Err(BuiltinError::InvalidArgument(Arg::Flag))
    } else {
        let base = if unlock {
            LOCK_UN
        } else if shared {
            LOCK_SH
        } else {
            LOCK_EX
        };
        Ok(
            if nowait {
                (base + LOCK_NB) as i32
            } else {
                base
            },
        )
    }
}

fn flag_words() -> (r: ([u8; 8], [u8; 8], [u8; 6], [u8; 8]))
    ensures
        r.0@ == w_shared() && r.1@ == w_unlock() && r.2@ == w_wait() && r.3@ == w_nowait(),
{
    let shared: [u8; 8] = [0x2d, 0x2d, 0x73, 0x68, 0x61, 0x72, 0x65, 0x64];
    let unlock: [u8; 8] = [0x2d, 0x2d, 0x75, 0x6e, 0x6c, 0x6f, 0x63, 0x6b];
    let wait: [u8; 6] = [0x2d, 0x2d, 0x77, 0x61, 0x69, 0x74];
    let nowait: [u8; 8] = [0x2d, 0x2d, 0x6e, 0x6f, 0x77, 0x61, 0x69, 0x74];
    assert(shared@ == w_shared() && unlock@ == w_unlock() && wait@ == w_wait() && nowait@
        == w_nowait());
    (shared, unlock, wait, nowait)
}

pub fn parse_flags(refs: &[Vec<u8>]) -> (r: Result<i32, BuiltinError>)
    ensures
        r == parse_flags_spec(arg_views(refs@)),
{
    let ghost all = arg_views(refs@);
    let ghost flags = if all.len() > 0 {
        all.drop_first()
    } else {
        all
    };
    let (w_sh, w_un, w_wa, w_nw) = flag_words();
    let mut shared = false;
    let mut unlock = false;
    let mut nowait = false;
    let start: usize = if refs.len() > 0 {
        1
    } else {
        0
    };
    let mut i: usize = start;
    while i < refs.len()
        invariant
            start <= i <= refs.len(),
            start == (if refs.len() > 0 { 1usize } else { 0usize }),
            all == arg_views(refs@),
            flags == (if all.len() > 0 { all.drop_first() } else { all }),
            flags.len() == refs.len() - start,
            w_sh@ == w_shared() && w_un@ == w_unlock() && w_wa@ == w_wait() && w_nw@ == w_nowait(),
            forall|j: int| 0 <= j < i - start ==> is_lock_flag(#[trigger] flags[j]),
            shared == has_word(flags.take(i - start), w_shared()),
            unlock == has_word(flags.take(i - start), w_unlock()),
            nowait == has_word(flags.take(i - start), w_nowait()),
        decreases refs.len() - i,
    {
        let w = refs[i].as_slice();
        let ghost k = i - start;
        assert(flags[k] == w@);
        let ghost before = flags.take(k);
        assert(flags.take(k + 1) =~= before.push(w@));
        if eq_bytes(w, &w_sh) {
            shared = true;
        } else if eq_bytes(w, &w_un) {
            unlock = true;
        } else if eq_bytes(w, &w_wa) {
        } else if eq_bytes(w, &w_nw) {
            nowait = true;
        } else {
            assert(!is_lock_flag(flags[k]) && 0 <= k < flags.len());
            assert(exists|j: int| 0 <= j < flags.len() && !is_lock_flag(#[trigger] flags[j]));
            return Err(BuiltinError::InvalidArgument(Arg::Flag));
        }
        proof {
            let after = flags.take(k + 1);
            assert(has_word(after, w_shared()) == (has_word(before, w_shared()) || w@ == w_shared())) by {
                if w@ == w_shared() {
                    assert(after[k] == w@);
                }
                if has_word(before, w_shared()) {
                    let j = choose|j: int| 0 <= j < before.len() && before[j] == w_shared();
                    assert(after[j] == before[j]);
                }
            }
            assert(has_word(after, w_unlock()) == (has_word(before, w_unlock()) || w@ == w_unlock())) by {
                if w@ == w_unlock() {
                    assert(after[k] == w@);
                }
                if has_word(before, w_unlock()) {
                    let j = choose|j: int| 0 <= j < before.len() && before[j] == w_unlock();
                    assert(after[j] == before[j]);
                }
            }
            assert(has_word(after, w_nowait()) == (has_word(before, w_nowait()) || w@ == w_nowait())) by {
                if w@ == w_nowait() {
                    assert(after[k] == w@);
                }
                if has_word(before, w_nowait()) {
                    let j = choose|j: int| 0 <= j < before.len() && before[j] == w_nowait();
                    assert(after[j] == before[j]);
                }
            }
        }
        i = i + 1;
    }
    assert(flags.take(flags.len() as int) =~= flags);
    if unlock && (shared || nowait) {
        return Err(BuiltinError::InvalidArgument(Arg::Flag));
    }
    let base = if unlock {
        LOCK_UN
    } else if shared {
        LOCK_SH
    } else {
        LOCK_EX
    };
    Ok(
        if nowait {
            base + LOCK_NB
        } else {
            base
        },
    )
}

/// `flock %var [FLAGS]`.
#[derive(Debug)]
pub struct FlockConfig {
    pub var: Vec<u8>,
    pub operation: i32,
}

pub open spec fn flock_parse_spec(refs: Seq<Seq<u8>>, args: Seq<Seq<u8>>) -> Result<
    (Seq<u8>, i32),
    BuiltinError,
> {
    if wants_help_spec(refs) {
        Err(BuiltinError::Help)
    } else {
        match var_arg_spec(args) {
            Err(e) => Err(e),
            Ok(var) => match parse_flags_spec(refs) {
                Err(e) => Err(e),
                Ok(op) => Ok((var, op)),
            },
        }
    }
}

pub open spec fn flock_view(r: Result<FlockConfig, BuiltinError>) -> Result<
    (Seq<u8>, i32),
    BuiltinError,
> {
    match r {
        Ok(c) => Ok((c.var@, c.operation)),
        Err(e) => Err(e),
    }
}

pub fn flock_parse(refs: &[Vec<u8>], args: &[Vec<u8>]) -> (r: Result<FlockConfig, BuiltinError>)
    ensures
        flock_view(r) == flock_parse_spec(arg_views(refs@), arg_views(args@)),
{
    if wants_help(refs) {
        return Err(BuiltinError::Help);
    }
    let var = var_arg(args)?;
    let operation = parse_flags(refs)?;
    Ok(FlockConfig { var, operation })
}

/// Every accepted operation is a lock or an unlock, never both, with or
/// without the non-blocking bit: unlock is never combined with a lock mode.
pub proof fn lemma_flock_operation_shape(refs: Seq<Seq<u8>>)
    ensures
        parse_flags_spec(refs) matches Ok(op) ==> op == LOCK_SH || op == LOCK_EX || op == LOCK_UN
            || op == LOCK_SH + LOCK_NB || op == LOCK_EX + LOCK_NB,
{
}

} // verus!
