//! Shared flag-value parsing for the forked builtins. `--dir %d` is the
//! common one: its value is an fd-variable reference and must be read from
//! the words as written, where `%d` has not yet been substituted to the fd
//! number it carries in the substituted ones.

use vstd::prelude::*;
use crate::bytes::{contains_byte, copy_range, vres, EQ, PERCENT};
use crate::error::{Arg, BuiltinError};

verus! {

/// The index of the first `=` in `s` at or after `i`, if any.
pub open spec fn find_eq(s: Seq<u8>, i: int) -> Option<int>
    decreases s.len() - i,
{
    if i < 0 || i >= s.len() {
        None
    } else if s[i] == 0x3du8 {
        Some(i)
    } else {
        find_eq(s, i + 1)
    }
}

/// The index of the first `=` in `s`, if any.
pub open spec fn first_eq(s: Seq<u8>) -> Option<int> {
    find_eq(s, 0)
}

/// `--key=value` split at its first `=`; a word without `=` is all key.
pub open spec fn split_eq_spec(arg: Seq<u8>) -> (Seq<u8>, Option<Seq<u8>>) {
    match first_eq(arg) {
        Some(i) => (arg.subrange(0, i), Some(arg.subrange(i + 1, arg.len() as int))),
        None => (arg, None),
    }
}

proof fn lemma_find_eq(s: Seq<u8>, i: int)
    requires
        0 <= i,
    ensures
        match find_eq(s, i) {
            Some(k) => i <= k < s.len() && s[k] == 0x3du8 && forall|j: int| i <= j < k ==> s[j] != 0x3du8,
            None => forall|j: int| i <= j < s.len() ==> s[j] != 0x3du8,
        },
    decreases s.len() - i,
{
    if i < s.len() && s[i] != 0x3du8 {
        lemma_find_eq(s, i + 1);
    }
}

proof fn lemma_find_eq_skip(s: Seq<u8>, i: int)
    requires
        0 <= i <= s.len(),
        forall|j: int| 0 <= j < i ==> s[j] != 0x3du8,
    ensures
        find_eq(s, 0) == find_eq(s, i),
    decreases i,
{
    if i > 0 {
        lemma_find_eq_skip(s, i - 1);
    }
}

/// Split `--key=value` into `("key", Some("value"))`, else `("key", None)`.
pub fn split_eq(arg: &[u8]) -> (r: (Vec<u8>, Option<Vec<u8>>))
    ensures
        r.0@ == split_eq_spec(arg@).0,
        match r.1 {
            Some(v) => split_eq_spec(arg@).1 == Some(v@),
            None => split_eq_spec(arg@).1 is None,
        },
{
    let mut i: usize = 0;
    while i < arg.len()
        invariant
            i <= arg.len(),
            forall|j: int| 0 <= j < i ==> arg@[j] != 0x3du8,
        decreases arg.len() - i,
    {
        if arg[i] == EQ {
            proof {
                lemma_find_eq_skip(arg@, i as int);
            }
            return (copy_range(arg, 0, i), Some(copy_range(arg, i + 1, arg.len())));
        }
        i = i + 1;
    }
    proof {
        lemma_find_eq_skip(arg@, i as int);
    }
    assert(arg@.subrange(0, arg@.len() as int) =~= arg@);
    (copy_range(arg, 0, arg.len()), None)
}

/// `--dir` takes an fd variable: `%name` with a non-empty name and no
/// further `%`.
pub open spec fn dir_var_spec(v: Seq<u8>) -> Result<Seq<u8>, BuiltinError> {
    if v.len() == 0 || v[0] != 0x25u8 {
        Err(BuiltinError::InvalidArgument(Arg::DirVar))
    } else if v.drop_first().len() == 0 || v.drop_first().contains(0x25u8) {
        Err(BuiltinError::InvalidArgument(Arg::DirVar))
    } else {
        Ok(v.drop_first())
    }
}

pub fn dir_var(v: &[u8]) -> (r: Result<Vec<u8>, BuiltinError>)
    ensures
        vres(r) == dir_var_spec(v@),
{
    if v.len() == 0 || v[0] != PERCENT {
        return Err(BuiltinError::InvalidArgument(Arg::DirVar));
    }
    let name = copy_range(v, 1, v.len());
    assert(name@ =~= v@.drop_first());
    if name.len() == 0 || contains_byte(name.as_slice(), PERCENT) {
        return Err(BuiltinError::InvalidArgument(Arg::DirVar));
    }
    Ok(name)
}

/// The key of a split word never holds `=`, and key, `=` and value put back
/// together give the word again.
pub proof fn lemma_split_eq_roundtrip(arg: Seq<u8>)
    ensures
        !split_eq_spec(arg).0.contains(0x3du8),
        match split_eq_spec(arg).1 {
            Some(v) => split_eq_spec(arg).0 + seq![0x3du8] + v == arg,
            None => split_eq_spec(arg).0 == arg,
        },
{
    lemma_find_eq(arg, 0);
    match first_eq(arg) {
        Some(i) => {
            let key = arg.subrange(0, i);
            assert forall|j: int| 0 <= j < key.len() implies key[j] != 0x3du8 by {
                assert(key[j] == arg[j]);
            }
            assert(arg.subrange(0, i) + seq![0x3du8] + arg.subrange(i + 1, arg.len() as int) =~= arg);
        },
        None => {},
    }
}

/// An accepted `--dir` value names a non-empty variable without `%`, and
/// `%` in front of it gives the value back.
pub proof fn lemma_dir_var_shape(v: Seq<u8>)
    ensures
        dir_var_spec(v) matches Ok(name) ==> name.len() > 0 && !name.contains(0x25u8) && seq![
            0x25u8,
        ] + name == v,
{
    if dir_var_spec(v) is Ok {
        assert(seq![0x25u8] + v.drop_first() =~= v);
    }
}

} // verus!
