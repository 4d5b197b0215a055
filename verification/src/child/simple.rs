//! The builtins that need no arguments parsed: `true`, `false`, `help`,
//! `echo`, `pwd`.

use vstd::prelude::*;
use crate::bytes::{arg_views, push_all, NL, SPACE};
use crate::error::BuiltinError;
use super::help::{help_text, print_help};

verus! {

/// `true`: success.
pub fn handle_true() -> (r: Result<i32, BuiltinError>)
    ensures
        r == Ok::<i32, BuiltinError>(0),
{
    Ok(0)
}

/// `false`: failure.
pub fn handle_false() -> (r: Result<i32, BuiltinError>)
    ensures
        r == Ok::<i32, BuiltinError>(1),
{
    Ok(1)
}

/// `help`: the list of commands, appended to `out`.
pub fn handle_help(out: &mut Vec<u8>) -> (r: Result<i32, BuiltinError>)
    ensures
        r == Ok::<i32, BuiltinError>(0),
        final(out)@ == old(out)@ + help_text(),
{
    print_help(out);
    Ok(0)
}

/// The words joined by single spaces.
pub open spec fn joined(words: Seq<Seq<u8>>) -> Seq<u8>
    decreases words.len(),
{
    if words.len() == 0 {
        Seq::empty()
    } else if words.len() == 1 {
        words[0]
    } else {
        joined(words.drop_last()).push(0x20u8) + words.last()
    }
}

/// What `echo` prints: its words joined by spaces, and a newline.
pub fn echo_line(refs: &[Vec<u8>]) -> (r: Vec<u8>)
    ensures
        r@ == joined(arg_views(refs@)).push(0x0au8),
{
    let ghost words = arg_views(refs@);
    let mut out: Vec<u8> = Vec::new();
    let mut i: usize = 0;
    while i < refs.len()
        invariant
            i <= refs.len(),
            words == arg_views(refs@),
            out@ == joined(words.take(i as int)),
        decreases refs.len() - i,
    {
        let ghost before = words.take(i as int);
        assert(words.take(i as int + 1).drop_last() =~= before);
        assert(words[i as int] == refs@[i as int]@);
        if i > 0 {
            out.push(SPACE);
        }
        push_all(&mut out, refs[i].as_slice());
        proof {
            if i == 0 {
                assert(out@ =~= joined(words.take(1)));
            } else {
                assert(out@ =~= joined(words.take(i as int + 1)));
            }
        }
        i = i + 1;
    }
    assert(words.take(refs.len() as int) =~= words);
    out.push(NL);
    out
}

/// What `pwd` prints for the working directory `cwd`.
pub fn pwd_line(cwd: &[u8]) -> (r: Vec<u8>)
    ensures
        r@ == cwd@.push(0x0au8),
{
    let mut out: Vec<u8> = Vec::new();
    push_all(&mut out, cwd);
    out.push(NL);
    out
}

} // verus!
