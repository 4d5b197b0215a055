//! Argument conventions shared by the forked builtins.

use vstd::prelude::*;
use crate::bytes::{arg_views, eq_bytes};

verus! {

/// `--help`
pub open spec fn help_word() -> Seq<u8> {
    seq![0x2du8, 0x2du8, 0x68u8, 0x65u8, 0x6cu8, 0x70u8]
}

/// A builtin asked for its usage: some word is `--help`.
pub open spec fn wants_help_spec(refs: Seq<Seq<u8>>) -> bool {
    exists|i: int| 0 <= i < refs.len() && #[trigger] refs[i] == help_word()
}

pub fn wants_help(refs: &[Vec<u8>]) -> (r: bool)
    ensures
        r == wants_help_spec(arg_views(refs@)),
{
    let help: [u8; 6] = [0x2d, 0x2d, 0x68, 0x65, 0x6c, 0x70];
    assert(help@ == help_word());
    let ghost v = arg_views(refs@);
    let mut i: usize = 0;
    while i < refs.len()
        invariant
            i <= refs.len(),
            v == arg_views(refs@),
            help@ == help_word(),
            forall|j: int| 0 <= j < i ==> v[j] != help_word(),
        decreases refs.len() - i,
    {
        assert(v[i as int] == refs@[i as int]@);
        if eq_bytes(refs[i].as_slice(), &help) {
            return true;
        }
        i = i + 1;
    }
    false
}

} // verus!
