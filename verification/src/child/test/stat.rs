//! File metadata as the file tests of `test` read it.

use vstd::prelude::*;
use crate::bytes::{strip_byte_prefix, PERCENT};

verus! {

/// The fields of a `stat(2)` result that the file tests read.
#[derive(Debug, Clone, Copy, PartialEq, Eq, Structural)]
pub struct FileStat {
    pub ino: u64,
    pub mode: u32,
    pub dev: u64,
    pub rdev: u64,
    pub size: u64,
    pub mtime: i64,
}

/// The file-type bits of a mode.
pub const S_IFMT: u32 = 0o170000;
pub const S_IFSOCK: u32 = 0o140000;
pub const S_IFLNK: u32 = 0o120000;
pub const S_IFREG: u32 = 0o100000;
pub const S_IFBLK: u32 = 0o060000;
pub const S_IFDIR: u32 = 0o040000;
pub const S_IFCHR: u32 = 0o020000;
pub const S_IFIFO: u32 = 0o010000;
/// Set-group-ID bit.
pub const S_ISGID: u32 = 0o2000;
/// Sticky bit.
pub const S_ISVTX: u32 = 0o1000;

/// The fd-variable name a written operand `%name` refers to.
pub fn fd_var_name(orig: Option<&Vec<u8>>) -> (r: Option<Vec<u8>>)
    ensures
        match orig {
            Some(o) => match r {
                Some(n) => o@.len() > 0 && o@[0] == 0x25u8 && n@ == o@.drop_first(),
                None => o@.len() == 0 || o@[0] != 0x25u8,
            },
            None => r is None,
        },
{
    match orig {
        Some(o) => strip_byte_prefix(o.as_slice(), PERCENT),
        None => None,
    }
}

} // verus!
