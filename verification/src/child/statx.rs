//! `statx PATH [--dir %d] [--nofollow]` or `statx %fd`: file metadata.
//!
//! Path form: metadata of the path resolved against the directory fd in
//! `%dir` (or the working directory); `--nofollow` describes a symlink
//! itself. Fd form: the open handle behind `%fd`, re-read through an empty
//! path. Prints one line:
//! `kind=.. size=.. mode=.. ino=.. dev=MAJ:MIN mtime=..`.

use vstd::prelude::*;
use vstd::string::StringSliceAdditionalSpecFns;
use crate::bytes::{arg_views, push_str};
use crate::error::BuiltinError;
use crate::num::{push_radix, push_signed_decimal, radix_digits, signed_decimal};
use super::target::{at_target, at_target_spec, target_view, AtTarget, TargetView};
use super::test::stat::{S_IFBLK, S_IFCHR, S_IFDIR, S_IFIFO, S_IFLNK, S_IFMT, S_IFREG, S_IFSOCK};

verus! {

/// `statx(2)` flags.
pub const AT_SYMLINK_NOFOLLOW: i32 = 0x100;
pub const AT_EMPTY_PATH: i32 = 0x1000;

/// The fields of a `statx(2)` result that the builtin prints.
#[derive(Debug, Clone, Copy, PartialEq, Eq, Structural)]
pub struct Statx {
    pub ino: u64,
    pub mode: u32,
    pub size: u64,
    pub dev_major: u32,
    pub dev_minor: u32,
    pub mtime_sec: i64,
}

/// Parse `statx` arguments: `%fd [--nofollow]` or
/// `PATH [--dir %d] [--nofollow]`.
pub fn statx_parse(refs: &[Vec<u8>], args: &[Vec<u8>]) -> (r: Result<AtTarget, BuiltinError>)
    ensures
        target_view(r) == at_target_spec(arg_views(refs@), arg_views(args@), true),
{
    at_target(refs, args, true)
}

/// The `statx(2)` flags for a target: not following a final symlink, and
/// describing the handle itself through an empty path.
pub open spec fn flags_spec(nofollow: bool, empty_path: bool) -> i32 {
    ((if nofollow {
        AT_SYMLINK_NOFOLLOW
    } else {
        0i32
    }) + (if empty_path {
        AT_EMPTY_PATH
    } else {
        0i32
    })) as i32
}

pub fn flags(nofollow: bool, empty_path: bool) -> (f: i32)
    ensures
        f == flags_spec(nofollow, empty_path),
{
    let mut f: i32 = 0;
    if nofollow {
        f = f + AT_SYMLINK_NOFOLLOW;
    }
    if empty_path {
        f = f + AT_EMPTY_PATH;
    }
    f
}

/// File-kind name for the file-type bits of `mode`.
pub open spec fn kind_text(mode: u32) -> &'static str {
    let t = mode & S_IFMT;
    if t == S_IFREG {
        "file"
    } else if t == S_IFDIR {
        "dir"
    } else if t == S_IFLNK {
        "symlink"
    } else if t == S_IFIFO {
        "fifo"
    } else if t == S_IFCHR {
        "char"
    } else if t == S_IFBLK {
        "block"
    } else if t == S_IFSOCK {
        "sock"
    } else {
        "unknown"
    }
}

pub fn kind(mode: u32) -> (s: &'static str)
    ensures
        s == kind_text(mode),
{
    let t = mode & S_IFMT;
    if t == S_IFREG {
        "file"
    } else if t == S_IFDIR {
        "dir"
    } else if t == S_IFLNK {
        "symlink"
    } else if t == S_IFIFO {
        "fifo"
    } else if t == S_IFCHR {
        "char"
    } else if t == S_IFBLK {
        "block"
    } else if t == S_IFSOCK {
        "sock"
    } else {
        "unknown"
    }
}

/// The decimal digits of `n`.
pub open spec fn dec(n: nat) -> Seq<u8> {
    radix_digits(n, 10, false)
}

/// `kind=.. size=.. mode=.. ino=.. dev=MAJ:MIN mtime=..` and a newline; the
/// mode is the permission and special bits in octal.
pub open spec fn line_spec(st: Statx) -> Seq<u8> {
    "kind=".spec_bytes() + kind_text(st.mode).spec_bytes() + " size=".spec_bytes() + dec(
        st.size as nat,
    ) + " mode=".spec_bytes() + radix_digits((st.mode & 0o7777u32) as nat, 8, false)
        + " ino=".spec_bytes() + dec(st.ino as nat) + " dev=".spec_bytes() + dec(
        st.dev_major as nat,
    ) + ":".spec_bytes() + dec(st.dev_minor as nat) + " mtime=".spec_bytes() + signed_decimal(
        st.mtime_sec as int,
    ) + "\n".spec_bytes()
}

pub fn line(st: &Statx) -> (r: Vec<u8>)
    ensures
        r@ == line_spec(*st),
{
    let mut out: Vec<u8> = Vec::new();
    push_str(&mut out, "kind=");
    push_str(&mut out, kind(st.mode));
    push_str(&mut out, " size=");
    push_radix(&mut out, st.size, 10, false);
    push_str(&mut out, " mode=");
    push_radix(&mut out, (st.mode & 0o7777) as u64, 8, false);
    push_str(&mut out, " ino=");
    push_radix(&mut out, st.ino, 10, false);
    push_str(&mut out, " dev=");
    push_radix(&mut out, st.dev_major as u64, 10, false);
    push_str(&mut out, ":");
    push_radix(&mut out, st.dev_minor as u64, 10, false);
    push_str(&mut out, " mtime=");
    push_signed_decimal(&mut out, st.mtime_sec);
    push_str(&mut out, "\n");
    out
}

/// The two flags are distinct bits: each can be read back from the sum.
pub proof fn lemma_flags_disjoint(nofollow: bool, empty_path: bool)
    ensures
        flags_spec(nofollow, empty_path) & AT_SYMLINK_NOFOLLOW != 0 <==> nofollow,
        flags_spec(nofollow, empty_path) & AT_EMPTY_PATH != 0 <==> empty_path,
{
    assert(0x1100i32 & 0x100i32 == 0x100i32) by (bit_vector);
    assert(0x1100i32 & 0x1000i32 == 0x1000i32) by (bit_vector);
    assert(0x100i32 & 0x1000i32 == 0i32) by (bit_vector);
    assert(0x1000i32 & 0x100i32 == 0i32) by (bit_vector);
    assert(0x100i32 & 0x100i32 == 0x100i32) by (bit_vector);
    assert(0x1000i32 & 0x1000i32 == 0x1000i32) by (bit_vector);
    assert(0i32 & 0x100i32 == 0i32) by (bit_vector);
    assert(0i32 & 0x1000i32 == 0i32) by (bit_vector);
}


/// The major device number packed in a `st_dev` value.
pub open spec fn dev_major_spec(dev: u64) -> u32 {
    (((dev >> 8u64) & 0xfffu64) | ((dev >> 32u64) & !0xfffu64)) as u32
}

/// The minor device number packed in a `st_dev` value.
pub open spec fn dev_minor_spec(dev: u64) -> u32 {
    ((dev & 0xffu64) | ((dev >> 12u64) & !0xffu64)) as u32
}

/// Unpack the major device number of `dev`.
pub fn dev_major(dev: u64) -> (r: u32)
    ensures
        r == dev_major_spec(dev),
{
    (((dev >> 8) & 0xfff) | ((dev >> 32) & !0xfffu64)) as u32
}

/// Unpack the minor device number of `dev`.
pub fn dev_minor(dev: u64) -> (r: u32)
    ensures
        r == dev_minor_spec(dev),
{
    ((dev & 0xff) | ((dev >> 12) & !0xffu64)) as u32
}

} // verus!
