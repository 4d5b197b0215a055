//! File-system operators of `test` on metadata already read: kinds, size,
//! mode bits (`-e -f -d -b -c -p -S -L -s -g -k`) and the binary
//! comparisons (`-nt -ot -ef -fdeq -fdne`).

use vstd::prelude::*;
use crate::error::BuiltinError;
use super::ops::{dash, flag, is_dash, is_flag, l_ef, l_fdeq, l_fdne, l_nt, l_ot};
use super::stat::{
    FileStat, S_IFBLK, S_IFCHR, S_IFDIR, S_IFIFO, S_IFLNK, S_IFMT, S_IFREG, S_IFSOCK, S_ISGID,
    S_ISVTX,
};

verus! {

/// Whether the file type bits of `st` are `file_type`.
pub open spec fn kind_spec(st: FileStat, file_type: u32) -> bool {
    st.mode & S_IFMT == file_type
}

/// Whether `st` is of the file type `file_type`.
pub fn kind(st: &FileStat, file_type: u32) -> (r: bool)
    ensures
        r == kind_spec(*st, file_type),
{
    st.mode & S_IFMT == file_type
}

/// The unary test `op` on a stat result; a missing file is false for every
/// operator, an operator that does not read metadata is refused.
pub open spec fn stat_test_spec(op: Seq<u8>, st: Option<FileStat>) -> Result<bool, BuiltinError> {
    match st {
        None => Ok(false),
        Some(st) => if is_flag(op, 0x65u8) {
            Ok(true)
        } else if is_flag(op, 0x66u8) {
            Ok(kind_spec(st, S_IFREG))
        } else if is_flag(op, 0x64u8) {
            Ok(kind_spec(st, S_IFDIR))
        } else if is_flag(op, 0x62u8) {
            Ok(kind_spec(st, S_IFBLK))
        } else if is_flag(op, 0x63u8) {
            Ok(kind_spec(st, S_IFCHR))
        } else if is_flag(op, 0x70u8) {
            Ok(kind_spec(st, S_IFIFO))
        } else if is_flag(op, 0x53u8) {
            Ok(kind_spec(st, S_IFSOCK))
        } else if is_flag(op, 0x4cu8) {
            Ok(kind_spec(st, S_IFLNK))
        } else if is_flag(op, 0x73u8) {
            Ok(st.size > 0)
        } else if is_flag(op, 0x67u8) {
            Ok(st.mode & S_ISGID != 0)
        } else if is_flag(op, 0x6bu8) {
            Ok(st.mode & S_ISVTX != 0)
        } else {
            Err(BuiltinError::Never)
        },
    }
}

/// `stat`-derived unary tests; a `None` operand is false.
pub fn stat_test(op: &[u8], st: Option<&FileStat>) -> (r: Result<bool, BuiltinError>)
    ensures
        r == stat_test_spec(
            op@,
            match st {
                Some(s) => Some(*s),
                None => None,
            },
        ),
{
    match st {
        None => Ok(false),
        Some(st) => if flag(op, 0x65) {
            Ok(true)
        } else if flag(op, 0x66) {
            Ok(kind(st, S_IFREG))
        } else if flag(op, 0x64) {
            Ok(kind(st, S_IFDIR))
        } else if flag(op, 0x62) {
            Ok(kind(st, S_IFBLK))
        } else if flag(op, 0x63) {
            Ok(kind(st, S_IFCHR))
        } else if flag(op, 0x70) {
            Ok(kind(st, S_IFIFO))
        } else if flag(op, 0x53) {
            Ok(kind(st, S_IFSOCK))
        } else if flag(op, 0x4c) {
            Ok(kind(st, S_IFLNK))
        } else if flag(op, 0x73) {
            Ok(st.size > 0)
        } else if flag(op, 0x67) {
            Ok(st.mode & S_ISGID != 0)
        } else if flag(op, 0x6b) {
            Ok(st.mode & S_ISVTX != 0)
        } else {
            Err(BuiltinError::Never)
        },
    }
}

/// Two stat results name one file: same device and inode.
pub open spec fn same_inode_spec(l: FileStat, r: FileStat) -> bool {
    l.dev == r.dev && l.ino == r.ino
}

/// Whether two stat results name one file.
pub fn same_inode(l: &FileStat, r: &FileStat) -> (b: bool)
    ensures
        b == same_inode_spec(*l, *r),
{
    l.dev == r.dev && l.ino == r.ino
}

/// The binary comparison `op` of two stat results.
pub open spec fn binary_op_spec(op: Seq<u8>, l: FileStat, r: FileStat) -> Result<bool, BuiltinError> {
    if op == dash(l_nt()) {
        Ok(l.mtime > r.mtime)
    } else if op == dash(l_ot()) {
        Ok(l.mtime < r.mtime)
    } else if op == dash(l_ef()) || op == dash(l_fdeq()) {
        Ok(same_inode_spec(l, r))
    } else if op == dash(l_fdne()) {
        Ok(!same_inode_spec(l, r))
    } else {
        Err(BuiltinError::Never)
    }
}

/// Binary comparison of two stat results.
pub fn binary_op(op: &[u8], l: &FileStat, r: &FileStat) -> (res: Result<bool, BuiltinError>)
    ensures
        res == binary_op_spec(op@, *l, *r),
{
    let nt: [u8; 2] = [0x6e, 0x74];
    let ot: [u8; 2] = [0x6f, 0x74];
    let ef: [u8; 2] = [0x65, 0x66];
    let fdeq: [u8; 4] = [0x66, 0x64, 0x65, 0x71];
    let fdne: [u8; 4] = [0x66, 0x64, 0x6e, 0x65];
    assert(nt@ == l_nt() && ot@ == l_ot() && ef@ == l_ef() && fdeq@ == l_fdeq() && fdne@
        == l_fdne());
    if is_dash(op, &nt) {
        Ok(l.mtime > r.mtime)
    } else if is_dash(op, &ot) {
        Ok(l.mtime < r.mtime)
    } else if is_dash(op, &ef) || is_dash(op, &fdeq) {
        Ok(same_inode(l, r))
    } else if is_dash(op, &fdne) {
        Ok(!same_inode(l, r))
    } else {
        Err(BuiltinError::Never)
    }
}

/// `-nt` and `-ot` are converse: `a -nt b` holds exactly when `b -ot a` does.
pub proof fn lemma_newer_is_converse_of_older(a: FileStat, b: FileStat)
    ensures
        binary_op_spec(dash(l_nt()), a, b) == binary_op_spec(dash(l_ot()), b, a),
{
    assert(dash(l_nt()) != dash(l_ot())) by {
        assert(dash(l_nt())[1] != dash(l_ot())[1]);
    }
}

/// `-fdeq` and `-fdne` answer opposite outcomes on the same two files, and
/// `-fdeq` is `-ef`.
pub proof fn lemma_fdeq_fdne_complementary(a: FileStat, b: FileStat)
    ensures
        binary_op_spec(dash(l_fdeq()), a, b) is Ok,
        binary_op_spec(dash(l_fdne()), a, b) is Ok,
        binary_op_spec(dash(l_fdeq()), a, b)->Ok_0 == !binary_op_spec(dash(l_fdne()), a, b)->Ok_0,
        binary_op_spec(dash(l_fdeq()), a, b) == binary_op_spec(dash(l_ef()), a, b),
{
    assert(dash(l_fdeq()) != dash(l_nt())) by {
        assert(dash(l_fdeq()).len() != dash(l_nt()).len());
    }
    assert(dash(l_fdeq()) != dash(l_ot())) by {
        assert(dash(l_fdeq()).len() != dash(l_ot()).len());
    }
    assert(dash(l_fdne()) != dash(l_nt())) by {
        assert(dash(l_fdne()).len() != dash(l_nt()).len());
    }
    assert(dash(l_fdne()) != dash(l_ot())) by {
        assert(dash(l_fdne()).len() != dash(l_ot()).len());
    }
    assert(dash(l_fdne()) != dash(l_ef())) by {
        assert(dash(l_fdne()).len() != dash(l_ef()).len());
    }
    assert(dash(l_fdne()) != dash(l_fdeq())) by {
        assert(dash(l_fdne())[3] != dash(l_fdeq())[3]);
    }
    assert(dash(l_ef()) != dash(l_nt())) by {
        assert(dash(l_ef())[1] != dash(l_nt())[1]);
    }
    assert(dash(l_ef()) != dash(l_ot())) by {
        assert(dash(l_ef())[1] != dash(l_ot())[1]);
    }
}

} // verus!
