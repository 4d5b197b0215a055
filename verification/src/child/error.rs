//! What the child does with a builtin's error: its exit status, and whether
//! the error report is printed first.

use vstd::prelude::*;
use crate::bytes::copy_range;
use crate::error::{BuiltinError, ChildProcessError};

verus! {

/// A builtin error turned into an exit status.
#[derive(Debug, Clone, Copy, PartialEq, Eq, Structural)]
pub struct Handled {
    /// The child's exit status.
    pub status: i32,
    /// Whether the error report goes to stderr first.
    pub report: bool,
}

/// `--help` exits 0; bad or missing arguments and fd-sending failures print
/// the report and exit 1; a failed system call exits with its errno when one
/// is known, else 1; a malformed `test` expression prints the report and
/// exits 2. The other errors fail the child: an unknown name is not a
/// builtin, an I/O failure or a state the code rules out is an execution
/// failure.
pub open spec fn handled_spec(err: BuiltinError, errno: Option<i32>) -> Option<Handled> {
    match err {
        BuiltinError::Help => Some(Handled { status: 0, report: false }),
        BuiltinError::InvalidArgument(_) => Some(Handled { status: 1, report: true }),
        BuiltinError::MissingArgument(_) => Some(Handled { status: 1, report: true }),
        BuiltinError::Syscall => Some(
            Handled {
                status: match errno {
                    Some(e) => e,
                    None => 1,
                },
                report: false,
            },
        ),
        BuiltinError::SendFdFailed => Some(Handled { status: 1, report: true }),
        BuiltinError::FdVarNotFound => Some(Handled { status: 1, report: true }),
        BuiltinError::TestMissingCloseBracket => Some(Handled { status: 2, report: true }),
        BuiltinError::TestUsage => Some(Handled { status: 2, report: true }),
        BuiltinError::TestNonInteger => Some(Handled { status: 2, report: true }),
        BuiltinError::Unknown => None,
        BuiltinError::Io => None,
        BuiltinError::Never => None,
    }
}

/// Turn the error of builtin `name` into the child's exit status, or into
/// the child's own failure. `errno` is the failed system call's error
/// number, where the error carries one.
pub fn handle_builtin_error(name: &[u8], err: BuiltinError, errno: Option<i32>) -> (r: Result<
    Handled,
    ChildProcessError,
>)
    ensures
        match handled_spec(err, errno) {
            Some(h) => r == Ok::<Handled, ChildProcessError>(h),
            None => match r {
                Ok(_) => false,
                Err(ChildProcessError::NotABuiltin(n)) => err == BuiltinError::Unknown && n@ == name@,
                Err(ChildProcessError::BuiltinExecutionFailed) => err == BuiltinError::Io || err
                    == BuiltinError::Never,
                Err(_) => false,
            },
        },
{
    match err {
        BuiltinError::Unknown => Err(ChildProcessError::NotABuiltin(copy_range(name, 0, name.len()))),
        BuiltinError::Help => Ok(Handled { status: 0, report: false }),
        BuiltinError::InvalidArgument(_) | BuiltinError::MissingArgument(_) => Ok(
            Handled { status: 1, report: true },
        ),
        BuiltinError::Io => Err(ChildProcessError::BuiltinExecutionFailed),
        BuiltinError::Syscall => Ok(
            Handled {
                status: match errno {
                    Some(e) => e,
                    None => 1,
                },
                report: false,
            },
        ),
        BuiltinError::SendFdFailed | BuiltinError::FdVarNotFound => Ok(
            Handled { status: 1, report: true },
        ),
        BuiltinError::Never => Err(ChildProcessError::BuiltinExecutionFailed),
        BuiltinError::TestMissingCloseBracket | BuiltinError::TestUsage
        | BuiltinError::TestNonInteger => Ok(Handled { status: 2, report: true }),
    }
}

} // verus!
