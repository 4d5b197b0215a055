//! Error values of the library.

use vstd::prelude::*;

verus! {

/// The argument a builtin complains about.
#[derive(Debug, Clone, Copy, PartialEq, Eq, Structural)]
pub enum Arg {
    Arg,
    Var,
    VarOrIndex,
    Name,
    Index,
    FdVar,
    Offset,
    Whence,
    Length,
    Flag,
    DirVar,
    DirFlag,
    NofollowFlag,
    Path,
    Number,
}

impl Arg {
    /// The argument's name as error messages print it.
    pub open spec fn text(self) -> &'static str {
        match self {
            Arg::Arg => "arg",
            Arg::Var => "var",
            Arg::VarOrIndex => "var or index",
            Arg::Name => "name",
            Arg::Index => "index",
            Arg::FdVar => "fd var",
            Arg::Offset => "offset",
            Arg::Whence => "whence",
            Arg::Length => "length",
            Arg::Flag => "flag",
            Arg::DirVar => "dir var",
            Arg::DirFlag => "--dir",
            Arg::NofollowFlag => "--nofollow",
            Arg::Path => "path",
            Arg::Number => "number",
        }
    }

    /// The argument's name as error messages print it.
    pub fn as_str(&self) -> (s: &'static str)
        ensures
            s == self.text(),
    {
        match self {
            Arg::Arg => "arg",
            Arg::Var => "var",
            Arg::VarOrIndex => "var or index",
            Arg::Name => "name",
            Arg::Index => "index",
            Arg::FdVar => "fd var",
            Arg::Offset => "offset",
            Arg::Whence => "whence",
            Arg::Length => "length",
            Arg::Flag => "flag",
            Arg::DirVar => "dir var",
            Arg::DirFlag => "--dir",
            Arg::NofollowFlag => "--nofollow",
            Arg::Path => "path",
            Arg::Number => "number",
        }
    }
}

/// Why a builtin did not complete.
#[derive(Debug, Clone, Copy, PartialEq, Eq, Structural)]
pub enum BuiltinError {
    /// The name is not a builtin.
    Unknown,
    /// `--help` was asked for; the caller prints the usage.
    Help,
    InvalidArgument(Arg),
    MissingArgument(Arg),
    Io,
    /// A system call failed, with its errno when one is known.
    Syscall,
    SendFdFailed,
    /// A state the code rules out.
    Never,
    FdVarNotFound,
    TestMissingCloseBracket,
    TestUsage,
    TestNonInteger,
}

/// Errors of command substitution.
#[derive(Debug, Clone, Copy, PartialEq, Eq, Structural)]
pub enum CmdSubstError {
    NestingTooDeep,
    Pipe,
    Fork,
    /// The captured output would exceed the capture limit.
    OutputTooLarge,
}

/// Errors of the fd-passing builtins `import_fd` and `export_fd`.
#[derive(Debug, Clone, Copy, PartialEq, Eq, Structural)]
pub enum FdPassError {
    SendFailed,
    Cloexec,
    NotFound,
    InvalidName,
    MissingArg,
}

/// Why the forked child could not run its command.
#[derive(Debug, Clone, PartialEq, Eq)]
pub enum ChildProcessError {
    SubstituteFailed,
    LastArgSend,
    BorrowFailed,
    ExportFailed,
    RedirectFailed,
    /// The name is neither in the builtin table nor an fd-passing builtin.
    NotABuiltin(Vec<u8>),
    BuiltinExecutionFailed,
    ResolveFailed(Vec<u8>),
    ExecFailed,
}

/// Errors of the shell's own command line and script loading.
#[derive(Debug, Clone, Copy, PartialEq, Eq, Structural)]
pub enum AppError {
    Usage,
    /// The flag (`dirfd` or `fd`) was the last word, without its value.
    MissingValue(CliFlag),
    InvalidFdNumber(CliFlag),
    CloexecFailed,
    ScriptRead,
    /// The script is larger than the limit it is read with.
    ScriptTooLarge,
}

/// The shell's own command-line flags that take a value.
#[derive(Debug, Clone, Copy, PartialEq, Eq, Structural)]
pub enum CliFlag {
    Dirfd,
    Fd,
}

} // verus!
