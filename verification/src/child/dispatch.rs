//! Routing a command name to a builtin of the forked child.

use vstd::prelude::*;
use vstd::string::StringSliceAdditionalSpecFns;
use crate::bytes::{contains_byte, eq_bytes, SLASH};
use crate::error::{BuiltinError, FdPassError};
use crate::bytes::arg_views;
use crate::cli::{fd_number, fd_number_spec};
use super::fdpass::{
    dispatch, export_fd_args, export_fd_args_spec, fdpass_spec, import_fd_arg,
    import_fd_arg_spec, FdPassCmd,
};

verus! {

/// The builtins of the dispatch table.
#[derive(Debug, Clone, Copy, PartialEq, Eq, Structural)]
pub enum Builtin {
    True,
    False,
    Help,
    Pwd,
    Fchmod,
    Echo,
    Explain,
    Fdexplain,
    Pipe,
    Mkdirat,
    Openat2,
    Printf,
    Renameat2,
    Timerfd,
    Eventfd,
    Fsync,
    Ftruncate,
    Lseek,
    ExecFd,
    ExecAt,
    Resolve,
    Test,
    Bracket,
    Type,
}

/// The name a builtin is called by.
pub open spec fn builtin_name(b: Builtin) -> &'static str {
    match b {
        Builtin::True => "true",
        Builtin::False => "false",
        Builtin::Help => "help",
        Builtin::Pwd => "pwd",
        Builtin::Fchmod => "fchmod",
        Builtin::Echo => "echo",
        Builtin::Explain => "explain",
        Builtin::Fdexplain => "fdexplain",
        Builtin::Pipe => "pipe",
        Builtin::Mkdirat => "mkdirat",
        Builtin::Openat2 => "openat2",
        Builtin::Printf => "printf",
        Builtin::Renameat2 => "renameat2",
        Builtin::Timerfd => "timerfd",
        Builtin::Eventfd => "eventfd",
        Builtin::Fsync => "fsync",
        Builtin::Ftruncate => "ftruncate",
        Builtin::Lseek => "lseek",
        Builtin::ExecFd => "exec_fd",
        Builtin::ExecAt => "exec_at",
        Builtin::Resolve => "resolve",
        Builtin::Test => "test",
        Builtin::Bracket => "[",
        Builtin::Type => "type",
    }
}

impl Builtin {
    /// The name this builtin is called by.
    pub fn name(&self) -> (s: &'static str)
        ensures
            s == builtin_name(*self),
    {
        match self {
            Builtin::True => "true",
            Builtin::False => "false",
            Builtin::Help => "help",
            Builtin::Pwd => "pwd",
            Builtin::Fchmod => "fchmod",
            Builtin::Echo => "echo",
            Builtin::Explain => "explain",
            Builtin::Fdexplain => "fdexplain",
            Builtin::Pipe => "pipe",
            Builtin::Mkdirat => "mkdirat",
            Builtin::Openat2 => "openat2",
            Builtin::Printf => "printf",
            Builtin::Renameat2 => "renameat2",
            Builtin::Timerfd => "timerfd",
            Builtin::Eventfd => "eventfd",
            Builtin::Fsync => "fsync",
            Builtin::Ftruncate => "ftruncate",
            Builtin::Lseek => "lseek",
            Builtin::ExecFd => "exec_fd",
            Builtin::ExecAt => "exec_at",
            Builtin::Resolve => "resolve",
            Builtin::Test => "test",
            Builtin::Bracket => "[",
            Builtin::Type => "type",
        }
    }
}

/// The dispatch table, in the order names are tried.
pub open spec fn dispatch_spec() -> Seq<Builtin> {
    seq![
        Builtin::True,
        Builtin::False,
        Builtin::Help,
        Builtin::Pwd,
        Builtin::Fchmod,
        Builtin::Echo,
        Builtin::Explain,
        Builtin::Fdexplain,
        Builtin::Pipe,
        Builtin::Mkdirat,
        Builtin::Openat2,
        Builtin::Printf,
        Builtin::Renameat2,
        Builtin::Timerfd,
        Builtin::Eventfd,
        Builtin::Fsync,
        Builtin::Ftruncate,
        Builtin::Lseek,
        Builtin::ExecFd,
        Builtin::ExecAt,
        Builtin::Resolve,
        Builtin::Test,
        Builtin::Bracket,
        Builtin::Type,
    ]
}

/// The dispatch table.
pub fn dispatch_table() -> (t: [Builtin; 24])
    ensures
        t@ == dispatch_spec(),
{
    let t: [Builtin; 24] = [
        Builtin::True,
        Builtin::False,
        Builtin::Help,
        Builtin::Pwd,
        Builtin::Fchmod,
        Builtin::Echo,
        Builtin::Explain,
        Builtin::Fdexplain,
        Builtin::Pipe,
        Builtin::Mkdirat,
        Builtin::Openat2,
        Builtin::Printf,
        Builtin::Renameat2,
        Builtin::Timerfd,
        Builtin::Eventfd,
        Builtin::Fsync,
        Builtin::Ftruncate,
        Builtin::Lseek,
        Builtin::ExecFd,
        Builtin::ExecAt,
        Builtin::Resolve,
        Builtin::Test,
        Builtin::Bracket,
        Builtin::Type,
    ];
    assert(t@ =~= dispatch_spec());
    t
}

/// The first entry of `table` from index `i` on whose name is `name`.
pub open spec fn find_from(table: Seq<Builtin>, name: Seq<u8>, i: int) -> Option<Builtin>
    decreases table.len() - i,
{
    if i < 0 || i >= table.len() {
        None
    } else if builtin_name(table[i]).spec_bytes() == name {
        Some(table[i])
    } else {
        find_from(table, name, i + 1)
    }
}

/// The builtin `name` is dispatched to.
pub open spec fn lookup_spec(name: Seq<u8>) -> Option<Builtin> {
    find_from(dispatch_spec(), name, 0)
}

pub fn lookup(name: &[u8]) -> (r: Option<Builtin>)
    ensures
        r == lookup_spec(name@),
{
    let t = dispatch_table();
    let mut i: usize = 0;
    while i < 24
        invariant
            i <= 24,
            t@ == dispatch_spec(),
            find_from(dispatch_spec(), name@, 0) == find_from(dispatch_spec(), name@, i as int),
        decreases 24 - i,
    {
        if eq_bytes(name, t[i].name().as_bytes()) {
            return Some(t[i]);
        }
        i = i + 1;
    }
    None
}

/// Whether `name` is in the dispatch table.
pub fn is_dispatched(name: &[u8]) -> (r: bool)
    ensures
        r == lookup_spec(name@) is Some,
{
    lookup(name).is_some()
}

/// With `builtin_first` on, a bare name in the builtin table resolves as a
/// builtin without the `builtin` keyword; names containing `/` always reach
/// the external.
pub fn builtin_first(name: &[u8], enabled: bool) -> (r: bool)
    ensures
        r == (enabled && !name@.contains(0x2fu8) && lookup_spec(name@) is Some),
{
    enabled && !contains_byte(name, SLASH) && is_dispatched(name)
}

/// A command as the child received it.
#[derive(Debug, Clone, PartialEq, Eq)]
pub struct Command {
    /// Whether it was written with the `builtin` keyword.
    pub builtin: bool,
    pub name: Vec<u8>,
}

impl Command {
    /// Whether the child runs the command as a builtin: asked for with
    /// `builtin`, or found first in the table.
    pub fn runs_as_builtin(&self, builtin_first_on: bool) -> (r: bool)
        ensures
            r == (self.builtin || (builtin_first_on && !self.name@.contains(0x2fu8) && lookup_spec(
                self.name@,
            ) is Some)),
    {
        self.builtin || builtin_first(self.name.as_slice(), builtin_first_on)
    }
}

/// Where a builtin name goes.
#[derive(Debug, Clone, Copy, PartialEq, Eq, Structural)]
pub enum Route {
    Table(Builtin),
    FdPass(FdPassCmd),
}

/// The table first, then the fd-passing builtins; any other name is not a
/// builtin.
pub open spec fn route_spec(name: Seq<u8>) -> Result<Route, BuiltinError> {
    match lookup_spec(name) {
        Some(b) => Ok(Route::Table(b)),
        None => match fdpass_spec(name) {
            Some(c) => Ok(Route::FdPass(c)),
            None => Err(BuiltinError::Unknown),
        },
    }
}

/// Route a builtin name.
pub fn dispatch_builtin(name: &[u8]) -> (r: Result<Route, BuiltinError>)
    ensures
        r == route_spec(name@),
{
    match lookup(name) {
        Some(b) => Ok(Route::Table(b)),
        None => match dispatch(name) {
            Some(c) => Ok(Route::FdPass(c)),
            None => Err(BuiltinError::Unknown),
        },
    }
}

/// `errno` values the fd-passing builtins exit with.
pub const EIO: i32 = 5;
pub const EINVAL: i32 = 22;
pub const ENOSYS: i32 = 38;

/// The exit status of an fd-passing builtin: its own status, `EIO` when the
/// descriptor could not be sent, `EINVAL` for a bad argument.
pub open spec fn fdpass_status_spec(r: Result<i32, FdPassError>) -> i32 {
    match r {
        Ok(v) => v,
        Err(FdPassError::SendFailed) => EIO,
        Err(FdPassError::Cloexec) => EIO,
        Err(_) => EINVAL,
    }
}

pub fn fdpass_status(r: Result<i32, FdPassError>) -> (s: i32)
    ensures
        s == fdpass_status_spec(r),
{
    match r {
        Ok(v) => v,
        Err(FdPassError::SendFailed) | Err(FdPassError::Cloexec) => EIO,
        Err(FdPassError::NotFound) | Err(FdPassError::InvalidName) | Err(
            FdPassError::MissingArg,
        ) => EINVAL,
    }
}

proof fn lemma_find_from_member(table: Seq<Builtin>, name: Seq<u8>, i: int)
    requires
        0 <= i,
    ensures
        find_from(table, name, i) matches Some(b) ==> builtin_name(b).spec_bytes() == name
            && table.contains(b),
    decreases table.len() - i,
{
    if 0 <= i < table.len() && builtin_name(table[i]).spec_bytes() != name {
        lemma_find_from_member(table, name, i + 1);
    }
}

/// A name routed to the table is that builtin's own name.
pub proof fn lemma_lookup_sound(name: Seq<u8>)
    ensures
        lookup_spec(name) matches Some(b) ==> builtin_name(b).spec_bytes() == name,
{
    lemma_find_from_member(dispatch_spec(), name, 0);
}

/// Every builtin of the table is found by its own name.
pub proof fn lemma_lookup_complete(b: Builtin)
    ensures
        lookup_spec(builtin_name(b).spec_bytes()) is Some,
{
    let name = builtin_name(b).spec_bytes();
    let t = dispatch_spec();
    let k = choose|k: int| 0 <= k < t.len() && t[k] == b;
    assert(exists|k: int| 0 <= k < t.len() && t[k] == b) by {
        match b {
            Builtin::True => assert(t[0] == b),
            Builtin::False => assert(t[1] == b),
            Builtin::Help => assert(t[2] == b),
            Builtin::Pwd => assert(t[3] == b),
            Builtin::Fchmod => assert(t[4] == b),
            Builtin::Echo => assert(t[5] == b),
            Builtin::Explain => assert(t[6] == b),
            Builtin::Fdexplain => assert(t[7] == b),
            Builtin::Pipe => assert(t[8] == b),
            Builtin::Mkdirat => assert(t[9] == b),
            Builtin::Openat2 => assert(t[10] == b),
            Builtin::Printf => assert(t[11] == b),
            Builtin::Renameat2 => assert(t[12] == b),
            Builtin::Timerfd => assert(t[13] == b),
            Builtin::Eventfd => assert(t[14] == b),
            Builtin::Fsync => assert(t[15] == b),
            Builtin::Ftruncate => assert(t[16] == b),
            Builtin::Lseek => assert(t[17] == b),
            Builtin::ExecFd => assert(t[18] == b),
            Builtin::ExecAt => assert(t[19] == b),
            Builtin::Resolve => assert(t[20] == b),
            Builtin::Test => assert(t[21] == b),
            Builtin::Bracket => assert(t[22] == b),
            Builtin::Type => assert(t[23] == b),
        }
    }
    lemma_find_reaches(t, name, 0, k);
}

proof fn lemma_find_reaches(table: Seq<Builtin>, name: Seq<u8>, i: int, k: int)
    requires
        0 <= i <= k < table.len(),
        builtin_name(table[k]).spec_bytes() == name,
    ensures
        find_from(table, name, i) is Some,
    decreases k - i,
{
    if builtin_name(table[i]).spec_bytes() != name {
        lemma_find_reaches(table, name, i + 1, k);
    }
}


/// What an fd-passing builtin sends once its arguments are checked.
#[derive(Debug, Clone, PartialEq, Eq)]
pub enum FdPassPlan {
    /// `import_fd N`: take over fd `N` and send it.
    Import { fd: i32 },
    /// `export_fd [TAG] %var`: send the variable's fd under `tag`.
    Export { var: Vec<u8>, tag: Vec<u8> },
}

/// The plain contents of an [`FdPassPlan`].
pub enum FdPassPlanView {
    Import { fd: i32 },
    Export { var: Seq<u8>, tag: Seq<u8> },
}

/// The argument check of an fd-passing builtin: `import_fd` needs a word
/// that is an fd number, `export_fd` a `%var` with an optional tag.
pub open spec fn fdpass_plan_spec(cmd: FdPassCmd, args: Seq<Seq<u8>>) -> Result<
    FdPassPlanView,
    FdPassError,
> {
    match cmd {
        FdPassCmd::ImportFd => match import_fd_arg_spec(args) {
            Err(e) => Err(e),
            Ok(raw) => match fd_number_spec(raw) {
                Some(fd) => Ok(FdPassPlanView::Import { fd }),
                None => Err(FdPassError::InvalidName),
            },
        },
        FdPassCmd::ExportFd => match export_fd_args_spec(args) {
            Err(e) => Err(e),
            Ok((var, tag)) => Ok(FdPassPlanView::Export { var, tag }),
        },
    }
}

/// Check the arguments of an fd-passing builtin before anything is sent: the
/// plan, or the builtin's exit status for the refused arguments (`EINVAL`).
pub fn fdpass_prepare(cmd: FdPassCmd, args: &[Vec<u8>]) -> (r: Result<FdPassPlan, i32>)
    ensures
        match fdpass_plan_spec(cmd, arg_views(args@)) {
            Ok(FdPassPlanView::Import { fd }) => r == Ok::<FdPassPlan, i32>(FdPassPlan::Import { fd }),
            Ok(FdPassPlanView::Export { var, tag }) => r matches Ok(FdPassPlan::Export { var: v, tag: t })
                && v@ == var && t@ == tag,
            Err(e) => r == Err::<FdPassPlan, i32>(fdpass_status_spec(Err(e))),
        },
        r matches Err(s) ==> s == EINVAL,
{
    match cmd {
        FdPassCmd::ImportFd => match import_fd_arg(args) {
            Err(e) => Err(fdpass_status(Err(e))),
            Ok(raw) => match fd_number(raw.as_slice()) {
                Some(fd) => Ok(FdPassPlan::Import { fd }),
                None => Err(fdpass_status(Err(FdPassError::InvalidName))),
            },
        },
        FdPassCmd::ExportFd => match export_fd_args(args) {
            Err(e) => Err(fdpass_status(Err(e))),
            Ok((var, tag)) => Ok(FdPassPlan::Export { var, tag }),
        },
    }
}

/// A key that tells the builtin names apart: the length, the first two
/// bytes and the last byte.
spec fn name_key(s: Seq<u8>) -> (int, u8, u8, u8) {
    (s.len() as int, s[0], if s.len() > 1 { s[1] } else { 0u8 }, s[s.len() - 1])
}

/// The key of each builtin's name.
spec fn builtin_key(b: Builtin) -> (int, u8, u8, u8) {
    match b {
        Builtin::True => (4int, 0x74u8, 0x72u8, 0x65u8),
        Builtin::False => (5int, 0x66u8, 0x61u8, 0x65u8),
        Builtin::Help => (4int, 0x68u8, 0x65u8, 0x70u8),
        Builtin::Pwd => (3int, 0x70u8, 0x77u8, 0x64u8),
        Builtin::Fchmod => (6int, 0x66u8, 0x63u8, 0x64u8),
        Builtin::Echo => (4int, 0x65u8, 0x63u8, 0x6fu8),
        Builtin::Explain => (7int, 0x65u8, 0x78u8, 0x6eu8),
        Builtin::Fdexplain => (9int, 0x66u8, 0x64u8, 0x6eu8),
        Builtin::Pipe => (4int, 0x70u8, 0x69u8, 0x65u8),
        Builtin::Mkdirat => (7int, 0x6du8, 0x6bu8, 0x74u8),
        Builtin::Openat2 => (7int, 0x6fu8, 0x70u8, 0x32u8),
        Builtin::Printf => (6int, 0x70u8, 0x72u8, 0x66u8),
        Builtin::Renameat2 => (9int, 0x72u8, 0x65u8, 0x32u8),
        Builtin::Timerfd => (7int, 0x74u8, 0x69u8, 0x64u8),
        Builtin::Eventfd => (7int, 0x65u8, 0x76u8, 0x64u8),
        Builtin::Fsync => (5int, 0x66u8, 0x73u8, 0x63u8),
        Builtin::Ftruncate => (9int, 0x66u8, 0x74u8, 0x65u8),
        Builtin::Lseek => (5int, 0x6cu8, 0x73u8, 0x6bu8),
        Builtin::ExecFd => (7int, 0x65u8, 0x78u8, 0x64u8),
        Builtin::ExecAt => (7int, 0x65u8, 0x78u8, 0x74u8),
        Builtin::Resolve => (7int, 0x72u8, 0x65u8, 0x65u8),
        Builtin::Test => (4int, 0x74u8, 0x65u8, 0x74u8),
        Builtin::Bracket => (1int, 0x5bu8, 0x00u8, 0x5bu8),
        Builtin::Type => (4int, 0x74u8, 0x79u8, 0x65u8),
    }
}

/// The bytes of each builtin's name.
proof fn lemma_name_bytes(b: Builtin)
    ensures
        builtin_name(b).spec_bytes() == match b {
            Builtin::True => seq![0x74u8, 0x72u8, 0x75u8, 0x65u8],
            Builtin::False => seq![0x66u8, 0x61u8, 0x6cu8, 0x73u8, 0x65u8],
            Builtin::Help => seq![0x68u8, 0x65u8, 0x6cu8, 0x70u8],
            Builtin::Pwd => seq![0x70u8, 0x77u8, 0x64u8],
            Builtin::Fchmod => seq![0x66u8, 0x63u8, 0x68u8, 0x6du8, 0x6fu8, 0x64u8],
            Builtin::Echo => seq![0x65u8, 0x63u8, 0x68u8, 0x6fu8],
            Builtin::Explain => seq![0x65u8, 0x78u8, 0x70u8, 0x6cu8, 0x61u8, 0x69u8, 0x6eu8],
            Builtin::Fdexplain => seq![0x66u8, 0x64u8, 0x65u8, 0x78u8, 0x70u8, 0x6cu8, 0x61u8, 0x69u8, 0x6eu8],
            Builtin::Pipe => seq![0x70u8, 0x69u8, 0x70u8, 0x65u8],
            Builtin::Mkdirat => seq![0x6du8, 0x6bu8, 0x64u8, 0x69u8, 0x72u8, 0x61u8, 0x74u8],
            Builtin::Openat2 => seq![0x6fu8, 0x70u8, 0x65u8, 0x6eu8, 0x61u8, 0x74u8, 0x32u8],
            Builtin::Printf => seq![0x70u8, 0x72u8, 0x69u8, 0x6eu8, 0x74u8, 0x66u8],
            Builtin::Renameat2 => seq![0x72u8, 0x65u8, 0x6eu8, 0x61u8, 0x6du8, 0x65u8, 0x61u8, 0x74u8, 0x32u8],
            Builtin::Timerfd => seq![0x74u8, 0x69u8, 0x6du8, 0x65u8, 0x72u8, 0x66u8, 0x64u8],
            Builtin::Eventfd => seq![0x65u8, 0x76u8, 0x65u8, 0x6eu8, 0x74u8, 0x66u8, 0x64u8],
            Builtin::Fsync => seq![0x66u8, 0x73u8, 0x79u8, 0x6eu8, 0x63u8],
            Builtin::Ftruncate => seq![0x66u8, 0x74u8, 0x72u8, 0x75u8, 0x6eu8, 0x63u8, 0x61u8, 0x74u8, 0x65u8],
            Builtin::Lseek => seq![0x6cu8, 0x73u8, 0x65u8, 0x65u8, 0x6bu8],
            Builtin::ExecFd => seq![0x65u8, 0x78u8, 0x65u8, 0x63u8, 0x5fu8, 0x66u8, 0x64u8],
            Builtin::ExecAt => seq![0x65u8, 0x78u8, 0x65u8, 0x63u8, 0x5fu8, 0x61u8, 0x74u8],
            Builtin::Resolve => seq![0x72u8, 0x65u8, 0x73u8, 0x6fu8, 0x6cu8, 0x76u8, 0x65u8],
            Builtin::Test => seq![0x74u8, 0x65u8, 0x73u8, 0x74u8],
            Builtin::Bracket => seq![0x5bu8],
            Builtin::Type => seq![0x74u8, 0x79u8, 0x70u8, 0x65u8],
        },
{
    match b {
        Builtin::True => {
            reveal_strlit("true");
            crate::bytes::lemma_ascii_bytes("true");
        },
        Builtin::False => {
            reveal_strlit("false");
            crate::bytes::lemma_ascii_bytes("false");
        },
        Builtin::Help => {
            reveal_strlit("help");
            crate::bytes::lemma_ascii_bytes("help");
        },
        Builtin::Pwd => {
            reveal_strlit("pwd");
            crate::bytes::lemma_ascii_bytes("pwd");
        },
        Builtin::Fchmod => {
            reveal_strlit("fchmod");
            crate::bytes::lemma_ascii_bytes("fchmod");
        },
        Builtin::Echo => {
            reveal_strlit("echo");
            crate::bytes::lemma_ascii_bytes("echo");
        },
        Builtin::Explain => {
            reveal_strlit("explain");
            crate::bytes::lemma_ascii_bytes("explain");
        },
        Builtin::Fdexplain => {
            reveal_strlit("fdexplain");
            crate::bytes::lemma_ascii_bytes("fdexplain");
        },
        Builtin::Pipe => {
            reveal_strlit("pipe");
            crate::bytes::lemma_ascii_bytes("pipe");
        },
        Builtin::Mkdirat => {
            reveal_strlit("mkdirat");
            crate::bytes::lemma_ascii_bytes("mkdirat");
        },
        Builtin::Openat2 => {
            reveal_strlit("openat2");
            crate::bytes::lemma_ascii_bytes("openat2");
        },
        Builtin::Printf => {
            reveal_strlit("printf");
            crate::bytes::lemma_ascii_bytes("printf");
        },
        Builtin::Renameat2 => {
            reveal_strlit("renameat2");
            crate::bytes::lemma_ascii_bytes("renameat2");
        },
        Builtin::Timerfd => {
            reveal_strlit("timerfd");
            crate::bytes::lemma_ascii_bytes("timerfd");
        },
        Builtin::Eventfd => {
            reveal_strlit("eventfd");
            crate::bytes::lemma_ascii_bytes("eventfd");
        },
        Builtin::Fsync => {
            reveal_strlit("fsync");
            crate::bytes::lemma_ascii_bytes("fsync");
        },
        Builtin::Ftruncate => {
            reveal_strlit("ftruncate");
            crate::bytes::lemma_ascii_bytes("ftruncate");
        },
        Builtin::Lseek => {
            reveal_strlit("lseek");
            crate::bytes::lemma_ascii_bytes("lseek");
        },
        Builtin::ExecFd => {
            reveal_strlit("exec_fd");
            crate::bytes::lemma_ascii_bytes("exec_fd");
        },
        Builtin::ExecAt => {
            reveal_strlit("exec_at");
            crate::bytes::lemma_ascii_bytes("exec_at");
        },
        Builtin::Resolve => {
            reveal_strlit("resolve");
            crate::bytes::lemma_ascii_bytes("resolve");
        },
        Builtin::Test => {
            reveal_strlit("test");
            crate::bytes::lemma_ascii_bytes("test");
        },
        Builtin::Bracket => {
            reveal_strlit("[");
            crate::bytes::lemma_ascii_bytes("[");
        },
        Builtin::Type => {
            reveal_strlit("type");
            crate::bytes::lemma_ascii_bytes("type");
        },
    }
}

proof fn lemma_name_key(b: Builtin)
    ensures
        name_key(builtin_name(b).spec_bytes()) == builtin_key(b),
{
    lemma_name_bytes(b);
}

proof fn lemma_name_routes(b: Builtin, name: Seq<u8>)
    requires
        builtin_name(b).spec_bytes() == name,
    ensures
        lookup_spec(name) == Some(b),
{
    lemma_lookup_complete(b);
    lemma_lookup_sound(name);
    let found = lookup_spec(name)->0;
    lemma_name_key(found);
    lemma_name_key(b);
}

/// Each builtin is called by its own fixed name: `true`, `false`, `help`,
/// `pwd`, `fchmod`, `echo`, `explain`, `fdexplain`, `pipe`, `mkdirat`,
/// `openat2`, `printf`, `renameat2`, `timerfd`, `eventfd`, `fsync`,
/// `ftruncate`, `lseek`, `exec_fd`, `exec_at`, `resolve`, `test`, `[` and
/// `type` route to the builtin of that name.
pub proof fn lemma_dispatch_names()
    ensures
        lookup_spec(seq![0x74u8, 0x72u8, 0x75u8, 0x65u8]) == Some(Builtin::True),
        lookup_spec(seq![0x66u8, 0x61u8, 0x6cu8, 0x73u8, 0x65u8]) == Some(Builtin::False),
        lookup_spec(seq![0x68u8, 0x65u8, 0x6cu8, 0x70u8]) == Some(Builtin::Help),
        lookup_spec(seq![0x70u8, 0x77u8, 0x64u8]) == Some(Builtin::Pwd),
        lookup_spec(seq![0x66u8, 0x63u8, 0x68u8, 0x6du8, 0x6fu8, 0x64u8]) == Some(Builtin::Fchmod),
        lookup_spec(seq![0x65u8, 0x63u8, 0x68u8, 0x6fu8]) == Some(Builtin::Echo),
        lookup_spec(seq![0x65u8, 0x78u8, 0x70u8, 0x6cu8, 0x61u8, 0x69u8, 0x6eu8]) == Some(Builtin::Explain),
        lookup_spec(seq![0x66u8, 0x64u8, 0x65u8, 0x78u8, 0x70u8, 0x6cu8, 0x61u8, 0x69u8, 0x6eu8]) == Some(Builtin::Fdexplain),
        lookup_spec(seq![0x70u8, 0x69u8, 0x70u8, 0x65u8]) == Some(Builtin::Pipe),
        lookup_spec(seq![0x6du8, 0x6bu8, 0x64u8, 0x69u8, 0x72u8, 0x61u8, 0x74u8]) == Some(Builtin::Mkdirat),
        lookup_spec(seq![0x6fu8, 0x70u8, 0x65u8, 0x6eu8, 0x61u8, 0x74u8, 0x32u8]) == Some(Builtin::Openat2),
        lookup_spec(seq![0x70u8, 0x72u8, 0x69u8, 0x6eu8, 0x74u8, 0x66u8]) == Some(Builtin::Printf),
        lookup_spec(seq![0x72u8, 0x65u8, 0x6eu8, 0x61u8, 0x6du8, 0x65u8, 0x61u8, 0x74u8, 0x32u8]) == Some(Builtin::Renameat2),
        lookup_spec(seq![0x74u8, 0x69u8, 0x6du8, 0x65u8, 0x72u8, 0x66u8, 0x64u8]) == Some(Builtin::Timerfd),
        lookup_spec(seq![0x65u8, 0x76u8, 0x65u8, 0x6eu8, 0x74u8, 0x66u8, 0x64u8]) == Some(Builtin::Eventfd),
        lookup_spec(seq![0x66u8, 0x73u8, 0x79u8, 0x6eu8, 0x63u8]) == Some(Builtin::Fsync),
        lookup_spec(seq![0x66u8, 0x74u8, 0x72u8, 0x75u8, 0x6eu8, 0x63u8, 0x61u8, 0x74u8, 0x65u8]) == Some(Builtin::Ftruncate),
        lookup_spec(seq![0x6cu8, 0x73u8, 0x65u8, 0x65u8, 0x6bu8]) == Some(Builtin::Lseek),
        lookup_spec(seq![0x65u8, 0x78u8, 0x65u8, 0x63u8, 0x5fu8, 0x66u8, 0x64u8]) == Some(Builtin::ExecFd),
        lookup_spec(seq![0x65u8, 0x78u8, 0x65u8, 0x63u8, 0x5fu8, 0x61u8, 0x74u8]) == Some(Builtin::ExecAt),
        lookup_spec(seq![0x72u8, 0x65u8, 0x73u8, 0x6fu8, 0x6cu8, 0x76u8, 0x65u8]) == Some(Builtin::Resolve),
        lookup_spec(seq![0x74u8, 0x65u8, 0x73u8, 0x74u8]) == Some(Builtin::Test),
        lookup_spec(seq![0x5bu8]) == Some(Builtin::Bracket),
        lookup_spec(seq![0x74u8, 0x79u8, 0x70u8, 0x65u8]) == Some(Builtin::Type),
{
    lemma_name_bytes(Builtin::True);
    lemma_name_routes(Builtin::True, seq![0x74u8, 0x72u8, 0x75u8, 0x65u8]);
    lemma_name_bytes(Builtin::False);
    lemma_name_routes(Builtin::False, seq![0x66u8, 0x61u8, 0x6cu8, 0x73u8, 0x65u8]);
    lemma_name_bytes(Builtin::Help);
    lemma_name_routes(Builtin::Help, seq![0x68u8, 0x65u8, 0x6cu8, 0x70u8]);
    lemma_name_bytes(Builtin::Pwd);
    lemma_name_routes(Builtin::Pwd, seq![0x70u8, 0x77u8, 0x64u8]);
    lemma_name_bytes(Builtin::Fchmod);
    lemma_name_routes(Builtin::Fchmod, seq![0x66u8, 0x63u8, 0x68u8, 0x6du8, 0x6fu8, 0x64u8]);
    lemma_name_bytes(Builtin::Echo);
    lemma_name_routes(Builtin::Echo, seq![0x65u8, 0x63u8, 0x68u8, 0x6fu8]);
    lemma_name_bytes(Builtin::Explain);
    lemma_name_routes(Builtin::Explain, seq![0x65u8, 0x78u8, 0x70u8, 0x6cu8, 0x61u8, 0x69u8, 0x6eu8]);
    lemma_name_bytes(Builtin::Fdexplain);
    lemma_name_routes(Builtin::Fdexplain, seq![0x66u8, 0x64u8, 0x65u8, 0x78u8, 0x70u8, 0x6cu8, 0x61u8, 0x69u8, 0x6eu8]);
    lemma_name_bytes(Builtin::Pipe);
    lemma_name_routes(Builtin::Pipe, seq![0x70u8, 0x69u8, 0x70u8, 0x65u8]);
    lemma_name_bytes(Builtin::Mkdirat);
    lemma_name_routes(Builtin::Mkdirat, seq![0x6du8, 0x6bu8, 0x64u8, 0x69u8, 0x72u8, 0x61u8, 0x74u8]);
    lemma_name_bytes(Builtin::Openat2);
    lemma_name_routes(Builtin::Openat2, seq![0x6fu8, 0x70u8, 0x65u8, 0x6eu8, 0x61u8, 0x74u8, 0x32u8]);
    lemma_name_bytes(Builtin::Printf);
    lemma_name_routes(Builtin::Printf, seq![0x70u8, 0x72u8, 0x69u8, 0x6eu8, 0x74u8, 0x66u8]);
    lemma_name_bytes(Builtin::Renameat2);
    lemma_name_routes(Builtin::Renameat2, seq![0x72u8, 0x65u8, 0x6eu8, 0x61u8, 0x6du8, 0x65u8, 0x61u8, 0x74u8, 0x32u8]);
    lemma_name_bytes(Builtin::Timerfd);
    lemma_name_routes(Builtin::Timerfd, seq![0x74u8, 0x69u8, 0x6du8, 0x65u8, 0x72u8, 0x66u8, 0x64u8]);
    lemma_name_bytes(Builtin::Eventfd);
    lemma_name_routes(Builtin::Eventfd, seq![0x65u8, 0x76u8, 0x65u8, 0x6eu8, 0x74u8, 0x66u8, 0x64u8]);
    lemma_name_bytes(Builtin::Fsync);
    lemma_name_routes(Builtin::Fsync, seq![0x66u8, 0x73u8, 0x79u8, 0x6eu8, 0x63u8]);
    lemma_name_bytes(Builtin::Ftruncate);
    lemma_name_routes(Builtin::Ftruncate, seq![0x66u8, 0x74u8, 0x72u8, 0x75u8, 0x6eu8, 0x63u8, 0x61u8, 0x74u8, 0x65u8]);
    lemma_name_bytes(Builtin::Lseek);
    lemma_name_routes(Builtin::Lseek, seq![0x6cu8, 0x73u8, 0x65u8, 0x65u8, 0x6bu8]);
    lemma_name_bytes(Builtin::ExecFd);
    lemma_name_routes(Builtin::ExecFd, seq![0x65u8, 0x78u8, 0x65u8, 0x63u8, 0x5fu8, 0x66u8, 0x64u8]);
    lemma_name_bytes(Builtin::ExecAt);
    lemma_name_routes(Builtin::ExecAt, seq![0x65u8, 0x78u8, 0x65u8, 0x63u8, 0x5fu8, 0x61u8, 0x74u8]);
    lemma_name_bytes(Builtin::Resolve);
    lemma_name_routes(Builtin::Resolve, seq![0x72u8, 0x65u8, 0x73u8, 0x6fu8, 0x6cu8, 0x76u8, 0x65u8]);
    lemma_name_bytes(Builtin::Test);
    lemma_name_routes(Builtin::Test, seq![0x74u8, 0x65u8, 0x73u8, 0x74u8]);
    lemma_name_bytes(Builtin::Bracket);
    lemma_name_routes(Builtin::Bracket, seq![0x5bu8]);
    lemma_name_bytes(Builtin::Type);
    lemma_name_routes(Builtin::Type, seq![0x74u8, 0x79u8, 0x70u8, 0x65u8]);
}

} // verus!
