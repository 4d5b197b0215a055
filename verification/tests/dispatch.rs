use fdshell::child::dispatch::{
    builtin_first, dispatch_builtin, fdpass_status, is_dispatched, lookup, Builtin, Route, EINVAL,
    EIO,
};
use fdshell::child::dispatch::{fdpass_prepare, FdPassPlan};
use fdshell::child::fdpass::{dispatch, FdPassCmd};
use fdshell::child::Command;
use fdshell::error::{BuiltinError, FdPassError};

#[test]
fn table_names_route_to_their_builtin() {
    assert_eq!(lookup(b"echo"), Some(Builtin::Echo));
    assert_eq!(lookup(b"["), Some(Builtin::Bracket));
    assert_eq!(lookup(b"type"), Some(Builtin::Type));
    assert_eq!(lookup(b"ls"), None);
    assert_eq!(lookup(b""), None);
}

#[test]
fn fdpass_builtins_come_after_the_table() {
    assert_eq!(
        dispatch_builtin(b"import_fd"),
        Ok(Route::FdPass(FdPassCmd::ImportFd))
    );
    assert_eq!(
        dispatch_builtin(b"export_fd"),
        Ok(Route::FdPass(FdPassCmd::ExportFd))
    );
    assert_eq!(
        dispatch_builtin(b"printf"),
        Ok(Route::Table(Builtin::Printf))
    );
    assert_eq!(dispatch_builtin(b"nope"), Err(BuiltinError::Unknown));
    assert_eq!(dispatch(b"import_fd"), Some(FdPassCmd::ImportFd));
    assert_eq!(dispatch(b"echo"), None);
}

#[test]
fn builtin_first_needs_option_and_bare_name() {
    assert!(builtin_first(b"echo", true));
    assert!(!builtin_first(b"echo", false));
    assert!(!builtin_first(b"/bin/echo", true));
    assert!(!builtin_first(b"ls", true));
    assert!(is_dispatched(b"pwd"));
    let forced = Command {
        builtin: true,
        name: b"anything".to_vec(),
    };
    assert!(forced.runs_as_builtin(false));
    let bare = Command {
        builtin: false,
        name: b"echo".to_vec(),
    };
    assert!(!bare.runs_as_builtin(false));
    assert!(bare.runs_as_builtin(true));
}

#[test]
fn fdpass_errors_map_to_errno() {
    assert_eq!(fdpass_status(Ok(0)), 0);
    assert_eq!(fdpass_status(Err(FdPassError::SendFailed)), EIO);
    assert_eq!(fdpass_status(Err(FdPassError::Cloexec)), EIO);
    assert_eq!(fdpass_status(Err(FdPassError::NotFound)), EINVAL);
    assert_eq!(fdpass_status(Err(FdPassError::InvalidName)), EINVAL);
    assert_eq!(fdpass_status(Err(FdPassError::MissingArg)), EINVAL);
}

fn words(args: &[&str]) -> Vec<Vec<u8>> {
    args.iter().map(|a| a.as_bytes().to_vec()).collect()
}

#[test]
fn fdpass_without_arguments_exits_einval() {
    assert_eq!(fdpass_prepare(FdPassCmd::ExportFd, &[]), Err(EINVAL));
    assert_eq!(fdpass_prepare(FdPassCmd::ImportFd, &[]), Err(EINVAL));
}

#[test]
fn fdpass_plans() {
    assert_eq!(
        fdpass_prepare(FdPassCmd::ImportFd, &words(&["7"])),
        Ok(FdPassPlan::Import { fd: 7 })
    );
    assert_eq!(
        fdpass_prepare(FdPassCmd::ImportFd, &words(&["x"])),
        Err(EINVAL)
    );
    assert_eq!(
        fdpass_prepare(FdPassCmd::ExportFd, &words(&["t", "%f"])),
        Ok(FdPassPlan::Export {
            var: b"f".to_vec(),
            tag: b"t".to_vec()
        })
    );
    assert_eq!(
        fdpass_prepare(FdPassCmd::ExportFd, &words(&["f"])),
        Err(EINVAL)
    );
}
