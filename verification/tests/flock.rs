use fdshell::child::flock::{flock_parse, FlockConfig, LOCK_EX, LOCK_NB, LOCK_SH, LOCK_UN};
use fdshell::error::{Arg, BuiltinError};

fn parse(args: &[&str]) -> Result<FlockConfig, BuiltinError> {
    let w: Vec<Vec<u8>> = args.iter().map(|a| a.as_bytes().to_vec()).collect();
    flock_parse(&w, &w)
}

#[test]
fn flock_defaults_to_exclusive() {
    let cfg = parse(&["%f"]).unwrap();
    assert_eq!(cfg.var, b"f");
    assert_eq!(cfg.operation, LOCK_EX);
}

#[test]
fn flock_flag_combinations() {
    for (args, op) in [
        (&["%f", "--shared"][..], LOCK_SH),
        (&["%f", "--nowait"][..], LOCK_EX + LOCK_NB),
        (&["%f", "--shared", "--nowait"][..], LOCK_SH + LOCK_NB),
        (&["%f", "--unlock"][..], LOCK_UN),
        (&["%f", "--wait"][..], LOCK_EX),
        (&["%f", "--shared", "--wait"][..], LOCK_SH),
    ] {
        assert_eq!(parse(args).unwrap().operation, op, "{args:?}");
    }
}

#[test]
fn flock_rejects_unknown_flags() {
    assert!(matches!(
        parse(&["%f", "--nuclear"]),
        Err(BuiltinError::InvalidArgument(Arg::Flag))
    ));
}

#[test]
fn flock_rejects_unlock_combined() {
    for args in [
        &["%f", "--unlock", "--shared"][..],
        &["%f", "--unlock", "--nowait"][..],
    ] {
        assert!(
            matches!(parse(args), Err(BuiltinError::InvalidArgument(Arg::Flag))),
            "{args:?}"
        );
    }
}

#[test]
fn flock_requires_fd_var() {
    assert!(matches!(
        parse(&[]),
        Err(BuiltinError::MissingArgument(Arg::FdVar))
    ));
    assert!(matches!(
        parse(&["f"]),
        Err(BuiltinError::InvalidArgument(Arg::FdVar))
    ));
}

#[test]
fn flock_help() {
    assert!(matches!(parse(&["--help"]), Err(BuiltinError::Help)));
}

#[test]
fn flock_repeated_flags_are_accepted() {
    assert_eq!(
        parse(&["%f", "--shared", "--shared"]).unwrap().operation,
        LOCK_SH
    );
    assert_eq!(
        parse(&["%f", "--unlock", "--wait"]).unwrap().operation,
        LOCK_UN
    );
}
