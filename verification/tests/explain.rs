use fdshell::child::explain::{
    explain_line, explain_target, fd_explain_line, fdexplain_target, is_all_digits,
    origin_phrase, parse_index, ExplainTarget, Origin, Position, Trace,
};
use fdshell::error::{Arg, BuiltinError};

fn words(args: &[&str]) -> Vec<Vec<u8>> {
    args.iter().map(|a| a.as_bytes().to_vec()).collect()
}

#[test]
fn digits_are_recognised() {
    assert!(is_all_digits(b"0"));
    assert!(is_all_digits(b"123"));
    assert!(!is_all_digits(b""));
    assert!(!is_all_digits(b"1a"));
    assert!(!is_all_digits(b"-1"));
}

#[test]
fn index_parses_or_overflows() {
    assert_eq!(parse_index(b"0"), Some(0));
    assert_eq!(parse_index(b"42"), Some(42));
    assert_eq!(parse_index(b"007"), Some(7));
    assert_eq!(parse_index(b"99999999999999999999999"), None);
    assert_eq!(
        parse_index(usize::MAX.to_string().as_bytes()),
        Some(usize::MAX)
    );
}

#[test]
fn explain_targets() {
    assert_eq!(
        explain_target(&words(&["2"])),
        Ok(ExplainTarget::Positional {
            index: 2,
            display: b"$2".to_vec()
        })
    );
    assert_eq!(
        explain_target(&words(&["HOME"])),
        Ok(ExplainTarget::Named {
            name: b"HOME".to_vec()
        })
    );
    assert_eq!(
        explain_target(&words(&[])),
        Err(BuiltinError::MissingArgument(Arg::VarOrIndex))
    );
    assert_eq!(
        explain_target(&words(&["a", "b"])),
        Err(BuiltinError::InvalidArgument(Arg::Name))
    );
    assert_eq!(
        explain_target(&words(&["99999999999999999999999"])),
        Err(BuiltinError::InvalidArgument(Arg::Index))
    );
}

#[test]
fn origin_phrases() {
    assert_eq!(origin_phrase(&Origin::CliArgument(3)), b"argv[3]");
    assert_eq!(
        origin_phrase(&Origin::EnvVar(b"PATH".to_vec())),
        b"environment variable PATH"
    );
    assert_eq!(origin_phrase(&Origin::File(b"/x".to_vec())), b"file /x");
    assert_eq!(origin_phrase(&Origin::Stdin), b"stdin");
    assert_eq!(origin_phrase(&Origin::CommandOutput), b"command output");
    assert_eq!(origin_phrase(&Origin::Read(4)), b"fd 4");
    assert_eq!(origin_phrase(&Origin::Shell), b"shell default");
    assert_eq!(origin_phrase(&Origin::Captured(b"t".to_vec())), b"tag t");
}

#[test]
fn explain_lines() {
    let t = Trace {
        origin: Origin::Stdin,
        set_at: Some(Position { line: 3, column: 7 }),
    };
    assert_eq!(
        explain_line(b"X", Some((b"v", &t))),
        b"X=\"v\" (set on line 3, column 7, from stdin)\n"
    );
    let t = Trace {
        origin: Origin::Shell,
        set_at: None,
    };
    assert_eq!(
        explain_line(b"$1", Some((b"", &t))),
        b"$1=\"\" (from shell default)\n"
    );
    assert_eq!(explain_line(b"Y", None), b"Y is unset\n");
}

#[test]
fn fdexplain_target_and_lines() {
    assert_eq!(
        fdexplain_target(&words(&["%f"])),
        Ok((b"%f".to_vec(), b"f".to_vec()))
    );
    assert_eq!(
        fdexplain_target(&words(&["f"])),
        Ok((b"f".to_vec(), b"f".to_vec()))
    );
    assert_eq!(
        fdexplain_target(&words(&[])),
        Err(BuiltinError::MissingArgument(Arg::FdVar))
    );
    let t = Trace {
        origin: Origin::Read(0),
        set_at: None,
    };
    assert_eq!(fd_explain_line(b"%f", Some(&t)), b"%f (from fd 0)\n");
    assert_eq!(fd_explain_line(b"%g", None), b"%g is unset\n");
}
