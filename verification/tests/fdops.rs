use fdshell::child::fdops::{
    fsync_parse, ftruncate_parse, lseek_parse, offset_line, FtruncateConfig, SEEK_CUR, SEEK_END,
    SEEK_SET,
};
use fdshell::error::{Arg, BuiltinError};

fn words(args: &[&str]) -> Vec<Vec<u8>> {
    args.iter().map(|a| a.as_bytes().to_vec()).collect()
}

fn is_invalid<T>(r: &Result<T, BuiltinError>, what: Arg) -> bool {
    matches!(r, Err(BuiltinError::InvalidArgument(a)) if *a == what)
}

#[test]
fn lseek_parses_offset_and_default_whence() {
    let w = words(&["%f", "10"]);
    let cfg = lseek_parse(&w, &w).unwrap();
    assert_eq!(cfg.var, b"f");
    assert_eq!(cfg.offset, 10);
    assert_eq!(cfg.whence, SEEK_SET);
}

#[test]
fn lseek_parses_all_whence_forms() {
    for (arg, expect) in [("0", SEEK_SET), ("1", SEEK_CUR), ("2", SEEK_END)] {
        let w = words(&["%f", "0", arg]);
        assert_eq!(lseek_parse(&w, &w).unwrap().whence, expect);
    }
}

#[test]
fn lseek_allows_negative_offset() {
    let w = words(&["%f", "-3"]);
    assert_eq!(lseek_parse(&w, &w).unwrap().offset, -3);
}

#[test]
fn lseek_missing_offset_errors() {
    let w = words(&["%f"]);
    assert!(matches!(
        lseek_parse(&w, &w),
        Err(BuiltinError::MissingArgument(Arg::Offset))
    ));
}

#[test]
fn lseek_bad_offset_or_whence_errors() {
    for args in [&["%f", "abc"][..], &["%f", "1", "9"][..]] {
        let w = words(args);
        let r = lseek_parse(&w, &w);
        assert!(
            is_invalid(&r, Arg::Offset) || is_invalid(&r, Arg::Whence),
            "{args:?}"
        );
    }
}

#[test]
fn lseek_help() {
    let w = words(&["--help"]);
    assert!(matches!(lseek_parse(&w, &w), Err(BuiltinError::Help)));
}

#[test]
fn ftruncate_length_optional() {
    let w = words(&["%f"]);
    match ftruncate_parse(&w, &w).unwrap() {
        FtruncateConfig { length: None, .. } => {}
        cfg => panic!("expected omitted length, got {cfg:?}"),
    }
    let w = words(&["%f", "3"]);
    match ftruncate_parse(&w, &w).unwrap() {
        FtruncateConfig {
            length: Some(n), ..
        } => assert_eq!(n, 3),
        _ => panic!("expected length 3"),
    }
}

#[test]
fn ftruncate_length_must_be_non_negative() {
    for args in [&["%f", "-1"][..], &["%f", "x"][..]] {
        let w = words(args);
        assert!(is_invalid(&ftruncate_parse(&w, &w), Arg::Length), "{args:?}");
    }
}

#[test]
fn fsync_parses_single_var() {
    let w = words(&["%f"]);
    assert_eq!(fsync_parse(&w, &w).unwrap().var, b"f");
}

#[test]
fn fd_var_argument_must_be_prefixed() {
    for args in [&[][..], &["f"][..], &["%%"][..]] {
        let w = words(args);
        let r = fsync_parse(&w, &w);
        assert!(
            is_invalid(&r, Arg::FdVar)
                || matches!(r, Err(BuiltinError::MissingArgument(Arg::FdVar))),
            "{args:?}"
        );
    }
}

#[test]
fn extra_arguments_error() {
    let w = words(&["%f", "%g"]);
    assert!(is_invalid(&fsync_parse(&w, &w), Arg::Arg));
}

#[test]
fn lseek_too_many_words() {
    let w = words(&["%f", "1", "0", "x"]);
    assert!(is_invalid(&lseek_parse(&w, &w), Arg::Arg));
}

#[test]
fn var_comes_from_written_words() {
    let refs = words(&["5", "10"]);
    let orig = words(&["%f", "10"]);
    assert_eq!(lseek_parse(&refs, &orig).unwrap().var, b"f");
}

#[test]
fn offset_line_prints_position() {
    assert_eq!(offset_line(0), b"0\n");
    assert_eq!(offset_line(4096), b"4096\n");
    assert_eq!(offset_line(-1), b"-1\n");
}
