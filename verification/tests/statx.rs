use fdshell::child::statx::{dev_major, dev_minor};
use fdshell::child::statx::{flags, kind, statx_parse, Statx, AT_EMPTY_PATH, AT_SYMLINK_NOFOLLOW};
use fdshell::child::target::AtTarget;
use fdshell::child::test::stat::{
    S_IFBLK, S_IFCHR, S_IFDIR, S_IFIFO, S_IFLNK, S_IFREG, S_IFSOCK,
};
use fdshell::error::{Arg, BuiltinError};

fn words(args: &[&str]) -> Vec<Vec<u8>> {
    args.iter().map(|a| a.as_bytes().to_vec()).collect()
}

fn parse(args: &[&str]) -> Result<AtTarget, BuiltinError> {
    let w = words(args);
    statx_parse(&w, &w)
}

fn is_invalid(r: Result<AtTarget, BuiltinError>, what: Arg) -> bool {
    matches!(r, Err(BuiltinError::InvalidArgument(a)) if a == what)
}

#[test]
fn statx_path_form_defaults() {
    match parse(&["a.txt"]).unwrap() {
        AtTarget::Path {
            path,
            dir: None,
            nofollow: false,
        } => assert_eq!(path, b"a.txt"),
        other => panic!("unexpected {other:?}"),
    }
}

#[test]
fn path_form_dir_and_nofollow() {
    match parse(&["a.txt", "--dir", "%d", "--nofollow"]).unwrap() {
        AtTarget::Path {
            dir: Some(d),
            nofollow: true,
            ..
        } => assert_eq!(d, b"d"),
        other => panic!("unexpected {other:?}"),
    }
    assert!(matches!(
        parse(&["a.txt", "--dir=%d"]).unwrap(),
        AtTarget::Path {
            dir: Some(_),
            nofollow: false,
            ..
        }
    ));
}

#[test]
fn statx_fd_form() {
    match parse(&["%f", "--nofollow"]).unwrap() {
        AtTarget::Fd {
            var,
            nofollow: true,
        } => assert_eq!(var, b"f"),
        other => panic!("unexpected {other:?}"),
    }
}

#[test]
fn statx_fd_form_rejects_dir() {
    assert!(is_invalid(parse(&["%f", "--dir", "%d"]), Arg::DirFlag));
}

#[test]
fn statx_unknown_flag_rejected() {
    for args in [
        &["a.txt", "--bogus"][..],
        &["%f", "extra"][..],
        &["a.txt", "b.txt"][..],
    ] {
        assert!(is_invalid(parse(args), Arg::Flag), "{args:?}");
    }
}

#[test]
fn statx_dir_var_must_be_prefixed() {
    for args in [&["a.txt", "--dir", "d"][..], &["a.txt", "--dir", "%"][..]] {
        assert!(is_invalid(parse(args), Arg::DirVar), "{args:?}");
    }
}

#[test]
fn statx_duplicate_dir_rejected() {
    assert!(is_invalid(
        parse(&["a.txt", "--dir", "%d", "--dir", "%e"]),
        Arg::DirFlag
    ));
}

#[test]
fn double_percent_var_rejected() {
    assert!(is_invalid(parse(&["%%"]), Arg::FdVar));
}

#[test]
fn bare_percent_is_an_empty_var_name() {
    match parse(&["%"]).unwrap() {
        AtTarget::Fd { var, .. } => assert!(var.is_empty()),
        other => panic!("unexpected {other:?}"),
    }
}

#[test]
fn statx_missing_path_errors() {
    assert!(matches!(
        parse(&[]),
        Err(BuiltinError::MissingArgument(Arg::Path))
    ));
}

#[test]
fn statx_empty_path_rejected() {
    assert!(is_invalid(parse(&[""]), Arg::Path));
}

#[test]
fn nofollow_takes_no_value() {
    assert!(is_invalid(parse(&["a.txt", "--nofollow=x"]), Arg::NofollowFlag));
}

#[test]
fn statx_help() {
    assert!(matches!(parse(&["--help"]), Err(BuiltinError::Help)));
}

#[test]
fn kind_covers_all_file_types() {
    assert_eq!(kind(S_IFREG | 0o644), "file");
    assert_eq!(kind(S_IFDIR | 0o755), "dir");
    assert_eq!(kind(S_IFLNK | 0o777), "symlink");
    assert_eq!(kind(S_IFIFO | 0o600), "fifo");
    assert_eq!(kind(S_IFCHR | 0o644), "char");
    assert_eq!(kind(S_IFBLK | 0o644), "block");
    assert_eq!(kind(S_IFSOCK | 0o755), "sock");
    assert_eq!(kind(0o644), "unknown");
}

#[test]
fn line_formats_all_fields() {
    let st = Statx {
        ino: 42,
        mode: S_IFREG | 0o644,
        size: 7,
        dev_major: 8,
        dev_minor: 1,
        mtime_sec: 1_234_567_890,
    };
    assert_eq!(
        fdshell::child::statx::line(&st),
        b"kind=file size=7 mode=644 ino=42 dev=8:1 mtime=1234567890\n"
    );
}

#[test]
fn line_masks_file_type_bits_but_keeps_special_bits() {
    let st = Statx {
        ino: 1,
        mode: S_IFREG | 0o4000 | 0o644,
        size: 0,
        dev_major: 0,
        dev_minor: 0,
        mtime_sec: 0,
    };
    assert!(fdshell::child::statx::line(&st).starts_with(b"kind=file size=0 mode=4644 "));
}

#[test]
fn line_prints_negative_mtime() {
    let st = Statx {
        ino: 0,
        mode: S_IFDIR,
        size: 0,
        dev_major: 0,
        dev_minor: 0,
        mtime_sec: -5,
    };
    assert_eq!(fdshell::child::statx::line(&st), b"kind=dir size=0 mode=0 ino=0 dev=0:0 mtime=-5\n");
}

#[test]
fn flags_combine_disjoint_bits() {
    assert_eq!(flags(false, false), 0);
    assert_eq!(flags(true, false), AT_SYMLINK_NOFOLLOW);
    assert_eq!(flags(false, true), AT_EMPTY_PATH);
    assert_eq!(flags(true, true), AT_SYMLINK_NOFOLLOW + AT_EMPTY_PATH);
}

#[test]
fn device_numbers_unpack() {
    // makedev(8, 1) and makedev(259, 65536)
    assert_eq!((dev_major(0x801), dev_minor(0x801)), (8, 1));
    let dev: u64 = (259u64 << 8) | (65536u64 & 0xff) | ((65536u64 & !0xff) << 12);
    assert_eq!((dev_major(dev), dev_minor(dev)), (259, 65536));
}
