use fdshell::child::flags::{dir_var, split_eq};
use fdshell::error::{Arg, BuiltinError};

#[test]
fn split_eq_both_forms() {
    assert_eq!(
        split_eq(b"--dir=%d"),
        (b"--dir".to_vec(), Some(b"%d".to_vec()))
    );
    assert_eq!(split_eq(b"--nofollow"), (b"--nofollow".to_vec(), None));
}

#[test]
fn split_eq_empty_value() {
    assert_eq!(split_eq(b"--dir="), (b"--dir".to_vec(), Some(Vec::new())));
}

#[test]
fn split_eq_splits_at_first_equals() {
    assert_eq!(split_eq(b"a=b=c"), (b"a".to_vec(), Some(b"b=c".to_vec())));
}

#[test]
fn dir_var_strips_the_percent() {
    assert_eq!(dir_var(b"%d").unwrap(), b"d");
    assert_eq!(dir_var(b"%a_b").unwrap(), b"a_b");
}

#[test]
fn dir_var_rejects_bad_forms() {
    for v in [b"d" as &[u8], b"%" as &[u8], b"%d%e" as &[u8], b"" as &[u8]] {
        assert_eq!(
            dir_var(v),
            Err(BuiltinError::InvalidArgument(Arg::DirVar)),
            "{v:?}"
        );
    }
}
