use fdshell::cmd_subst::{drain, Capture, MAX_CAPTURED};
use fdshell::error::CmdSubstError;

/// The bytes as a pipe hands them out, in reads of at most 4096 bytes.
fn chunks(data: &[u8]) -> Vec<Vec<u8>> {
    data.chunks(4096).map(|c| c.to_vec()).collect()
}

fn drain_bytes(data: &[u8], limit: usize) -> Result<Vec<u8>, CmdSubstError> {
    drain(&chunks(data), limit)
}

#[test]
fn drain_strips_trailing_newlines() {
    assert_eq!(drain_bytes(b"hello\n\n", 1024).unwrap(), b"hello");
}

#[test]
fn drain_under_cap_returns_all() {
    assert_eq!(drain_bytes(b"abc", 3).unwrap(), b"abc");
}

#[test]
fn drain_over_cap_fails() {
    assert_eq!(
        drain_bytes(b"abcdefgh", 3),
        Err(CmdSubstError::OutputTooLarge)
    );
}

#[test]
fn drain_empty_is_empty() {
    assert!(drain_bytes(b"", 1024).unwrap().is_empty());
}

#[test]
fn drain_keeps_inner_newlines() {
    assert_eq!(drain_bytes(b"a\n\nb\n", 1024).unwrap(), b"a\n\nb");
    assert!(drain_bytes(b"\n\n\n", 1024).unwrap().is_empty());
}

#[test]
fn capture_refuses_the_chunk_that_overflows() {
    let mut cap = Capture::new(5);
    assert_eq!(cap.push_chunk(b"abc"), Ok(()));
    assert_eq!(cap.push_chunk(b"def"), Err(CmdSubstError::OutputTooLarge));
    assert_eq!(cap.push_chunk(b"de"), Ok(()));
    assert_eq!(cap.finish(), b"abcde");
}

#[test]
fn cap_is_sixty_four_mebibytes() {
    assert_eq!(MAX_CAPTURED, 64 * 1024 * 1024);
}
