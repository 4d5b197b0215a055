use fdshell::cond::boundary::next_boundary;
use fdshell::cond::{cond_next, is_empty_part, skip_to_or, CondCursor, CondStep};
use fdshell::scan::heredoc::{delimiter, skip};
use fdshell::scan::ScanState;

/// Run the list `line`, where a part succeeds iff it is listed in `ok`;
/// gives the parts that ran, in order.
fn run(line: &str, ok: &[&str]) -> Vec<String> {
    let bytes = line.as_bytes();
    let mut cur = CondCursor::new();
    let mut last = true;
    let mut ran = Vec::new();
    loop {
        match cond_next(bytes, &mut cur, last) {
            CondStep::Run { start, end } => {
                let part = String::from_utf8(bytes[start..end].to_vec()).unwrap();
                let part = part.trim_end().to_string();
                last = ok.contains(&part.as_str());
                ran.push(part);
            }
            CondStep::Finish => return ran,
        }
    }
}

#[test]
fn and_runs_second_after_success() {
    assert_eq!(run("a && b", &["a", "b"]), vec!["a", "b"]);
}

#[test]
fn and_failure_skips_to_or() {
    assert_eq!(run("a && b || c", &[]), vec!["a", "c"]);
    assert_eq!(run("a && b && c || d", &["b"]), vec!["a", "d"]);
}

#[test]
fn or_success_ends_list() {
    assert_eq!(run("a || b && c", &["a"]), vec!["a"]);
    assert_eq!(run("a || b", &[]), vec!["a", "b"]);
}

#[test]
fn finished_list_stays_finished() {
    let mut cur = CondCursor::new();
    let line = b"a";
    assert!(matches!(cond_next(line, &mut cur, true), CondStep::Run { .. }));
    assert_eq!(cond_next(line, &mut cur, true), CondStep::Finish);
    assert_eq!(cond_next(line, &mut cur, false), CondStep::Finish);
}

#[test]
fn operators_in_quotes_do_not_split() {
    assert_eq!(run("echo \"a && b\" || c", &[]), vec!["echo \"a && b\"", "c"]);
}

#[test]
fn boundaries_and_skips() {
    let line = b"a && b || c";
    let mut st = ScanState::new();
    assert_eq!(next_boundary(line, 0, &mut st), (2, false));
    let mut st = ScanState::new();
    assert_eq!(skip_to_or(line, 4, &mut st), 7);
    let mut st = ScanState::new();
    assert_eq!(skip_to_or(b"a && b", 4, &mut st), 6);
    assert!(is_empty_part(b"  && x", 0, 2));
    assert!(!is_empty_part(b" y && x", 0, 3));
}

#[test]
fn heredoc_body_does_not_split_the_list() {
    let line = "cat <<EOF\na || b\nEOF\n|| c";
    assert_eq!(run(line, &[]), vec!["cat <<EOF\na || b\nEOF", "c"]);
}

#[test]
fn heredoc_delimiters() {
    assert_eq!(delimiter(b"cat <<EOF"), Some((b"EOF".to_vec(), false)));
    assert_eq!(delimiter(b"cat <<-END"), Some((b"END".to_vec(), true)));
    assert_eq!(delimiter(b"cat <<<word"), None);
    assert_eq!(delimiter(b"echo hi"), None);
    let text = b"cat <<EOF\nbody && more\nEOF\nnext";
    assert_eq!(skip(text, 0, 9), Some(26));
}
