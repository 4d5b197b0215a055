use fdshell::child::dispatch::dispatch_table;
use fdshell::child::help::{builtins, print_help, print_list, shell_cmds};
use fdshell::child::simple::{handle_false, handle_help, handle_true};

#[test]
fn every_dispatched_builtin_is_listed() {
    for b in dispatch_table() {
        let name = b.name();
        assert!(
            builtins().iter().any(|(listed, _)| *listed == name),
            "help Builtins is missing `{name}`"
        );
    }
}

#[test]
fn fdpass_builtins_are_listed() {
    for (name, in_shell) in [("import_fd", false), ("export_fd", true)] {
        let listed = if in_shell {
            shell_cmds().iter().any(|(n, _)| *n == name)
        } else {
            builtins().iter().any(|(n, _)| *n == name)
        };
        assert!(listed, "help is missing `{name}`");
    }
}

#[test]
fn help_entries_are_well_formed() {
    let mut seen: Vec<&str> = Vec::new();
    for (name, desc) in shell_cmds().iter().chain(builtins().iter()) {
        assert!(!seen.contains(name), "duplicate help entry `{name}`");
        seen.push(name);
        assert!(!desc.is_empty(), "`{name}` has no description");
        assert_ne!(*desc, *name, "`{name}` reuses its name as description");
    }
}

#[test]
fn list_pads_names_to_the_longest() {
    let mut out = Vec::new();
    print_list(&[("ab", "first"), ("abcd", "second")], &mut out);
    assert_eq!(out, b"ab    first\nabcd  second\n");
}

#[test]
fn empty_list_prints_nothing() {
    let mut out = Vec::new();
    print_list(&[], &mut out);
    assert!(out.is_empty());
}

#[test]
fn help_text_has_both_sections() {
    let mut out = Vec::new();
    print_help(&mut out);
    let text = String::from_utf8(out).unwrap();
    assert!(text.starts_with("Shell commands:\n\nalias "));
    assert!(text.contains("\nBuiltins:\n\n[ "));
    assert!(text.contains("\nwaitpid    Wait for a background task\n"));
    assert!(text.ends_with("type       Show how a command name resolves\n"));
}

#[test]
fn simple_builtins_statuses() {
    assert_eq!(handle_true(), Ok(0));
    assert_eq!(handle_false(), Ok(1));
    let mut out = Vec::new();
    assert_eq!(handle_help(&mut out), Ok(0));
    assert!(!out.is_empty());
}

/// Commands the parser handles directly instead of via a dispatch table.
const PARSE_LEVEL: &[&str] = &["umask", "unset"];

/// Fd-passing builtins dispatched apart from the table.
const FDPASS: &[&str] = &["import_fd", "export_fd"];

#[test]
fn every_intercept_command_is_listed() {
    for name in fdshell::intercept::intercepted_commands() {
        assert!(
            shell_cmds().iter().any(|(listed, _)| *listed == name),
            "help Shell commands is missing `{name}`"
        );
    }
}

#[test]
fn help_lists_no_phantom_commands() {
    let mut real: Vec<&str> = dispatch_table().iter().map(|b| b.name()).collect();
    real.extend(fdshell::intercept::intercepted_commands());
    real.extend(FDPASS.iter().copied());
    real.extend(PARSE_LEVEL.iter().copied());
    for (name, _) in shell_cmds().iter().chain(builtins().iter()) {
        assert!(
            real.contains(name),
            "help lists `{name}` but no such command exists"
        );
    }
}

#[test]
fn intercepted_names_are_recognised() {
    assert!(fdshell::intercept::is_intercepted(b"cd"));
    assert!(!fdshell::intercept::is_intercepted(b"echo"));
}
