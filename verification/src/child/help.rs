//! The `help` command: two lists, kept in sync with the dispatch tables.
//!
//! - [`shell_cmds`]: commands the shell handles in-process, plus the
//!   parse-level `umask` and `unset`.
//! - [`builtins`]: the dispatch table plus the `import_fd` fd-pass builtin.

use vstd::prelude::*;
use vstd::string::StringSliceAdditionalSpecFns;
use crate::bytes::{push_str, SPACE};

verus! {

/// A help entry: a command name and its one-line description.
pub type Entry = (&'static str, &'static str);

/// Commands the shell handles in-process.
pub open spec fn shell_cmds_spec() -> Seq<Entry> {
    seq![
        ("alias", "Define or list aliases"),
        ("unalias", "Remove aliases"),
        ("become", "Replace shell with command"),
        ("cd", "Change directory"),
        ("envfilter", "Filter env vars for child processes"),
        ("eval", "Run arguments as a script"),
        ("exec", "Replace shell with command (alias for become)"),
        ("exit", "Exit shell (alias: quit)"),
        ("export", "Set or list exports"),
        ("export_fd", "Export fd to variable"),
        ("hash", "Show or cache path lookups"),
        ("read", "Read a line into a variable"),
        ("send_fd", "Send an fd to the capture socket"),
        ("set", "Set or show options and variables"),
        ("shift", "Shift positional parameters"),
        ("shopt", "Toggle shell options"),
        ("signalfd", "Trap signals as an fd source"),
        ("source", "Run a script file (alias: .)"),
        ("timeout", "Run a command with a deadline"),
        ("ulimit", "Get or set resource limits"),
        ("umask", "Set or show file mode mask"),
        ("unset", "Remove variable"),
        ("waitpid", "Wait for a background task"),
    ]
}

/// The shell-command list.
pub fn shell_cmds() -> (t: [Entry; 23])
    ensures
        t@ == shell_cmds_spec(),
{
    let t: [Entry; 23] = [
        ("alias", "Define or list aliases"),
        ("unalias", "Remove aliases"),
        ("become", "Replace shell with command"),
        ("cd", "Change directory"),
        ("envfilter", "Filter env vars for child processes"),
        ("eval", "Run arguments as a script"),
        ("exec", "Replace shell with command (alias for become)"),
        ("exit", "Exit shell (alias: quit)"),
        ("export", "Set or list exports"),
        ("export_fd", "Export fd to variable"),
        ("hash", "Show or cache path lookups"),
        ("read", "Read a line into a variable"),
        ("send_fd", "Send an fd to the capture socket"),
        ("set", "Set or show options and variables"),
        ("shift", "Shift positional parameters"),
        ("shopt", "Toggle shell options"),
        ("signalfd", "Trap signals as an fd source"),
        ("source", "Run a script file (alias: .)"),
        ("timeout", "Run a command with a deadline"),
        ("ulimit", "Get or set resource limits"),
        ("umask", "Set or show file mode mask"),
        ("unset", "Remove variable"),
        ("waitpid", "Wait for a background task"),
    ];
    assert(t@ =~= shell_cmds_spec());
    t
}

/// Builtins run in the forked child.
pub open spec fn builtins_spec() -> Seq<Entry> {
    seq![
        ("[", "Test expression (alias for test)"),
        ("echo", "Print arguments"),
        ("eventfd", "Counter fd that arms on non-zero"),
        ("exec_at", "Execute with path lookup"),
        ("exec_fd", "Execute with fd lookup"),
        ("explain", "Show provenance of a variable"),
        ("false", "Exit with failure status"),
        ("fchmod", "Change file mode"),
        ("fdexplain", "Show provenance of an fd variable"),
        ("fsync", "Flush an fd to storage"),
        ("ftruncate", "Truncate a file to a length"),
        ("help", "List available commands"),
        ("import_fd", "Import an fd from the parent"),
        ("lseek", "Move the offset of an fd"),
        ("mkdirat", "Create directory"),
        ("openat2", "Open file"),
        ("pipe", "Create pipe"),
        ("printf", "Format and print arguments"),
        ("pwd", "Print working directory"),
        ("renameat2", "Rename/move file"),
        ("resolve", "Resolve fd variables"),
        ("test", "Test expression (also '[')"),
        ("timerfd", "Timer as an fd source"),
        ("true", "Exit with success status"),
        ("type", "Show how a command name resolves"),
    ]
}

/// The builtin list.
pub fn builtins() -> (t: [Entry; 25])
    ensures
        t@ == builtins_spec(),
{
    let t: [Entry; 25] = [
        ("[", "Test expression (alias for test)"),
        ("echo", "Print arguments"),
        ("eventfd", "Counter fd that arms on non-zero"),
        ("exec_at", "Execute with path lookup"),
        ("exec_fd", "Execute with fd lookup"),
        ("explain", "Show provenance of a variable"),
        ("false", "Exit with failure status"),
        ("fchmod", "Change file mode"),
        ("fdexplain", "Show provenance of an fd variable"),
        ("fsync", "Flush an fd to storage"),
        ("ftruncate", "Truncate a file to a length"),
        ("help", "List available commands"),
        ("import_fd", "Import an fd from the parent"),
        ("lseek", "Move the offset of an fd"),
        ("mkdirat", "Create directory"),
        ("openat2", "Open file"),
        ("pipe", "Create pipe"),
        ("printf", "Format and print arguments"),
        ("pwd", "Print working directory"),
        ("renameat2", "Rename/move file"),
        ("resolve", "Resolve fd variables"),
        ("test", "Test expression (also '[')"),
        ("timerfd", "Timer as an fd source"),
        ("true", "Exit with success status"),
        ("type", "Show how a command name resolves"),
    ];
    assert(t@ =~= builtins_spec());
    t
}

/// The length in bytes of the longest name of `entries`.
pub open spec fn max_name(entries: Seq<Entry>) -> nat
    decreases entries.len(),
{
    if entries.len() == 0 {
        0
    } else {
        let m = max_name(entries.drop_last());
        let l = entries.last().0.spec_bytes().len();
        if l > m {
            l
        } else {
            m
        }
    }
}

/// `n` spaces.
pub open spec fn spaces(n: nat) -> Seq<u8> {
    Seq::new(n, |_i: int| 0x20u8)
}

/// One line of a list whose names are padded to `width`: the name, the
/// padding, two spaces, the description.
pub open spec fn entry_line(e: Entry, width: nat) -> Seq<u8> {
    e.0.spec_bytes() + spaces((width - e.0.spec_bytes().len()) as nat) + "  ".spec_bytes()
        + e.1.spec_bytes() + "\n".spec_bytes()
}

/// The lines of `entries`, names padded to `width`.
pub open spec fn lines(entries: Seq<Entry>, width: nat) -> Seq<u8>
    decreases entries.len(),
{
    if entries.len() == 0 {
        Seq::empty()
    } else {
        lines(entries.drop_last(), width) + entry_line(entries.last(), width)
    }
}

/// A list as `help` prints it: names padded to the longest one.
pub open spec fn list_text(entries: Seq<Entry>) -> Seq<u8> {
    lines(entries, max_name(entries))
}

/// The whole `help` text.
pub open spec fn help_text() -> Seq<u8> {
    "Shell commands:\n\n".spec_bytes() + list_text(shell_cmds_spec()) + "\nBuiltins:\n\n".spec_bytes()
        + list_text(builtins_spec())
}

/// No name is longer than the longest.
pub proof fn lemma_max_name_bounds(entries: Seq<Entry>, i: int)
    requires
        0 <= i < entries.len(),
    ensures
        entries[i].0.spec_bytes().len() <= max_name(entries),
    decreases entries.len(),
{
    if i < entries.len() - 1 {
        lemma_max_name_bounds(entries.drop_last(), i);
        assert(entries.drop_last()[i] == entries[i]);
    }
}

/// Appends the list of `entries` to `out`.
pub fn print_list(entries: &[Entry], out: &mut Vec<u8>)
    ensures
        final(out)@ == old(out)@ + list_text(entries@),
{
    let mut width: usize = 0;
    let mut i: usize = 0;
    while i < entries.len()
        invariant
            i <= entries.len(),
            width as nat == max_name(entries@.take(i as int)),
        decreases entries.len() - i,
    {
        let ghost next = entries@.take(i as int + 1);
        assert(next.drop_last() =~= entries@.take(i as int));
        assert(next.last() == entries@[i as int]);
        let l = entries[i].0.as_bytes().len();
        if l > width {
            width = l;
        }
        assert(width as nat == max_name(next));
        i = i + 1;
    }
    assert(entries@.take(entries.len() as int) =~= entries@);
    let ghost start = out@;
    let mut i: usize = 0;
    while i < entries.len()
        invariant
            i <= entries.len(),
            width as nat == max_name(entries@),
            out@ == start + lines(entries@.take(i as int), width as nat),
        decreases entries.len() - i,
    {
        let (name, desc) = entries[i];
        proof {
            lemma_max_name_bounds(entries@, i as int);
        }
        push_str(out, name);
        let mut pad: usize = name.as_bytes().len();
        while pad < width
            invariant
                name.spec_bytes().len() <= pad <= width,
                out@ == start + lines(entries@.take(i as int), width as nat) + name.spec_bytes()
                    + spaces((pad - name.spec_bytes().len()) as nat),
            decreases width - pad,
        {
            out.push(SPACE);
            pad = pad + 1;
            assert(spaces((pad - name.spec_bytes().len()) as nat) =~= spaces(
                (pad - 1 - name.spec_bytes().len()) as nat,
            ).push(0x20u8));
        }
        push_str(out, "  ");
        push_str(out, desc);
        push_str(out, "\n");
        assert(entries@.take(i as int + 1).drop_last() =~= entries@.take(i as int));
        assert(out@ =~= start + lines(entries@.take(i as int + 1), width as nat));
        i = i + 1;
    }
    assert(entries@.take(entries.len() as int) =~= entries@);
}

/// Appends the `help` text to `out`.
pub fn print_help(out: &mut Vec<u8>)
    ensures
        final(out)@ == old(out)@ + help_text(),
{
    let shell = shell_cmds();
    let bi = builtins();
    push_str(out, "Shell commands:\n\n");
    print_list(&shell, out);
    push_str(out, "\nBuiltins:\n\n");
    print_list(&bi, out);
    assert(out@ =~= old(out)@ + help_text());
}

} // verus!
