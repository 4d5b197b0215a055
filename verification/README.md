# fdshell

The decision-making core of `fdshell`, a small shell whose commands work on
file descriptors held in `%name` variables, written in Verus: every
function in `src/` carries a contract that Verus proves, except one
trusted wrapper of `core::str::from_utf8` (`debug::utf8_text`), whose
contract states what the standard library documents.

- `src/` is the verified library: scanning of blocks, heredocs and `&&`/`||`
  lists (`scan`, `comment`, `cond`), command substitution capture
  (`cmd_subst`), the shell's own command line (`cli`), parse-error display
  (`debug`), and under `child/` the builtins: routing (`dispatch`),
  argument parsing (`fdops`, `flock`, `flags`, `target`, `ls`, `readlink`,
  `statx`, `exec_fd`, `fdpass`), `printf`, `test`, `type`, `explain`,
  `help` and the exit status of a failed builtin (`error`).
- `tests/` exercises the library on concrete values.
- `app/` is the operating-system side: it reads files and pipes, asks the
  file system, and hands plain values to the library.
