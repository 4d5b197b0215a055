//! The commands the shell runs in-process instead of forking a child.

use vstd::prelude::*;
use vstd::string::StringSliceAdditionalSpecFns;
use crate::bytes::eq_bytes;

verus! {

/// The in-process commands.
pub open spec fn intercepted_spec() -> Seq<&'static str> {
    seq![
        "alias",
        "unalias",
        "become",
        "cd",
        "envfilter",
        "eval",
        "exec",
        "exit",
        "export",
        "export_fd",
        "hash",
        "read",
        "send_fd",
        "set",
        "shift",
        "shopt",
        "signalfd",
        "source",
        "timeout",
        "ulimit",
        "waitpid",
    ]
}

/// The in-process commands.
pub fn intercepted_commands() -> (t: [&'static str; 21])
    ensures
        t@ == intercepted_spec(),
{
    let t: [&'static str; 21] = [
        "alias",
        "unalias",
        "become",
        "cd",
        "envfilter",
        "eval",
        "exec",
        "exit",
        "export",
        "export_fd",
        "hash",
        "read",
        "send_fd",
        "set",
        "shift",
        "shopt",
        "signalfd",
        "source",
        "timeout",
        "ulimit",
        "waitpid",
    ];
    assert(t@ =~= intercepted_spec());
    t
}

/// Whether the shell runs `name` in-process.
pub fn is_intercepted(name: &[u8]) -> (r: bool)
    ensures
        r == exists|i: int| 0 <= i < intercepted_spec().len() && #[trigger] intercepted_spec()[i].spec_bytes() == name@,
{
    let t = intercepted_commands();
    let mut i: usize = 0;
    while i < 21
        invariant
            i <= 21,
            t@ == intercepted_spec(),
            forall|j: int| 0 <= j < i ==> intercepted_spec()[j].spec_bytes() != name@,
        decreases 21 - i,
    {
        if eq_bytes(name, t[i].as_bytes()) {
            return true;
        }
        i = i + 1;
    }
    false
}

} // verus!
