//! The start of the forked child: redirections before anything else.

use vstd::prelude::*;
use crate::error::ChildProcessError;

verus! {

/// Apply each redirection in order with `export`, which reports whether it
/// took effect; the first one that fails stops the child.
pub fn apply_redirects<R, F: Fn(&R) -> bool>(redirects: &[R], export: F) -> (r: Result<
    (),
    ChildProcessError,
>)
    requires
        forall|i: int| 0 <= i < redirects@.len() ==> call_requires(export, (&redirects@[i],)),
    ensures
        r is Ok ==> forall|i: int|
            0 <= i < redirects@.len() ==> call_ensures(export, (&redirects@[i],), true),
        r is Err ==> r == Err::<(), ChildProcessError>(ChildProcessError::RedirectFailed) && exists|
            k: int,
        |
            0 <= k < redirects@.len() && call_ensures(export, (&redirects@[k],), false) && forall|
                i: int,
            |
                0 <= i < k ==> call_ensures(export, (&redirects@[i],), true),
{
    let mut i: usize = 0;
    while i < redirects.len()
        invariant
            i <= redirects@.len(),
            forall|j: int| 0 <= j < redirects@.len() ==> call_requires(export, (&redirects@[j],)),
            forall|j: int| 0 <= j < i ==> call_ensures(export, (&redirects@[j],), true),
        decreases redirects.len() - i,
    {
        let ok = export(&redirects[i]);
        if !ok {
            return Err(ChildProcessError::RedirectFailed);
        }
        i = i + 1;
    }
    Ok(())
}

} // verus!
