//! Names of branch references.
use vstd::prelude::*;

use crate::text::{concat_str, contains_str, has_infix};

verus! {

/// The prefix under which local branches live.
pub open spec fn heads_prefix() -> Seq<char> {
    seq!['r', 'e', 'f', 's', '/', 'h', 'e', 'a', 'd', 's', '/']
}

/// The fully qualified reference of a branch: the name itself where it already
/// holds the branch prefix, else the name under that prefix.
pub open spec fn ref_of(branch: Seq<char>) -> Seq<char> {
    if has_infix(branch, heads_prefix()) {
        branch
    } else {
        heads_prefix() + branch
    }
}

/// The fully qualified reference of `branch`.
pub fn get_ref(branch: &str) -> (r: String)
    ensures
        r@ == ref_of(branch@),
{
    let prefix = "refs/heads/";
    proof {
        reveal_strlit("refs/heads/");
    }
    assert(prefix@ =~= heads_prefix());
    if contains_str(branch, prefix) {
        branch.to_owned()
    } else {
        concat_str(prefix, branch)
    }
}

} // verus!
