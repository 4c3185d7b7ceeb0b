//! The child invocation: a command name and its ordered argument list,
//! owned by the launcher for the duration of the call.

use vstd::prelude::*;

verus! {

/// A command to launch: the executable's name and its arguments, in order.
/// The list may be empty; order is significant and preserved at spawn.
#[derive(Clone, Debug)]
pub struct ChildInvocation {
    pub command: String,
    pub args: Vec<String>,
}

impl ChildInvocation {
    /// Packs a command name and its arguments, unchanged and in order.
    pub fn new(command: String, args: Vec<String>) -> (inv: Self)
        ensures
            inv.command@ == command@,
            inv.args@ == args@,
    {
        ChildInvocation { command, args }
    }
}

} // verus!
