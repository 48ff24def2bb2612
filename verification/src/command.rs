//! The command capability.

use vstd::prelude::*;

verus! {

use crate::state::AbstractState;

/// A single operation, issued in the same round to both the reference model
/// and the system under test.
pub trait Command<S: AbstractState>: Sized {
    /// The command's effect: the return code and the successor state it
    /// produces from a given state.
    spec fn spec_execute(&self, pre: S) -> (isize, S);

    /// The rendering `describe` produces.  Unspecified by default; a
    /// command implementation that is itself verified overrides it.
    open spec fn spec_describe(&self) -> Seq<char> {
        vstd::pervasive::arbitrary()
    }

    /// Applies the command to an abstract state and yields the integer
    /// return code the operation reports.
    fn execute(&self, state: &mut S) -> (r: isize)
        ensures
            (r, *final(state)) == self.spec_execute(*old(state)),
    ;

    /// A human-readable rendering of the command, used only for the trace;
    /// it must not depend on any state the command was applied to.
    fn describe(&self) -> (r: String)
        ensures
            r@ == self.spec_describe(),
    ;
}

} // verus!
