//! The operations every command offers.
use vstd::prelude::*;
use crate::context::JoshutoContext;
use crate::error::JoshutoResult;

verus! {

/// A command that acts on the program state.
pub trait JoshutoRunnable {
    fn execute(&self, context: &mut JoshutoContext) -> (r: JoshutoResult<()>)
        requires
            old(context).wf(),
            old(context).tabs@.len() > 0,
            old(context).tabs@.len() < usize::MAX,
        ensures
            final(context).wf(),
    ;
}

/// A command that also has a canonical text.
pub trait JoshutoCommand: JoshutoRunnable {
    fn command_string(&self) -> String;
}

} // verus!
