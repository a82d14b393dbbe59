//! Opening, closing and switching tabs.
use vstd::prelude::*;
use vstd::string::*;
use crate::context::{quit_outcome, JoshutoContext};
use crate::error::{JoshutoErrorKind, JoshutoResult};
use crate::runnable::{JoshutoCommand, JoshutoRunnable};
use crate::tab::JoshutoTab;

verus! {

/// Where a new tab starts: the home directory, else the root.
pub open spec fn new_tab_path(home: Option<Seq<char>>) -> Seq<char> {
    match home {
        Some(h) => h,
        None => "/"@,
    }
}

pub open spec fn home_of(context: JoshutoContext) -> Option<Seq<char>> {
    match context.config_t.home_dir {
        Some(h) => Some(h@),
        None => None,
    }
}

/// What `close_tab` does: with one tab left it is `quit`; otherwise the
/// current tab goes, and the one before it (or the first) becomes current.
pub open spec fn close_tab_outcome(before: JoshutoContext, after: JoshutoContext, ok: bool) -> bool {
    if before.tabs@.len() <= 1 {
        quit_outcome(before, after, ok)
    } else {
        &&& ok
        &&& after.tabs@ == before.tabs@.remove(before.curr_tab_index as int)
        &&& after.curr_tab_index == if before.curr_tab_index > 0 { before.curr_tab_index - 1 } else { 0 }
        &&& after.exit == before.exit
        &&& after.worker_busy == before.worker_busy
        &&& after.worker_queue == before.worker_queue
        &&& after.message_queue == before.message_queue
    }
}

/// The tab `movement` places away from `index`, held within `0..len`.
pub open spec fn switched_index(index: int, movement: int, len: int) -> int {
    if index + movement < 0 {
        0
    } else if index + movement >= len {
        len - 1
    } else {
        index + movement
    }
}

#[derive(Clone, Copy, Debug, PartialEq, Eq, Structural)]
pub struct NewTab;

impl NewTab {
    pub fn new() -> (r: Self) {
        NewTab
    }

    pub fn command() -> (r: &'static str)
        ensures
            r@ == "new_tab"@,
    {
        "new_tab"
    }

    /// Appends a tab at the home directory (or the root) and makes it
    /// current. Its listing starts stale, so that the next refresh reads it.
    pub fn new_tab(context: &mut JoshutoContext) -> (r: JoshutoResult<()>)
        requires
            old(context).wf(),
            old(context).tabs@.len() < usize::MAX,
        ensures
            r is Ok,
            final(context).wf(),
            final(context).tabs@.len() == old(context).tabs@.len() + 1,
            final(context).tabs@.drop_last() == old(context).tabs@,
            final(context).curr_tab_index == old(context).tabs@.len(),
            final(context).tabs@.last().curr_path@ == new_tab_path(home_of(*old(context))),
            final(context).tabs@.last().curr_list.need_update,
            final(context).tabs@.last().sort_option == old(context).config_t.sort_option,
            final(context).exit == old(context).exit,
            final(context).worker_busy == old(context).worker_busy,
            final(context).worker_queue == old(context).worker_queue,
            final(context).message_queue == old(context).message_queue,    {
        let path = match &context.config_t.home_dir {
            Some(h) => h.clone(),
            None => String::from_str("/"),
        };
        let tab = JoshutoTab::new(path, context.config_t.sort_option);
        context.push_tab(tab);
        assert(context.tabs@.drop_last() =~= old(context).tabs@);
        Ok(())
    }
}

impl JoshutoRunnable for NewTab {
    /// Does what `new_tab` does.
    fn execute(&self, context: &mut JoshutoContext) -> (r: JoshutoResult<()>)
        ensures
            r is Ok,
            final(context).tabs@.len() == old(context).tabs@.len() + 1,
            final(context).tabs@.drop_last() == old(context).tabs@,
            final(context).curr_tab_index == old(context).tabs@.len(),
            final(context).tabs@.last().curr_path@ == new_tab_path(home_of(*old(context))),
            final(context).tabs@.last().curr_list.need_update,
            final(context).tabs@.last().sort_option == old(context).config_t.sort_option,
            final(context).exit == old(context).exit,
            final(context).worker_busy == old(context).worker_busy,
            final(context).worker_queue == old(context).worker_queue,
            final(context).message_queue == old(context).message_queue,
    {
        Self::new_tab(context)
    }
}

impl JoshutoCommand for NewTab {
    fn command_string(&self) -> (r: String)
        ensures
            r@ == "new_tab"@,
    {
        String::from_str(Self::command())
    }
}

#[derive(Clone, Copy, Debug, PartialEq, Eq, Structural)]
pub struct CloseTab;

impl CloseTab {
    pub fn new() -> (r: Self) {
        CloseTab
    }

    pub fn command() -> (r: &'static str)
        ensures
            r@ == "close_tab"@,
    {
        "close_tab"
    }

    /// Closes the current tab, as `close_tab_outcome` states.
    pub fn close_tab(context: &mut JoshutoContext) -> (r: JoshutoResult<()>)
        requires
            old(context).wf(),
        ensures
            final(context).wf(),
            close_tab_outcome(*old(context), *final(context), r is Ok),
            r is Err ==> r->Err_0.kind == JoshutoErrorKind::WorkerBusy,
    {
        if context.tabs.len() <= 1 {
            return context.quit();
        }
        let i = context.curr_tab_index;
        let _ = context.tabs.remove(i);
        if context.curr_tab_index > 0 {
            context.curr_tab_index = context.curr_tab_index - 1;
        }
        assert forall|k: int| 0 <= k < context.tabs@.len() implies (#[trigger] context.tabs@[k]).wf() by {
            if k < i {
                assert(context.tabs@[k] == old(context).tabs@[k]);
            } else {
                assert(context.tabs@[k] == old(context).tabs@[k + 1]);
            }
        }
        Ok(())
    }
}

impl JoshutoRunnable for CloseTab {
    /// Does what `close_tab` does.
    fn execute(&self, context: &mut JoshutoContext) -> (r: JoshutoResult<()>)
        ensures
            close_tab_outcome(*old(context), *final(context), r is Ok),
            r is Err ==> r->Err_0.kind == JoshutoErrorKind::WorkerBusy,
    {
        Self::close_tab(context)
    }
}

impl JoshutoCommand for CloseTab {
    fn command_string(&self) -> (r: String)
        ensures
            r@ == "close_tab"@,
    {
        String::from_str(Self::command())
    }
}

/// Closing the only remaining tab does what `quit` does, and nothing else
/// (both fail only with `WorkerBusy`, as their own contracts state).
pub proof fn lemma_close_last_tab_is_quit(before: JoshutoContext, after: JoshutoContext, ok: bool)
    requires
        before.tabs@.len() <= 1,
    ensures
        close_tab_outcome(before, after, ok) == quit_outcome(before, after, ok),
{
}

/// Moves the current tab by `movement` places, held within the open tabs.
pub fn tab_switch(context: &mut JoshutoContext, movement: i32)
    requires
        old(context).wf(),
        old(context).tabs@.len() > 0,
    ensures
        final(context).wf(),
        final(context).curr_tab_index as int == switched_index(old(context).curr_tab_index as int, movement as int, old(context).tabs@.len() as int),
        final(context).tabs == old(context).tabs,
        final(context).exit == old(context).exit,
{
    let len = context.tabs.len();
    let cur = context.curr_tab_index;
    if movement < 0 {
        let back: usize = (0 - (movement as i64)) as usize;
        if back > cur {
            context.curr_tab_index = 0;
        } else {
            context.curr_tab_index = cur - back;
        }
    } else {
        let fwd: usize = movement as usize;
        if fwd >= len - cur {
            context.curr_tab_index = len - 1;
        } else {
            context.curr_tab_index = cur + fwd;
        }
    }
}

} // verus!
