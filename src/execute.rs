//! Carrying out the commands that act on the program state alone.
use vstd::prelude::*;
use crate::column::{moved_down, moved_up};
use crate::command::{Command, CommandView};
use crate::context::{quit_outcome, JoshutoContext};
use crate::error::JoshutoResult;
use crate::runnable::JoshutoRunnable;
use crate::tab::SortOption;
use crate::selection::{select_step, SelectFiles};
use crate::tab_operations::{close_tab_outcome, switched_index, tab_switch, CloseTab, NewTab};

verus! {

/// The commands carried out on the state alone; the others read or change
/// the filesystem or the terminal and are carried out by the caller.
pub open spec fn acts_on_state(c: CommandView) -> bool {
    match c {
        CommandView::CloseTab | CommandView::CursorMoveDown(_) | CommandView::CursorMoveEnd
        | CommandView::CursorMoveHome | CommandView::CursorMoveUp(_) | CommandView::ForceQuit
        | CommandView::NewTab | CommandView::Quit | CommandView::ReloadDirList
        | CommandView::SelectFiles { .. } | CommandView::Sort(_) | CommandView::SortReverse
        | CommandView::TabSwitch(_) | CommandView::ToggleHiddenFiles => true,
        _ => false,
    }
}

/// Where a cursor command leaves the cursor of a listing of `len` entries.
pub open spec fn cursor_after(c: CommandView, index: int, len: int) -> int {
    match c {
        CommandView::CursorMoveDown(n) => moved_down(index, n as int, len),
        CommandView::CursorMoveUp(n) => moved_up(index, n as int),
        CommandView::CursorMoveEnd => moved_down(index, usize::MAX as int, len),
        _ => moved_up(index, usize::MAX as int),
    }
}

/// A tab's display options after a sort or visibility command.
pub open spec fn options_after(c: CommandView, o: SortOption) -> SortOption {
    match c {
        CommandView::Sort(t) => SortOption { sort_method: t, ..o },
        CommandView::SortReverse => SortOption { reverse: !o.reverse, ..o },
        CommandView::ToggleHiddenFiles => SortOption { show_hidden: !o.show_hidden, ..o },
        _ => o,
    }
}

/// Moves the cursor of the current tab's listing down (or up) `n` entries.
fn move_cursor(context: &mut JoshutoContext, down: bool, n: usize)
    requires
        old(context).wf(),
        old(context).tabs@.len() > 0,
    ensures
        final(context).wf(),
        final(context).curr_tab_index == old(context).curr_tab_index,
        final(context).tabs@.len() == old(context).tabs@.len(),
        final(context).exit == old(context).exit,
        ({
            let before = old(context).tabs@[old(context).curr_tab_index as int].curr_list;
            let after = final(context).tabs@[final(context).curr_tab_index as int].curr_list;
            &&& after.contents@ == before.contents@
            &&& after.index as int == if down {
                moved_down(before.index as int, n as int, before.contents@.len() as int)
            } else {
                moved_up(before.index as int, n as int)
            }
        }),
{
    let i = context.curr_tab_index;
    let mut tab = context.tabs.remove(i);
    assert(tab.wf());
    if down {
        tab.curr_list.cursor_move_down(n);
    } else {
        tab.curr_list.cursor_move_up(n);
    }
    context.tabs.insert(i, tab);
    assert forall|k: int| 0 <= k < context.tabs@.len() implies (#[trigger] context.tabs@[k]).wf() by {
        if k != i {
            assert(context.tabs@[k] == old(context).tabs@[k]);
        }
    }
}

/// Changes the current tab's display options and marks its listing stale.
fn change_sort(context: &mut JoshutoContext, c: &Command)
    requires
        old(context).wf(),
        old(context).tabs@.len() > 0,
    ensures
        final(context).wf(),
        final(context).curr_tab_index == old(context).curr_tab_index,
        final(context).tabs@.len() == old(context).tabs@.len(),
        final(context).exit == old(context).exit,
        final(context).tabs@[final(context).curr_tab_index as int].curr_list.need_update,
        final(context).tabs@[final(context).curr_tab_index as int].sort_option
            == options_after(c@, old(context).tabs@[old(context).curr_tab_index as int].sort_option),
        final(context).tabs@[final(context).curr_tab_index as int].curr_path
            == old(context).tabs@[old(context).curr_tab_index as int].curr_path,
{
    let i = context.curr_tab_index;
    let mut tab = context.tabs.remove(i);
    assert(tab.wf());
    match c {
        Command::Sort(t) => {
            tab.sort_option.sort_method = *t;
        },
        Command::SortReverse => {
            tab.sort_option.reverse = !tab.sort_option.reverse;
        },
        Command::ToggleHiddenFiles => {
            tab.sort_option.show_hidden = !tab.sort_option.show_hidden;
        },
        _ => {},
    }
    tab.curr_list.set_stale();
    context.tabs.insert(i, tab);
    assert forall|k: int| 0 <= k < context.tabs@.len() implies (#[trigger] context.tabs@[k]).wf() by {
        if k != i {
            assert(context.tabs@[k] == old(context).tabs@[k]);
        }
    }
}

impl Command {
    /// Carries out a command that acts on the state alone and returns
    /// `Ok(true)`; for any other command nothing changes and the result is
    /// `Ok(false)`, the caller being the one to carry it out.
    pub fn execute(&self, context: &mut JoshutoContext) -> (r: JoshutoResult<bool>)
        requires
            old(context).wf(),
            old(context).tabs@.len() > 0,
            old(context).tabs@.len() < usize::MAX,
        ensures
            final(context).wf(),
            !acts_on_state(self@) ==> (r matches Ok(false)) && *final(context) == *old(context),
            acts_on_state(self@) ==> (r matches Ok(false)) == false,
            ({
                let before = old(context).tabs@[old(context).curr_tab_index as int].curr_list;
                let after = final(context).tabs@[final(context).curr_tab_index as int].curr_list;
                match self@ {
                    CommandView::CursorMoveDown(_) | CommandView::CursorMoveUp(_)
                    | CommandView::CursorMoveHome | CommandView::CursorMoveEnd => {
                        &&& r matches Ok(true)
                        &&& final(context).curr_tab_index == old(context).curr_tab_index
                        &&& after.contents@ == before.contents@
                        &&& after.index as int == cursor_after(self@, before.index as int, before.contents@.len() as int)
                    },
                    CommandView::SelectFiles { toggle, all } => {
                        &&& r matches Ok(true)
                        &&& final(context).curr_tab_index == old(context).curr_tab_index
                        &&& (after.contents@, after.index as int) == select_step(toggle, all, before.contents@, before.index as int)
                    },
                    CommandView::Quit => quit_outcome(*old(context), *final(context), r is Ok),
                    CommandView::CloseTab => close_tab_outcome(*old(context), *final(context), r is Ok),
                    CommandView::ForceQuit => (r matches Ok(true)) && final(context).exit,
                    CommandView::TabSwitch(n) => (r matches Ok(true)) && final(context).curr_tab_index as int
                        == switched_index(old(context).curr_tab_index as int, n, old(context).tabs@.len() as int),
                    CommandView::NewTab => (r matches Ok(true)) && final(context).tabs@.len() == old(context).tabs@.len() + 1
                        && final(context).curr_tab_index == old(context).tabs@.len(),
                    CommandView::ReloadDirList | CommandView::Sort(_) | CommandView::SortReverse
                    | CommandView::ToggleHiddenFiles => {
                        &&& r matches Ok(true)
                        &&& after.need_update
                        &&& final(context).curr_tab_index == old(context).curr_tab_index
                        &&& final(context).tabs@[final(context).curr_tab_index as int].sort_option
                            == options_after(self@, old(context).tabs@[old(context).curr_tab_index as int].sort_option)
                    },
                    _ => true,
                }
            }),
    {
        match self {
            Command::CursorMoveDown(n) => {
                move_cursor(context, true, *n);
                Ok(true)
            },
            Command::CursorMoveUp(n) => {
                move_cursor(context, false, *n);
                Ok(true)
            },
            Command::CursorMoveEnd => {
                move_cursor(context, true, usize::MAX);
                Ok(true)
            },
            Command::CursorMoveHome => {
                move_cursor(context, false, usize::MAX);
                Ok(true)
            },
            Command::SelectFiles { toggle, all } => {
                let s = SelectFiles::new(*toggle, *all);
                match s.execute(context) {
                    Ok(()) => Ok(true),
                    Err(e) => Err(e),
                }
            },
            Command::Quit => match context.quit() {
                Ok(()) => Ok(true),
                Err(e) => Err(e),
            },
            Command::CloseTab => match CloseTab::close_tab(context) {
                Ok(()) => Ok(true),
                Err(e) => Err(e),
            },
            Command::ForceQuit => {
                context.exit = true;
                Ok(true)
            },
            Command::TabSwitch(n) => {
                tab_switch(context, *n);
                Ok(true)
            },
            Command::NewTab => match NewTab::new_tab(context) {
                Ok(()) => Ok(true),
                Err(e) => Err(e),
            },
            Command::ReloadDirList | Command::Sort(_) | Command::SortReverse | Command::ToggleHiddenFiles => {
                change_sort(context, self);
                Ok(true)
            },
            _ => Ok(false),
        }
    }
}

} // verus!
