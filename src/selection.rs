//! Marking entries of the current listing.
use vstd::prelude::*;
use vstd::string::*;
use crate::column::{moved_down, toggled_at, with_selected, JoshutoColumn, JoshutoDirEntry};
use crate::command::{command_text, CommandView};
use crate::context::JoshutoContext;
use crate::error::JoshutoResult;
use crate::runnable::{JoshutoCommand, JoshutoRunnable};

verus! {

/// What `select_files` makes of a listing and its cursor. Without `all` the
/// entry under the cursor flips (`toggle`) or becomes selected, and the
/// cursor moves down one; with `all` every entry flips (`toggle`) or
/// becomes selected.
pub open spec fn select_step(toggle: bool, all: bool, s: Seq<JoshutoDirEntry>, index: int) -> (Seq<JoshutoDirEntry>, int) {
    if !all {
        if s.len() == 0 {
            (s, index)
        } else {
            (s.update(index, with_selected(s[index], if toggle { !s[index].selected } else { true })),
                moved_down(index, 1, s.len() as int))
        }
    } else {
        (Seq::new(s.len(), |k: int| with_selected(s[k], if toggle { !s[k].selected } else { true })), index)
    }
}

/// `select_step` with `--toggle` alone, `k` times over.
pub open spec fn toggle_down_repeated(s: Seq<JoshutoDirEntry>, index: int, k: nat) -> (Seq<JoshutoDirEntry>, int)
    decreases k,
{
    if k == 0 {
        (s, index)
    } else {
        let (s1, i1) = toggle_down_repeated(s, index, (k - 1) as nat);
        select_step(true, false, s1, i1)
    }
}

#[derive(Clone, Copy, Debug, PartialEq, Eq, Structural)]
pub struct SelectFiles {
    pub toggle: bool,
    pub all: bool,
}

impl SelectFiles {
    pub fn new(toggle: bool, all: bool) -> (r: Self)
        ensures
            r.toggle == toggle,
            r.all == all,
    {
        SelectFiles { toggle, all }
    }

    pub fn command() -> (r: &'static str)
        ensures
            r@ == "select_files"@,
    {
        "select_files"
    }

    /// Applies the selection to one listing, as `select_step` states.
    pub fn select_column(&self, col: &mut JoshutoColumn)
        requires
            old(col).wf(),
        ensures
            final(col).wf(),
            (final(col).contents@, final(col).index as int)
                == select_step(self.toggle, self.all, old(col).contents@, old(col).index as int),
            final(col).start_index == old(col).start_index,
            old(col).contents@.len() == 0 ==> *final(col) == *old(col),
            final(col).need_update == old(col).need_update,
            final(col).modified == old(col).modified,
    {
        if col.len() == 0 {
            return;
        }
        if !self.all {
            if col.len() > 0 {
                let now = if self.toggle { !col.contents[col.index].selected } else { true };
                col.set_curr(now);
                col.cursor_move_down(1);
            }
        } else {
            col.select_all(self.toggle, true);
            assert(col.contents@ =~= select_step(self.toggle, self.all, old(col).contents@, old(col).index as int).0);
        }
    }
}

impl JoshutoRunnable for SelectFiles {
    /// Applies the selection to the current tab's listing; the other tabs
    /// are left as they were.
    fn execute(&self, context: &mut JoshutoContext) -> (r: JoshutoResult<()>)
        ensures
            r is Ok,
            final(context).curr_tab_index == old(context).curr_tab_index,
            final(context).tabs@.len() == old(context).tabs@.len(),
            final(context).exit == old(context).exit,
            final(context).worker_queue == old(context).worker_queue,
            final(context).worker_busy == old(context).worker_busy,
            final(context).worker_msg == old(context).worker_msg,
            final(context).message_queue == old(context).message_queue,
            final(context).config_t == old(context).config_t,
            forall|k: int| 0 <= k < final(context).tabs@.len() && k != final(context).curr_tab_index
                ==> #[trigger] final(context).tabs@[k] == old(context).tabs@[k],
            ({
                let before = old(context).tabs@[old(context).curr_tab_index as int].curr_list;
                let after = final(context).tabs@[final(context).curr_tab_index as int].curr_list;
                let tb = old(context).tabs@[old(context).curr_tab_index as int];
                let ta = final(context).tabs@[final(context).curr_tab_index as int];
                &&& (after.contents@, after.index as int) == select_step(self.toggle, self.all, before.contents@, before.index as int)
                &&& ta.curr_path == tb.curr_path
                &&& ta.sort_option == tb.sort_option
                &&& after.start_index == before.start_index
                &&& after.need_update == before.need_update
                &&& after.modified == before.modified
                &&& (before.contents@.len() == 0 ==> ta == tb)
            }),
    {
        let i = context.curr_tab_index;
        let mut tab = context.tabs.remove(i);
        assert(tab.wf());
        self.select_column(&mut tab.curr_list);
        context.tabs.insert(i, tab);
        assert forall|k: int| 0 <= k < context.tabs@.len() implies (#[trigger] context.tabs@[k]).wf() by {
            if k != i {
                assert(context.tabs@[k] == old(context).tabs@[k]);
            }
        }
        Ok(())
    }
}

impl JoshutoCommand for SelectFiles {
    /// `select_files`, then `--toggle` and `--all` where set.
    fn command_string(&self) -> (r: String)
        ensures
            r@ == command_text(CommandView::SelectFiles { toggle: self.toggle, all: self.all }),
    {
        proof {
            reveal_strlit(" --toggle");
            reveal_strlit(" --all");
        }
        let mut s = String::from_str(Self::command());
        if self.toggle {
            s.append(" --toggle");
        }
        if self.all {
            s.append(" --all");
        }
        assert(s@ =~= command_text(CommandView::SelectFiles { toggle: self.toggle, all: self.all }));
        s
    }
}

/// Toggling down a listing of `n` unselected entries `n` times from the top
/// selects every entry exactly once and leaves the cursor on the last one.
pub proof fn lemma_toggle_down_selects_all(s: Seq<JoshutoDirEntry>)
    requires
        s.len() > 0,
        forall|k: int| 0 <= k < s.len() ==> !(#[trigger] s[k]).selected,
    ensures
        ({
            let (t, i) = toggle_down_repeated(s, 0, s.len());
            &&& i == s.len() - 1
            &&& t.len() == s.len()
            &&& forall|k: int| 0 <= k < s.len() ==> #[trigger] t[k] == with_selected(s[k], true)
        }),
{
    lemma_toggle_down_prefix(s, (s.len() - 1) as nat);
    let (t, i) = toggle_down_repeated(s, 0, (s.len() - 1) as nat);
    let (t2, i2) = toggle_down_repeated(s, 0, s.len());
    assert(t2 == toggled_at(t, i));
    assert forall|k: int| 0 <= k < s.len() implies #[trigger] t2[k] == with_selected(s[k], true) by {
        if k == s.len() - 1 {
            assert(t[k] == s[k]);
        }
    }
}

proof fn lemma_toggle_down_prefix(s: Seq<JoshutoDirEntry>, k: nat)
    requires
        k < s.len(),
        forall|j: int| 0 <= j < s.len() ==> !(#[trigger] s[j]).selected,
    ensures
        ({
            let (t, i) = toggle_down_repeated(s, 0, k);
            &&& i == k
            &&& t.len() == s.len()
            &&& forall|j: int| 0 <= j < k ==> #[trigger] t[j] == with_selected(s[j], true)
            &&& forall|j: int| k <= j < s.len() ==> #[trigger] t[j] == s[j]
        }),
    decreases k,
{
    if k > 0 {
        lemma_toggle_down_prefix(s, (k - 1) as nat);
        let (t, i) = toggle_down_repeated(s, 0, (k - 1) as nat);
        let (t2, i2) = toggle_down_repeated(s, 0, k);
        assert(t2 == toggled_at(t, i));
        assert forall|j: int| 0 <= j < k implies #[trigger] t2[j] == with_selected(s[j], true) by {
            if j == k - 1 {
                assert(t[j] == s[j]);
            }
        }
    }
}

} // verus!
