//! A tab: the directory it shows, its listing, and its display options.
use vstd::prelude::*;
use crate::column::{clamp_cursor, JoshutoColumn, JoshutoDirEntry};
use crate::listing::{ordered, prepare_listing, shown};
use crate::command::SortType;

verus! {

/// How a tab orders and filters its listings.
#[derive(Clone, Copy, Debug, PartialEq, Eq, Structural)]
pub struct SortOption {
    pub sort_method: SortType,
    pub reverse: bool,
    pub show_hidden: bool,
}

#[derive(Debug)]
pub struct JoshutoTab {
    pub curr_path: String,
    /// The listing of the parent directory, where there is one.
    pub parent_list: Option<JoshutoColumn>,
    pub curr_list: JoshutoColumn,
    /// The preview of the directory under the cursor, once it is read.
    pub child_list: Option<JoshutoColumn>,
    pub sort_option: SortOption,
}

impl JoshutoTab {
    pub open spec fn wf(&self) -> bool {
        &&& self.curr_list.wf()
        &&& self.parent_list matches Some(p) ==> p.wf()
        &&& self.child_list matches Some(c) ==> c.wf()
    }

    /// A tab at `path` whose listing is still to be read: it starts stale,
    /// so the next refresh lists the directory.
    pub fn new(path: String, sort_option: SortOption) -> (r: Self)
        ensures
            r.wf(),
            r.curr_path@ == path@,
            r.sort_option == sort_option,
            r.curr_list.need_update,
            r.curr_list.contents@.len() == 0,
            r.parent_list is None,
            r.child_list is None,
    {
        JoshutoTab { curr_path: path, parent_list: None, curr_list: JoshutoColumn::unloaded(), child_list: None, sort_option }
    }

    /// Takes a fresh read of the tab's directory: the whole listing is
    /// rebuilt from it under the tab's options and the cursor clamped into
    /// it, however far it shrank. A failed read keeps the old listing.
    pub fn reload_dir_list(&mut self, read: Result<Vec<JoshutoDirEntry>, ()>, modified: Option<u64>)
        requires
            old(self).wf(),
        ensures
            final(self).wf(),
            !final(self).curr_list.need_update,
            final(self).sort_option == old(self).sort_option,
            final(self).curr_path == old(self).curr_path,
            final(self).parent_list == old(self).parent_list,
            final(self).child_list == old(self).child_list,
            match read {
                Ok(entries) => {
                    &&& final(self).curr_list.contents@.to_multiset()
                        == entries@.filter(shown(old(self).sort_option)).to_multiset()
                    &&& ordered(final(self).curr_list.contents@, old(self).sort_option)
                    &&& final(self).curr_list.index as int == clamp_cursor(
                        old(self).curr_list.index as int,
                        final(self).curr_list.contents@.len() as int,
                    )
                },
                Err(_) => final(self).curr_list.contents@ == old(self).curr_list.contents@
                    && final(self).curr_list.index == old(self).curr_list.index,
            },
    {
        let listing = match read {
            Ok(entries) => Ok(prepare_listing(entries, self.sort_option)),
            Err(()) => Err(()),
        };
        self.curr_list.update(listing, modified);
    }

    /// Shows `preview` as the listing of the entry under the cursor, or no
    /// preview at all.
    pub fn set_child_list(&mut self, preview: Option<JoshutoColumn>)
        requires
            old(self).wf(),
            preview matches Some(c) ==> c.wf(),
        ensures
            final(self).wf(),
            final(self).child_list == preview,
            final(self).curr_list == old(self).curr_list,
            final(self).parent_list == old(self).parent_list,
            final(self).curr_path == old(self).curr_path,
            final(self).sort_option == old(self).sort_option,
    {
        self.child_list = preview;
    }
}

} // verus!
