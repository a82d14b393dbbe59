//! One directory listing: its entries in order, the cursor and the
//! timestamp that tells when the listing has gone stale.
use vstd::prelude::*;
use crate::listing::{ordered, prepare_listing, shown};
use crate::tab::SortOption;

verus! {

#[derive(Clone, Copy, Debug, PartialEq, Eq, Structural)]
pub enum FileKind {
    File,
    Directory,
    Symlink,
    Other,
}

/// One child of a directory, as it was when the directory was listed.
#[derive(Debug)]
pub struct JoshutoDirEntry {
    pub name: String,
    pub kind: FileKind,
    pub size: u64,
    pub permissions: u32,
    pub modified: u64,
    pub selected: bool,
    pub marked: bool,
}

impl JoshutoDirEntry {
    pub fn new(name: String, kind: FileKind, size: u64, permissions: u32, modified: u64) -> (r: Self)
        ensures
            r.name@ == name@,
            r.kind == kind,
            r.size == size,
            r.permissions == permissions,
            r.modified == modified,
            !r.selected,
            !r.marked,
    {
        JoshutoDirEntry { name, kind, size, permissions, modified, selected: false, marked: false }
    }

    pub fn is_selected(&self) -> (r: bool)
        ensures
            r == self.selected,
    {
        self.selected
    }

    pub fn set_selected(&mut self, selected: bool)
        ensures
            *final(self) == (JoshutoDirEntry { selected, ..*old(self) }),
    {
        self.selected = selected;
    }
}

/// The entry with its selection flag set to `selected`.
pub open spec fn with_selected(e: JoshutoDirEntry, selected: bool) -> JoshutoDirEntry {
    JoshutoDirEntry { selected, ..e }
}

/// The cursor brought into range for a listing of `len` entries.
pub open spec fn clamp_cursor(index: int, len: int) -> int {
    if len == 0 {
        0
    } else if index >= len {
        len - 1
    } else {
        index
    }
}

/// The entries with the one at `i` toggled.
pub open spec fn toggled_at(s: Seq<JoshutoDirEntry>, i: int) -> Seq<JoshutoDirEntry> {
    s.update(i, with_selected(s[i], !s[i].selected))
}

/// Where the cursor lands after moving down `n` entries in a listing of `len`.
pub open spec fn moved_down(index: int, n: int, len: int) -> int {
    if len == 0 { 0 } else if index + n >= len { len - 1 } else { index + n }
}

pub open spec fn moved_up(index: int, n: int) -> int {
    if index < n { 0 } else { index - n }
}

#[derive(Debug)]
pub struct JoshutoColumn {
    pub index: usize,
    pub start_index: usize,
    pub need_update: bool,
    pub modified: u64,
    pub contents: Vec<JoshutoDirEntry>,
}

impl JoshutoColumn {
    /// The cursor points at an entry, or at 0 in an empty listing.
    pub open spec fn wf(&self) -> bool {
        if self.contents@.len() == 0 { self.index == 0 } else { self.index < self.contents@.len() }
    }

    /// A column over a fresh read of a directory taken at time `modified`:
    /// the entries `sort_option` shows, in its order, cursor on the first.
    pub fn new(read: Vec<JoshutoDirEntry>, sort_option: SortOption, modified: u64) -> (r: Self)
        ensures
            r.wf(),
            r.contents@.to_multiset() == read@.filter(shown(sort_option)).to_multiset(),
            ordered(r.contents@, sort_option),
            r.index == 0,
            r.start_index == 0,
            !r.need_update,
            r.modified == modified,
    {
        let contents = prepare_listing(read, sort_option);
        JoshutoColumn { index: 0, start_index: 0, need_update: false, modified, contents }
    }

    /// A column not yet listed: it reads as stale.
    pub fn unloaded() -> (r: Self)
        ensures
            r.wf(),
            r.contents@.len() == 0,
            r.need_update,
    {
        JoshutoColumn { index: 0, start_index: 0, need_update: true, modified: 0, contents: Vec::new() }
    }

    pub fn len(&self) -> (r: usize)
        ensures
            r == self.contents@.len(),
    {
        self.contents.len()
    }

    /// Whether the listing must be read again, given the directory's
    /// modification time as it is now.
    pub fn is_stale(&self, current_modified: u64) -> (r: bool)
        ensures
            r == (self.need_update || self.modified != current_modified),
    {
        self.need_update || self.modified != current_modified
    }

    pub fn set_stale(&mut self)
        ensures
            *final(self) == (JoshutoColumn { need_update: true, ..*old(self) }),
    {
        self.need_update = true;
    }

    /// Takes a fresh listing in place of the old one. A listing that could not
    /// be read leaves the old entries and cursor; a new one replaces them all
    /// and the cursor is clamped into it. The timestamp is taken when known.
    pub fn update(&mut self, listing: Result<Vec<JoshutoDirEntry>, ()>, modified: Option<u64>)
        requires
            old(self).wf(),
        ensures
            final(self).wf(),
            !final(self).need_update,
            final(self).start_index == old(self).start_index,
            final(self).modified == match modified {
                Some(m) => m,
                None => old(self).modified,
            },
            match listing {
                Ok(l) => final(self).contents@ == l@ && final(self).index as int
                    == clamp_cursor(old(self).index as int, l@.len() as int),
                Err(_) => final(self).contents@ == old(self).contents@ && final(self).index
                    == old(self).index,
            },
    {
        self.need_update = false;
        match listing {
            Ok(l) => {
                self.contents = l;
                let len = self.contents.len();
                if len == 0 {
                    self.index = 0;
                } else if self.index >= len {
                    self.index = len - 1;
                }
            },
            Err(_) => {},
        }
        match modified {
            Some(m) => {
                self.modified = m;
            },
            None => {},
        }
    }

    pub fn curr_entry(&self) -> (r: Option<&JoshutoDirEntry>)
        requires
            self.wf(),
        ensures
            self.contents@.len() == 0 ==> r is None,
            self.contents@.len() > 0 ==> r == Some(&self.contents@[self.index as int]),
    {
        if self.contents.len() == 0 {
            None
        } else {
            Some(&self.contents[self.index])
        }
    }

    pub fn cursor_move_down(&mut self, n: usize)
        requires
            old(self).wf(),
        ensures
            final(self).start_index == old(self).start_index,
            final(self).wf(),
            final(self).index as int == moved_down(old(self).index as int, n as int, old(self).contents@.len() as int),
            final(self).contents@ == old(self).contents@,
            final(self).need_update == old(self).need_update,
            final(self).modified == old(self).modified,
    {
        let len = self.contents.len();
        if len == 0 {
            self.index = 0;
        } else if n >= len - self.index {
            self.index = len - 1;
        } else {
            self.index = self.index + n;
        }
    }

    pub fn cursor_move_up(&mut self, n: usize)
        requires
            old(self).wf(),
        ensures
            final(self).start_index == old(self).start_index,
            final(self).wf(),
            final(self).index as int == moved_up(old(self).index as int, n as int),
            final(self).contents@ == old(self).contents@,
            final(self).need_update == old(self).need_update,
            final(self).modified == old(self).modified,
    {
        if self.index < n {
            self.index = 0;
        } else {
            self.index = self.index - n;
        }
    }

    /// Flips the selection of the entry under the cursor, if there is one.
    pub fn toggle_curr(&mut self)
        requires
            old(self).wf(),
        ensures
            final(self).start_index == old(self).start_index,
            final(self).wf(),
            final(self).index == old(self).index,
            old(self).contents@.len() == 0 ==> final(self).contents@ == old(self).contents@,
            old(self).contents@.len() > 0 ==> final(self).contents@ == toggled_at(old(self).contents@, old(self).index as int),
            final(self).need_update == old(self).need_update,
            final(self).modified == old(self).modified,
    {
        if self.contents.len() > 0 {
            let i = self.index;
            let mut e = self.contents.remove(i);
            let s = !e.selected;
            e.set_selected(s);
            self.contents.insert(i, e);
            assert(self.contents@ =~= toggled_at(old(self).contents@, i as int));
        }
    }

    /// Sets the selection of the entry under the cursor, if there is one.
    pub fn set_curr(&mut self, selected: bool)
        requires
            old(self).wf(),
        ensures
            final(self).wf(),
            final(self).index == old(self).index,
            final(self).start_index == old(self).start_index,
            old(self).contents@.len() == 0 ==> final(self).contents@ == old(self).contents@,
            old(self).contents@.len() > 0 ==> final(self).contents@ == old(self).contents@.update(
                old(self).index as int,
                with_selected(old(self).contents@[old(self).index as int], selected),
            ),
            final(self).need_update == old(self).need_update,
            final(self).modified == old(self).modified,
    {
        if self.contents.len() > 0 {
            let i = self.index;
            let mut e = self.contents.remove(i);
            e.set_selected(selected);
            self.contents.insert(i, e);
            assert(self.contents@ =~= old(self).contents@.update(i as int, with_selected(old(self).contents@[i as int], selected)));
        }
    }

    /// Sets every entry's selection to `selected`, or flips each when `toggle`.
    pub fn select_all(&mut self, toggle: bool, selected: bool)
        requires
            old(self).wf(),
        ensures
            final(self).start_index == old(self).start_index,
            final(self).wf(),
            final(self).index == old(self).index,
            final(self).contents@.len() == old(self).contents@.len(),
            forall|k: int| 0 <= k < final(self).contents@.len() ==> #[trigger] final(self).contents@[k]
                == with_selected(old(self).contents@[k], if toggle { !old(self).contents@[k].selected } else { selected }),
            final(self).need_update == old(self).need_update,
            final(self).modified == old(self).modified,
    {
        let n = self.contents.len();
        let mut i: usize = 0;
        while i < n
            invariant
                n == old(self).contents@.len(),
                n == self.contents@.len(),
                i <= n,
                self.index == old(self).index,
                self.start_index == old(self).start_index,
                self.need_update == old(self).need_update,
                self.modified == old(self).modified,
                forall|k: int| 0 <= k < i ==> #[trigger] self.contents@[k]
                    == with_selected(old(self).contents@[k], if toggle { !old(self).contents@[k].selected } else { selected }),
                forall|k: int| i <= k < n ==> #[trigger] self.contents@[k] == old(self).contents@[k],
            decreases n - i,
        {
            let mut e = self.contents.remove(i);
            let s = if toggle { !e.selected } else { selected };
            e.set_selected(s);
            self.contents.insert(i, e);
            i = i + 1;
        }
    }
}

} // verus!
