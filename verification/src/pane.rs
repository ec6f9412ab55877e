use vstd::prelude::*;
use crate::entry::{Entry, EntryModel};

verus! {

/// Mathematical model of a pane: the listing as a sequence of entry
/// models and the cursor position as an unbounded integer.
#[verifier::ext_equal]
pub ghost struct PaneModel {
    pub entries: Seq<EntryModel>,
    pub selected: int,
}

/// The model of a pane that shows nothing: no entries, cursor at zero.
pub open spec fn empty_pane() -> PaneModel {
    PaneModel { entries: Seq::empty(), selected: 0 }
}

/// Some entry of `s` has exactly the path `p`.
pub open spec fn has_entry_with_path(s: Seq<EntryModel>, p: Seq<char>) -> bool {
    exists|i: int| 0 <= i < s.len() && (#[trigger] s[i]).path == p
}

/// `i` is the first position of `s` whose entry has the path `p`.
pub open spec fn is_first_with_path(s: Seq<EntryModel>, p: Seq<char>, i: int) -> bool {
    &&& 0 <= i < s.len()
    &&& s[i].path == p
    &&& forall|j: int| 0 <= j < i ==> (#[trigger] s[j]).path != p
}

impl PaneModel {
    pub open spec fn is_empty(self) -> bool {
        self.entries.len() == 0
    }

    /// Well-formedness: the cursor indexes an entry whenever there is
    /// one, and rests at zero in an empty pane.
    pub open spec fn wf(self) -> bool {
        if self.entries.len() == 0 {
            self.selected == 0
        } else {
            0 <= self.selected < self.entries.len()
        }
    }

    /// The entry under the cursor (meaningful only when non-empty).
    pub open spec fn sel_entry(self) -> EntryModel {
        self.entries[self.selected]
    }

    /// Where the cursor lands after a step towards the end.
    pub open spec fn next_sel(self) -> int {
        if self.selected + 1 < self.entries.len() {
            self.selected + 1
        } else {
            self.selected
        }
    }

    /// Where the cursor lands after a step towards the start.
    pub open spec fn prev_sel(self) -> int {
        if self.selected > 0 {
            self.selected - 1
        } else {
            self.selected
        }
    }
}

/// One visual column: an ordered directory listing and a selection
/// cursor. A pane is replaced wholesale when the directory it shows
/// changes; only the cursor moves in place.
pub struct Pane {
    pub entries: Vec<Entry>,
    pub selected: usize,
}

impl View for Pane {
    type V = PaneModel;

    open spec fn view(&self) -> PaneModel {
        PaneModel { entries: self.entries.deep_view(), selected: self.selected as int }
    }
}

impl Pane {
    /// A pane that shows nothing.
    pub fn empty() -> (r: Pane)
        ensures
            r@ == empty_pane(),
    {
        let r = Pane { entries: Vec::new(), selected: 0 };
        proof {
            assert(r@ =~= empty_pane());
        }
        r
    }

    /// A freshly listed pane: the given entries with the cursor on the
    /// first of them.
    pub fn from_entries(entries: Vec<Entry>) -> (r: Pane)
        ensures
            r@ == (PaneModel { entries: entries.deep_view(), selected: 0 }),
    {
        Pane { entries, selected: 0 }
    }

    pub fn is_empty(&self) -> (r: bool)
        ensures
            r == self@.is_empty(),
    {
        self.entries.len() == 0
    }

    pub fn len(&self) -> (r: usize)
        ensures
            r == self@.entries.len(),
    {
        self.entries.len()
    }

    /// Moves the cursor one entry towards the end; a no-op on the last
    /// entry and in an empty pane. Never fails.
    pub fn select_next(&mut self)
        requires
            old(self)@.wf(),
        ensures
            final(self)@.entries == old(self)@.entries,
            final(self)@.selected == old(self)@.next_sel(),
            final(self)@.wf(),
    {
        let n: usize = self.entries.len();
        if self.selected + 1 < n {
            self.selected = self.selected + 1;
        }
    }

    /// Moves the cursor one entry towards the start; a no-op on the
    /// first entry and in an empty pane. Never fails.
    pub fn select_previous(&mut self)
        requires
            old(self)@.wf(),
        ensures
            final(self)@.entries == old(self)@.entries,
            final(self)@.selected == old(self)@.prev_sel(),
            final(self)@.wf(),
    {
        if self.selected > 0 {
            self.selected = self.selected - 1;
        }
    }

    /// The entry under the cursor. Callers must rule out an empty pane
    /// first: reading a selection from nothing is a contract violation,
    /// not a recoverable failure.
    pub fn current_entry(&self) -> (r: &Entry)
        requires
            self@.wf(),
            !self@.is_empty(),
        ensures
            r@ == self@.sel_entry(),
    {
        &self.entries[self.selected]
    }

    /// The path of the entry under the cursor, borrowed.
    pub fn current(&self) -> (r: &str)
        requires
            self@.wf(),
            !self@.is_empty(),
        ensures
            r@ == self@.sel_entry().path,
    {
        self.entries[self.selected].path.as_str()
    }

    /// The path of the entry under the cursor, as an owned string.
    pub fn current_path(&self) -> (r: String)
        requires
            self@.wf(),
            !self@.is_empty(),
        ensures
            r@ == self@.sel_entry().path,
    {
        self.entries[self.selected].path.clone()
    }

    /// Searches the listing for the entry with the given path; on a
    /// match, parks the cursor on the first such entry and reports
    /// success; otherwise leaves the cursor alone and reports failure.
    /// Used to resynchronize the ancestor pane's highlight after a
    /// directory change.
    pub fn locate(&mut self, path: &String) -> (found: bool)
        requires
            old(self)@.wf(),
        ensures
            final(self)@.entries == old(self)@.entries,
            found == has_entry_with_path(old(self)@.entries, path@),
            found ==> is_first_with_path(final(self)@.entries, path@, final(self)@.selected),
            !found ==> final(self)@.selected == old(self)@.selected,
            final(self)@.wf(),
    {
        let ghost entries = old(self)@.entries;
        let mut i: usize = 0;
        while i < self.entries.len()
            invariant
                0 <= i <= entries.len(),
                entries == old(self)@.entries,
                self@.entries == entries,
                self@.selected == old(self)@.selected,
                entries.len() == self.entries.len(),
                forall|j: int| 0 <= j < i ==> (#[trigger] entries[j]).path != path@,
            decreases self.entries.len() - i,
        {
            if self.entries[i].path == *path {
                self.selected = i;
                proof {
                    assert(entries[i as int].path == path@);
                }
                return true;
            }
            i = i + 1;
        }
        false
    }
}

} // verus!
