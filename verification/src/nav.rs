use vstd::prelude::*;
use crate::entry::{Entry, EntryModel};
use crate::pane::{Pane, PaneModel, empty_pane, has_entry_with_path, is_first_with_path};
use crate::paths::{parent_of, parent_of_spec};

verus! {

/// Raw input vocabulary handed over by the input collaborator.
pub enum RawEvent {
    Up,
    Down,
    Left,
    Right,
    Escape,
    Character(char),
}

/// The navigation events the state machine consumes, plus the request
/// to leave the loop.
pub enum NavigationEvent {
    MoveUp,
    MoveDown,
    Ascend,
    Descend,
    Quit,
}

/// Maps a raw input event (with the control-modifier flag) to a
/// navigation event: arrows move and rotate, escape and control-c quit,
/// anything else is ignored.
pub fn interpret_event(raw: &RawEvent, ctrl: bool) -> (r: Option<NavigationEvent>)
    ensures
        r == match raw {
            RawEvent::Up => Some(NavigationEvent::MoveUp),
            RawEvent::Down => Some(NavigationEvent::MoveDown),
            RawEvent::Left => Some(NavigationEvent::Ascend),
            RawEvent::Right => Some(NavigationEvent::Descend),
            RawEvent::Escape => Some(NavigationEvent::Quit),
            RawEvent::Character(c) => if *c == 'c' && ctrl {
                Some(NavigationEvent::Quit)
            } else {
                None::<NavigationEvent>
            },
        },
{
    match raw {
        RawEvent::Up => Some(NavigationEvent::MoveUp),
        RawEvent::Down => Some(NavigationEvent::MoveDown),
        RawEvent::Left => Some(NavigationEvent::Ascend),
        RawEvent::Right => Some(NavigationEvent::Descend),
        RawEvent::Escape => Some(NavigationEvent::Quit),
        RawEvent::Character(c) => if *c == 'c' && ctrl {
            Some(NavigationEvent::Quit)
        } else {
            None
        },
    }
}

/// Mathematical model of the whole navigation state: three pane models
/// and the path whose children fill the current pane.
#[verifier::ext_equal]
pub ghost struct NavModel {
    pub ancestor: PaneModel,
    pub current: PaneModel,
    pub descendant: PaneModel,
    pub cursor_path: Seq<char>,
}

impl NavModel {
    /// Index bounds on all three panes.
    pub open spec fn wf(self) -> bool {
        self.ancestor.wf() && self.current.wf() && self.descendant.wf()
    }

    /// Cross-pane consistency: whenever the ancestor pane shows
    /// anything, its highlight sits on the directory whose children
    /// fill the current pane.
    pub open spec fn ancestor_consistent(self) -> bool {
        !self.ancestor.is_empty() ==> self.ancestor.sel_entry().path == self.cursor_path
    }
}

/// The listings the collaborator hands over, lifted to the model.
pub open spec fn listing_model(o: Option<Vec<Entry>>) -> Option<Seq<EntryModel>> {
    match o {
        Some(v) => Some(v.deep_view()),
        None => None,
    }
}

/// The descendant pane after a refresh against the (new) current pane:
/// the freshly listed children of the selected entry when that entry is
/// a directory, the empty pane otherwise. A fresh listing always starts
/// with its cursor on the first entry.
pub open spec fn refreshed_descendant(cur: PaneModel, listing: Option<Seq<EntryModel>>) -> PaneModel {
    if !cur.is_empty() && cur.sel_entry().is_directory {
        match listing {
            Some(l) => PaneModel { entries: l, selected: 0 },
            None => empty_pane(),
        }
    } else {
        empty_pane()
    }
}

/// The cursor position `locate` leaves behind: the first entry whose
/// path is `p`, or zero when no entry matches (best effort after a
/// concurrent filesystem change).
pub open spec fn located_sel(entries: Seq<EntryModel>, p: Seq<char>) -> int {
    if has_entry_with_path(entries, p) {
        choose|i: int| is_first_with_path(entries, p, i)
    } else {
        0
    }
}

/// A freshly listed ancestor pane, resynchronized onto the path `p`.
pub open spec fn located_pane(entries: Seq<EntryModel>, p: Seq<char>) -> PaneModel {
    PaneModel { entries, selected: located_sel(entries, p) }
}

/// MoveDown: in a non-empty current pane, the cursor steps towards the
/// end and the descendant pane is refreshed against the new selection;
/// in an empty pane nothing changes.
pub open spec fn spec_move_down(s: NavModel, listing: Option<Seq<EntryModel>>) -> NavModel {
    if s.current.is_empty() {
        s
    } else {
        let cur = PaneModel { entries: s.current.entries, selected: s.current.next_sel() };
        NavModel {
            ancestor: s.ancestor,
            current: cur,
            descendant: refreshed_descendant(cur, listing),
            cursor_path: s.cursor_path,
        }
    }
}

/// MoveUp: symmetric to MoveDown, towards the start.
pub open spec fn spec_move_up(s: NavModel, listing: Option<Seq<EntryModel>>) -> NavModel {
    if s.current.is_empty() {
        s
    } else {
        let cur = PaneModel { entries: s.current.entries, selected: s.current.prev_sel() };
        NavModel {
            ancestor: s.ancestor,
            current: cur,
            descendant: refreshed_descendant(cur, listing),
            cursor_path: s.cursor_path,
        }
    }
}

/// Descend: when the selected entry is a directory whose fresh listing
/// `probe` is non-empty, the panes rotate leftward (current becomes
/// ancestor, descendant becomes current), the selected entry's path
/// becomes the cursor path, and the descendant is refreshed; otherwise
/// nothing changes.
pub open spec fn spec_descend(
    s: NavModel,
    probe: Option<Seq<EntryModel>>,
    next: Option<Seq<EntryModel>>,
) -> NavModel {
    if !s.current.is_empty() && s.current.sel_entry().is_directory && (probe matches Some(pr)
        && pr.len() > 0) {
        NavModel {
            ancestor: s.current,
            current: s.descendant,
            descendant: refreshed_descendant(s.descendant, next),
            cursor_path: s.current.sel_entry().path,
        }
    } else {
        s
    }
}

/// Ascend: when the cursor path has a parent, the panes rotate
/// rightward (current becomes descendant, ancestor becomes current),
/// the parent becomes the cursor path, and a new ancestor pane is
/// listed from the grandparent (when there is one) and resynchronized
/// onto the parent; at the filesystem root nothing changes.
pub open spec fn spec_ascend(s: NavModel, grand: Option<Seq<EntryModel>>) -> NavModel {
    match parent_of_spec(s.cursor_path) {
        None => s,
        Some(p) => NavModel {
            ancestor: match parent_of_spec(p) {
                None => empty_pane(),
                Some(_) => match grand {
                    Some(g) => located_pane(g, p),
                    None => empty_pane(),
                },
            },
            current: s.ancestor,
            descendant: s.current,
            cursor_path: p,
        },
    }
}

/// The state at startup, before any event: the current listing with the
/// cursor on its first entry, the parent listing resynchronized onto
/// the starting path, and the preview of the first entry.
pub open spec fn spec_startup(
    cursor_path: Seq<char>,
    cl: Seq<EntryModel>,
    al: Option<Seq<EntryModel>>,
    dl: Option<Seq<EntryModel>>,
) -> NavModel {
    let cur = PaneModel { entries: cl, selected: 0 };
    NavModel {
        ancestor: match al {
            Some(a) => located_pane(a, cursor_path),
            None => empty_pane(),
        },
        current: cur,
        descendant: refreshed_descendant(cur, dl),
        cursor_path,
    }
}

/// Three panes bound to fixed roles — parent listing, active listing,
/// preview of the highlighted entry — plus the path whose children fill
/// the current pane. Directory listings come in as plain arguments, so
/// each transition is verified for every listing the enumeration
/// collaborator could produce.
pub struct NavigationState {
    pub ancestor: Pane,
    pub current: Pane,
    pub descendant: Pane,
    pub cursor_path: String,
}

impl View for NavigationState {
    type V = NavModel;

    open spec fn view(&self) -> NavModel {
        NavModel {
            ancestor: self.ancestor@,
            current: self.current@,
            descendant: self.descendant@,
            cursor_path: self.cursor_path@,
        }
    }
}

/// Two first matches for the same path are the same position.
pub proof fn lemma_first_with_path_unique(s: Seq<EntryModel>, p: Seq<char>, i1: int, i2: int)
    requires
        is_first_with_path(s, p, i1),
        is_first_with_path(s, p, i2),
    ensures
        i1 == i2,
{
    if i1 < i2 {
        assert(s[i1].path != p);
    } else if i2 < i1 {
        assert(s[i2].path != p);
    }
}

/// Wherever some entry has the path, a first such entry exists.
pub proof fn lemma_first_with_path_exists(s: Seq<EntryModel>, p: Seq<char>)
    requires
        has_entry_with_path(s, p),
    ensures
        is_first_with_path(s, p, located_sel(s, p)),
    decreases s.len(),
{
    if s.len() > 0 && s[0].path == p {
        assert(is_first_with_path(s, p, 0));
    } else {
        let w = choose|i: int| 0 <= i < s.len() && (#[trigger] s[i]).path == p;
        let t = s.drop_first();
        assert(t[w - 1].path == p);
        assert(has_entry_with_path(t, p));
        lemma_first_with_path_exists(t, p);
        let i: int = choose|i: int| is_first_with_path(t, p, i);
        assert(forall|j: int| 0 <= j < i ==> (#[trigger] t[j]).path != p);
        assert(forall|j: int| 1 <= j < i + 1 ==> (#[trigger] s[j]).path == t[j - 1].path);
        assert(is_first_with_path(s, p, i + 1));
    }
    let c = located_sel(s, p);
    let ex = choose|i: int| is_first_with_path(s, p, i);
    lemma_first_with_path_unique(s, p, c, ex);
}

impl NavigationState {
    /// Builds the startup state. `current_listing` is the enumeration
    /// of `cursor_path`; `ancestor_listing` is the enumeration of its
    /// parent, handed over exactly when a parent exists;
    /// `descendant_listing` is the enumeration of the first current
    /// entry, handed over exactly when that entry is a directory.
    pub fn startup(
        cursor_path: String,
        current_listing: Vec<Entry>,
        ancestor_listing: Option<Vec<Entry>>,
        descendant_listing: Option<Vec<Entry>>,
    ) -> (r: NavigationState)
        requires
            (ancestor_listing is Some) == (parent_of_spec(cursor_path@) is Some),
            (descendant_listing is Some) == (current_listing.deep_view().len() > 0
                && current_listing.deep_view()[0].is_directory),
        ensures
            r@ == spec_startup(
                cursor_path@,
                current_listing.deep_view(),
                listing_model(ancestor_listing),
                listing_model(descendant_listing),
            ),
            r@.wf(),
    {
        let ghost cl = current_listing.deep_view();
        let ghost alm = listing_model(ancestor_listing);
        let ghost dlm = listing_model(descendant_listing);
        let current = Pane::from_entries(current_listing);
        let ancestor = match ancestor_listing {
            Some(v) => {
                let mut anc = Pane::from_entries(v);
                let found = anc.locate(&cursor_path);
                proof {
                    if found {
                        assert(is_first_with_path(
                            anc@.entries,
                            cursor_path@,
                            located_sel(anc@.entries, cursor_path@),
                        ));
                        lemma_first_with_path_unique(
                            anc@.entries,
                            cursor_path@,
                            anc@.selected,
                            located_sel(anc@.entries, cursor_path@),
                        );
                    }
                }
                anc
            },
            None => Pane::empty(),
        };
        let descendant = match descendant_listing {
            Some(v) => Pane::from_entries(v),
            None => Pane::empty(),
        };
        let r = NavigationState { ancestor, current, descendant, cursor_path };
        proof {
            assert(r@ =~= spec_startup(r.cursor_path@, cl, alm, dlm));
        }
        r
    }

    /// Replaces the preview pane against the current selection: the
    /// handed-over fresh listing when the selected entry is a
    /// directory, the empty pane otherwise.
    fn refresh_descendant(&mut self, listing: Option<Vec<Entry>>)
        requires
            old(self)@.current.wf(),
            (listing is Some) == (!old(self)@.current.is_empty()
                && old(self)@.current.sel_entry().is_directory),
        ensures
            final(self).ancestor == old(self).ancestor,
            final(self).current == old(self).current,
            final(self).cursor_path == old(self).cursor_path,
            final(self)@.descendant == refreshed_descendant(
                old(self)@.current,
                listing_model(listing),
            ),
    {
        match listing {
            Some(v) => {
                self.descendant = Pane::from_entries(v);
            },
            None => {
                self.descendant = Pane::empty();
            },
        }
    }

    /// MoveDown: selects the next sibling and refreshes the preview
    /// against the new selection. `listing` is the fresh enumeration of
    /// the entry the cursor lands on, handed over exactly when that
    /// entry is a directory. A no-op in an empty current pane.
    pub fn move_down(&mut self, listing: Option<Vec<Entry>>)
        requires
            old(self)@.wf(),
            (listing is Some) == (!old(self)@.current.is_empty()
                && old(self)@.current.entries[old(self)@.current.next_sel()].is_directory),
        ensures
            final(self)@ == spec_move_down(old(self)@, listing_model(listing)),
            final(self)@.wf(),
    {
        let ghost lm = listing_model(listing);
        if self.current.is_empty() {
            return;
        }
        self.current.select_next();
        self.refresh_descendant(listing);
        proof {
            assert(self@ =~= spec_move_down(old(self)@, lm));
        }
    }

    /// MoveUp: selects the previous sibling and refreshes the preview
    /// against the new selection. `listing` is the fresh enumeration of
    /// the entry the cursor lands on, handed over exactly when that
    /// entry is a directory. A no-op in an empty current pane.
    pub fn move_up(&mut self, listing: Option<Vec<Entry>>)
        requires
            old(self)@.wf(),
            (listing is Some) == (!old(self)@.current.is_empty()
                && old(self)@.current.entries[old(self)@.current.prev_sel()].is_directory),
        ensures
            final(self)@ == spec_move_up(old(self)@, listing_model(listing)),
            final(self)@.wf(),
    {
        let ghost lm = listing_model(listing);
        if self.current.is_empty() {
            return;
        }
        self.current.select_previous();
        self.refresh_descendant(listing);
        proof {
            assert(self@ =~= spec_move_up(old(self)@, lm));
        }
    }

    /// Descend: enters the selected subdirectory. `probe` is the fresh
    /// enumeration of the selected entry, handed over exactly when that
    /// entry is a directory; when it shows no children the event is a
    /// no-op. `next` is the fresh enumeration for the new preview,
    /// handed over exactly when the rotation will happen and the entry
    /// selected in the old preview is a directory.
    pub fn descend(&mut self, probe: Option<Vec<Entry>>, next: Option<Vec<Entry>>)
        requires
            old(self)@.wf(),
            (probe is Some) == (!old(self)@.current.is_empty()
                && old(self)@.current.sel_entry().is_directory),
            (next is Some) == ((probe matches Some(pr) && pr.deep_view().len() > 0)
                && !old(self)@.descendant.is_empty()
                && old(self)@.descendant.sel_entry().is_directory),
        ensures
            final(self)@ == spec_descend(
                old(self)@,
                listing_model(probe),
                listing_model(next),
            ),
            final(self)@.wf(),
    {
        let ghost pm = listing_model(probe);
        let ghost nm = listing_model(next);
        let pr = match probe {
            None => {
                return;
            },
            Some(pr) => pr,
        };
        if pr.is_empty() {
            return;
        }
        let new_cursor = self.current.current_path();
        core::mem::swap(&mut self.ancestor, &mut self.current);
        core::mem::swap(&mut self.current, &mut self.descendant);
        self.refresh_descendant(next);
        self.cursor_path = new_cursor;
        proof {
            assert(self@ =~= spec_descend(old(self)@, pm, nm));
        }
    }

    /// Ascend: returns to the parent directory. `grand` is the fresh
    /// enumeration of the grandparent, handed over exactly when both a
    /// parent and a grandparent exist; the new ancestor pane is
    /// resynchronized onto the parent. A no-op at the filesystem root.
    pub fn ascend(&mut self, grand: Option<Vec<Entry>>)
        requires
            old(self)@.wf(),
            (grand is Some) == (parent_of_spec(old(self)@.cursor_path) matches Some(p)
                && parent_of_spec(p) is Some),
        ensures
            final(self)@ == spec_ascend(old(self)@, listing_model(grand)),
            final(self)@.wf(),
    {
        let ghost gm = listing_model(grand);
        let p = match parent_of(self.cursor_path.as_str()) {
            None => {
                return;
            },
            Some(p) => p,
        };
        core::mem::swap(&mut self.descendant, &mut self.current);
        core::mem::swap(&mut self.current, &mut self.ancestor);
        let anc = match grand {
            Some(v) => {
                let mut a = Pane::from_entries(v);
                let found = a.locate(&p);
                proof {
                    if found {
                        assert(is_first_with_path(
                            a@.entries,
                            p@,
                            located_sel(a@.entries, p@),
                        ));
                        lemma_first_with_path_unique(
                            a@.entries,
                            p@,
                            a@.selected,
                            located_sel(a@.entries, p@),
                        );
                    }
                }
                a
            },
            None => Pane::empty(),
        };
        self.ancestor = anc;
        self.cursor_path = p;
        proof {
            assert(self@ =~= spec_ascend(old(self)@, gm));
        }
    }

    /// The path MoveDown will need freshly listed: the entry the cursor
    /// is about to land on, when that entry is a directory.
    pub fn move_down_fetch_path(&self) -> (r: Option<String>)
        requires
            self@.wf(),
        ensures
            (r is Some) == (!self@.current.is_empty()
                && self@.current.entries[self@.current.next_sel()].is_directory),
            r matches Some(p) ==> p@ == self@.current.entries[self@.current.next_sel()].path,
    {
        if self.current.is_empty() {
            return None;
        }
        let n: usize = self.current.len();
        let i: usize = if self.current.selected + 1 < n {
            self.current.selected + 1
        } else {
            self.current.selected
        };
        let e = &self.current.entries[i];
        if e.is_directory {
            Some(e.path.clone())
        } else {
            None
        }
    }

    /// The path MoveUp will need freshly listed: the entry the cursor
    /// is about to land on, when that entry is a directory.
    pub fn move_up_fetch_path(&self) -> (r: Option<String>)
        requires
            self@.wf(),
        ensures
            (r is Some) == (!self@.current.is_empty()
                && self@.current.entries[self@.current.prev_sel()].is_directory),
            r matches Some(p) ==> p@ == self@.current.entries[self@.current.prev_sel()].path,
    {
        if self.current.is_empty() {
            return None;
        }
        let i: usize = if self.current.selected > 0 {
            self.current.selected - 1
        } else {
            self.current.selected
        };
        let e = &self.current.entries[i];
        if e.is_directory {
            Some(e.path.clone())
        } else {
            None
        }
    }

    /// The path Descend will probe: the selected entry, when it is a
    /// directory.
    pub fn descend_probe_path(&self) -> (r: Option<String>)
        requires
            self@.wf(),
        ensures
            (r is Some) == (!self@.current.is_empty()
                && self@.current.sel_entry().is_directory),
            r matches Some(p) ==> p@ == self@.current.sel_entry().path,
    {
        if self.current.is_empty() {
            return None;
        }
        let e = self.current.current_entry();
        if e.is_directory {
            Some(e.path.clone())
        } else {
            None
        }
    }

    /// The path Descend will need listed for the new preview: the entry
    /// selected in the old preview pane, when the probe listing turned
    /// out non-empty and that entry is a directory.
    pub fn descend_next_path(&self, probe_has_entries: bool) -> (r: Option<String>)
        requires
            self@.wf(),
        ensures
            (r is Some) == (probe_has_entries && !self@.descendant.is_empty()
                && self@.descendant.sel_entry().is_directory),
            r matches Some(p) ==> p@ == self@.descendant.sel_entry().path,
    {
        if !probe_has_entries {
            return None;
        }
        if self.descendant.is_empty() {
            return None;
        }
        let e = self.descendant.current_entry();
        if e.is_directory {
            Some(e.path.clone())
        } else {
            None
        }
    }

    /// The path Ascend will need freshly listed: the grandparent of the
    /// cursor path, when both a parent and a grandparent exist.
    pub fn ascend_fetch_path(&self) -> (r: Option<String>)
        ensures
            (r is Some) == (parent_of_spec(self@.cursor_path) matches Some(p)
                && parent_of_spec(p) is Some),
            r matches Some(g) ==> (parent_of_spec(self@.cursor_path) matches Some(p)
                && parent_of_spec(p) == Some(g@)),
    {
        match parent_of(self.cursor_path.as_str()) {
            None => None,
            Some(p) => parent_of(p.as_str()),
        }
    }
}

} // verus!
