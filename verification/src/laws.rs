use vstd::prelude::*;
use crate::entry::EntryModel;
use crate::pane::has_entry_with_path;
use crate::paths::parent_of_spec;
use crate::nav::{
    NavModel, lemma_first_with_path_exists, spec_ascend, spec_descend, spec_move_down,
    spec_move_up, spec_startup,
};

verus! {

/// Invariants at startup. Index bounds hold in every pane; the current
/// and preview cursors rest on the first entry; the ancestor pane is
/// empty exactly when the starting path has no parent, and its
/// highlight sits on the starting path whenever the parent's listing
/// still holds it; the preview is non-empty exactly when the first
/// current entry is a directory whose listing has at least one child.
pub proof fn lemma_startup_invariants(
    cursor_path: Seq<char>,
    cl: Seq<EntryModel>,
    al: Option<Seq<EntryModel>>,
    dl: Option<Seq<EntryModel>>,
)
    requires
        (al is Some) == (parent_of_spec(cursor_path) is Some),
        (dl is Some) == (cl.len() > 0 && cl[0].is_directory),
    ensures
        spec_startup(cursor_path, cl, al, dl).wf(),
        spec_startup(cursor_path, cl, al, dl).current.selected == 0,
        spec_startup(cursor_path, cl, al, dl).descendant.selected == 0,
        al is None ==> spec_startup(cursor_path, cl, al, dl).ancestor.is_empty(),
        (al matches Some(a) && has_entry_with_path(a, cursor_path)) ==> spec_startup(
            cursor_path,
            cl,
            al,
            dl,
        ).ancestor_consistent(),
        cl.len() > 0 ==> (!spec_startup(cursor_path, cl, al, dl).descendant.is_empty() <==> (
        cl[0].is_directory && (dl matches Some(l) && l.len() > 0))),
{
    match al {
        Some(a) => {
            if has_entry_with_path(a, cursor_path) {
                lemma_first_with_path_exists(a, cursor_path);
            }
        },
        None => {},
    }
}

/// Invariants across MoveDown. Index bounds hold in every pane of the
/// result; the ancestor pane and the cursor path do not move, so
/// ancestor consistency carries over; and the preview pane is
/// non-empty exactly when the new selection is a directory whose
/// handed-over listing has at least one child, in which case its
/// cursor sits on the first entry. `listing` is the fresh enumeration
/// of the entry the cursor lands on, handed over exactly when that
/// entry is a directory.
pub proof fn lemma_move_down_invariants(s: NavModel, listing: Option<Seq<EntryModel>>)
    requires
        s.wf(),
        (listing is Some) == (!s.current.is_empty()
            && s.current.entries[s.current.next_sel()].is_directory),
    ensures
        spec_move_down(s, listing).wf(),
        spec_move_down(s, listing).ancestor == s.ancestor,
        spec_move_down(s, listing).cursor_path == s.cursor_path,
        s.ancestor_consistent() ==> spec_move_down(s, listing).ancestor_consistent(),
        !s.current.is_empty() ==> (!spec_move_down(s, listing).descendant.is_empty() <==> (
        spec_move_down(s, listing).current.sel_entry().is_directory && (listing matches Some(l)
            && l.len() > 0))),
        !s.current.is_empty() ==> spec_move_down(s, listing).descendant.selected == 0,
{
}

/// Invariants across MoveUp: the mirror image of
/// `lemma_move_down_invariants`.
pub proof fn lemma_move_up_invariants(s: NavModel, listing: Option<Seq<EntryModel>>)
    requires
        s.wf(),
        (listing is Some) == (!s.current.is_empty()
            && s.current.entries[s.current.prev_sel()].is_directory),
    ensures
        spec_move_up(s, listing).wf(),
        spec_move_up(s, listing).ancestor == s.ancestor,
        spec_move_up(s, listing).cursor_path == s.cursor_path,
        s.ancestor_consistent() ==> spec_move_up(s, listing).ancestor_consistent(),
        !s.current.is_empty() ==> (!spec_move_up(s, listing).descendant.is_empty() <==> (
        spec_move_up(s, listing).current.sel_entry().is_directory && (listing matches Some(l)
            && l.len() > 0))),
        !s.current.is_empty() ==> spec_move_up(s, listing).descendant.selected == 0,
{
}

/// Whether Descend actually rotates: a non-empty current pane, a
/// directory under the cursor, and a probe listing with at least one
/// child.
pub open spec fn descend_acts(s: NavModel, probe: Option<Seq<EntryModel>>) -> bool {
    !s.current.is_empty() && s.current.sel_entry().is_directory && (probe matches Some(pr)
        && pr.len() > 0)
}

/// Invariants across Descend. Index bounds hold in every pane of the
/// result. When the rotation happens, the old current pane becomes the
/// ancestor with its cursor still on the entered directory, so
/// ancestor consistency holds outright; the new preview is non-empty
/// exactly when the new selection is a directory whose handed-over
/// listing has at least one child, with its cursor on the first entry.
pub proof fn lemma_descend_invariants(
    s: NavModel,
    probe: Option<Seq<EntryModel>>,
    next: Option<Seq<EntryModel>>,
)
    requires
        s.wf(),
        (next is Some) == ((probe matches Some(pr) && pr.len() > 0) && !s.descendant.is_empty()
            && s.descendant.sel_entry().is_directory),
    ensures
        spec_descend(s, probe, next).wf(),
        s.ancestor_consistent() ==> spec_descend(s, probe, next).ancestor_consistent(),
        descend_acts(s, probe) ==> spec_descend(s, probe, next).ancestor_consistent(),
        descend_acts(s, probe) ==> spec_descend(s, probe, next).cursor_path
            == s.current.sel_entry().path,
        descend_acts(s, probe) ==> (!spec_descend(s, probe, next).descendant.is_empty() <==> (
        !spec_descend(s, probe, next).current.is_empty() && spec_descend(
            s,
            probe,
            next,
        ).current.sel_entry().is_directory && (next matches Some(l) && l.len() > 0))),
        descend_acts(s, probe) ==> spec_descend(s, probe, next).descendant.selected == 0,
{
}

/// Invariants across Ascend. Index bounds hold in every pane of the
/// result. When the cursor path has a parent, the panes rotate
/// rightward and the parent becomes the cursor path; the fresh
/// ancestor pane is consistent whenever the grandparent listing still
/// holds the parent, and degrades to cursor position zero when a
/// concurrent filesystem change has removed it.
pub proof fn lemma_ascend_invariants(s: NavModel, grand: Option<Seq<EntryModel>>)
    requires
        s.wf(),
        (grand is Some) == (parent_of_spec(s.cursor_path) matches Some(p) && parent_of_spec(p)
            is Some),
    ensures
        spec_ascend(s, grand).wf(),
        parent_of_spec(s.cursor_path) is None ==> spec_ascend(s, grand) == s,
        parent_of_spec(s.cursor_path) matches Some(p) ==> {
            let s2 = spec_ascend(s, grand);
            &&& s2.cursor_path == p
            &&& s2.current == s.ancestor
            &&& s2.descendant == s.current
            &&& (parent_of_spec(p) is None ==> s2.ancestor.is_empty())
            &&& ((grand matches Some(g) && has_entry_with_path(g, p))
                ==> s2.ancestor_consistent())
            &&& ((grand matches Some(g) && !has_entry_with_path(g, p)) ==> s2.ancestor.selected
                == 0)
        },
{
    match parent_of_spec(s.cursor_path) {
        Some(p) => {
            match grand {
                Some(g) => {
                    if has_entry_with_path(g, p) {
                        lemma_first_with_path_exists(g, p);
                    }
                },
                None => {},
            }
        },
        None => {},
    }
}

/// Round trip: a Descend that rotates, followed immediately by Ascend,
/// restores the original cursor path and the original current pane —
/// listing and cursor position alike (selection memory). The two
/// enumeration hypotheses say only that the collaborator lists
/// children: the entered directory is a child of the old cursor path,
/// and the grandparent listing is handed over exactly when the old
/// cursor path has a parent.
pub proof fn lemma_descend_ascend_round_trip(
    s: NavModel,
    probe: Option<Seq<EntryModel>>,
    next: Option<Seq<EntryModel>>,
    grand: Option<Seq<EntryModel>>,
)
    requires
        s.wf(),
        descend_acts(s, probe),
        parent_of_spec(s.current.sel_entry().path) == Some(s.cursor_path),
        (grand is Some) == (parent_of_spec(s.cursor_path) is Some),
    ensures
        spec_ascend(spec_descend(s, probe, next), grand).cursor_path == s.cursor_path,
        spec_ascend(spec_descend(s, probe, next), grand).current == s.current,
{
}

/// Boundary no-op: Ascend at the filesystem root leaves the state
/// unchanged, by value.
pub proof fn lemma_ascend_root_no_op(s: NavModel, grand: Option<Seq<EntryModel>>)
    requires
        parent_of_spec(s.cursor_path) is None,
    ensures
        spec_ascend(s, grand) == s,
{
}

/// Boundary no-op: Descend on a file selection, in an empty current
/// pane, or into a directory whose listing shows no children leaves
/// the state unchanged, by value.
pub proof fn lemma_descend_no_op(
    s: NavModel,
    probe: Option<Seq<EntryModel>>,
    next: Option<Seq<EntryModel>>,
)
    requires
        !descend_acts(s, probe),
    ensures
        spec_descend(s, probe, next) == s,
{
}

} // verus!
