use miller_nav::entry::Entry;
use miller_nav::nav::{NavigationEvent, NavigationState, RawEvent, interpret_event};
use miller_nav::pane::Pane;
use miller_nav::paths::parent_of;

fn ent(path: &str, name: &str, is_directory: bool) -> Entry {
    Entry::new(path.to_string(), name.to_string(), is_directory)
}

/// Root has children alpha (directory) and beta (file); alpha has the
/// single child gamma (directory); gamma has no children.
fn start_at_root() -> NavigationState {
    let current = vec![ent("/alpha", "alpha", true), ent("/beta", "beta", false)];
    let descendant = vec![ent("/alpha/gamma", "gamma", true)];
    NavigationState::startup("/".to_string(), current, None, Some(descendant))
}

#[test]
fn startup_panes_are_consistent() {
    let s = start_at_root();
    assert_eq!(s.cursor_path, "/");
    assert_eq!(s.current.selected, 0);
    assert_eq!(s.current.entries.len(), 2);
    assert_eq!(s.current.entries[0].name, "alpha");
    assert!(s.ancestor.entries.is_empty());
    assert_eq!(s.descendant.entries.len(), 1);
    assert_eq!(s.descendant.selected, 0);
    assert_eq!(s.descendant.entries[0].name, "gamma");
}

#[test]
fn startup_locates_cursor_in_ancestor() {
    // Starting inside /alpha: the ancestor pane lists root's children
    // and must highlight alpha, whose path is the cursor path.
    let current = vec![ent("/alpha/gamma", "gamma", true)];
    let ancestor = vec![ent("/alpha", "alpha", true), ent("/beta", "beta", false)];
    let s = NavigationState::startup(
        "/alpha".to_string(),
        current,
        Some(ancestor),
        Some(vec![]),
    );
    assert_eq!(s.ancestor.selected, 0);
    assert_eq!(s.ancestor.entries[s.ancestor.selected].path, s.cursor_path);
}

#[test]
fn move_down_to_file_empties_preview() {
    // Scenario: root with alpha (dir) selected; MoveDown selects beta
    // (file) and the preview becomes empty.
    let mut s = start_at_root();
    let fetch = s.move_down_fetch_path();
    assert_eq!(fetch, None); // beta is a file: nothing to enumerate
    s.move_down(None);
    assert_eq!(s.current.selected, 1);
    assert_eq!(s.current.entries[1].name, "beta");
    assert!(s.descendant.entries.is_empty());
    assert_eq!(s.descendant.selected, 0);
    assert_eq!(s.cursor_path, "/");
}

#[test]
fn move_down_at_last_entry_keeps_selection() {
    let mut s = start_at_root();
    s.move_down(None);
    s.move_down(None);
    assert_eq!(s.current.selected, 1);
}

#[test]
fn move_up_back_to_directory_refills_preview() {
    let mut s = start_at_root();
    s.move_down(None);
    let fetch = s.move_up_fetch_path();
    assert_eq!(fetch, Some("/alpha".to_string()));
    s.move_up(Some(vec![ent("/alpha/gamma", "gamma", true)]));
    assert_eq!(s.current.selected, 0);
    assert_eq!(s.descendant.entries.len(), 1);
    assert_eq!(s.descendant.selected, 0);
}

#[test]
fn move_up_at_first_entry_keeps_selection() {
    let mut s = start_at_root();
    let fetch = s.move_up_fetch_path();
    assert_eq!(fetch, Some("/alpha".to_string()));
    s.move_up(Some(vec![ent("/alpha/gamma", "gamma", true)]));
    assert_eq!(s.current.selected, 0);
}

#[test]
fn moves_in_empty_directory_are_no_ops() {
    let mut s = NavigationState::startup("/".to_string(), vec![], None, None);
    s.move_down(None);
    assert!(s.current.entries.is_empty());
    assert_eq!(s.current.selected, 0);
    assert_eq!(s.cursor_path, "/");
    s.move_up(None);
    assert!(s.current.entries.is_empty());
    assert_eq!(s.current.selected, 0);
}

#[test]
fn descend_enters_selected_directory() {
    // Scenario: from root with alpha selected, Descend moves the cursor
    // path to /alpha, shows alpha's children, and the ancestor pane is
    // root's listing with alpha highlighted.
    let mut s = start_at_root();
    let probe_path = s.descend_probe_path();
    assert_eq!(probe_path, Some("/alpha".to_string()));
    let probe = vec![ent("/alpha/gamma", "gamma", true)];
    let next_path = s.descend_next_path(!probe.is_empty());
    assert_eq!(next_path, Some("/alpha/gamma".to_string()));
    s.descend(Some(probe), Some(vec![]));
    assert_eq!(s.cursor_path, "/alpha");
    assert_eq!(s.current.entries.len(), 1);
    assert_eq!(s.current.entries[0].name, "gamma");
    assert_eq!(s.ancestor.entries.len(), 2);
    assert_eq!(s.ancestor.selected, 0);
    assert_eq!(s.ancestor.entries[s.ancestor.selected].path, s.cursor_path);
    assert!(s.descendant.entries.is_empty()); // gamma has no children
}

#[test]
fn ascend_returns_to_parent_with_selection_restored() {
    // Scenario: descend into /alpha and come back; the cursor path is
    // the root again and the selection is on alpha as before.
    let mut s = start_at_root();
    s.descend(Some(vec![ent("/alpha/gamma", "gamma", true)]), Some(vec![]));
    assert_eq!(s.ascend_fetch_path(), None); // the parent is the root
    s.ascend(None);
    assert_eq!(s.cursor_path, "/");
    assert_eq!(s.current.selected, 0);
    assert_eq!(s.current.entries[0].name, "alpha");
    // the old current pane survives as the preview
    assert_eq!(s.descendant.entries.len(), 1);
    assert_eq!(s.descendant.entries[0].name, "gamma");
}

#[test]
fn descend_on_file_is_no_op() {
    let mut s = start_at_root();
    s.move_down(None); // select beta, a file
    assert_eq!(s.descend_probe_path(), None);
    s.descend(None, None);
    assert_eq!(s.cursor_path, "/");
    assert_eq!(s.current.selected, 1);
    assert_eq!(s.current.entries.len(), 2);
}

#[test]
fn descend_into_childless_directory_is_no_op() {
    // Scenario: the selected entry is a directory whose enumeration
    // shows no children; Descend changes nothing.
    let current = vec![ent("/delta", "delta", true)];
    let mut s = NavigationState::startup("/".to_string(), current, None, Some(vec![]));
    assert_eq!(s.descend_probe_path(), Some("/delta".to_string()));
    assert_eq!(s.descend_next_path(false), None);
    s.descend(Some(vec![]), None);
    assert_eq!(s.cursor_path, "/");
    assert_eq!(s.current.selected, 0);
    assert_eq!(s.current.entries.len(), 1);
    assert_eq!(s.current.entries[0].name, "delta");
    assert!(s.descendant.entries.is_empty());
}

#[test]
fn ascend_at_root_is_no_op() {
    let mut s = start_at_root();
    assert_eq!(s.ascend_fetch_path(), None);
    s.ascend(None);
    assert_eq!(s.cursor_path, "/");
    assert_eq!(s.current.selected, 0);
    assert_eq!(s.current.entries.len(), 2);
    assert_eq!(s.descendant.entries.len(), 1);
}

#[test]
fn ascend_two_levels_resynchronizes_ancestor() {
    // Start inside /alpha/gamma; ascending needs the grandparent's
    // listing (the root's children) and highlights /alpha in it.
    let current = vec![ent("/alpha/gamma/deep", "deep", false)];
    let ancestor = vec![ent("/alpha/gamma", "gamma", true)];
    let mut s = NavigationState::startup(
        "/alpha/gamma".to_string(),
        current,
        Some(ancestor),
        None,
    );
    assert_eq!(s.ascend_fetch_path(), Some("/".to_string()));
    let grand = vec![ent("/alpha", "alpha", true), ent("/beta", "beta", false)];
    s.ascend(Some(grand));
    assert_eq!(s.cursor_path, "/alpha");
    assert_eq!(s.ancestor.entries.len(), 2);
    assert_eq!(s.ancestor.selected, 0);
    assert_eq!(s.ancestor.entries[s.ancestor.selected].path, s.cursor_path);
    assert_eq!(s.current.entries[0].name, "gamma");
    assert_eq!(s.descendant.entries[0].name, "deep");
}

#[test]
fn ascend_after_concurrent_change_degrades_to_first_entry() {
    // The grandparent listing no longer holds the parent directory
    // (it changed on disk): the cursor degrades to the first entry.
    let current = vec![ent("/alpha/gamma/deep", "deep", false)];
    let ancestor = vec![ent("/alpha/gamma", "gamma", true)];
    let mut s = NavigationState::startup(
        "/alpha/gamma".to_string(),
        current,
        Some(ancestor),
        None,
    );
    let grand = vec![ent("/other", "other", true)];
    s.ascend(Some(grand));
    assert_eq!(s.cursor_path, "/alpha");
    assert_eq!(s.ancestor.selected, 0);
}

#[test]
fn pane_cursor_stays_in_bounds() {
    let mut p = Pane::from_entries(vec![
        ent("/a", "a", false),
        ent("/b", "b", false),
        ent("/c", "c", false),
    ]);
    p.select_previous();
    assert_eq!(p.selected, 0);
    p.select_next();
    p.select_next();
    p.select_next();
    assert_eq!(p.selected, 2);
    assert_eq!(p.current_path(), "/c");
    assert_eq!(p.current(), "/c");
    assert_eq!(p.current_entry().name, "c");
}

#[test]
fn locate_finds_first_match_or_leaves_cursor() {
    let mut p = Pane::from_entries(vec![
        ent("/a", "a", false),
        ent("/b", "b", true),
        ent("/b", "b-again", true),
    ]);
    assert!(p.locate(&"/b".to_string()));
    assert_eq!(p.selected, 1);
    assert!(!p.locate(&"/missing".to_string()));
    assert_eq!(p.selected, 1);
}

#[test]
fn parent_of_walks_towards_the_root() {
    assert_eq!(parent_of("/alpha/gamma"), Some("/alpha".to_string()));
    assert_eq!(parent_of("/alpha"), Some("/".to_string()));
    assert_eq!(parent_of("/"), None);
    assert_eq!(parent_of(""), None);
    assert_eq!(parent_of("plain"), None);
}

#[test]
fn events_map_to_navigation_actions() {
    assert!(matches!(
        interpret_event(&RawEvent::Up, false),
        Some(NavigationEvent::MoveUp)
    ));
    assert!(matches!(
        interpret_event(&RawEvent::Down, false),
        Some(NavigationEvent::MoveDown)
    ));
    assert!(matches!(
        interpret_event(&RawEvent::Left, false),
        Some(NavigationEvent::Ascend)
    ));
    assert!(matches!(
        interpret_event(&RawEvent::Right, false),
        Some(NavigationEvent::Descend)
    ));
    assert!(matches!(
        interpret_event(&RawEvent::Escape, false),
        Some(NavigationEvent::Quit)
    ));
    assert!(matches!(
        interpret_event(&RawEvent::Character('c'), true),
        Some(NavigationEvent::Quit)
    ));
    assert!(interpret_event(&RawEvent::Character('c'), false).is_none());
    assert!(interpret_event(&RawEvent::Character('x'), true).is_none());
}
