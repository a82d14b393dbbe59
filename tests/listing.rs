use joshuto::column::{FileKind, JoshutoDirEntry};
use joshuto::command::SortType;
use joshuto::listing::prepare_listing;
use joshuto::tab::{JoshutoTab, SortOption};

fn entry(name: &str, size: u64, modified: u64) -> JoshutoDirEntry {
    JoshutoDirEntry::new(name.to_string(), FileKind::File, size, 0o644, modified)
}

fn names(v: &[JoshutoDirEntry]) -> Vec<String> {
    v.iter().map(|e| e.name.clone()).collect()
}

fn raw() -> Vec<JoshutoDirEntry> {
    vec![entry("b", 5, 30), entry(".hidden", 1, 10), entry("a", 5, 20), entry("c", 1, 20), entry("ab", 9, 40)]
}

fn opt(sort_method: SortType, reverse: bool, show_hidden: bool) -> SortOption {
    SortOption { sort_method, reverse, show_hidden }
}

#[test]
fn lexical_order_hides_dot_files() {
    let l = prepare_listing(raw(), opt(SortType::Lexical, false, false));
    assert_eq!(names(&l), vec!["a", "ab", "b", "c"]);
}

#[test]
fn hidden_entries_shown_on_request() {
    let l = prepare_listing(raw(), opt(SortType::Lexical, false, true));
    assert_eq!(names(&l), vec![".hidden", "a", "ab", "b", "c"]);
}

#[test]
fn size_order_breaks_ties_by_name() {
    let l = prepare_listing(raw(), opt(SortType::Size, false, false));
    assert_eq!(names(&l), vec!["c", "a", "b", "ab"]);
}

#[test]
fn mtime_order_reversed() {
    let l = prepare_listing(raw(), opt(SortType::Mtime, true, false));
    assert_eq!(names(&l), vec!["ab", "b", "c", "a"]);
}

#[test]
fn empty_read_gives_empty_listing() {
    assert!(prepare_listing(Vec::new(), opt(SortType::Size, false, false)).is_empty());
}

#[test]
fn equal_names_are_all_kept() {
    let l = prepare_listing(vec![entry("x", 1, 1), entry("x", 1, 1)], opt(SortType::Lexical, false, false));
    assert_eq!(names(&l), vec!["x", "x"]);
}

#[test]
fn tab_reload_rebuilds_and_clamps() {
    let mut tab = JoshutoTab::new("/tmp".to_string(), opt(SortType::Lexical, false, false));
    assert!(tab.curr_list.need_update);
    tab.reload_dir_list(Ok(raw()), Some(7));
    assert_eq!(names(&tab.curr_list.contents), vec!["a", "ab", "b", "c"]);
    tab.curr_list.cursor_move_down(3);
    assert_eq!(tab.curr_list.index, 3);
    assert!(tab.curr_list.is_stale(8));
    tab.reload_dir_list(Ok(vec![entry("z", 0, 0), entry("y", 0, 0)]), Some(8));
    assert_eq!(names(&tab.curr_list.contents), vec!["y", "z"]);
    assert_eq!(tab.curr_list.index, 1);
    tab.reload_dir_list(Ok(Vec::new()), Some(9));
    assert_eq!(tab.curr_list.index, 0);
    assert!(tab.curr_list.contents.is_empty());
    tab.reload_dir_list(Err(()), None);
    assert_eq!(tab.curr_list.modified, 9);
}

#[test]
fn preview_is_set_and_cleared() {
    let mut tab = JoshutoTab::new("/tmp".to_string(), opt(SortType::Lexical, false, false));
    assert!(tab.child_list.is_none() && tab.parent_list.is_none());
    let preview = joshuto::column::JoshutoColumn::new(raw(), opt(SortType::Size, false, false), 3);
    tab.set_child_list(Some(preview));
    assert_eq!(names(&tab.child_list.as_ref().unwrap().contents), vec!["c", "a", "b", "ab"]);
    tab.set_child_list(None);
    assert!(tab.child_list.is_none());
}
