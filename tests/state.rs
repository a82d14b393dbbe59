use joshuto::column::{FileKind, JoshutoColumn, JoshutoDirEntry};
use joshuto::command::{parse_command, Options, SortType};
use joshuto::context::{IOWorkerJob, JobKind, JoshutoConfig, JoshutoContext};
use joshuto::error::JoshutoErrorKind;
use joshuto::layout::view_layout;
use joshuto::runnable::{JoshutoCommand, JoshutoRunnable};
use joshuto::selection::SelectFiles;
use joshuto::tab::{JoshutoTab, SortOption};
use joshuto::tab_operations::{tab_switch, CloseTab, NewTab};
use joshuto::worker::{plan_batch, CollisionAction};

fn entries(n: usize) -> Vec<JoshutoDirEntry> {
    (0..n)
        .map(|i| JoshutoDirEntry::new(format!("file{}", i), FileKind::File, i as u64, 0o644, 100))
        .collect()
}

fn sort_option() -> SortOption {
    SortOption { sort_method: SortType::Lexical, reverse: false, show_hidden: false }
}

fn tab_with(n: usize) -> JoshutoTab {
    let mut tab = JoshutoTab::new("/tmp".to_string(), sort_option());
    tab.curr_list = JoshutoColumn::new(entries(n), sort_option(), 100);
    tab
}

fn context_with(tabs: usize, entries_per_tab: usize) -> JoshutoContext {
    let mut ctx = JoshutoContext::new(JoshutoConfig { home_dir: Some("/home/user".to_string()), sort_option: sort_option() });
    for _ in 0..tabs {
        ctx.push_tab(tab_with(entries_per_tab));
    }
    ctx
}

fn job(name: &str) -> IOWorkerJob {
    IOWorkerJob {
        kind: JobKind::Copy,
        sources: vec![name.to_string()],
        dest: "/dest".to_string(),
        options: Options { overwrite: false, skip_exist: false },
        tab_index: 0,
    }
}

#[test]
fn cursor_move_down_by_count_and_by_default() {
    let mut ctx = context_with(1, 10);
    let c = parse_command("cursor_move_down 3", None).unwrap();
    assert_eq!(c.execute(&mut ctx).unwrap(), true);
    assert_eq!(ctx.curr_tab_ref().curr_list.index, 3);

    let mut ctx = context_with(1, 10);
    let c = parse_command("cursor_move_down", None).unwrap();
    c.execute(&mut ctx).unwrap();
    assert_eq!(ctx.curr_tab_ref().curr_list.index, 1);
}

#[test]
fn cursor_moves_clamp() {
    let mut ctx = context_with(1, 10);
    parse_command("cursor_move_down 50", None).unwrap().execute(&mut ctx).unwrap();
    assert_eq!(ctx.curr_tab_ref().curr_list.index, 9);
    parse_command("cursor_move_up 4", None).unwrap().execute(&mut ctx).unwrap();
    assert_eq!(ctx.curr_tab_ref().curr_list.index, 5);
    parse_command("cursor_move_up 40", None).unwrap().execute(&mut ctx).unwrap();
    assert_eq!(ctx.curr_tab_ref().curr_list.index, 0);
    parse_command("cursor_move_end", None).unwrap().execute(&mut ctx).unwrap();
    assert_eq!(ctx.curr_tab_ref().curr_list.index, 9);
    parse_command("cursor_move_home", None).unwrap().execute(&mut ctx).unwrap();
    assert_eq!(ctx.curr_tab_ref().curr_list.index, 0);

    let mut empty = context_with(1, 0);
    parse_command("cursor_move_down 3", None).unwrap().execute(&mut empty).unwrap();
    assert_eq!(empty.curr_tab_ref().curr_list.index, 0);
}

#[test]
fn toggle_down_selects_every_entry_once() {
    let n = 6;
    let mut ctx = context_with(1, n);
    let s = SelectFiles::new(true, false);
    for _ in 0..n {
        s.execute(&mut ctx).unwrap();
    }
    let col = &ctx.curr_tab_ref().curr_list;
    assert_eq!(col.index, n - 1);
    assert!(col.contents.iter().all(|e| e.selected));
}

#[test]
fn select_all_and_toggle_all() {
    let mut ctx = context_with(1, 4);
    SelectFiles::new(true, false).execute(&mut ctx).unwrap();
    SelectFiles::new(true, true).execute(&mut ctx).unwrap();
    let sel: Vec<bool> = ctx.curr_tab_ref().curr_list.contents.iter().map(|e| e.selected).collect();
    assert_eq!(sel, vec![false, true, true, true]);
    assert_eq!(ctx.curr_tab_ref().curr_list.index, 1);
    SelectFiles::new(false, true).execute(&mut ctx).unwrap();
    assert!(ctx.curr_tab_ref().curr_list.contents.iter().all(|e| e.selected));
    assert_eq!(SelectFiles::new(true, true).command_string(), "select_files --toggle --all");
    assert_eq!(SelectFiles::command(), "select_files");
}

#[test]
fn closing_last_tab_quits() {
    let mut ctx = context_with(1, 3);
    CloseTab::close_tab(&mut ctx).unwrap();
    assert!(ctx.exit);
    assert_eq!(ctx.tabs.len(), 1);

    let mut busy = context_with(1, 3);
    busy.add_new_worker(job("a"));
    assert!(busy.start_next_worker().is_some());
    let e = CloseTab::close_tab(&mut busy).unwrap_err();
    assert_eq!(e.kind, JoshutoErrorKind::WorkerBusy);
    assert!(!busy.exit);
    assert_eq!(busy.tabs.len(), 1);
    let e = busy.quit().unwrap_err();
    assert_eq!(e.kind, JoshutoErrorKind::WorkerBusy);
}

#[test]
fn closing_a_tab_selects_the_previous_one() {
    let mut ctx = context_with(3, 1);
    assert_eq!(ctx.curr_tab_index, 2);
    CloseTab::close_tab(&mut ctx).unwrap();
    assert_eq!(ctx.tabs.len(), 2);
    assert_eq!(ctx.curr_tab_index, 1);
    ctx.curr_tab_index = 0;
    CloseTab::new().execute(&mut ctx).unwrap();
    assert_eq!(ctx.tabs.len(), 1);
    assert_eq!(ctx.curr_tab_index, 0);
    assert!(!ctx.exit);
}

#[test]
fn new_tab_starts_at_home_and_stale() {
    let mut ctx = context_with(1, 2);
    NewTab::new_tab(&mut ctx).unwrap();
    assert_eq!(ctx.tabs.len(), 2);
    assert_eq!(ctx.curr_tab_index, 1);
    assert_eq!(ctx.curr_tab_ref().curr_path, "/home/user");
    assert!(ctx.curr_tab_ref().curr_list.need_update);

    let mut rootless = JoshutoContext::new(JoshutoConfig { home_dir: None, sort_option: sort_option() });
    NewTab::new().execute(&mut rootless).unwrap();
    assert_eq!(rootless.curr_tab_ref().curr_path, "/");
    assert_eq!(NewTab::command(), "new_tab");
    assert_eq!(CloseTab::new().command_string(), "close_tab");
}

#[test]
fn tab_switch_clamps() {
    let mut ctx = context_with(3, 1);
    ctx.curr_tab_index = 0;
    let c = parse_command("tab_switch -1", None).unwrap();
    c.execute(&mut ctx).unwrap();
    assert_eq!(ctx.curr_tab_index, 0);
    tab_switch(&mut ctx, 2);
    assert_eq!(ctx.curr_tab_index, 2);
    tab_switch(&mut ctx, i32::MAX);
    assert_eq!(ctx.curr_tab_index, 2);
    tab_switch(&mut ctx, i32::MIN);
    assert_eq!(ctx.curr_tab_index, 0);
    tab_switch(&mut ctx, 1);
    assert_eq!(ctx.curr_tab_index, 1);
}

#[test]
fn reload_rebuilds_and_clamps() {
    let mut col = JoshutoColumn::new(entries(5), sort_option(), 100);
    col.cursor_move_down(4);
    assert!(col.is_stale(101));
    assert!(!col.is_stale(100));
    col.update(Ok(entries(2)), Some(101));
    assert_eq!(col.len(), 2);
    assert_eq!(col.index, 1);
    assert!(!col.is_stale(101));
    col.update(Ok(Vec::new()), Some(102));
    assert_eq!(col.len(), 0);
    assert_eq!(col.index, 0);
    assert!(col.curr_entry().is_none());
}

#[test]
fn failed_reload_keeps_old_listing() {
    let mut col = JoshutoColumn::new(entries(3), sort_option(), 100);
    col.cursor_move_down(2);
    col.set_stale();
    assert!(col.is_stale(100));
    col.update(Err(()), None);
    assert_eq!(col.len(), 3);
    assert_eq!(col.index, 2);
    assert_eq!(col.modified, 100);
    assert!(!col.need_update);
    assert_eq!(col.curr_entry().unwrap().name, "file2");
}

#[test]
fn jobs_run_one_at_a_time_in_order() {
    let mut ctx = context_with(1, 1);
    ctx.add_new_worker(job("a"));
    ctx.add_new_worker(job("b"));
    let first = ctx.start_next_worker().unwrap();
    assert_eq!(first.sources, vec!["a".to_string()]);
    assert!(ctx.worker_busy);
    assert!(ctx.start_next_worker().is_none());
    assert_eq!(ctx.worker_queue.len(), 1);
    ctx.finish_worker("copied a".to_string(), 0);
    assert!(!ctx.worker_busy);
    assert!(ctx.curr_tab_ref().curr_list.need_update);
    let second = ctx.start_next_worker().unwrap();
    assert_eq!(second.sources, vec!["b".to_string()]);
    ctx.finish_worker("copied b".to_string(), 0);
    assert_eq!(ctx.message_queue.iter().cloned().collect::<Vec<_>>(), vec!["copied a".to_string(), "copied b".to_string()]);
    assert!(ctx.start_next_worker().is_none());
}

#[test]
fn collision_policy() {
    let exists = vec![false, true, false];
    let none = Options { overwrite: false, skip_exist: false };
    assert_eq!(plan_batch(none, &exists), Err(1));
    let skip = Options { overwrite: false, skip_exist: true };
    assert_eq!(plan_batch(skip, &exists), Ok(vec![CollisionAction::Proceed, CollisionAction::Skip, CollisionAction::Proceed]));
    let both = Options { overwrite: true, skip_exist: true };
    assert_eq!(plan_batch(both, &exists), Ok(vec![CollisionAction::Proceed, CollisionAction::Overwrite, CollisionAction::Proceed]));
    assert_eq!(plan_batch(none, &vec![false, false]), Ok(vec![CollisionAction::Proceed, CollisionAction::Proceed]));
}

#[test]
fn display_commands_mark_listing_stale() {
    let mut ctx = context_with(1, 2);
    parse_command("sort reverse", None).unwrap().execute(&mut ctx).unwrap();
    assert!(ctx.curr_tab_ref().sort_option.reverse);
    assert!(ctx.curr_tab_ref().curr_list.need_update);
    let mut ctx = context_with(1, 2);
    parse_command("toggle_hidden", None).unwrap().execute(&mut ctx).unwrap();
    assert!(ctx.curr_tab_ref().sort_option.show_hidden);
    parse_command("sort size", None).unwrap().execute(&mut ctx).unwrap();
    assert_eq!(ctx.curr_tab_ref().sort_option.sort_method, SortType::Size);
}

#[test]
fn filesystem_commands_are_left_to_the_caller() {
    let mut ctx = context_with(1, 2);
    assert_eq!(parse_command("delete_files", None).unwrap().execute(&mut ctx).unwrap(), false);
    assert_eq!(parse_command("force_quit", None).unwrap().execute(&mut ctx).unwrap(), true);
    assert!(ctx.exit);
}

#[test]
fn layout_of_an_80_by_24_terminal() {
    let l = view_layout(24, 80, (1, 3, 4), 1);
    assert_eq!((l.top_win.rows, l.top_win.cols, l.top_win.coords), (1, 80, (0, 0)));
    assert_eq!((l.left_win.rows, l.left_win.cols, l.left_win.coords), (22, 10, (1, 0)));
    assert_eq!((l.mid_win.rows, l.mid_win.cols, l.mid_win.coords), (22, 32, (1, 11)));
    assert_eq!((l.right_win.rows, l.right_win.cols, l.right_win.coords), (22, 32, (1, 44)));
    assert_eq!((l.bot_win.rows, l.bot_win.cols, l.bot_win.coords), (1, 80, (23, 0)));
    let r = view_layout(24, 80, (1, 3, 4), 0);
    assert_eq!(r.left_win.cols, 11);
}

#[test]
fn select_without_toggle_sets_the_flag() {
    let mut ctx = context_with(1, 3);
    SelectFiles::new(true, false).execute(&mut ctx).unwrap();
    ctx.curr_tab_mut().curr_list.cursor_move_up(1);
    SelectFiles::new(false, false).execute(&mut ctx).unwrap();
    let col = &ctx.curr_tab_ref().curr_list;
    assert!(col.contents[0].selected);
    assert_eq!(col.index, 1);
    parse_command("select_files", None).unwrap().execute(&mut ctx).unwrap();
    let sel: Vec<bool> = ctx.curr_tab_ref().curr_list.contents.iter().map(|e| e.selected).collect();
    assert_eq!(sel, vec![true, true, false]);
    assert_eq!(SelectFiles::new(false, false).command_string(), "select_files");
    assert_eq!(SelectFiles::new(true, false).command_string(), "select_files --toggle");
}

#[test]
fn select_on_empty_listing_changes_nothing() {
    let mut ctx = context_with(1, 0);
    SelectFiles::new(false, true).execute(&mut ctx).unwrap();
    SelectFiles::new(true, false).execute(&mut ctx).unwrap();
    assert_eq!(ctx.curr_tab_ref().curr_list.index, 0);
    assert_eq!(ctx.curr_tab_ref().curr_list.len(), 0);
}

#[test]
fn finishing_a_job_marks_its_own_tab_stale() {
    let mut ctx = context_with(2, 1);
    let mut j = job("a");
    j.tab_index = 0;
    ctx.add_new_worker(j);
    let started = ctx.start_next_worker().unwrap();
    ctx.finish_worker("done".to_string(), started.tab_index);
    assert!(ctx.tabs[0].curr_list.need_update);
    assert!(!ctx.tabs[1].curr_list.need_update);
}

#[test]
fn column_new_filters_and_orders() {
    let read = vec![
        JoshutoDirEntry::new("b".to_string(), FileKind::File, 1, 0, 0),
        JoshutoDirEntry::new(".a".to_string(), FileKind::File, 1, 0, 0),
        JoshutoDirEntry::new("a".to_string(), FileKind::Directory, 1, 0, 0),
    ];
    let col = JoshutoColumn::new(read, sort_option(), 5);
    let names: Vec<String> = col.contents.iter().map(|e| e.name.clone()).collect();
    assert_eq!(names, vec!["a".to_string(), "b".to_string()]);
    assert_eq!(col.index, 0);
    assert_eq!(col.modified, 5);
    assert!(!col.need_update);
}

#[test]
fn sort_commands_change_only_their_option() {
    let mut ctx = context_with(1, 2);
    parse_command("sort mtime", None).unwrap().execute(&mut ctx).unwrap();
    let o = ctx.curr_tab_ref().sort_option;
    assert_eq!(o, SortOption { sort_method: SortType::Mtime, reverse: false, show_hidden: false });
    parse_command("sort reverse", None).unwrap().execute(&mut ctx).unwrap();
    parse_command("toggle_hidden", None).unwrap().execute(&mut ctx).unwrap();
    let o = ctx.curr_tab_ref().sort_option;
    assert_eq!(o, SortOption { sort_method: SortType::Mtime, reverse: true, show_hidden: true });
}

#[test]
fn layout_of_a_one_row_terminal() {
    let l = view_layout(1, 14, (1, 3, 4), 0);
    assert_eq!(l.left_win.rows, -1);
    assert_eq!(l.bot_win.coords, (0, 0));
    assert_eq!(l.right_win.coords, (1, 8));
    let wide = view_layout(24, 70, (9, 0, 0), 1);
    assert_eq!(wide.left_win.cols, 89);
}
