use joshuto::command::{parse_command, Command, CommandKeybind, Options, SortType};
use joshuto::error::JoshutoErrorKind;
use joshuto::number::{decimal_string, int_string, parse_i32, parse_usize, IntErrorKind};
use joshuto::text::{split_command_line, split_whitespace};

fn kind_of(s: &str) -> JoshutoErrorKind {
    match parse_command(s, Some("/home/user")) {
        Ok(c) => panic!("expected an error for {:?}, got {:?}", s, c),
        Err(e) => e.kind,
    }
}

fn text_of(s: &str) -> String {
    parse_command(s, Some("/home/user")).unwrap().command_string()
}

#[test]
fn canonical_lines_read_back() {
    let lines = [
        "bulk_rename",
        "cd /tmp/some dir",
        "cd ..",
        "close_tab",
        "console",
        "console rename ",
        "copy_files",
        "cursor_move_down 3",
        "cursor_move_up 0",
        "cursor_move_end",
        "cursor_move_home",
        "cursor_move_page_up",
        "cursor_move_page_down",
        "cut_files",
        "delete_files",
        "force_quit",
        "mkdir new",
        "new_tab",
        "open_file",
        "open_file_with",
        "paste_files",
        "paste_files --overwrite",
        "paste_files --skip_exist",
        "paste_files --overwrite --skip_exist",
        "quit",
        "reload_dir_list",
        "rename a b.txt",
        "rename_append",
        "rename_prepend",
        "search foo",
        "search_next",
        "search_prev",
        "select_files",
        "select_files --toggle",
        "select_files --all",
        "select_files --toggle --all",
        "set_mode",
        "shell",
        "shell ls -l",
        "sort lexical",
        "sort mtime",
        "sort size",
        "sort reverse",
        "tab_switch -1",
        "tab_switch 2147483647",
        "tab_switch -2147483648",
        "toggle_hidden",
    ];
    for line in lines.iter() {
        assert_eq!(text_of(line), *line);
    }
}

#[test]
fn missing_arguments_are_invalid_data() {
    for line in ["mkdir", "rename", "search", "tab_switch", "mkdir ", "search   "].iter() {
        assert_eq!(kind_of(line), JoshutoErrorKind::IOInvalidData);
    }
}

#[test]
fn cursor_move_arguments() {
    assert!(matches!(parse_command("cursor_move_down 3", None).unwrap(), Command::CursorMoveDown(3)));
    assert!(matches!(parse_command("cursor_move_down", None).unwrap(), Command::CursorMoveDown(1)));
    assert!(matches!(parse_command("cursor_move_up", None).unwrap(), Command::CursorMoveUp(1)));
    assert!(matches!(parse_command("cursor_move_up +7", None).unwrap(), Command::CursorMoveUp(7)));
    assert_eq!(kind_of("cursor_move_down x"), JoshutoErrorKind::ParseError);
    assert_eq!(kind_of("cursor_move_up -1"), JoshutoErrorKind::ParseError);
    let e = parse_command("cursor_move_down abc", None).unwrap_err();
    assert_eq!(e.cause, "invalid digit found in string");
    let e = parse_command("cursor_move_down 99999999999999999999999", None).unwrap_err();
    assert_eq!(e.cause, "number too large to fit in target type");
    let e = parse_command("cursor_move_up -1", None).unwrap_err();
    assert_eq!(e.cause, "invalid digit found in string");
    let e = parse_command("tab_switch abc", None).unwrap_err();
    assert_eq!(e.cause, "tab_switch: invalid digit found in string");
}

#[test]
fn paste_flags_combine() {
    match parse_command("paste_files --overwrite --skip_exist", None).unwrap() {
        Command::PasteFiles(o) => assert_eq!(o, Options { overwrite: true, skip_exist: true }),
        c => panic!("unexpected {:?}", c),
    }
    match parse_command("paste_files   --skip_exist\t", None).unwrap() {
        Command::PasteFiles(o) => assert_eq!(o, Options { overwrite: false, skip_exist: true }),
        c => panic!("unexpected {:?}", c),
    }
    let e = parse_command("paste_files --overwrite --bogus", None).unwrap_err();
    assert_eq!(e.kind, JoshutoErrorKind::IOInvalidData);
    assert_eq!(e.cause, "paste_files: unknown option --bogus");
}

#[test]
fn select_flags() {
    assert!(matches!(
        parse_command("select_files --all --toggle", None).unwrap(),
        Command::SelectFiles { toggle: true, all: true }
    ));
    assert_eq!(kind_of("select_files --everything"), JoshutoErrorKind::IOInvalidData);
    let e = parse_command("select_files --all -x --y", None).unwrap_err();
    assert_eq!(e.cause, "select_files: unknown option -x");
}

#[test]
fn tab_switch_arguments() {
    assert_eq!(kind_of("tab_switch abc"), JoshutoErrorKind::ParseError);
    assert!(matches!(parse_command("tab_switch -1", None).unwrap(), Command::TabSwitch(-1)));
    assert_eq!(kind_of("tab_switch 2147483648"), JoshutoErrorKind::ParseError);
    let e = parse_command("tab_switch -2147483649", None).unwrap_err();
    assert_eq!(e.cause, "tab_switch: number too small to fit in target type");
}

#[test]
fn cd_forms() {
    match parse_command("cd", Some("/home/user")).unwrap() {
        Command::ChangeDirectory(p) => assert_eq!(p, "/home/user"),
        c => panic!("unexpected {:?}", c),
    }
    assert_eq!(parse_command("cd", None).unwrap_err().kind, JoshutoErrorKind::EnvVarNotPresent);
    assert!(matches!(parse_command("cd ..", None).unwrap(), Command::ParentDirectory));
    match parse_command("cd    /usr", None).unwrap() {
        Command::ChangeDirectory(p) => assert_eq!(p, "/usr"),
        c => panic!("unexpected {:?}", c),
    }
}

#[test]
fn sort_arguments() {
    assert!(matches!(parse_command("sort reverse", None).unwrap(), Command::SortReverse));
    assert!(matches!(parse_command("sort size", None).unwrap(), Command::Sort(SortType::Size)));
    let e = parse_command("sort colour", None).unwrap_err();
    assert_eq!(e.kind, JoshutoErrorKind::IOInvalidData);
    assert_eq!(e.cause, "sort: Unknown option colour");
}

#[test]
fn unknown_commands() {
    assert_eq!(kind_of("frobnicate"), JoshutoErrorKind::UnknownCommand);
    assert_eq!(kind_of(""), JoshutoErrorKind::UnknownCommand);
    assert_eq!(kind_of("Quit"), JoshutoErrorKind::UnknownCommand);
    assert_eq!(parse_command("frob x", None).unwrap_err().cause, "Unknown command: frob");
}

#[test]
fn commands_without_arguments_ignore_extra_text() {
    assert!(matches!(parse_command("quit now please", None).unwrap(), Command::Quit));
    assert_eq!(text_of("new_tab x"), "new_tab");
}

#[test]
fn line_splitting() {
    assert_eq!(split_command_line("cd  \u{3000}a b"), ("cd", "a b"));
    assert_eq!(split_command_line("quit"), ("quit", ""));
    assert_eq!(split_command_line(" x"), ("", "x"));
    assert_eq!(split_whitespace("  a\tbb \u{a0} c  "), vec!["a".to_string(), "bb".to_string(), "c".to_string()]);
    assert!(split_whitespace(" \n ").is_empty());
}

#[test]
fn integers() {
    assert_eq!(parse_usize("0"), Ok(0));
    assert_eq!(parse_usize("+12"), Ok(12));
    assert_eq!(parse_usize(""), Err(IntErrorKind::Empty));
    assert_eq!(parse_usize("+"), Err(IntErrorKind::InvalidDigit));
    assert_eq!(parse_usize("-3"), Err(IntErrorKind::InvalidDigit));
    assert_eq!(parse_usize("18446744073709551615"), Ok(usize::MAX));
    assert_eq!(parse_usize("18446744073709551616"), Err(IntErrorKind::PosOverflow));
    assert_eq!(parse_usize("99999999999999999999x"), Err(IntErrorKind::PosOverflow));
    assert_eq!(parse_i32("-2147483648"), Ok(i32::MIN));
    assert_eq!(parse_i32("-"), Err(IntErrorKind::InvalidDigit));
    assert_eq!(parse_i32("-2147483649"), Err(IntErrorKind::NegOverflow));
    assert_eq!(parse_i32("12a"), Err(IntErrorKind::InvalidDigit));
    assert_eq!(decimal_string(0), "0");
    assert_eq!(decimal_string(1234567890), "1234567890");
    assert_eq!(int_string(-45), "-45");
    assert_eq!(int_string(i32::MIN), "-2147483648");
}

#[test]
fn keybind_text() {
    let k = CommandKeybind::SimpleKeybind(Command::CursorMoveDown(2));
    assert_eq!(k.to_text(), "cursor_move_down 2");
    let nested = CommandKeybind::CompositeKeybind(vec![(103, CommandKeybind::SimpleKeybind(Command::CursorMoveHome))]);
    assert_eq!(nested.to_text(), "...");
}
