//! The law that ties the parser to the canonical text of commands.
use vstd::prelude::*;
use crate::command::{command_text, flag_text, paste_flags, parse_spec, select_flags, sort_type_name, with_arg, CommandView};
use crate::number::{decimal_of, int_text, lemma_int_text_reads_back, lemma_usize_text_reads_back};
use crate::text::{is_ws, lemma_tokens_single, lemma_tokens_word_then, non_ws_from, space_from, split_line, tokens, trim_start};

verus! {

pub open spec fn no_space(s: Seq<char>) -> bool {
    forall|k: int| 0 <= k < s.len() ==> s[k] != ' '
}

/// An argument that the parser reads back unchanged: empty, or not
/// starting with whitespace.
pub open spec fn arg_ok(a: Seq<char>) -> bool {
    a.len() == 0 || !is_ws(a[0])
}

/// The commands whose arguments are in the form the parser reads back.
pub open spec fn canonical(c: CommandView) -> bool {
    match c {
        CommandView::ChangeDirectory(p) => p.len() > 0 && arg_ok(p) && p != ".."@,
        CommandView::CommandLine(p) => arg_ok(p),
        CommandView::ShellCommand(p) => arg_ok(p),
        CommandView::NewDirectory(p) => p.len() > 0 && arg_ok(p),
        CommandView::RenameFile(p) => p.len() > 0 && arg_ok(p),
        CommandView::Search(p) => p.len() > 0 && arg_ok(p),
        CommandView::CursorMoveDown(n) => n <= usize::MAX,
        CommandView::CursorMoveUp(n) => n <= usize::MAX,
        CommandView::TabSwitch(n) => i32::MIN <= n <= i32::MAX,
        _ => true,
    }
}

proof fn lemma_space_from_none(s: Seq<char>, i: int)
    requires
        0 <= i <= s.len(),
        forall|k: int| i <= k < s.len() ==> s[k] != ' ',
    ensures
        space_from(s, i) == s.len(),
    decreases s.len() - i,
{
    if i < s.len() {
        lemma_space_from_none(s, i + 1);
    }
}

proof fn lemma_space_from_at(s: Seq<char>, i: int, j: int)
    requires
        0 <= i <= j < s.len(),
        s[j] == ' ',
        forall|k: int| i <= k < j ==> s[k] != ' ',
    ensures
        space_from(s, i) == j,
    decreases j - i,
{
    if i < j {
        lemma_space_from_at(s, i + 1, j);
    }
}

proof fn lemma_split_plain(name: Seq<char>)
    requires
        no_space(name),
    ensures
        split_line(name) == (name, Seq::<char>::empty()),
{
    lemma_space_from_none(name, 0);
}

proof fn lemma_split_arg(name: Seq<char>, arg: Seq<char>)
    requires
        no_space(name),
        arg_ok(arg),
    ensures
        split_line(with_arg(name, arg)) == (name, arg),
{
    let s = with_arg(name, arg);
    let n = name.len() as int;
    assert(s[n] == ' ');
    assert forall|k: int| 0 <= k < n implies s[k] != ' ' by {
        assert(s[k] == name[k]);
    }
    lemma_space_from_at(s, 0, n);
    assert(s.subrange(0, n) =~= name);
    assert(s.subrange(n + 1, s.len() as int) =~= arg);
    assert(non_ws_from(arg, 0) == 0);
    assert(trim_start(arg) =~= arg);
}

proof fn lemma_two_flags(name: Seq<char>, f1: Seq<char>, f2: Seq<char>, on1: bool, on2: bool)
    requires
        no_space(name),
        f1.len() > 0,
        f2.len() > 0,
        forall|k: int| 0 <= k < f1.len() ==> !is_ws(#[trigger] f1[k]),
        forall|k: int| 0 <= k < f2.len() ==> !is_ws(#[trigger] f2[k]),
    ensures
        ({
            let text = name + flag_text(on1, seq![' '] + f1) + flag_text(on2, seq![' '] + f2);
            &&& split_line(text).0 == name
            &&& tokens(split_line(text).1) == if on1 && on2 {
                seq![f1, f2]
            } else if on1 {
                seq![f1]
            } else if on2 {
                seq![f2]
            } else {
                Seq::<Seq<char>>::empty()
            }
        }),
{
    let text = name + flag_text(on1, seq![' '] + f1) + flag_text(on2, seq![' '] + f2);
    if on1 && on2 {
        let arg = f1 + seq![' '] + f2;
        assert(text =~= with_arg(name, arg));
        lemma_split_arg(name, arg);
        lemma_tokens_word_then(f1, f2);
        lemma_tokens_single(f2);
        assert(seq![f1] + seq![f2] =~= seq![f1, f2]);
    } else if on1 {
        assert(text =~= with_arg(name, f1));
        lemma_split_arg(name, f1);
        lemma_tokens_single(f1);
    } else if on2 {
        assert(text =~= with_arg(name, f2));
        lemma_split_arg(name, f2);
        lemma_tokens_single(f2);
    } else {
        assert(text =~= name);
        lemma_split_plain(name);
    }
}

/// The characters of each command name and fixed argument.
pub(crate) proof fn lemma_command_words()
    ensures
        "bulk_rename"@ == seq!['b', 'u', 'l', 'k', '_', 'r', 'e', 'n', 'a', 'm', 'e'],
        "cd"@ == seq!['c', 'd'],
        "close_tab"@ == seq!['c', 'l', 'o', 's', 'e', '_', 't', 'a', 'b'],
        "copy_files"@ == seq!['c', 'o', 'p', 'y', '_', 'f', 'i', 'l', 'e', 's'],
        "console"@ == seq!['c', 'o', 'n', 's', 'o', 'l', 'e'],
        "cursor_move_home"@ == seq!['c', 'u', 'r', 's', 'o', 'r', '_', 'm', 'o', 'v', 'e', '_', 'h', 'o', 'm', 'e'],
        "cursor_move_end"@ == seq!['c', 'u', 'r', 's', 'o', 'r', '_', 'm', 'o', 'v', 'e', '_', 'e', 'n', 'd'],
        "cursor_move_page_up"@ == seq!['c', 'u', 'r', 's', 'o', 'r', '_', 'm', 'o', 'v', 'e', '_', 'p', 'a', 'g', 'e', '_', 'u', 'p'],
        "cursor_move_page_down"@ == seq!['c', 'u', 'r', 's', 'o', 'r', '_', 'm', 'o', 'v', 'e', '_', 'p', 'a', 'g', 'e', '_', 'd', 'o', 'w', 'n'],
        "cursor_move_down"@ == seq!['c', 'u', 'r', 's', 'o', 'r', '_', 'm', 'o', 'v', 'e', '_', 'd', 'o', 'w', 'n'],
        "cursor_move_up"@ == seq!['c', 'u', 'r', 's', 'o', 'r', '_', 'm', 'o', 'v', 'e', '_', 'u', 'p'],
        "cut_files"@ == seq!['c', 'u', 't', '_', 'f', 'i', 'l', 'e', 's'],
        "delete_files"@ == seq!['d', 'e', 'l', 'e', 't', 'e', '_', 'f', 'i', 'l', 'e', 's'],
        "force_quit"@ == seq!['f', 'o', 'r', 'c', 'e', '_', 'q', 'u', 'i', 't'],
        "mkdir"@ == seq!['m', 'k', 'd', 'i', 'r'],
        "new_tab"@ == seq!['n', 'e', 'w', '_', 't', 'a', 'b'],
        "open_file"@ == seq!['o', 'p', 'e', 'n', '_', 'f', 'i', 'l', 'e'],
        "open_file_with"@ == seq!['o', 'p', 'e', 'n', '_', 'f', 'i', 'l', 'e', '_', 'w', 'i', 't', 'h'],
        "paste_files"@ == seq!['p', 'a', 's', 't', 'e', '_', 'f', 'i', 'l', 'e', 's'],
        "quit"@ == seq!['q', 'u', 'i', 't'],
        "reload_dir_list"@ == seq!['r', 'e', 'l', 'o', 'a', 'd', '_', 'd', 'i', 'r', '_', 'l', 'i', 's', 't'],
        "rename"@ == seq!['r', 'e', 'n', 'a', 'm', 'e'],
        "rename_append"@ == seq!['r', 'e', 'n', 'a', 'm', 'e', '_', 'a', 'p', 'p', 'e', 'n', 'd'],
        "rename_prepend"@ == seq!['r', 'e', 'n', 'a', 'm', 'e', '_', 'p', 'r', 'e', 'p', 'e', 'n', 'd'],
        "search"@ == seq!['s', 'e', 'a', 'r', 'c', 'h'],
        "search_next"@ == seq!['s', 'e', 'a', 'r', 'c', 'h', '_', 'n', 'e', 'x', 't'],
        "search_prev"@ == seq!['s', 'e', 'a', 'r', 'c', 'h', '_', 'p', 'r', 'e', 'v'],
        "select_files"@ == seq!['s', 'e', 'l', 'e', 'c', 't', '_', 'f', 'i', 'l', 'e', 's'],
        "set_mode"@ == seq!['s', 'e', 't', '_', 'm', 'o', 'd', 'e'],
        "shell"@ == seq!['s', 'h', 'e', 'l', 'l'],
        "sort"@ == seq!['s', 'o', 'r', 't'],
        "tab_switch"@ == seq!['t', 'a', 'b', '_', 's', 'w', 'i', 't', 'c', 'h'],
        "toggle_hidden"@ == seq!['t', 'o', 'g', 'g', 'l', 'e', '_', 'h', 'i', 'd', 'd', 'e', 'n'],
        ".."@ == seq!['.', '.'],
        "reverse"@ == seq!['r', 'e', 'v', 'e', 'r', 's', 'e'],
        "lexical"@ == seq!['l', 'e', 'x', 'i', 'c', 'a', 'l'],
        "mtime"@ == seq!['m', 't', 'i', 'm', 'e'],
        "size"@ == seq!['s', 'i', 'z', 'e'],
        " --overwrite"@ == seq![' ', '-', '-', 'o', 'v', 'e', 'r', 'w', 'r', 'i', 't', 'e'],
        " --skip_exist"@ == seq![' ', '-', '-', 's', 'k', 'i', 'p', '_', 'e', 'x', 'i', 's', 't'],
        " --toggle"@ == seq![' ', '-', '-', 't', 'o', 'g', 'g', 'l', 'e'],
        " --all"@ == seq![' ', '-', '-', 'a', 'l', 'l'],
        "--overwrite"@ == seq!['-', '-', 'o', 'v', 'e', 'r', 'w', 'r', 'i', 't', 'e'],
        "--skip_exist"@ == seq!['-', '-', 's', 'k', 'i', 'p', '_', 'e', 'x', 'i', 's', 't'],
        "--toggle"@ == seq!['-', '-', 't', 'o', 'g', 'g', 'l', 'e'],
        "--all"@ == seq!['-', '-', 'a', 'l', 'l'],
{
    reveal_strlit("bulk_rename");
    assert("bulk_rename"@ =~= seq!['b', 'u', 'l', 'k', '_', 'r', 'e', 'n', 'a', 'm', 'e']);
    reveal_strlit("cd");
    assert("cd"@ =~= seq!['c', 'd']);
    reveal_strlit("close_tab");
    assert("close_tab"@ =~= seq!['c', 'l', 'o', 's', 'e', '_', 't', 'a', 'b']);
    reveal_strlit("copy_files");
    assert("copy_files"@ =~= seq!['c', 'o', 'p', 'y', '_', 'f', 'i', 'l', 'e', 's']);
    reveal_strlit("console");
    assert("console"@ =~= seq!['c', 'o', 'n', 's', 'o', 'l', 'e']);
    reveal_strlit("cursor_move_home");
    assert("cursor_move_home"@ =~= seq!['c', 'u', 'r', 's', 'o', 'r', '_', 'm', 'o', 'v', 'e', '_', 'h', 'o', 'm', 'e']);
    reveal_strlit("cursor_move_end");
    assert("cursor_move_end"@ =~= seq!['c', 'u', 'r', 's', 'o', 'r', '_', 'm', 'o', 'v', 'e', '_', 'e', 'n', 'd']);
    reveal_strlit("cursor_move_page_up");
    assert("cursor_move_page_up"@ =~= seq!['c', 'u', 'r', 's', 'o', 'r', '_', 'm', 'o', 'v', 'e', '_', 'p', 'a', 'g', 'e', '_', 'u', 'p']);
    reveal_strlit("cursor_move_page_down");
    assert("cursor_move_page_down"@ =~= seq!['c', 'u', 'r', 's', 'o', 'r', '_', 'm', 'o', 'v', 'e', '_', 'p', 'a', 'g', 'e', '_', 'd', 'o', 'w', 'n']);
    reveal_strlit("cursor_move_down");
    assert("cursor_move_down"@ =~= seq!['c', 'u', 'r', 's', 'o', 'r', '_', 'm', 'o', 'v', 'e', '_', 'd', 'o', 'w', 'n']);
    reveal_strlit("cursor_move_up");
    assert("cursor_move_up"@ =~= seq!['c', 'u', 'r', 's', 'o', 'r', '_', 'm', 'o', 'v', 'e', '_', 'u', 'p']);
    reveal_strlit("cut_files");
    assert("cut_files"@ =~= seq!['c', 'u', 't', '_', 'f', 'i', 'l', 'e', 's']);
    reveal_strlit("delete_files");
    assert("delete_files"@ =~= seq!['d', 'e', 'l', 'e', 't', 'e', '_', 'f', 'i', 'l', 'e', 's']);
    reveal_strlit("force_quit");
    assert("force_quit"@ =~= seq!['f', 'o', 'r', 'c', 'e', '_', 'q', 'u', 'i', 't']);
    reveal_strlit("mkdir");
    assert("mkdir"@ =~= seq!['m', 'k', 'd', 'i', 'r']);
    reveal_strlit("new_tab");
    assert("new_tab"@ =~= seq!['n', 'e', 'w', '_', 't', 'a', 'b']);
    reveal_strlit("open_file");
    assert("open_file"@ =~= seq!['o', 'p', 'e', 'n', '_', 'f', 'i', 'l', 'e']);
    reveal_strlit("open_file_with");
    assert("open_file_with"@ =~= seq!['o', 'p', 'e', 'n', '_', 'f', 'i', 'l', 'e', '_', 'w', 'i', 't', 'h']);
    reveal_strlit("paste_files");
    assert("paste_files"@ =~= seq!['p', 'a', 's', 't', 'e', '_', 'f', 'i', 'l', 'e', 's']);
    reveal_strlit("quit");
    assert("quit"@ =~= seq!['q', 'u', 'i', 't']);
    reveal_strlit("reload_dir_list");
    assert("reload_dir_list"@ =~= seq!['r', 'e', 'l', 'o', 'a', 'd', '_', 'd', 'i', 'r', '_', 'l', 'i', 's', 't']);
    reveal_strlit("rename");
    assert("rename"@ =~= seq!['r', 'e', 'n', 'a', 'm', 'e']);
    reveal_strlit("rename_append");
    assert("rename_append"@ =~= seq!['r', 'e', 'n', 'a', 'm', 'e', '_', 'a', 'p', 'p', 'e', 'n', 'd']);
    reveal_strlit("rename_prepend");
    assert("rename_prepend"@ =~= seq!['r', 'e', 'n', 'a', 'm', 'e', '_', 'p', 'r', 'e', 'p', 'e', 'n', 'd']);
    reveal_strlit("search");
    assert("search"@ =~= seq!['s', 'e', 'a', 'r', 'c', 'h']);
    reveal_strlit("search_next");
    assert("search_next"@ =~= seq!['s', 'e', 'a', 'r', 'c', 'h', '_', 'n', 'e', 'x', 't']);
    reveal_strlit("search_prev");
    assert("search_prev"@ =~= seq!['s', 'e', 'a', 'r', 'c', 'h', '_', 'p', 'r', 'e', 'v']);
    reveal_strlit("select_files");
    assert("select_files"@ =~= seq!['s', 'e', 'l', 'e', 'c', 't', '_', 'f', 'i', 'l', 'e', 's']);
    reveal_strlit("set_mode");
    assert("set_mode"@ =~= seq!['s', 'e', 't', '_', 'm', 'o', 'd', 'e']);
    reveal_strlit("shell");
    assert("shell"@ =~= seq!['s', 'h', 'e', 'l', 'l']);
    reveal_strlit("sort");
    assert("sort"@ =~= seq!['s', 'o', 'r', 't']);
    reveal_strlit("tab_switch");
    assert("tab_switch"@ =~= seq!['t', 'a', 'b', '_', 's', 'w', 'i', 't', 'c', 'h']);
    reveal_strlit("toggle_hidden");
    assert("toggle_hidden"@ =~= seq!['t', 'o', 'g', 'g', 'l', 'e', '_', 'h', 'i', 'd', 'd', 'e', 'n']);
    reveal_strlit("..");
    assert(".."@ =~= seq!['.', '.']);
    reveal_strlit("reverse");
    assert("reverse"@ =~= seq!['r', 'e', 'v', 'e', 'r', 's', 'e']);
    reveal_strlit("lexical");
    assert("lexical"@ =~= seq!['l', 'e', 'x', 'i', 'c', 'a', 'l']);
    reveal_strlit("mtime");
    assert("mtime"@ =~= seq!['m', 't', 'i', 'm', 'e']);
    reveal_strlit("size");
    assert("size"@ =~= seq!['s', 'i', 'z', 'e']);
    reveal_strlit(" --overwrite");
    assert(" --overwrite"@ =~= seq![' ', '-', '-', 'o', 'v', 'e', 'r', 'w', 'r', 'i', 't', 'e']);
    reveal_strlit(" --skip_exist");
    assert(" --skip_exist"@ =~= seq![' ', '-', '-', 's', 'k', 'i', 'p', '_', 'e', 'x', 'i', 's', 't']);
    reveal_strlit(" --toggle");
    assert(" --toggle"@ =~= seq![' ', '-', '-', 't', 'o', 'g', 'g', 'l', 'e']);
    reveal_strlit(" --all");
    assert(" --all"@ =~= seq![' ', '-', '-', 'a', 'l', 'l']);
    reveal_strlit("--overwrite");
    assert("--overwrite"@ =~= seq!['-', '-', 'o', 'v', 'e', 'r', 'w', 'r', 'i', 't', 'e']);
    reveal_strlit("--skip_exist");
    assert("--skip_exist"@ =~= seq!['-', '-', 's', 'k', 'i', 'p', '_', 'e', 'x', 'i', 's', 't']);
    reveal_strlit("--toggle");
    assert("--toggle"@ =~= seq!['-', '-', 't', 'o', 'g', 'g', 'l', 'e']);
    reveal_strlit("--all");
    assert("--all"@ =~= seq!['-', '-', 'a', 'l', 'l']);
}

/// Reading back the canonical text of a command gives the command, so that
/// printing what was read gives the same text again.
#[verifier::rlimit(100)]
pub proof fn lemma_command_text_parses_back(c: CommandView, home: Option<Seq<char>>)
    requires
        canonical(c),
    ensures
        parse_spec(command_text(c), home) == Ok::<CommandView, crate::error::JoshutoErrorKind>(c),
        command_text(parse_spec(command_text(c), home)->Ok_0) == command_text(c),
{
    lemma_command_words();
    match c {
        CommandView::ChangeDirectory(p) => {
            lemma_split_arg("cd"@, p);
        },
        CommandView::CommandLine(p) => {
            if p.len() == 0 {
                lemma_split_plain("console"@);
                assert(p =~= Seq::<char>::empty());
            } else {
                lemma_split_arg("console"@, p);
            }
        },
        CommandView::ShellCommand(p) => {
            if p.len() == 0 {
                lemma_split_plain("shell"@);
                assert(p =~= Seq::<char>::empty());
            } else {
                lemma_split_arg("shell"@, p);
            }
        },
        CommandView::NewDirectory(p) => {
            lemma_split_arg("mkdir"@, p);
        },
        CommandView::RenameFile(p) => lemma_split_arg("rename"@, p),
        CommandView::Search(p) => {
            lemma_split_arg("search"@, p);
        },
        CommandView::CursorMoveDown(n) => {
            lemma_usize_text_reads_back(n as usize);
            lemma_split_arg("cursor_move_down"@, decimal_of(n));
        },
        CommandView::CursorMoveUp(n) => {
            lemma_usize_text_reads_back(n as usize);
            lemma_split_arg("cursor_move_up"@, decimal_of(n));
        },
        CommandView::TabSwitch(n) => {
            lemma_int_text_reads_back(n as i32);
            lemma_split_arg("tab_switch"@, int_text(n));
        },
        CommandView::ParentDirectory => {
            lemma_split_arg("cd"@, ".."@);
        },
        CommandView::Sort(t) => lemma_split_arg("sort"@, sort_type_name(t)),
        CommandView::SortReverse => {
            lemma_split_arg("sort"@, "reverse"@);
        },
        CommandView::PasteFiles(o) => {
            assert(" --overwrite"@ =~= seq![' '] + "--overwrite"@);
            assert(" --skip_exist"@ =~= seq![' '] + "--skip_exist"@);
            lemma_two_flags("paste_files"@, "--overwrite"@, "--skip_exist"@, o.overwrite, o.skip_exist);
            reveal_with_fuel(paste_flags, 3);
        },
        CommandView::SelectFiles { toggle, all } => {
            assert(" --toggle"@ =~= seq![' '] + "--toggle"@);
            assert(" --all"@ =~= seq![' '] + "--all"@);
            lemma_two_flags("select_files"@, "--toggle"@, "--all"@, toggle, all);
            reveal_with_fuel(select_flags, 3);
        },
        _ => {
            lemma_split_plain(command_text(c));
        },
    }
}

/// A command that needs an argument, given none, is refused as invalid data.
pub proof fn lemma_missing_argument_fails(s: Seq<char>, home: Option<Seq<char>>)
    requires
        split_line(s).0 == "mkdir"@ || split_line(s).0 == "rename"@ || split_line(s).0 == "search"@
            || split_line(s).0 == "tab_switch"@,
        split_line(s).1.len() == 0,
    ensures
        parse_spec(s, home) == Err::<CommandView, crate::error::JoshutoErrorKind>(crate::error::JoshutoErrorKind::IOInvalidData),
{
    lemma_command_words();
}

} // verus!
