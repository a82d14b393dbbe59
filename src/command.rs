//! The builtin commands: a closed set of variants, the parser that turns a
//! command line into one, and the canonical text of each.
use vstd::prelude::*;
use vstd::string::*;
use crate::error::{JoshutoError, JoshutoErrorKind, JoshutoResult};
use crate::number::{
    decimal_of, decimal_string, int_string, int_text, parse_i32, parse_i32_spec, parse_usize,
    parse_usize_spec, IntErrorKind,
};
use crate::round_trip::lemma_command_words;
use crate::text::{joined, split_command_line, split_line, split_whitespace, text_eq, tokens};

verus! {

/// The key a directory listing is ordered by.
#[derive(Clone, Copy, Debug, PartialEq, Eq, Structural)]
pub enum SortType {
    Lexical,
    Mtime,
    Size,
}

/// How a paste treats a destination that already exists.
#[derive(Clone, Copy, Debug, PartialEq, Eq, Structural)]
pub struct Options {
    pub overwrite: bool,
    pub skip_exist: bool,
}

/// A builtin command with its arguments.
#[derive(Debug)]
pub enum Command {
    BulkRename,
    ChangeDirectory(String),
    CloseTab,
    CommandLine(String),
    CopyFiles,
    CursorMoveDown(usize),
    CursorMoveEnd,
    CursorMoveHome,
    CursorMovePageDown,
    CursorMovePageUp,
    CursorMoveUp(usize),
    CutFiles,
    DeleteFiles,
    ForceQuit,
    NewDirectory(String),
    NewTab,
    OpenFile,
    OpenFileWith,
    ParentDirectory,
    PasteFiles(Options),
    Quit,
    ReloadDirList,
    RenameFile(String),
    RenameFileAppend,
    RenameFilePrepend,
    Search(String),
    SearchNext,
    SearchPrev,
    SelectFiles { toggle: bool, all: bool },
    SetMode,
    ShellCommand(String),
    Sort(SortType),
    SortReverse,
    TabSwitch(i32),
    ToggleHiddenFiles,
}

/// A command as a mathematical value: its text arguments as character sequences.
pub enum CommandView {
    BulkRename,
    ChangeDirectory(Seq<char>),
    CloseTab,
    CommandLine(Seq<char>),
    CopyFiles,
    CursorMoveDown(nat),
    CursorMoveEnd,
    CursorMoveHome,
    CursorMovePageDown,
    CursorMovePageUp,
    CursorMoveUp(nat),
    CutFiles,
    DeleteFiles,
    ForceQuit,
    NewDirectory(Seq<char>),
    NewTab,
    OpenFile,
    OpenFileWith,
    ParentDirectory,
    PasteFiles(Options),
    Quit,
    ReloadDirList,
    RenameFile(Seq<char>),
    RenameFileAppend,
    RenameFilePrepend,
    Search(Seq<char>),
    SearchNext,
    SearchPrev,
    SelectFiles { toggle: bool, all: bool },
    SetMode,
    ShellCommand(Seq<char>),
    Sort(SortType),
    SortReverse,
    TabSwitch(int),
    ToggleHiddenFiles,
}

impl View for Command {
    type V = CommandView;

    open spec fn view(&self) -> CommandView {
        match self {
            Command::BulkRename => CommandView::BulkRename,
            Command::ChangeDirectory(p) => CommandView::ChangeDirectory(p@),
            Command::CloseTab => CommandView::CloseTab,
            Command::CommandLine(p) => CommandView::CommandLine(p@),
            Command::CopyFiles => CommandView::CopyFiles,
            Command::CursorMoveDown(n) => CommandView::CursorMoveDown(*n as nat),
            Command::CursorMoveEnd => CommandView::CursorMoveEnd,
            Command::CursorMoveHome => CommandView::CursorMoveHome,
            Command::CursorMovePageDown => CommandView::CursorMovePageDown,
            Command::CursorMovePageUp => CommandView::CursorMovePageUp,
            Command::CursorMoveUp(n) => CommandView::CursorMoveUp(*n as nat),
            Command::CutFiles => CommandView::CutFiles,
            Command::DeleteFiles => CommandView::DeleteFiles,
            Command::ForceQuit => CommandView::ForceQuit,
            Command::NewDirectory(p) => CommandView::NewDirectory(p@),
            Command::NewTab => CommandView::NewTab,
            Command::OpenFile => CommandView::OpenFile,
            Command::OpenFileWith => CommandView::OpenFileWith,
            Command::ParentDirectory => CommandView::ParentDirectory,
            Command::PasteFiles(o) => CommandView::PasteFiles(*o),
            Command::Quit => CommandView::Quit,
            Command::ReloadDirList => CommandView::ReloadDirList,
            Command::RenameFile(p) => CommandView::RenameFile(p@),
            Command::RenameFileAppend => CommandView::RenameFileAppend,
            Command::RenameFilePrepend => CommandView::RenameFilePrepend,
            Command::Search(p) => CommandView::Search(p@),
            Command::SearchNext => CommandView::SearchNext,
            Command::SearchPrev => CommandView::SearchPrev,
            Command::SelectFiles { toggle, all } => CommandView::SelectFiles { toggle: *toggle, all: *all },
            Command::SetMode => CommandView::SetMode,
            Command::ShellCommand(p) => CommandView::ShellCommand(p@),
            Command::Sort(t) => CommandView::Sort(*t),
            Command::SortReverse => CommandView::SortReverse,
            Command::TabSwitch(n) => CommandView::TabSwitch(*n as int),
            Command::ToggleHiddenFiles => CommandView::ToggleHiddenFiles,
        }
    }
}

pub open spec fn sort_type_of(s: Seq<char>) -> Option<SortType> {
    if s == "lexical"@ {
        Some(SortType::Lexical)
    } else if s == "mtime"@ {
        Some(SortType::Mtime)
    } else if s == "size"@ {
        Some(SortType::Size)
    } else {
        None
    }
}

pub open spec fn sort_type_name(t: SortType) -> Seq<char> {
    match t {
        SortType::Lexical => "lexical"@,
        SortType::Mtime => "mtime"@,
        SortType::Size => "size"@,
    }
}

/// The flags of `paste_files` from token `i` on; an unknown token is the error.
pub open spec fn paste_flags(toks: Seq<Seq<char>>, i: int, o: Options) -> Result<Options, Seq<char>>
    decreases toks.len() - i,
{
    if i >= toks.len() {
        Ok(o)
    } else if toks[i] == "--overwrite"@ {
        paste_flags(toks, i + 1, Options { overwrite: true, ..o })
    } else if toks[i] == "--skip_exist"@ {
        paste_flags(toks, i + 1, Options { skip_exist: true, ..o })
    } else {
        Err(toks[i])
    }
}

/// The flags of `select_files` from token `i` on, as (toggle, all).
pub open spec fn select_flags(toks: Seq<Seq<char>>, i: int, toggle: bool, all: bool) -> Result<(bool, bool), Seq<char>>
    decreases toks.len() - i,
{
    if i >= toks.len() {
        Ok((toggle, all))
    } else if toks[i] == "--toggle"@ {
        select_flags(toks, i + 1, true, all)
    } else if toks[i] == "--all"@ {
        select_flags(toks, i + 1, toggle, true)
    } else {
        Err(toks[i])
    }
}

/// What a command line means, given the home directory (if any is known):
/// the command it names, or the kind of error it is.
pub open spec fn parse_spec(s: Seq<char>, home: Option<Seq<char>>) -> Result<CommandView, JoshutoErrorKind> {
    let (name, arg) = split_line(s);
    if name == "bulk_rename"@ {
        Ok(CommandView::BulkRename)
    } else if name == "cd"@ {
        if arg.len() == 0 {
            match home {
                Some(h) => Ok(CommandView::ChangeDirectory(h)),
                None => Err(JoshutoErrorKind::EnvVarNotPresent),
            }
        } else if arg == ".."@ {
            Ok(CommandView::ParentDirectory)
        } else {
            Ok(CommandView::ChangeDirectory(arg))
        }
    } else if name == "close_tab"@ {
        Ok(CommandView::CloseTab)
    } else if name == "copy_files"@ {
        Ok(CommandView::CopyFiles)
    } else if name == "console"@ {
        Ok(CommandView::CommandLine(arg))
    } else if name == "cursor_move_home"@ {
        Ok(CommandView::CursorMoveHome)
    } else if name == "cursor_move_end"@ {
        Ok(CommandView::CursorMoveEnd)
    } else if name == "cursor_move_page_up"@ {
        Ok(CommandView::CursorMovePageUp)
    } else if name == "cursor_move_page_down"@ {
        Ok(CommandView::CursorMovePageDown)
    } else if name == "cursor_move_down"@ {
        if arg.len() == 0 {
            Ok(CommandView::CursorMoveDown(1))
        } else {
            match parse_usize_spec(arg) {
                Ok(n) => Ok(CommandView::CursorMoveDown(n as nat)),
                Err(_) => Err(JoshutoErrorKind::ParseError),
            }
        }
    } else if name == "cursor_move_up"@ {
        if arg.len() == 0 {
            Ok(CommandView::CursorMoveUp(1))
        } else {
            match parse_usize_spec(arg) {
                Ok(n) => Ok(CommandView::CursorMoveUp(n as nat)),
                Err(_) => Err(JoshutoErrorKind::ParseError),
            }
        }
    } else if name == "cut_files"@ {
        Ok(CommandView::CutFiles)
    } else if name == "delete_files"@ {
        Ok(CommandView::DeleteFiles)
    } else if name == "force_quit"@ {
        Ok(CommandView::ForceQuit)
    } else if name == "mkdir"@ {
        if arg.len() == 0 {
            Err(JoshutoErrorKind::IOInvalidData)
        } else {
            Ok(CommandView::NewDirectory(arg))
        }
    } else if name == "new_tab"@ {
        Ok(CommandView::NewTab)
    } else if name == "open_file"@ {
        Ok(CommandView::OpenFile)
    } else if name == "open_file_with"@ {
        Ok(CommandView::OpenFileWith)
    } else if name == "paste_files"@ {
        match paste_flags(tokens(arg), 0, Options { overwrite: false, skip_exist: false }) {
            Ok(o) => Ok(CommandView::PasteFiles(o)),
            Err(_) => Err(JoshutoErrorKind::IOInvalidData),
        }
    } else if name == "quit"@ {
        Ok(CommandView::Quit)
    } else if name == "reload_dir_list"@ {
        Ok(CommandView::ReloadDirList)
    } else if name == "rename"@ {
        if arg.len() == 0 {
            Err(JoshutoErrorKind::IOInvalidData)
        } else {
            Ok(CommandView::RenameFile(arg))
        }
    } else if name == "rename_append"@ {
        Ok(CommandView::RenameFileAppend)
    } else if name == "rename_prepend"@ {
        Ok(CommandView::RenameFilePrepend)
    } else if name == "search"@ {
        if arg.len() == 0 {
            Err(JoshutoErrorKind::IOInvalidData)
        } else {
            Ok(CommandView::Search(arg))
        }
    } else if name == "search_next"@ {
        Ok(CommandView::SearchNext)
    } else if name == "search_prev"@ {
        Ok(CommandView::SearchPrev)
    } else if name == "select_files"@ {
        match select_flags(tokens(arg), 0, false, false) {
            Ok((t, a)) => Ok(CommandView::SelectFiles { toggle: t, all: a }),
            Err(_) => Err(JoshutoErrorKind::IOInvalidData),
        }
    } else if name == "set_mode"@ {
        Ok(CommandView::SetMode)
    } else if name == "shell"@ {
        Ok(CommandView::ShellCommand(arg))
    } else if name == "sort"@ {
        if arg == "reverse"@ {
            Ok(CommandView::SortReverse)
        } else {
            match sort_type_of(arg) {
                Some(t) => Ok(CommandView::Sort(t)),
                None => Err(JoshutoErrorKind::IOInvalidData),
            }
        }
    } else if name == "tab_switch"@ {
        if arg.len() == 0 {
            Err(JoshutoErrorKind::IOInvalidData)
        } else {
            match parse_i32_spec(arg) {
                Ok(n) => Ok(CommandView::TabSwitch(n)),
                Err(_) => Err(JoshutoErrorKind::ParseError),
            }
        }
    } else if name == "toggle_hidden"@ {
        Ok(CommandView::ToggleHiddenFiles)
    } else {
        Err(JoshutoErrorKind::UnknownCommand)
    }
}

} // verus!

verus! {

pub open spec fn home_view(home: Option<&str>) -> Option<Seq<char>> {
    match home {
        Some(h) => Some(h@),
        None => None,
    }
}

/// The diagnostic for a number that could not be read.
pub open spec fn int_error_message(e: IntErrorKind) -> Seq<char> {
    match e {
        IntErrorKind::Empty => "cannot parse integer from empty string"@,
        IntErrorKind::InvalidDigit => "invalid digit found in string"@,
        IntErrorKind::PosOverflow => "number too large to fit in target type"@,
        IntErrorKind::NegOverflow => "number too small to fit in target type"@,
    }
}

/// What an error of `parse_spec` says, where its text is fixed: the first
/// unknown flag, or the integer reader's diagnostic.
pub open spec fn error_cause_holds(s: Seq<char>, cause: Seq<char>) -> bool {
    let (name, arg) = split_line(s);
    &&& name == "paste_files"@ ==> match paste_flags(tokens(arg), 0, Options { overwrite: false, skip_exist: false }) {
        Err(t) => cause == name + ": unknown option "@ + t,
        Ok(_) => true,
    }
    &&& name == "select_files"@ ==> match select_flags(tokens(arg), 0, false, false) {
        Err(t) => cause == name + ": unknown option "@ + t,
        Ok(_) => true,
    }
    &&& (name == "cursor_move_down"@ || name == "cursor_move_up"@) && arg.len() > 0 ==> match parse_usize_spec(arg) {
        Err(k) => cause == int_error_message(k),
        Ok(_) => true,
    }
    &&& name == "tab_switch"@ && arg.len() > 0 ==> match parse_i32_spec(arg) {
        Err(k) => cause == name + ": "@ + int_error_message(k),
        Ok(_) => true,
    }
}

fn int_error_text(e: IntErrorKind) -> (r: &'static str)
    ensures
        r@ == int_error_message(e),
{
    match e {
        IntErrorKind::Empty => "cannot parse integer from empty string",
        IntErrorKind::InvalidDigit => "invalid digit found in string",
        IntErrorKind::PosOverflow => "number too large to fit in target type",
        IntErrorKind::NegOverflow => "number too small to fit in target type",
    }
}

fn unknown_option(name: &str, tok: &str) -> (r: JoshutoError)
    ensures
        r.kind == JoshutoErrorKind::IOInvalidData,
        r.cause@ == name@ + ": unknown option "@ + tok@,
{
    let msg = joined(name, ": unknown option ").concat(tok);
    JoshutoError::new(JoshutoErrorKind::IOInvalidData, msg)
}

fn read_paste_flags(toks: &Vec<String>) -> (r: Result<Options, usize>)
    ensures
        match r {
            Ok(o) => paste_flags(toks@.map_values(|t: String| t@), 0, Options { overwrite: false, skip_exist: false }) == Ok::<Options, Seq<char>>(o),
            Err(i) => i < toks@.len() && paste_flags(toks@.map_values(|t: String| t@), 0, Options { overwrite: false, skip_exist: false }) == Err::<Options, Seq<char>>(toks@[i as int]@),
        },
{
    let ghost v = toks@.map_values(|t: String| t@);
    let mut o = Options { overwrite: false, skip_exist: false };
    let mut i: usize = 0;
    while i < toks.len()
        invariant
            i <= toks@.len(),
            v == toks@.map_values(|t: String| t@),
            paste_flags(v, 0, Options { overwrite: false, skip_exist: false }) == paste_flags(v, i as int, o),
        decreases toks@.len() - i,
    {
        let t = toks[i].as_str();
        assert(t@ == v[i as int]);
        if text_eq(t, "--overwrite") {
            o = Options { overwrite: true, ..o };
        } else if text_eq(t, "--skip_exist") {
            o = Options { skip_exist: true, ..o };
        } else {
            return Err(i);
        }
        i = i + 1;
    }
    Ok(o)
}

fn read_select_flags(toks: &Vec<String>) -> (r: Result<(bool, bool), usize>)
    ensures
        match r {
            Ok(f) => select_flags(toks@.map_values(|t: String| t@), 0, false, false) == Ok::<(bool, bool), Seq<char>>(f),
            Err(i) => i < toks@.len() && select_flags(toks@.map_values(|t: String| t@), 0, false, false) == Err::<(bool, bool), Seq<char>>(toks@[i as int]@),
        },
{
    let ghost v = toks@.map_values(|t: String| t@);
    let mut toggle = false;
    let mut all = false;
    let mut i: usize = 0;
    while i < toks.len()
        invariant
            i <= toks@.len(),
            v == toks@.map_values(|t: String| t@),
            select_flags(v, 0, false, false) == select_flags(v, i as int, toggle, all),
        decreases toks@.len() - i,
    {
        let t = toks[i].as_str();
        assert(t@ == v[i as int]);
        if text_eq(t, "--toggle") {
            toggle = true;
        } else if text_eq(t, "--all") {
            all = true;
        } else {
            return Err(i);
        }
        i = i + 1;
    }
    Ok((toggle, all))
}

fn read_sort_type(s: &str) -> (r: Option<SortType>)
    ensures
        r == sort_type_of(s@),
{
    if text_eq(s, "lexical") {
        Some(SortType::Lexical)
    } else if text_eq(s, "mtime") {
        Some(SortType::Mtime)
    } else if text_eq(s, "size") {
        Some(SortType::Size)
    } else {
        None
    }
}

fn token_views(s: &str, toks: &Vec<String>)
    requires
        toks@.len() == tokens(s@).len(),
        forall|k: int| 0 <= k < toks@.len() ==> #[trigger] toks@[k]@ == tokens(s@)[k],
    ensures
        toks@.map_values(|t: String| t@) == tokens(s@),
{
    assert(toks@.map_values(|t: String| t@) =~= tokens(s@));
}

/// Parses a command line: the name up to the first space, then the argument
/// with its leading whitespace removed. `home_dir` is what `cd` alone goes to.
pub fn parse_command(s: &str, home_dir: Option<&str>) -> (r: JoshutoResult<Command>)
    ensures
        match r {
            Ok(c) => parse_spec(s@, home_view(home_dir)) == Ok::<CommandView, JoshutoErrorKind>(c@),
            Err(e) => parse_spec(s@, home_view(home_dir)) == Err::<CommandView, JoshutoErrorKind>(e.kind)
                && error_cause_holds(s@, e.cause@),
        },
{
    proof {
        lemma_command_words();
    }
    let (command, arg) = split_command_line(s);
    if text_eq(command, "bulk_rename") {
        Ok(Command::BulkRename)
    } else if text_eq(command, "cd") {
        if arg.unicode_len() == 0 {
            match home_dir {
                Some(h) => Ok(Command::ChangeDirectory(String::from_str(h))),
                None => Err(JoshutoError::new(
                    JoshutoErrorKind::EnvVarNotPresent,
                    joined(command, ": Cannot find home directory"),
                )),
            }
        } else if text_eq(arg, "..") {
            Ok(Command::ParentDirectory)
        } else {
            Ok(Command::ChangeDirectory(String::from_str(arg)))
        }
    } else if text_eq(command, "close_tab") {
        Ok(Command::CloseTab)
    } else if text_eq(command, "copy_files") {
        Ok(Command::CopyFiles)
    } else if text_eq(command, "console") {
        Ok(Command::CommandLine(String::from_str(arg)))
    } else if text_eq(command, "cursor_move_home") {
        Ok(Command::CursorMoveHome)
    } else if text_eq(command, "cursor_move_end") {
        Ok(Command::CursorMoveEnd)
    } else if text_eq(command, "cursor_move_page_up") {
        Ok(Command::CursorMovePageUp)
    } else if text_eq(command, "cursor_move_page_down") {
        Ok(Command::CursorMovePageDown)
    } else if text_eq(command, "cursor_move_down") || text_eq(command, "cursor_move_up") {
        let down = text_eq(command, "cursor_move_down");
        let n: usize = if arg.unicode_len() == 0 {
            1
        } else {
            match parse_usize(arg) {
                Ok(n) => n,
                Err(e) => {
                    return Err(JoshutoError::new(
                        JoshutoErrorKind::ParseError,
                        String::from_str(int_error_text(e)),
                    ));
                },
            }
        };
        if down {
            Ok(Command::CursorMoveDown(n))
        } else {
            Ok(Command::CursorMoveUp(n))
        }
    } else if text_eq(command, "cut_files") {
        Ok(Command::CutFiles)
    } else if text_eq(command, "delete_files") {
        Ok(Command::DeleteFiles)
    } else if text_eq(command, "force_quit") {
        Ok(Command::ForceQuit)
    } else if text_eq(command, "mkdir") {
        if arg.unicode_len() == 0 {
            Err(JoshutoError::new(
                JoshutoErrorKind::IOInvalidData,
                joined(command, ": missing additional parameter"),
            ))
        } else {
            Ok(Command::NewDirectory(String::from_str(arg)))
        }
    } else if text_eq(command, "new_tab") {
        Ok(Command::NewTab)
    } else if text_eq(command, "open_file") {
        Ok(Command::OpenFile)
    } else if text_eq(command, "open_file_with") {
        Ok(Command::OpenFileWith)
    } else if text_eq(command, "paste_files") {
        let toks = split_whitespace(arg);
        token_views(arg, &toks);
        match read_paste_flags(&toks) {
            Ok(o) => Ok(Command::PasteFiles(o)),
            Err(i) => Err(unknown_option(command, toks[i].as_str())),
        }
    } else if text_eq(command, "quit") {
        Ok(Command::Quit)
    } else if text_eq(command, "reload_dir_list") {
        Ok(Command::ReloadDirList)
    } else if text_eq(command, "rename") {
        if arg.unicode_len() == 0 {
            Err(JoshutoError::new(
                JoshutoErrorKind::IOInvalidData,
                String::from_str("rename_file: Expected 1, got 0"),
            ))
        } else {
            Ok(Command::RenameFile(String::from_str(arg)))
        }
    } else if text_eq(command, "rename_append") {
        Ok(Command::RenameFileAppend)
    } else if text_eq(command, "rename_prepend") {
        Ok(Command::RenameFilePrepend)
    } else if text_eq(command, "search") {
        if arg.unicode_len() == 0 {
            Err(JoshutoError::new(
                JoshutoErrorKind::IOInvalidData,
                joined(command, ": Expected 1, got 0"),
            ))
        } else {
            Ok(Command::Search(String::from_str(arg)))
        }
    } else if text_eq(command, "search_next") {
        Ok(Command::SearchNext)
    } else if text_eq(command, "search_prev") {
        Ok(Command::SearchPrev)
    } else if text_eq(command, "select_files") {
        let toks = split_whitespace(arg);
        token_views(arg, &toks);
        match read_select_flags(&toks) {
            Ok((toggle, all)) => Ok(Command::SelectFiles { toggle, all }),
            Err(i) => Err(unknown_option(command, toks[i].as_str())),
        }
    } else if text_eq(command, "set_mode") {
        Ok(Command::SetMode)
    } else if text_eq(command, "shell") {
        Ok(Command::ShellCommand(String::from_str(arg)))
    } else if text_eq(command, "sort") {
        if text_eq(arg, "reverse") {
            Ok(Command::SortReverse)
        } else {
            match read_sort_type(arg) {
                Some(t) => Ok(Command::Sort(t)),
                None => Err(JoshutoError::new(
                    JoshutoErrorKind::IOInvalidData,
                    joined("sort: Unknown option ", arg),
                )),
            }
        }
    } else if text_eq(command, "tab_switch") {
        if arg.unicode_len() == 0 {
            Err(JoshutoError::new(
                JoshutoErrorKind::IOInvalidData,
                joined(command, ": No option provided"),
            ))
        } else {
            match parse_i32(arg) {
                Ok(n) => Ok(Command::TabSwitch(n)),
                Err(e) => Err(JoshutoError::new(
                    JoshutoErrorKind::ParseError,
                    joined(joined(command, ": ").as_str(), int_error_text(e)),
                )),
            }
        }
    } else if text_eq(command, "toggle_hidden") {
        Ok(Command::ToggleHiddenFiles)
    } else {
        Err(JoshutoError::new(JoshutoErrorKind::UnknownCommand, joined("Unknown command: ", command)))
    }
}

} // verus!

verus! {

/// `name`, a space, then `arg`.
pub open spec fn with_arg(name: Seq<char>, arg: Seq<char>) -> Seq<char> {
    name + seq![' '] + arg
}

/// `name` alone when `arg` is empty, else `with_arg(name, arg)`.
pub open spec fn with_opt_arg(name: Seq<char>, arg: Seq<char>) -> Seq<char> {
    if arg.len() == 0 { name } else { with_arg(name, arg) }
}

/// `text` when `on`, else nothing.
pub open spec fn flag_text(on: bool, text: Seq<char>) -> Seq<char> {
    if on { text } else { Seq::empty() }
}

/// The canonical text of a command: the line that parses back into it.
pub open spec fn command_text(c: CommandView) -> Seq<char> {
    match c {
        CommandView::BulkRename => "bulk_rename"@,
        CommandView::ChangeDirectory(p) => with_arg("cd"@, p),
        CommandView::CloseTab => "close_tab"@,
        CommandView::CommandLine(p) => with_opt_arg("console"@, p),
        CommandView::CopyFiles => "copy_files"@,
        CommandView::CursorMoveDown(n) => with_arg("cursor_move_down"@, decimal_of(n)),
        CommandView::CursorMoveEnd => "cursor_move_end"@,
        CommandView::CursorMoveHome => "cursor_move_home"@,
        CommandView::CursorMovePageDown => "cursor_move_page_down"@,
        CommandView::CursorMovePageUp => "cursor_move_page_up"@,
        CommandView::CursorMoveUp(n) => with_arg("cursor_move_up"@, decimal_of(n)),
        CommandView::CutFiles => "cut_files"@,
        CommandView::DeleteFiles => "delete_files"@,
        CommandView::ForceQuit => "force_quit"@,
        CommandView::NewDirectory(p) => with_arg("mkdir"@, p),
        CommandView::NewTab => "new_tab"@,
        CommandView::OpenFile => "open_file"@,
        CommandView::OpenFileWith => "open_file_with"@,
        CommandView::ParentDirectory => with_arg("cd"@, ".."@),
        CommandView::PasteFiles(o) => "paste_files"@ + flag_text(o.overwrite, " --overwrite"@)
            + flag_text(o.skip_exist, " --skip_exist"@),
        CommandView::Quit => "quit"@,
        CommandView::ReloadDirList => "reload_dir_list"@,
        CommandView::RenameFile(p) => with_arg("rename"@, p),
        CommandView::RenameFileAppend => "rename_append"@,
        CommandView::RenameFilePrepend => "rename_prepend"@,
        CommandView::Search(p) => with_arg("search"@, p),
        CommandView::SearchNext => "search_next"@,
        CommandView::SearchPrev => "search_prev"@,
        CommandView::SelectFiles { toggle, all } => "select_files"@ + flag_text(toggle, " --toggle"@)
            + flag_text(all, " --all"@),
        CommandView::SetMode => "set_mode"@,
        CommandView::ShellCommand(p) => with_opt_arg("shell"@, p),
        CommandView::Sort(t) => with_arg("sort"@, sort_type_name(t)),
        CommandView::SortReverse => with_arg("sort"@, "reverse"@),
        CommandView::TabSwitch(n) => with_arg("tab_switch"@, int_text(n)),
        CommandView::ToggleHiddenFiles => "toggle_hidden"@,
    }
}

fn text_with_arg(name: &str, arg: &str) -> (r: String)
    ensures
        r@ == with_arg(name@, arg@),
{
    proof {
        reveal_strlit(" ");
    }
    assert(" "@ =~= seq![' ']);
    joined(name, " ").concat(arg)
}

fn text_with_opt_arg(name: &str, arg: &str) -> (r: String)
    ensures
        r@ == with_opt_arg(name@, arg@),
{
    if arg.unicode_len() == 0 {
        String::from_str(name)
    } else {
        text_with_arg(name, arg)
    }
}

fn sort_type_text(t: SortType) -> (r: &'static str)
    ensures
        r@ == sort_type_name(t),
{
    match t {
        SortType::Lexical => "lexical",
        SortType::Mtime => "mtime",
        SortType::Size => "size",
    }
}

fn append_flag(s: String, on: bool, text: &str) -> (r: String)
    ensures
        r@ == s@ + flag_text(on, text@),
{
    if on {
        s.concat(text)
    } else {
        assert(s@ + Seq::<char>::empty() =~= s@);
        s
    }
}

impl Command {
    /// The canonical text of the command, as `command_text` states.
    pub fn command_string(&self) -> (r: String)
        ensures
            r@ == command_text(self@),
    {
        match self {
            Command::BulkRename => String::from_str("bulk_rename"),
            Command::ChangeDirectory(p) => text_with_arg("cd", p.as_str()),
            Command::CloseTab => String::from_str("close_tab"),
            Command::CommandLine(p) => text_with_opt_arg("console", p.as_str()),
            Command::CopyFiles => String::from_str("copy_files"),
            Command::CursorMoveDown(n) => {
                let d = decimal_string(*n as u64);
                text_with_arg("cursor_move_down", d.as_str())
            },
            Command::CursorMoveEnd => String::from_str("cursor_move_end"),
            Command::CursorMoveHome => String::from_str("cursor_move_home"),
            Command::CursorMovePageDown => String::from_str("cursor_move_page_down"),
            Command::CursorMovePageUp => String::from_str("cursor_move_page_up"),
            Command::CursorMoveUp(n) => {
                let d = decimal_string(*n as u64);
                text_with_arg("cursor_move_up", d.as_str())
            },
            Command::CutFiles => String::from_str("cut_files"),
            Command::DeleteFiles => String::from_str("delete_files"),
            Command::ForceQuit => String::from_str("force_quit"),
            Command::NewDirectory(p) => text_with_arg("mkdir", p.as_str()),
            Command::NewTab => String::from_str("new_tab"),
            Command::OpenFile => String::from_str("open_file"),
            Command::OpenFileWith => String::from_str("open_file_with"),
            Command::ParentDirectory => text_with_arg("cd", ".."),
            Command::PasteFiles(o) => {
                let s = append_flag(String::from_str("paste_files"), o.overwrite, " --overwrite");
                append_flag(s, o.skip_exist, " --skip_exist")
            },
            Command::Quit => String::from_str("quit"),
            Command::ReloadDirList => String::from_str("reload_dir_list"),
            Command::RenameFile(p) => text_with_arg("rename", p.as_str()),
            Command::RenameFileAppend => String::from_str("rename_append"),
            Command::RenameFilePrepend => String::from_str("rename_prepend"),
            Command::Search(p) => text_with_arg("search", p.as_str()),
            Command::SearchNext => String::from_str("search_next"),
            Command::SearchPrev => String::from_str("search_prev"),
            Command::SelectFiles { toggle, all } => {
                let s = append_flag(String::from_str("select_files"), *toggle, " --toggle");
                append_flag(s, *all, " --all")
            },
            Command::SetMode => String::from_str("set_mode"),
            Command::ShellCommand(p) => text_with_opt_arg("shell", p.as_str()),
            Command::Sort(t) => text_with_arg("sort", sort_type_text(*t)),
            Command::SortReverse => text_with_arg("sort", "reverse"),
            Command::TabSwitch(n) => {
                let d = int_string(*n);
                text_with_arg("tab_switch", d.as_str())
            },
            Command::ToggleHiddenFiles => String::from_str("toggle_hidden"),
        }
    }
}

} // verus!

verus! {

/// What a key leads to: one command, or a further map for key sequences.
#[derive(Debug)]
pub enum CommandKeybind {
    SimpleKeybind(Command),
    CompositeKeybind(Vec<(u32, CommandKeybind)>),
}

impl CommandKeybind {
    /// The text shown for a binding: the command's text, or an ellipsis for
    /// a further map.
    pub fn to_text(&self) -> (r: String)
        ensures
            match self {
                CommandKeybind::SimpleKeybind(c) => r@ == command_text(c@),
                CommandKeybind::CompositeKeybind(_) => r@ == "..."@,
            },
    {
        match self {
            CommandKeybind::SimpleKeybind(c) => c.command_string(),
            CommandKeybind::CompositeKeybind(_) => String::from_str("..."),
        }
    }
}

} // verus!
