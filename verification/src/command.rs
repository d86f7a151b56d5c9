//! Routing of the command line arguments to the sub-command that runs.

use vstd::prelude::*;
use crate::error::CliError;
use crate::path::{cross_path_new, cross_path_normalized};
use crate::text::str_equals;

verus! {

/// The sub-commands of the tool.
#[derive(PartialEq, Eq, Structural, Clone, Copy, Debug)]
pub enum CommandKind {
    Help,
    Completion,
    EncodeToken,
    TestConnection,
    RemoteList,
    LocalList,
    AllList,
    ReadOnlyRemove,
    CompareFiles,
    CompareFolders,
    ChangeTimeFiles,
    CreateFolders,
    MoveLocalFiles,
    RenameLocalFiles,
    TrashFiles,
    TrashFolders,
    DownloadOneFile,
    DownloadFromList,
    SyncOnly,
    ListAndSync,
}

/// A routed command line: the sub-command and, for those that take one,
/// its path argument.
#[derive(Debug)]
pub struct Command {
    pub kind: CommandKind,
    pub path: Option<String>,
}

/// Why the arguments name no sub-command that can run.
#[derive(PartialEq, Eq, Structural, Clone, Copy, Debug)]
pub enum RouteError {
    MissingArguments,
    UnrecognizedArguments,
}

impl View for Command {
    type V = (CommandKind, Option<Seq<char>>);

    open spec fn view(&self) -> (CommandKind, Option<Seq<char>>) {
        (self.kind, option_view(self.path))
    }
}

pub open spec fn option_view(o: Option<String>) -> Option<Seq<char>> {
    match o {
        Some(s) => Some(s@),
        None => None,
    }
}

pub open spec fn option_str_view(o: Option<&str>) -> Option<Seq<char>> {
    match o {
        Some(s) => Some(s@),
        None => None,
    }
}

/// The sub-command that a word names, if any.
pub open spec fn spec_kind_of_word(w: Seq<char>) -> Option<CommandKind> {
    if w == "--help"@ || w == "-h"@ {
        Some(CommandKind::Help)
    } else if w == "completion"@ {
        Some(CommandKind::Completion)
    } else if w == "encode_token"@ {
        Some(CommandKind::EncodeToken)
    } else if w == "test"@ {
        Some(CommandKind::TestConnection)
    } else if w == "remote_list"@ {
        Some(CommandKind::RemoteList)
    } else if w == "local_list"@ {
        Some(CommandKind::LocalList)
    } else if w == "all_list"@ {
        Some(CommandKind::AllList)
    } else if w == "read_only_remove"@ {
        Some(CommandKind::ReadOnlyRemove)
    } else if w == "compare_files"@ {
        Some(CommandKind::CompareFiles)
    } else if w == "compare_folders"@ {
        Some(CommandKind::CompareFolders)
    } else if w == "change_time_files"@ {
        Some(CommandKind::ChangeTimeFiles)
    } else if w == "create_folders"@ {
        Some(CommandKind::CreateFolders)
    } else if w == "move_local_files"@ {
        Some(CommandKind::MoveLocalFiles)
    } else if w == "rename_local_files"@ {
        Some(CommandKind::RenameLocalFiles)
    } else if w == "trash_files"@ {
        Some(CommandKind::TrashFiles)
    } else if w == "trash_folders"@ {
        Some(CommandKind::TrashFolders)
    } else if w == "one_file_download"@ {
        Some(CommandKind::DownloadOneFile)
    } else if w == "download_from_list"@ {
        Some(CommandKind::DownloadFromList)
    } else if w == "sync_only"@ {
        Some(CommandKind::SyncOnly)
    } else if w == "list_and_sync"@ {
        Some(CommandKind::ListAndSync)
    } else {
        None
    }
}

/// The sub-commands that take a path as their second argument.
pub open spec fn needs_path(k: CommandKind) -> bool {
    ||| k == CommandKind::LocalList
    ||| k == CommandKind::AllList
    ||| k == CommandKind::DownloadOneFile
    ||| k == CommandKind::ListAndSync
}

/// The sub-commands whose path argument names the external disk and is
/// therefore brought into the neutral cross-platform form first.
pub open spec fn takes_disk_path(k: CommandKind) -> bool {
    k == CommandKind::LocalList || k == CommandKind::AllList || k == CommandKind::ListAndSync
}

/// The routing of the first two command line arguments: no argument asks
/// for help; a known word names its sub-command, which takes the second
/// argument as its path where it needs one.
pub open spec fn spec_route(a1: Option<Seq<char>>, a2: Option<Seq<char>>) -> Result<
    (CommandKind, Option<Seq<char>>),
    RouteError,
> {
    match a1 {
        None => Ok((CommandKind::Help, None)),
        Some(w) => match spec_kind_of_word(w) {
            None => Err(RouteError::UnrecognizedArguments),
            Some(k) => if needs_path(k) {
                match a2 {
                    None => Err(RouteError::MissingArguments),
                    Some(p) => Ok((k, Some(p))),
                }
            } else {
                Ok((k, None))
            },
        },
    }
}

/// The sub-command that a word names, if any.
pub fn kind_of_word(w: &str) -> (r: Option<CommandKind>)
    ensures
        r == spec_kind_of_word(w@),
{
    if str_equals(w, "--help") || str_equals(w, "-h") {
        Some(CommandKind::Help)
    } else if str_equals(w, "completion") {
        Some(CommandKind::Completion)
    } else if str_equals(w, "encode_token") {
        Some(CommandKind::EncodeToken)
    } else if str_equals(w, "test") {
        Some(CommandKind::TestConnection)
    } else if str_equals(w, "remote_list") {
        Some(CommandKind::RemoteList)
    } else if str_equals(w, "local_list") {
        Some(CommandKind::LocalList)
    } else if str_equals(w, "all_list") {
        Some(CommandKind::AllList)
    } else if str_equals(w, "read_only_remove") {
        Some(CommandKind::ReadOnlyRemove)
    } else if str_equals(w, "compare_files") {
        Some(CommandKind::CompareFiles)
    } else if str_equals(w, "compare_folders") {
        Some(CommandKind::CompareFolders)
    } else if str_equals(w, "change_time_files") {
        Some(CommandKind::ChangeTimeFiles)
    } else if str_equals(w, "create_folders") {
        Some(CommandKind::CreateFolders)
    } else if str_equals(w, "move_local_files") {
        Some(CommandKind::MoveLocalFiles)
    } else if str_equals(w, "rename_local_files") {
        Some(CommandKind::RenameLocalFiles)
    } else if str_equals(w, "trash_files") {
        Some(CommandKind::TrashFiles)
    } else if str_equals(w, "trash_folders") {
        Some(CommandKind::TrashFolders)
    } else if str_equals(w, "one_file_download") {
        Some(CommandKind::DownloadOneFile)
    } else if str_equals(w, "download_from_list") {
        Some(CommandKind::DownloadFromList)
    } else if str_equals(w, "sync_only") {
        Some(CommandKind::SyncOnly)
    } else if str_equals(w, "list_and_sync") {
        Some(CommandKind::ListAndSync)
    } else {
        None
    }
}

fn needs_path_exec(k: CommandKind) -> (r: bool)
    ensures
        r == needs_path(k),
{
    match k {
        CommandKind::LocalList
        | CommandKind::AllList
        | CommandKind::DownloadOneFile
        | CommandKind::ListAndSync => true,
        _ => false,
    }
}

fn copy_str(s: &str) -> (r: String)
    ensures
        r@ == s@,
{
    String::from_str(s)
}

/// Classifies the first two command line arguments (after the program
/// name) into a sub-command, exactly as `spec_route` says.
pub fn classify_arguments(arg1: Option<&str>, arg2: Option<&str>) -> (r: Result<
    Command,
    RouteError,
>)
    ensures
        match r {
            Ok(c) => spec_route(option_str_view(arg1), option_str_view(arg2)) == Ok::<
                (CommandKind, Option<Seq<char>>),
                RouteError,
            >(c@),
            Err(e) => spec_route(option_str_view(arg1), option_str_view(arg2)) == Err::<
                (CommandKind, Option<Seq<char>>),
                RouteError,
            >(e),
        },
{
    match arg1 {
        None => Ok(Command { kind: CommandKind::Help, path: None }),
        Some(w) => match kind_of_word(w) {
            None => Err(RouteError::UnrecognizedArguments),
            Some(k) => {
                if needs_path_exec(k) {
                    match arg2 {
                        None => Err(RouteError::MissingArguments),
                        Some(p) => Ok(Command { kind: k, path: Some(copy_str(p)) }),
                    }
                } else {
                    Ok(Command { kind: k, path: None })
                }
            },
        },
    }
}

/// Routes the command line arguments: classifies them, then brings the
/// path argument of `local_list`, `all_list` and `list_and_sync` into the neutral cross-platform form, failing where
/// `crossplatform_path` refuses it.
pub fn route_arguments(arg1: Option<&str>, arg2: Option<&str>) -> (r: Result<Command, CliError>)
    ensures
        match spec_route(option_str_view(arg1), option_str_view(arg2)) {
            Err(RouteError::MissingArguments) => r matches Err(CliError::MissingArguments),
            Err(RouteError::UnrecognizedArguments) => r matches Err(
                CliError::UnrecognizedArguments,
            ),
            Ok((k, p)) => if takes_disk_path(k) {
                match cross_path_normalized(p.unwrap()) {
                    None => r matches Err(CliError::InvalidPath(_)),
                    Some(n) => r matches Ok(c) && c@ == (k, Some(n)),
                }
            } else {
                r matches Ok(c) && c@ == (k, p)
            },
        },
{
    match classify_arguments(arg1, arg2) {
        Err(RouteError::MissingArguments) => Err(CliError::MissingArguments),
        Err(RouteError::UnrecognizedArguments) => Err(CliError::UnrecognizedArguments),
        Ok(c) => {
            let k = c.kind;
            if k == CommandKind::LocalList || k == CommandKind::AllList || k
                == CommandKind::ListAndSync {
                match c.path {
                    Some(p) => match cross_path_new(p.as_str()) {
                        Ok(n) => Ok(Command { kind: k, path: Some(n) }),
                        Err(e) => Err(CliError::InvalidPath(e)),
                    },
                    None => Err(CliError::MissingArguments),
                }
            } else {
                Ok(c)
            }
        },
    }
}

/// The lengths and first characters of the words of the command line,
/// which tell them apart.
pub(crate) proof fn lemma_command_word_facts()
    ensures
        "--help"@.len() == 6,
        "--help"@[0] == '-',
        "-h"@.len() == 2,
        "-h"@[0] == '-',
        "completion"@.len() == 10,
        "completion"@[0] == 'c',
        "encode_token"@.len() == 12,
        "encode_token"@[0] == 'e',
        "test"@.len() == 4,
        "test"@[0] == 't',
        "remote_list"@.len() == 11,
        "remote_list"@[0] == 'r',
        "local_list"@.len() == 10,
        "local_list"@[0] == 'l',
        "all_list"@.len() == 8,
        "all_list"@[0] == 'a',
        "read_only_remove"@.len() == 16,
        "read_only_remove"@[0] == 'r',
        "compare_files"@.len() == 13,
        "compare_files"@[0] == 'c',
        "compare_folders"@.len() == 15,
        "compare_folders"@[0] == 'c',
        "change_time_files"@.len() == 17,
        "change_time_files"@[0] == 'c',
        "create_folders"@.len() == 14,
        "create_folders"@[0] == 'c',
        "move_local_files"@.len() == 16,
        "move_local_files"@[0] == 'm',
        "rename_local_files"@.len() == 18,
        "rename_local_files"@[0] == 'r',
        "trash_files"@.len() == 11,
        "trash_files"@[0] == 't',
        "trash_folders"@.len() == 13,
        "trash_folders"@[0] == 't',
        "one_file_download"@.len() == 17,
        "one_file_download"@[0] == 'o',
        "download_from_list"@.len() == 18,
        "download_from_list"@[0] == 'd',
        "sync_only"@.len() == 9,
        "sync_only"@[0] == 's',
        "list_and_sync"@.len() == 13,
        "list_and_sync"@[0] == 'l',
        "second_backup"@.len() == 13,
        "second_backup"@[0] == 's',
{
    reveal_strlit("--help");
    reveal_strlit("-h");
    reveal_strlit("completion");
    reveal_strlit("encode_token");
    reveal_strlit("test");
    reveal_strlit("remote_list");
    reveal_strlit("local_list");
    reveal_strlit("all_list");
    reveal_strlit("read_only_remove");
    reveal_strlit("compare_files");
    reveal_strlit("compare_folders");
    reveal_strlit("change_time_files");
    reveal_strlit("create_folders");
    reveal_strlit("move_local_files");
    reveal_strlit("rename_local_files");
    reveal_strlit("trash_files");
    reveal_strlit("trash_folders");
    reveal_strlit("one_file_download");
    reveal_strlit("download_from_list");
    reveal_strlit("sync_only");
    reveal_strlit("list_and_sync");
    reveal_strlit("second_backup");
    assert("--help"@.len() == 6 && "--help"@[0] == '-');
    assert("-h"@.len() == 2 && "-h"@[0] == '-');
    assert("completion"@.len() == 10 && "completion"@[0] == 'c');
    assert("encode_token"@.len() == 12 && "encode_token"@[0] == 'e');
    assert("test"@.len() == 4 && "test"@[0] == 't');
    assert("remote_list"@.len() == 11 && "remote_list"@[0] == 'r');
    assert("local_list"@.len() == 10 && "local_list"@[0] == 'l');
    assert("all_list"@.len() == 8 && "all_list"@[0] == 'a');
    assert("read_only_remove"@.len() == 16 && "read_only_remove"@[0] == 'r');
    assert("compare_files"@.len() == 13 && "compare_files"@[0] == 'c');
    assert("compare_folders"@.len() == 15 && "compare_folders"@[0] == 'c');
    assert("change_time_files"@.len() == 17 && "change_time_files"@[0] == 'c');
    assert("create_folders"@.len() == 14 && "create_folders"@[0] == 'c');
    assert("move_local_files"@.len() == 16 && "move_local_files"@[0] == 'm');
    assert("rename_local_files"@.len() == 18 && "rename_local_files"@[0] == 'r');
    assert("trash_files"@.len() == 11 && "trash_files"@[0] == 't');
    assert("trash_folders"@.len() == 13 && "trash_folders"@[0] == 't');
    assert("one_file_download"@.len() == 17 && "one_file_download"@[0] == 'o');
    assert("download_from_list"@.len() == 18 && "download_from_list"@[0] == 'd');
    assert("sync_only"@.len() == 9 && "sync_only"@[0] == 's');
    assert("list_and_sync"@.len() == 13 && "list_and_sync"@[0] == 'l');
    assert("second_backup"@.len() == 13 && "second_backup"@[0] == 's');
}

/// Each sub-command is run by its own word and by no other: `--help` and
/// `-h` ask for help, every other sub-command has exactly one word, and no
/// word runs two sub-commands.
pub proof fn lemma_words_name_their_sub_commands(w: Seq<char>, k: CommandKind)
    ensures
        spec_kind_of_word(w) == Some(k) <==> match k {
            CommandKind::Help => w == "--help"@ || w == "-h"@,
            CommandKind::Completion => w == "completion"@,
            CommandKind::EncodeToken => w == "encode_token"@,
            CommandKind::TestConnection => w == "test"@,
            CommandKind::RemoteList => w == "remote_list"@,
            CommandKind::LocalList => w == "local_list"@,
            CommandKind::AllList => w == "all_list"@,
            CommandKind::ReadOnlyRemove => w == "read_only_remove"@,
            CommandKind::CompareFiles => w == "compare_files"@,
            CommandKind::CompareFolders => w == "compare_folders"@,
            CommandKind::ChangeTimeFiles => w == "change_time_files"@,
            CommandKind::CreateFolders => w == "create_folders"@,
            CommandKind::MoveLocalFiles => w == "move_local_files"@,
            CommandKind::RenameLocalFiles => w == "rename_local_files"@,
            CommandKind::TrashFiles => w == "trash_files"@,
            CommandKind::TrashFolders => w == "trash_folders"@,
            CommandKind::DownloadOneFile => w == "one_file_download"@,
            CommandKind::DownloadFromList => w == "download_from_list"@,
            CommandKind::SyncOnly => w == "sync_only"@,
            CommandKind::ListAndSync => w == "list_and_sync"@,
        },
{
    lemma_command_word_facts();
}

/// No argument, `--help` and `-h` ask for help, whatever follows them.
pub proof fn lemma_help_takes_no_argument(a2: Option<Seq<char>>)
    ensures
        spec_route(None, a2) == Ok::<(CommandKind, Option<Seq<char>>), RouteError>((CommandKind::Help, None)),
        spec_route(Some("--help"@), a2) == Ok::<(CommandKind, Option<Seq<char>>), RouteError>(
            (CommandKind::Help, None),
        ),
        spec_route(Some("-h"@), a2) == Ok::<(CommandKind, Option<Seq<char>>), RouteError>(
            (CommandKind::Help, None),
        ),
{
    lemma_command_word_facts();
}

/// Exactly `local_list`, `all_list`, `one_file_download` and `list_and_sync`
/// need a path argument: only they are refused for its lack, and they take
/// the argument given as their path.
pub proof fn lemma_path_commands_need_argument(w: Seq<char>, p: Seq<char>)
    ensures
        spec_route(Some(w), None) == Err::<(CommandKind, Option<Seq<char>>), RouteError>(
            RouteError::MissingArguments,
        ) <==> (w == "local_list"@ || w == "all_list"@ || w == "one_file_download"@ || w
            == "list_and_sync"@),
        (w == "local_list"@ || w == "all_list"@ || w == "one_file_download"@ || w
            == "list_and_sync"@) ==> (spec_route(Some(w), Some(p)) matches Ok((_, q)) && q
            == Some(p)),
        spec_route(Some(w), Some(p)) matches Ok((_, Some(q))) ==> q == p,
{
    lemma_command_word_facts();
}

} // verus!
