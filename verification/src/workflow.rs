//! The order of the backup workflow. Each sub-command, once done, tells the
//! user which one to run next; a step whose work lists are empty is
//! skipped, and after the last step the user is asked to list the disk
//! again to check the backup.

use vstd::prelude::*;
use crate::command::{CommandKind, needs_path, option_view, spec_kind_of_word, spec_route};

verus! {

/// The steps of the backup workflow, in the order in which they run.
#[derive(PartialEq, Eq, Structural, Clone, Copy, Debug)]
pub enum Step {
    RemoteList,
    LocalList,
    AllList,
    ReadOnlyRemove,
    CompareFolders,
    CreateFolders,
    CompareFiles,
    ChangeTimeFiles,
    MoveLocalFiles,
    RenameLocalFiles,
    TrashFiles,
    DownloadFromList,
    TrashFolders,
}

/// The work lists that the steps produce and consume.
#[derive(PartialEq, Eq, Structural, Clone, Copy, Debug)]
pub enum ListKind {
    ReadonlyFiles,
    ForCreateFolders,
    ForChangeTimeFiles,
    ForDownload,
    ForTrashFiles,
    ForTrashFolders,
}

/// What to tell the user about a candidate next step.
#[derive(PartialEq, Eq, Structural, Clone, Copy, Debug)]
pub enum Advice {
    /// Run this step next.
    Run(Step),
    /// This step has nothing to do: say so, and go on with the one after it.
    Skip(Step),
    /// No step is left: list the disk again to check the backup.
    RepeatLocalList,
}

/// The hint on one candidate next step: the advice, the argument to show
/// with a suggested command, and the candidate to look at next after a
/// skipped step.
pub struct NextStepHint {
    pub advice: Advice,
    pub argument: Option<String>,
    pub next_candidate: Option<Step>,
}

impl View for NextStepHint {
    type V = (Advice, Option<Seq<char>>, Option<Step>);

    open spec fn view(&self) -> (Advice, Option<Seq<char>>, Option<Step>) {
        (self.advice, option_view(self.argument), self.next_candidate)
    }
}

/// The step that follows `step`; `None` after the last one.
pub open spec fn spec_next_step(step: Step) -> Option<Step> {
    match step {
        Step::RemoteList => Some(Step::LocalList),
        Step::LocalList => Some(Step::ReadOnlyRemove),
        Step::AllList => Some(Step::ReadOnlyRemove),
        Step::ReadOnlyRemove => Some(Step::CompareFolders),
        Step::CompareFolders => Some(Step::CreateFolders),
        Step::CreateFolders => Some(Step::CompareFiles),
        Step::CompareFiles => Some(Step::ChangeTimeFiles),
        Step::ChangeTimeFiles => Some(Step::MoveLocalFiles),
        Step::MoveLocalFiles => Some(Step::RenameLocalFiles),
        Step::RenameLocalFiles => Some(Step::TrashFiles),
        Step::TrashFiles => Some(Step::DownloadFromList),
        Step::DownloadFromList => Some(Step::TrashFolders),
        Step::TrashFolders => None,
    }
}

/// The work lists that must all be non-empty for `step` to have work to
/// do, in the order in which they are looked at.
pub open spec fn spec_required_lists(step: Step) -> Seq<ListKind> {
    match step {
        Step::ReadOnlyRemove => seq![ListKind::ReadonlyFiles],
        Step::CreateFolders => seq![ListKind::ForCreateFolders],
        Step::ChangeTimeFiles => seq![ListKind::ForChangeTimeFiles],
        Step::MoveLocalFiles => seq![ListKind::ForDownload, ListKind::ForTrashFiles],
        Step::RenameLocalFiles => seq![ListKind::ForDownload, ListKind::ForTrashFiles],
        Step::TrashFiles => seq![ListKind::ForTrashFiles],
        Step::DownloadFromList => seq![ListKind::ForDownload],
        Step::TrashFolders => seq![ListKind::ForTrashFolders],
        _ => Seq::empty(),
    }
}

/// The advice on a candidate step, given whether all of its required lists
/// are non-empty: a step without required lists always runs.
pub open spec fn spec_advise(candidate: Step, required_lists_non_empty: bool) -> Advice {
    if spec_required_lists(candidate).len() == 0 || required_lists_non_empty {
        Advice::Run(candidate)
    } else {
        Advice::Skip(candidate)
    }
}

/// Whether a step has work to do, given which steps have all their work
/// lists non-empty.
pub open spec fn runnable(step: Step, lists_non_empty: spec_fn(Step) -> bool) -> bool {
    spec_required_lists(step).len() == 0 || lists_non_empty(step)
}

/// The argument shown with a suggested command.
pub open spec fn spec_suggested_argument(step: Step) -> Option<Seq<char>> {
    if step == Step::LocalList {
        Some("e:/DropBoxBackup2"@)
    } else {
        None
    }
}

/// The hint on a candidate next step (`None`: no step is left), given
/// whether all its work lists are non-empty.
pub open spec fn spec_hint(candidate: Option<Step>, required_lists_non_empty: bool) -> (
    Advice,
    Option<Seq<char>>,
    Option<Step>,
) {
    match candidate {
        None => (Advice::RepeatLocalList, None, None),
        Some(s) => if spec_advise(s, required_lists_non_empty) == Advice::Run(s) {
            (Advice::Run(s), spec_suggested_argument(s), None)
        } else {
            (Advice::Skip(s), None, spec_next_step(s))
        },
    }
}

/// How far a candidate is from the end of the workflow.
pub open spec fn distance_to_end(candidate: Option<Step>) -> nat {
    match candidate {
        None => 0,
        Some(s) => (12 - rank(s)) as nat,
    }
}

/// The rule for the next step: from a candidate on, the first step that
/// has work to do is run; when none has, the disk is listed again.
pub open spec fn spec_cascade(candidate: Option<Step>, lists_non_empty: spec_fn(Step) -> bool) -> Advice
    decreases distance_to_end(candidate),
{
    match candidate {
        None => Advice::RepeatLocalList,
        Some(s) => if runnable(s, lists_non_empty) {
            Advice::Run(s)
        } else {
            spec_cascade(spec_next_step(s), lists_non_empty)
        },
    }
}

/// The steps that a sync runs, in order, once the files are listed.
pub open spec fn spec_sync_steps() -> Seq<Step> {
    seq![
        Step::ReadOnlyRemove,
        Step::CompareFolders,
        Step::CreateFolders,
        Step::CompareFiles,
        Step::ChangeTimeFiles,
        Step::MoveLocalFiles,
        Step::RenameLocalFiles,
        Step::TrashFiles,
        Step::DownloadFromList,
        Step::TrashFolders,
    ]
}

/// The line that tells the user that a step, candidate after `last_step`,
/// has nothing to do; `None` for the steps that are never skipped.
pub open spec fn spec_skip_message(last_step: Step, step: Step) -> Option<Seq<char>> {
    match step {
        Step::ReadOnlyRemove => if last_step == Step::AllList {
            Some("There are no readonly files in local_list. We can skip the command read_only_remove. Run: "@)
        } else {
            Some("There are no readonly files in local_list. We can skip the command read_only_remove. Run:"@)
        },
        Step::CreateFolders => Some("There are no folders to create. We can skip the command create_folders. Run: "@),
        Step::ChangeTimeFiles => Some("There are no files to change time. We can skip the command change_time_files. Run: "@),
        Step::MoveLocalFiles => Some("There are no files to move. We can skip the command move_local_files. Run: "@),
        Step::RenameLocalFiles => Some("There are no files to rename. We can skip the command rename_local_files. Run: "@),
        Step::TrashFiles => Some("There are no folders to trash. We can skip the command trash_files. Run: "@),
        Step::DownloadFromList => Some("There are no files to download. We can skip the command download_from_list. Run:"@),
        Step::TrashFolders => Some("There are no folders to trash. We can skip the command trash_folders. Run: "@),
        _ => None,
    }
}

/// The position of a step in the workflow.
pub open spec fn rank(step: Step) -> nat {
    match step {
        Step::RemoteList => 0,
        Step::LocalList => 1,
        Step::AllList => 1,
        Step::ReadOnlyRemove => 2,
        Step::CompareFolders => 3,
        Step::CreateFolders => 4,
        Step::CompareFiles => 5,
        Step::ChangeTimeFiles => 6,
        Step::MoveLocalFiles => 7,
        Step::RenameLocalFiles => 8,
        Step::TrashFiles => 9,
        Step::DownloadFromList => 10,
        Step::TrashFolders => 11,
    }
}

/// The sub-command that runs a step.
pub open spec fn spec_step_command(step: Step) -> CommandKind {
    match step {
        Step::RemoteList => CommandKind::RemoteList,
        Step::LocalList => CommandKind::LocalList,
        Step::AllList => CommandKind::AllList,
        Step::ReadOnlyRemove => CommandKind::ReadOnlyRemove,
        Step::CompareFolders => CommandKind::CompareFolders,
        Step::CreateFolders => CommandKind::CreateFolders,
        Step::CompareFiles => CommandKind::CompareFiles,
        Step::ChangeTimeFiles => CommandKind::ChangeTimeFiles,
        Step::MoveLocalFiles => CommandKind::MoveLocalFiles,
        Step::RenameLocalFiles => CommandKind::RenameLocalFiles,
        Step::TrashFiles => CommandKind::TrashFiles,
        Step::DownloadFromList => CommandKind::DownloadFromList,
        Step::TrashFolders => CommandKind::TrashFolders,
    }
}

/// The word on the command line that runs a step.
pub open spec fn spec_step_name(step: Step) -> Seq<char> {
    match step {
        Step::RemoteList => "remote_list"@,
        Step::LocalList => "local_list"@,
        Step::AllList => "all_list"@,
        Step::ReadOnlyRemove => "read_only_remove"@,
        Step::CompareFolders => "compare_folders"@,
        Step::CreateFolders => "create_folders"@,
        Step::CompareFiles => "compare_files"@,
        Step::ChangeTimeFiles => "change_time_files"@,
        Step::MoveLocalFiles => "move_local_files"@,
        Step::RenameLocalFiles => "rename_local_files"@,
        Step::TrashFiles => "trash_files"@,
        Step::DownloadFromList => "download_from_list"@,
        Step::TrashFolders => "trash_folders"@,
    }
}

/// The step that follows `step`; `None` after the last one.
pub fn next_step(step: Step) -> (r: Option<Step>)
    ensures
        r == spec_next_step(step),
{
    match step {
        Step::RemoteList => Some(Step::LocalList),
        Step::LocalList => Some(Step::ReadOnlyRemove),
        Step::AllList => Some(Step::ReadOnlyRemove),
        Step::ReadOnlyRemove => Some(Step::CompareFolders),
        Step::CompareFolders => Some(Step::CreateFolders),
        Step::CreateFolders => Some(Step::CompareFiles),
        Step::CompareFiles => Some(Step::ChangeTimeFiles),
        Step::ChangeTimeFiles => Some(Step::MoveLocalFiles),
        Step::MoveLocalFiles => Some(Step::RenameLocalFiles),
        Step::RenameLocalFiles => Some(Step::TrashFiles),
        Step::TrashFiles => Some(Step::DownloadFromList),
        Step::DownloadFromList => Some(Step::TrashFolders),
        Step::TrashFolders => None,
    }
}

/// The work lists that must all be non-empty for `step` to have work to do.
pub fn required_lists(step: Step) -> (r: Vec<ListKind>)
    ensures
        r@ == spec_required_lists(step),
{
    let mut v: Vec<ListKind> = Vec::new();
    match step {
        Step::ReadOnlyRemove => v.push(ListKind::ReadonlyFiles),
        Step::CreateFolders => v.push(ListKind::ForCreateFolders),
        Step::ChangeTimeFiles => v.push(ListKind::ForChangeTimeFiles),
        Step::MoveLocalFiles | Step::RenameLocalFiles => {
            v.push(ListKind::ForDownload);
            v.push(ListKind::ForTrashFiles);
        },
        Step::TrashFiles => v.push(ListKind::ForTrashFiles),
        Step::DownloadFromList => v.push(ListKind::ForDownload),
        Step::TrashFolders => v.push(ListKind::ForTrashFolders),
        _ => {},
    }
    assert(v@ =~= spec_required_lists(step));
    v
}

/// The advice on a candidate step, given whether all of its required lists
/// were found non-empty.
pub fn advise(candidate: Step, required_lists_non_empty: bool) -> (r: Advice)
    ensures
        r == spec_advise(candidate, required_lists_non_empty),
{
    let lists = required_lists(candidate);
    if lists.len() == 0 || required_lists_non_empty {
        Advice::Run(candidate)
    } else {
        Advice::Skip(candidate)
    }
}

/// The hint on a candidate next step (`None`: no step is left), given
/// whether all of its work lists were found non-empty: one turn of telling
/// the user what to run next.
pub fn next_step_hint(candidate: Option<Step>, required_lists_non_empty: bool) -> (r: NextStepHint)
    ensures
        r@ == spec_hint(candidate, required_lists_non_empty),
{
    match candidate {
        None => NextStepHint { advice: Advice::RepeatLocalList, argument: None, next_candidate: None },
        Some(s) => match advise(s, required_lists_non_empty) {
            Advice::Run(s) => {
                let argument = match s {
                    Step::LocalList => Some(String::from_str("e:/DropBoxBackup2")),
                    _ => None,
                };
                NextStepHint { advice: Advice::Run(s), argument, next_candidate: None }
            },
            _ => NextStepHint { advice: Advice::Skip(s), argument: None, next_candidate: next_step(s) },
        },
    }
}

/// The steps that a sync runs, in order, once the files are listed.
pub fn sync_steps() -> (r: Vec<Step>)
    ensures
        r@ == spec_sync_steps(),
{
    let mut v: Vec<Step> = Vec::new();
    v.push(Step::ReadOnlyRemove);
    v.push(Step::CompareFolders);
    v.push(Step::CreateFolders);
    v.push(Step::CompareFiles);
    v.push(Step::ChangeTimeFiles);
    v.push(Step::MoveLocalFiles);
    v.push(Step::RenameLocalFiles);
    v.push(Step::TrashFiles);
    v.push(Step::DownloadFromList);
    v.push(Step::TrashFolders);
    assert(v@ =~= spec_sync_steps());
    v
}

/// The line that tells the user that a step, candidate after `last_step`,
/// has nothing to do; `None` for the steps that are never skipped.
pub fn skip_message(last_step: Step, step: Step) -> (r: Option<String>)
    ensures
        option_view(r) == spec_skip_message(last_step, step),
{
    let text: Option<&str> = match step {
        Step::ReadOnlyRemove => if last_step == Step::AllList {
            Some("There are no readonly files in local_list. We can skip the command read_only_remove. Run: ")
        } else {
            Some("There are no readonly files in local_list. We can skip the command read_only_remove. Run:")
        },
        Step::CreateFolders => Some("There are no folders to create. We can skip the command create_folders. Run: "),
        Step::ChangeTimeFiles => Some("There are no files to change time. We can skip the command change_time_files. Run: "),
        Step::MoveLocalFiles => Some("There are no files to move. We can skip the command move_local_files. Run: "),
        Step::RenameLocalFiles => Some("There are no files to rename. We can skip the command rename_local_files. Run: "),
        Step::TrashFiles => Some("There are no folders to trash. We can skip the command trash_files. Run: "),
        Step::DownloadFromList => Some("There are no files to download. We can skip the command download_from_list. Run:"),
        Step::TrashFolders => Some("There are no folders to trash. We can skip the command trash_folders. Run: "),
        _ => None,
    };
    match text {
        Some(t) => Some(String::from_str(t)),
        None => None,
    }
}

/// Every step that can be skipped has a line that says so, and no other
/// step has one.
pub proof fn lemma_skipped_steps_are_explained(last_step: Step, step: Step)
    ensures
        spec_skip_message(last_step, step) is Some <==> spec_required_lists(step).len() > 0,
{
}

/// The word on the command line that runs a step.
pub fn step_name(step: Step) -> (r: String)
    ensures
        r@ == spec_step_name(step),
{
    let s: &str = match step {
        Step::RemoteList => "remote_list",
        Step::LocalList => "local_list",
        Step::AllList => "all_list",
        Step::ReadOnlyRemove => "read_only_remove",
        Step::CompareFolders => "compare_folders",
        Step::CreateFolders => "create_folders",
        Step::CompareFiles => "compare_files",
        Step::ChangeTimeFiles => "change_time_files",
        Step::MoveLocalFiles => "move_local_files",
        Step::RenameLocalFiles => "rename_local_files",
        Step::TrashFiles => "trash_files",
        Step::DownloadFromList => "download_from_list",
        Step::TrashFolders => "trash_folders",
    };
    String::from_str(s)
}

/// The workflow only moves forward: the step after a step comes later in
/// the workflow, so telling the user the next step, skipping the steps that
/// have nothing to do, always comes to an end.
pub proof fn lemma_workflow_moves_forward(step: Step)
    ensures
        spec_next_step(step) matches Some(next) ==> rank(next) > rank(step),
{
}

/// Trashing folders is the last step, so that nothing is deleted before it
/// was moved or renamed: every other step comes before it, and nothing
/// follows it.
pub proof fn lemma_trash_folders_is_last(step: Step)
    ensures
        step != Step::TrashFolders ==> rank(step) < rank(Step::TrashFolders),
        spec_next_step(step) is None <==> step == Step::TrashFolders,
{
}

/// A step is skipped exactly when it has work lists and they are not all
/// non-empty; a step without work lists is always run.
pub proof fn lemma_skip_only_without_work(step: Step, required_lists_non_empty: bool)
    ensures
        spec_advise(step, required_lists_non_empty) == Advice::Skip(step) <==> (
        spec_required_lists(step).len() > 0 && !required_lists_non_empty),
        spec_advise(step, required_lists_non_empty) != Advice::Skip(step) ==> spec_advise(
            step,
            required_lists_non_empty,
        ) == Advice::Run(step),
        spec_required_lists(step).len() == 0 ==> spec_advise(step, required_lists_non_empty)
            == Advice::Run(step),
{
}

proof fn lemma_cascade(candidate: Option<Step>, lists_non_empty: spec_fn(Step) -> bool)
    ensures
        spec_cascade(candidate, lists_non_empty) matches Advice::Run(s) ==> {
            &&& candidate is Some
            &&& rank(candidate.unwrap()) <= rank(s)
            &&& runnable(s, lists_non_empty)
            &&& forall|t: Step|
                rank(candidate.unwrap()) <= #[trigger] rank(t) < rank(s) ==> !runnable(
                    t,
                    lists_non_empty,
                )
        },
        spec_cascade(candidate, lists_non_empty) is RepeatLocalList ==> forall|t: Step|
            candidate is Some && rank(candidate.unwrap()) <= #[trigger] rank(t) ==> !runnable(
                t,
                lists_non_empty,
            ),
        !(spec_cascade(candidate, lists_non_empty) is Skip),
    decreases distance_to_end(candidate),
{
    match candidate {
        None => {},
        Some(x) => {
            if !runnable(x, lists_non_empty) {
                lemma_cascade(spec_next_step(x), lists_non_empty);
            }
        },
    }
}

/// After a finished step, the advice is the first later step that has work
/// to do, every step in between having none; when no later step has work,
/// the user is asked to list the disk again. A step is never the advice
/// just to be skipped.
pub proof fn lemma_next_step_advice(last: Step, lists_non_empty: spec_fn(Step) -> bool)
    ensures
        spec_cascade(spec_next_step(last), lists_non_empty) matches Advice::Run(s) ==> {
            &&& rank(last) < rank(s)
            &&& runnable(s, lists_non_empty)
            &&& forall|t: Step|
                rank(last) < #[trigger] rank(t) < rank(s) ==> !runnable(t, lists_non_empty)
        },
        spec_cascade(spec_next_step(last), lists_non_empty) is RepeatLocalList ==> forall|t: Step|
            rank(last) < #[trigger] rank(t) ==> !runnable(t, lists_non_empty),
        !(spec_cascade(spec_next_step(last), lists_non_empty) is Skip),
{
    lemma_cascade(spec_next_step(last), lists_non_empty);
}

/// One turn of `next_step_hint` follows the rule `spec_cascade`: a run or
/// a repeated listing is the advice of the rule, and after a skip the rule
/// goes on with the next candidate.
pub proof fn lemma_hint_follows_cascade(
    candidate: Option<Step>,
    lists_non_empty: spec_fn(Step) -> bool,
)
    ensures
        ({
            let h = spec_hint(
                candidate,
                candidate matches Some(s) && lists_non_empty(s),
            );
            if h.0 is Skip {
                spec_cascade(candidate, lists_non_empty) == spec_cascade(h.2, lists_non_empty)
            } else {
                h.0 == spec_cascade(candidate, lists_non_empty)
            }
        }),
{
}

/// A sync runs the steps of the workflow from the one after listing up to
/// the last one, each followed by the next, in workflow order.
pub proof fn lemma_sync_steps_follow_workflow(i: int)
    requires
        0 <= i < spec_sync_steps().len(),
    ensures
        spec_sync_steps()[0] == spec_next_step(Step::LocalList).unwrap(),
        i + 1 < spec_sync_steps().len() ==> spec_next_step(spec_sync_steps()[i]) == Some(
            spec_sync_steps()[i + 1],
        ),
        i + 1 == spec_sync_steps().len() ==> spec_next_step(spec_sync_steps()[i]) is None,
{
}

/// Each step has work exactly when the lists it works on are non-empty:
/// read-only removal the read-only files, folder creation the folders to
/// create, the time change its list, moving and renaming both the lists to
/// download and to trash, trashing files the files to trash, downloading
/// the files to download, and trashing folders the folders to trash; no
/// list is looked at twice.
pub proof fn lemma_steps_work_on_their_lists(step: Step, list: ListKind)
    ensures
        spec_required_lists(step).contains(list) <==> match list {
            ListKind::ReadonlyFiles => step == Step::ReadOnlyRemove,
            ListKind::ForCreateFolders => step == Step::CreateFolders,
            ListKind::ForChangeTimeFiles => step == Step::ChangeTimeFiles,
            ListKind::ForDownload => step == Step::MoveLocalFiles || step == Step::RenameLocalFiles
                || step == Step::DownloadFromList,
            ListKind::ForTrashFiles => step == Step::MoveLocalFiles || step == Step::RenameLocalFiles
                || step == Step::TrashFiles,
            ListKind::ForTrashFolders => step == Step::TrashFolders,
        },
        spec_required_lists(step).no_duplicates(),
{
    let l = spec_required_lists(step);
    assert(l.len() <= 2);
    if l.len() > 0 && l[0] == list {
        assert(l.contains(list));
    }
    if l.len() > 1 && l[1] == list {
        assert(l.contains(list));
    }
    if l.contains(list) {
        let i = choose|i: int| 0 <= i < l.len() && l[i] == list;
        assert(i == 0 || i == 1);
    }
}

/// Every step that the tool tells the user to run is a sub-command that
/// its argument routing accepts, and routes to the sub-command of that
/// step (with the path argument where the sub-command takes one).
pub proof fn lemma_suggested_steps_are_commands(step: Step, path: Seq<char>)
    ensures
        spec_route(Some(spec_step_name(step)), Some(path)) == Ok::<
            (CommandKind, Option<Seq<char>>),
            crate::command::RouteError,
        >(
            (
                spec_step_command(step),
                if needs_path(spec_step_command(step)) {
                    Some(path)
                } else {
                    None
                },
            ),
        ),
{
    reveal_strlit("--help");
    reveal_strlit("-h");
    reveal_strlit("completion");
    reveal_strlit("encode_token");
    reveal_strlit("test");
    reveal_strlit("remote_list");
    reveal_strlit("local_list");
    reveal_strlit("all_list");
    reveal_strlit("read_only_remove");
    reveal_strlit("compare_files");
    reveal_strlit("compare_folders");
    reveal_strlit("change_time_files");
    reveal_strlit("create_folders");
    reveal_strlit("move_local_files");
    reveal_strlit("rename_local_files");
    reveal_strlit("trash_files");
    reveal_strlit("trash_folders");
    reveal_strlit("one_file_download");
    reveal_strlit("download_from_list");
    reveal_strlit("sync_only");
    reveal_strlit("list_and_sync");
    assert("--help"@.len() == 6 && "--help"@[0] == '-');
    assert("-h"@.len() == 2 && "-h"@[0] == '-');
    assert("completion"@.len() == 10 && "completion"@[0] == 'c');
    assert("encode_token"@.len() == 12 && "encode_token"@[0] == 'e');
    assert("test"@.len() == 4 && "test"@[0] == 't');
    assert("remote_list"@.len() == 11 && "remote_list"@[0] == 'r');
    assert("local_list"@.len() == 10 && "local_list"@[0] == 'l');
    assert("all_list"@.len() == 8 && "all_list"@[0] == 'a');
    assert("read_only_remove"@.len() == 16 && "read_only_remove"@[0] == 'r');
    assert("compare_files"@.len() == 13 && "compare_files"@[0] == 'c');
    assert("compare_folders"@.len() == 15 && "compare_folders"@[0] == 'c');
    assert("change_time_files"@.len() == 17 && "change_time_files"@[0] == 'c');
    assert("create_folders"@.len() == 14 && "create_folders"@[0] == 'c');
    assert("move_local_files"@.len() == 16 && "move_local_files"@[0] == 'm');
    assert("rename_local_files"@.len() == 18 && "rename_local_files"@[0] == 'r');
    assert("trash_files"@.len() == 11 && "trash_files"@[0] == 't');
    assert("trash_folders"@.len() == 13 && "trash_folders"@[0] == 't');
    assert("one_file_download"@.len() == 17 && "one_file_download"@[0] == 'o');
    assert("download_from_list"@.len() == 18 && "download_from_list"@[0] == 'd');
    assert("sync_only"@.len() == 9 && "sync_only"@[0] == 's');
    assert("list_and_sync"@.len() == 13 && "list_and_sync"@[0] == 'l');
    assert(spec_kind_of_word(spec_step_name(step)) == Some(spec_step_command(step)));
}

} // verus!
