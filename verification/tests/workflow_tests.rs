use dropbox_backup_to_external_disk_cli::command::classify_arguments;
use dropbox_backup_to_external_disk_cli::workflow::{
    advise, next_step, next_step_hint, required_lists, skip_message, step_name, sync_steps, Advice, ListKind, Step,
};

const ALL: [Step; 13] = [
    Step::RemoteList,
    Step::LocalList,
    Step::AllList,
    Step::ReadOnlyRemove,
    Step::CompareFolders,
    Step::CreateFolders,
    Step::CompareFiles,
    Step::ChangeTimeFiles,
    Step::MoveLocalFiles,
    Step::RenameLocalFiles,
    Step::TrashFiles,
    Step::DownloadFromList,
    Step::TrashFolders,
];

#[test]
fn steps_follow_in_order() {
    assert_eq!(next_step(Step::RemoteList), Some(Step::LocalList));
    assert_eq!(next_step(Step::AllList), Some(Step::ReadOnlyRemove));
    assert_eq!(next_step(Step::CompareFiles), Some(Step::ChangeTimeFiles));
    assert_eq!(next_step(Step::DownloadFromList), Some(Step::TrashFolders));
    assert_eq!(next_step(Step::TrashFolders), None);
}

#[test]
fn move_and_rename_need_download_and_trash_lists() {
    assert_eq!(required_lists(Step::MoveLocalFiles), vec![ListKind::ForDownload, ListKind::ForTrashFiles]);
    assert_eq!(required_lists(Step::RenameLocalFiles), vec![ListKind::ForDownload, ListKind::ForTrashFiles]);
    assert_eq!(required_lists(Step::ChangeTimeFiles), vec![ListKind::ForChangeTimeFiles]);
    assert!(required_lists(Step::CompareFiles).is_empty());
}

#[test]
fn empty_steps_are_skipped() {
    assert_eq!(advise(Step::ChangeTimeFiles, false), Advice::Skip(Step::ChangeTimeFiles));
    assert_eq!(advise(Step::ChangeTimeFiles, true), Advice::Run(Step::ChangeTimeFiles));
    assert_eq!(advise(Step::CompareFolders, false), Advice::Run(Step::CompareFolders));
}

#[test]
fn chain_after_compare_files_with_nothing_to_do() {
    // every list empty: every conditional step is skipped up to the end
    let mut candidate = next_step(Step::CompareFiles);
    let mut skipped = Vec::new();
    while let Some(s) = candidate {
        match advise(s, false) {
            Advice::Run(s) => panic!("unexpected run of {:?}", s),
            Advice::RepeatLocalList => unreachable!(),
            Advice::Skip(s) => {
                skipped.push(s);
                candidate = next_step(s);
            }
        }
    }
    assert_eq!(
        skipped,
        vec![
            Step::ChangeTimeFiles,
            Step::MoveLocalFiles,
            Step::RenameLocalFiles,
            Step::TrashFiles,
            Step::DownloadFromList,
            Step::TrashFolders
        ]
    );
}

#[test]
fn every_step_ends_within_the_workflow() {
    for s in ALL {
        let mut candidate = Some(s);
        let mut steps = 0;
        while let Some(c) = candidate {
            candidate = next_step(c);
            steps += 1;
            assert!(steps <= 13);
        }
    }
}

#[test]
fn suggested_commands_are_routed() {
    for s in ALL {
        let name = step_name(s);
        let c = classify_arguments(Some(&name), Some("/mnt/e/x")).unwrap();
        assert_eq!(format!("{:?}", c.kind), format!("{:?}", s));
    }
    assert_eq!(step_name(Step::TrashFolders), "trash_folders");
}

/// Runs the hints from the step after `last`, answering with `non_empty`.
fn cascade(last: Step, non_empty: &dyn Fn(Step) -> bool) -> (Vec<Step>, Advice, Option<String>) {
    let mut candidate = next_step(last);
    let mut skipped = Vec::new();
    loop {
        let answer = match candidate {
            Some(s) => non_empty(s),
            None => true,
        };
        let hint = next_step_hint(candidate, answer);
        match hint.advice {
            Advice::Skip(s) => {
                skipped.push(s);
                candidate = hint.next_candidate;
            }
            advice => return (skipped, advice, hint.argument),
        }
    }
}

#[test]
fn hint_after_remote_list_carries_the_disk_argument() {
    let (skipped, advice, argument) = cascade(Step::RemoteList, &|_| false);
    assert!(skipped.is_empty());
    assert_eq!(advice, Advice::Run(Step::LocalList));
    assert_eq!(argument, Some("e:/DropBoxBackup2".to_string()));
}

#[test]
fn hint_skips_to_the_first_step_with_work() {
    let (skipped, advice, argument) =
        cascade(Step::CompareFiles, &|s| s == Step::TrashFiles || s == Step::DownloadFromList);
    assert_eq!(skipped, vec![Step::ChangeTimeFiles, Step::MoveLocalFiles, Step::RenameLocalFiles]);
    assert_eq!(advice, Advice::Run(Step::TrashFiles));
    assert_eq!(argument, None);
}

#[test]
fn hint_ends_with_listing_again() {
    let (skipped, advice, _) = cascade(Step::DownloadFromList, &|_| false);
    assert_eq!(skipped, vec![Step::TrashFolders]);
    assert_eq!(advice, Advice::RepeatLocalList);
    let (skipped, advice, _) = cascade(Step::TrashFolders, &|_| true);
    assert!(skipped.is_empty());
    assert_eq!(advice, Advice::RepeatLocalList);
    let (_, advice, _) = cascade(Step::LocalList, &|_| false);
    assert_eq!(advice, Advice::Run(Step::CompareFolders));
}

#[test]
fn sync_runs_the_steps_after_listing() {
    let steps = sync_steps();
    assert_eq!(steps.len(), 10);
    assert_eq!(steps[0], Step::ReadOnlyRemove);
    assert_eq!(*steps.last().unwrap(), Step::TrashFolders);
    for w in steps.windows(2) {
        assert_eq!(next_step(w[0]), Some(w[1]));
    }
}

#[test]
fn skip_lines() {
    assert_eq!(
        skip_message(Step::CompareFiles, Step::ChangeTimeFiles).unwrap(),
        "There are no files to change time. We can skip the command change_time_files. Run: "
    );
    assert_eq!(
        skip_message(Step::LocalList, Step::ReadOnlyRemove).unwrap(),
        "There are no readonly files in local_list. We can skip the command read_only_remove. Run:"
    );
    assert_eq!(
        skip_message(Step::AllList, Step::ReadOnlyRemove).unwrap(),
        "There are no readonly files in local_list. We can skip the command read_only_remove. Run: "
    );
    assert_eq!(
        skip_message(Step::TrashFiles, Step::DownloadFromList).unwrap(),
        "There are no files to download. We can skip the command download_from_list. Run:"
    );
    assert_eq!(skip_message(Step::RemoteList, Step::LocalList), None);
    assert_eq!(skip_message(Step::CreateFolders, Step::CompareFiles), None);
}
