use dropbox_backup_to_external_disk_cli::command::{
    classify_arguments, kind_of_word, route_arguments, CommandKind, RouteError,
};
use dropbox_backup_to_external_disk_cli::error::CliError;

#[test]
fn no_argument_asks_for_help() {
    let c = classify_arguments(None, None).unwrap();
    assert_eq!(c.kind, CommandKind::Help);
    assert_eq!(c.path, None);
}

#[test]
fn help_words_ask_for_help() {
    assert_eq!(kind_of_word("--help"), Some(CommandKind::Help));
    assert_eq!(kind_of_word("-h"), Some(CommandKind::Help));
    assert_eq!(kind_of_word("help"), None);
}

#[test]
fn every_sub_command_word_is_routed() {
    let table = [
        ("completion", CommandKind::Completion),
        ("encode_token", CommandKind::EncodeToken),
        ("test", CommandKind::TestConnection),
        ("remote_list", CommandKind::RemoteList),
        ("read_only_remove", CommandKind::ReadOnlyRemove),
        ("compare_files", CommandKind::CompareFiles),
        ("compare_folders", CommandKind::CompareFolders),
        ("change_time_files", CommandKind::ChangeTimeFiles),
        ("create_folders", CommandKind::CreateFolders),
        ("move_local_files", CommandKind::MoveLocalFiles),
        ("rename_local_files", CommandKind::RenameLocalFiles),
        ("trash_files", CommandKind::TrashFiles),
        ("trash_folders", CommandKind::TrashFolders),
        ("download_from_list", CommandKind::DownloadFromList),
    ];
    for (word, kind) in table {
        let c = classify_arguments(Some(word), Some("ignored")).unwrap();
        assert_eq!(c.kind, kind);
        assert_eq!(c.path, None);
    }
}

#[test]
fn sync_commands_are_routed() {
    let c = classify_arguments(Some("sync_only"), None).unwrap();
    assert_eq!(c.kind, CommandKind::SyncOnly);
    assert_eq!(c.path, None);
    assert_eq!(classify_arguments(Some("list_and_sync"), None).unwrap_err(), RouteError::MissingArguments);
    let c = route_arguments(Some("list_and_sync"), Some(r"e:\DropBoxBackup2")).unwrap();
    assert_eq!(c.kind, CommandKind::ListAndSync);
    assert_eq!(c.path, Some("/mnt/e/DropBoxBackup2".to_string()));
    assert!(matches!(route_arguments(Some("list_and_sync"), Some("a?b")), Err(CliError::InvalidPath(_))));
}

#[test]
fn unknown_words_are_unrecognized() {
    for word in ["second_backup", "", "Test", "sync"] {
        assert_eq!(classify_arguments(Some(word), None).unwrap_err(), RouteError::UnrecognizedArguments);
    }
}

#[test]
fn path_commands_need_their_argument() {
    for word in ["local_list", "all_list", "one_file_download"] {
        assert_eq!(classify_arguments(Some(word), None).unwrap_err(), RouteError::MissingArguments);
    }
    let c = classify_arguments(Some("one_file_download"), Some("/folder/file.txt")).unwrap();
    assert_eq!(c.kind, CommandKind::DownloadOneFile);
    assert_eq!(c.path, Some("/folder/file.txt".to_string()));
}

#[test]
fn route_normalizes_the_disk_path() {
    let c = route_arguments(Some("local_list"), Some(r"e:\DropBoxBackup2")).unwrap();
    assert_eq!(c.kind, CommandKind::LocalList);
    assert_eq!(c.path, Some("/mnt/e/DropBoxBackup2".to_string()));
    let c = route_arguments(Some("all_list"), Some("/mnt/d/backup")).unwrap();
    assert_eq!(c.kind, CommandKind::AllList);
    assert_eq!(c.path, Some("/mnt/d/backup".to_string()));
}

#[test]
fn route_keeps_the_download_path_as_given() {
    let c = route_arguments(Some("one_file_download"), Some(r"a\b")).unwrap();
    assert_eq!(c.kind, CommandKind::DownloadOneFile);
    assert_eq!(c.path, Some(r"a\b".to_string()));
}

#[test]
fn route_refuses_an_invalid_disk_path() {
    assert!(matches!(route_arguments(Some("local_list"), Some("e:/back|up")), Err(CliError::InvalidPath(_))));
    assert!(matches!(route_arguments(Some("all_list"), Some("folder.")), Err(CliError::InvalidPath(_))));
}

#[test]
fn route_reports_routing_errors() {
    assert!(matches!(route_arguments(Some("local_list"), None), Err(CliError::MissingArguments)));
    assert!(matches!(route_arguments(Some("second_backup"), None), Err(CliError::UnrecognizedArguments)));
    assert!(matches!(route_arguments(None, None), Ok(c) if c.kind == CommandKind::Help));
}
