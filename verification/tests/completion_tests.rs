use dropbox_backup_to_external_disk_cli::completion::{
    base_path_suggestions, completion_candidates, select_sub_commands, top_level_sub_commands,
};

const TOOL: &str = "dropbox_backup_to_external_disk_cli";

#[test]
fn matching_sub_commands_are_offered() {
    assert_eq!(completion_candidates("comp", TOOL), vec!["compare_files", "compare_folders"]);
    assert_eq!(completion_candidates("trash_f", "./dropbox_backup_to_external_disk_cli"), vec!["trash_folders", "trash_files"]);
    assert_eq!(completion_candidates("-", TOOL), vec!["--help", "-h"]);
}

#[test]
fn all_sub_commands_are_offered_when_none_matches() {
    let all = top_level_sub_commands();
    assert_eq!(all.len(), 21);
    assert_eq!(completion_candidates("xyz", TOOL), all);
    assert_eq!(completion_candidates("", TOOL), all);
}

#[test]
fn disk_path_is_offered_after_path_commands() {
    for last in ["list_and_sync", "local_list", "all_list"] {
        assert_eq!(completion_candidates("", last), vec!["e:/DropBoxBackup2"]);
        assert_eq!(completion_candidates("e:", last), vec!["e:/DropBoxBackup2"]);
        assert_eq!(completion_candidates("/mnt", last), vec!["e:/DropBoxBackup2"]);
    }
    assert_eq!(base_path_suggestions(), vec!["e:/DropBoxBackup2"]);
}

#[test]
fn nothing_is_offered_after_other_words() {
    assert!(completion_candidates("", "compare_files").is_empty());
    assert!(completion_candidates("x", "dropbox_backup_to_external_disk_cli2").is_empty());
}

#[test]
fn selection_keeps_order() {
    let subs: Vec<String> = vec!["ab".into(), "b".into(), "abc".into(), "a".into()];
    assert_eq!(select_sub_commands(&subs, "a"), vec!["ab", "abc", "a"]);
    assert_eq!(select_sub_commands(&subs, "abc"), vec!["abc"]);
    assert_eq!(select_sub_commands(&subs, "z"), subs);
    assert!(select_sub_commands(&Vec::new(), "a").is_empty());
}
