use dropbox_backup_to_external_disk_cli::error::CliError;
use dropbox_backup_to_external_disk_cli::path::{
    add_end_slash, base_path_for_listing, base_path_for_platform, get_ext_disk_base_path, paths_for_one_file_download,
    require_non_empty_base_path, windows_form_may_fail,
};

fn crate_add_end_slash(s: &str) -> String {
    crossplatform_path::CrossPathBuf::new(s).unwrap().add_end_slash().unwrap().as_str().to_string()
}

#[test]
fn end_slash_is_added_once() {
    assert_eq!(add_end_slash("/mnt/e/DropBoxBackup2"), "/mnt/e/DropBoxBackup2/");
    assert_eq!(add_end_slash("/mnt/e/DropBoxBackup2/"), "/mnt/e/DropBoxBackup2/");
    assert_eq!(add_end_slash("/mnt/e/DropBoxBackup2///"), "/mnt/e/DropBoxBackup2/");
    assert_eq!(add_end_slash(""), "/");
    assert_eq!(add_end_slash("/"), "/");
}

#[test]
fn end_slash_trims_white_space() {
    assert_eq!(add_end_slash("  a b /"), "a b/");
    assert_eq!(add_end_slash("a /"), "a/");
    assert_eq!(add_end_slash("a/ "), "a//");
    assert_eq!(add_end_slash("\u{3000}x\u{2003}"), "x/");
    assert_eq!(add_end_slash("\u{200B}x"), "\u{200B}x/");
}

#[test]
fn end_slash_agrees_with_crossplatform_path() {
    for s in ["/mnt/e/DropBoxBackup2", "a /", "x/y/", "/", "", "tmp/dir", "/mnt/c/x y", "dir\u{3000}/"] {
        assert_eq!(add_end_slash(s), crate_add_end_slash(s), "for {:?}", s);
    }
}

#[test]
fn stored_base_path_is_read_back() {
    assert_eq!(get_ext_disk_base_path("/mnt/e/DropBoxBackup2/").unwrap(), "/mnt/e/DropBoxBackup2/");
    assert_eq!(get_ext_disk_base_path(r"e:\DropBoxBackup2\").unwrap(), "/mnt/e/DropBoxBackup2/");
}

#[test]
fn empty_stored_base_path_is_refused() {
    assert!(matches!(get_ext_disk_base_path(""), Err(CliError::EmptyBasePath)));
    assert!(matches!(require_non_empty_base_path(String::new()), Err(CliError::EmptyBasePath)));
    assert_eq!(require_non_empty_base_path("x".to_string()).unwrap(), "x");
}

#[test]
fn invalid_stored_base_path_is_refused() {
    assert!(matches!(get_ext_disk_base_path("a<b"), Err(CliError::InvalidPath(_))));
    assert!(matches!(get_ext_disk_base_path("/a/../b"), Err(CliError::InvalidPath(_))));
    assert!(matches!(get_ext_disk_base_path("  "), Err(CliError::InvalidPath(_))));
}

fn crate_current_os(s: &str) -> String {
    crossplatform_path::CrossPathBuf::new(s).unwrap().to_path_buf_current_os().to_string_lossy().to_string()
}

#[test]
fn listing_form_of_the_base_path() {
    for s in ["/mnt/e/DropBoxBackup2/", r"e:\DropBoxBackup2\", "backup/", "/tmp/x/", "/c/data/"] {
        assert_eq!(base_path_for_listing(s).unwrap(), crate_current_os(s), "for {:?}", s);
    }
    if std::path::MAIN_SEPARATOR == '/' {
        assert_eq!(base_path_for_listing(r"e:\DropBoxBackup2\").unwrap(), "/mnt/e/DropBoxBackup2/");
        assert_eq!(base_path_for_listing("/").unwrap(), "/");
        assert_eq!(base_path_for_listing("").unwrap(), "");
        let home = base_path_for_listing("~/backup/").unwrap();
        assert!(home.ends_with("/backup/"));
    }
    assert!(matches!(base_path_for_listing("a*b"), Err(CliError::InvalidPath(_))));
}

#[test]
fn windows_form_failures_are_known() {
    assert!(windows_form_may_fail("~/x/"));
    assert!(windows_form_may_fail("/"));
    assert!(windows_form_may_fail("/a"));
    assert!(windows_form_may_fail("/mnt/"));
    assert!(windows_form_may_fail("/mnt/é/x"));
    assert!(windows_form_may_fail("/é/x"));
    assert!(!windows_form_may_fail("/mnt/e/x"));
    assert!(!windows_form_may_fail("/tmp"));
    assert!(!windows_form_may_fail("/ab"));
    assert!(!windows_form_may_fail("relative/x"));
    assert!(!windows_form_may_fail(""));
}

#[test]
fn one_file_download_paths() {
    let (base, file) = paths_for_one_file_download("/mnt/e/backup/", r"folder\file.txt").unwrap();
    assert_eq!(base, "/mnt/e/backup/");
    assert_eq!(file, "folder/file.txt");
    // the base path is checked first
    assert!(matches!(paths_for_one_file_download("", "a|b"), Err(CliError::EmptyBasePath)));
    assert!(matches!(paths_for_one_file_download("x|", "a"), Err(CliError::InvalidPath(_))));
    assert!(matches!(paths_for_one_file_download("/mnt/e/", "a|b"), Err(CliError::InvalidPath(_))));
}

#[test]
fn platform_forms_of_the_base_path() {
    // Linux form: unchanged but for the home directory
    assert_eq!(base_path_for_platform(r"e:\DropBoxBackup2\", false).unwrap(), "/mnt/e/DropBoxBackup2/");
    assert_eq!(base_path_for_platform("/", false).unwrap(), "/");
    assert!(base_path_for_platform("~/backup/", false).unwrap().ends_with("/backup/"));
    // Windows form: drive letters come back
    assert_eq!(base_path_for_platform(r"e:\DropBoxBackup2\", true).unwrap(), "e:/DropBoxBackup2/");
    assert_eq!(base_path_for_platform("/c/data/", true).unwrap(), "c:/data/");
    assert_eq!(base_path_for_platform("/mnt/ab/", true).unwrap(), "/mnt/ab/");
    assert_eq!(base_path_for_platform("relative/x/", true).unwrap(), "relative/x/");
    assert!(base_path_for_platform("/tmp/x/", true).unwrap().ends_with("/x/"));
    // Windows form that may panic is refused
    assert!(matches!(base_path_for_platform("/", true), Err(CliError::NoWindowsForm)));
    assert!(matches!(base_path_for_platform("~/backup/", true), Err(CliError::NoWindowsForm)));
    assert!(matches!(base_path_for_platform("a|b", true), Err(CliError::InvalidPath(_))));
    assert!(matches!(base_path_for_platform("a|b", false), Err(CliError::InvalidPath(_))));
}
