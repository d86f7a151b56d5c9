use dropbox_backup_to_external_disk_cli::progress::{on_message, ProgressAction};

#[test]
fn dots_make_a_progress_bar() {
    let (flag, action) = on_message(false, ".".to_string());
    assert!(flag);
    assert!(matches!(action, ProgressAction::PrintDot));
}

#[test]
fn messages_are_printed_before_a_progress_bar() {
    let (flag, action) = on_message(false, "moved a.txt".to_string());
    assert!(!flag);
    assert!(matches!(action, ProgressAction::PrintLine(m) if m == "moved a.txt"));
    let (flag, action) = on_message(false, "..".to_string());
    assert!(!flag);
    assert!(matches!(action, ProgressAction::PrintLine(m) if m == ".."));
}

#[test]
fn the_first_message_after_dots_only_ends_their_line() {
    let (flag, action) = on_message(true, "done".to_string());
    assert!(!flag);
    assert!(matches!(action, ProgressAction::EndLine));
    let (flag, action) = on_message(false, "next".to_string());
    assert!(!flag);
    assert!(matches!(action, ProgressAction::PrintLine(m) if m == "next"));
}

#[test]
fn a_run_of_messages_with_progress_bars() {
    let mut flag = false;
    let mut out = String::new();
    for m in [".", ".", "done", "moved", ".", "other", "last"] {
        let (f, action) = on_message(flag, m.to_string());
        flag = f;
        match action {
            ProgressAction::PrintDot => out.push('.'),
            ProgressAction::EndLine => out.push('\n'),
            ProgressAction::PrintLine(m) => {
                out.push_str(&m);
                out.push('\n')
            }
        }
    }
    assert!(!flag);
    assert_eq!(out, "..\nmoved\n.\nlast\n");
}
