//! Bash completion of the sub-commands: bash runs the tool as
//! `<tool> completion <tool> <word being completed> <last word>`, and the
//! tool prints the words that may complete it, one per line.

use vstd::prelude::*;
use crate::command::{lemma_command_word_facts, spec_kind_of_word};
use crate::text::{ends_with, is_prefix_of, is_suffix_of, starts_with, str_equals};

verus! {

/// The views of a sequence of strings.
pub open spec fn strings_view(v: Seq<String>) -> Seq<Seq<char>> {
    v.map_values(|s: String| s@)
}

/// The words of `subs`, in their order, that start with `word`.
pub open spec fn spec_prefixed(subs: Seq<Seq<char>>, word: Seq<char>) -> Seq<Seq<char>>
    decreases subs.len(),
{
    if subs.len() == 0 {
        Seq::empty()
    } else {
        let rest = spec_prefixed(subs.drop_last(), word);
        if is_prefix_of(word, subs.last()) {
            rest.push(subs.last())
        } else {
            rest
        }
    }
}

/// The words offered for completion from `subs`: those that start with
/// `word`, or all of them where none does.
pub open spec fn spec_select(subs: Seq<Seq<char>>, word: Seq<char>) -> Seq<Seq<char>> {
    let p = spec_prefixed(subs, word);
    if p.len() > 0 {
        p
    } else {
        subs
    }
}

/// The sub-commands offered after the name of the tool.
pub open spec fn spec_top_level_sub_commands() -> Seq<Seq<char>> {
    seq![
        "--help"@,
        "-h"@,
        "all_list"@,
        "compare_files"@,
        "compare_folders"@,
        "change_time_files"@,
        "create_folders"@,
        "read_only_remove"@,
        "download_from_list"@,
        "list_and_sync"@,
        "local_list"@,
        "move_local_files"@,
        "rename_local_files"@,
        "one_file_download"@,
        "remote_list"@,
        "second_backup"@,
        "encode_token"@,
        "sync_only"@,
        "test"@,
        "trash_folders"@,
        "trash_files"@,
    ]
}

/// The paths offered after a sub-command that takes the external disk.
pub open spec fn spec_base_path_suggestions() -> Seq<Seq<char>> {
    seq!["e:/DropBoxBackup2"@]
}

/// The last words after which the external disk path is completed.
pub open spec fn is_disk_path_command(last_word: Seq<char>) -> bool {
    last_word == "list_and_sync"@ || last_word == "local_list"@ || last_word == "all_list"@
}

/// The completion words for `word` after `last_word`: the sub-commands
/// after the tool's own name, the example disk path after a sub-command
/// that takes one, nothing otherwise.
pub open spec fn spec_completion(word: Seq<char>, last_word: Seq<char>) -> Seq<Seq<char>> {
    if is_suffix_of("dropbox_backup_to_external_disk_cli"@, last_word) {
        spec_select(spec_top_level_sub_commands(), word)
    } else if is_disk_path_command(last_word) {
        spec_select(spec_base_path_suggestions(), word)
    } else {
        Seq::empty()
    }
}

fn string_of(s: &str) -> (r: String)
    ensures
        r@ == s@,
{
    String::from_str(s)
}

/// The sub-commands offered after the name of the tool.
pub fn top_level_sub_commands() -> (r: Vec<String>)
    ensures
        strings_view(r@) == spec_top_level_sub_commands(),
{
    let mut v: Vec<String> = Vec::new();
    v.push(string_of("--help"));
    v.push(string_of("-h"));
    v.push(string_of("all_list"));
    v.push(string_of("compare_files"));
    v.push(string_of("compare_folders"));
    v.push(string_of("change_time_files"));
    v.push(string_of("create_folders"));
    v.push(string_of("read_only_remove"));
    v.push(string_of("download_from_list"));
    v.push(string_of("list_and_sync"));
    v.push(string_of("local_list"));
    v.push(string_of("move_local_files"));
    v.push(string_of("rename_local_files"));
    v.push(string_of("one_file_download"));
    v.push(string_of("remote_list"));
    v.push(string_of("second_backup"));
    v.push(string_of("encode_token"));
    v.push(string_of("sync_only"));
    v.push(string_of("test"));
    v.push(string_of("trash_folders"));
    v.push(string_of("trash_files"));
    assert(strings_view(v@) =~= spec_top_level_sub_commands());
    v
}

/// The paths offered after a sub-command that takes the external disk.
pub fn base_path_suggestions() -> (r: Vec<String>)
    ensures
        strings_view(r@) == spec_base_path_suggestions(),
{
    let mut v: Vec<String> = Vec::new();
    v.push(string_of("e:/DropBoxBackup2"));
    assert(strings_view(v@) =~= spec_base_path_suggestions());
    v
}

/// The words of `sub_commands` that start with `word_being_completed`, or
/// all of them where none does, in their order.
pub fn select_sub_commands(sub_commands: &Vec<String>, word_being_completed: &str) -> (r: Vec<
    String,
>)
    ensures
        strings_view(r@) == spec_select(strings_view(sub_commands@), word_being_completed@),
{
    let ghost subs = strings_view(sub_commands@);
    let ghost w = word_being_completed@;
    let mut found: Vec<String> = Vec::new();
    let n = sub_commands.len();
    let mut i: usize = 0;
    assert(subs.take(0) =~= Seq::<Seq<char>>::empty());
    while i < n
        invariant
            n == sub_commands@.len(),
            subs == strings_view(sub_commands@),
            w == word_being_completed@,
            i <= n,
            strings_view(found@) == spec_prefixed(subs.take(i as int), w),
        decreases n - i,
    {
        assert(subs.take(i + 1).drop_last() =~= subs.take(i as int));
        assert(subs.take(i + 1).last() == sub_commands@[i as int]@);
        let candidate = &sub_commands[i];
        if starts_with(candidate.as_str(), word_being_completed) {
            found.push(candidate.clone());
            assert(strings_view(found@) =~= spec_prefixed(subs.take(i + 1), w));
        } else {
            assert(strings_view(found@) =~= spec_prefixed(subs.take(i + 1), w));
        }
        i = i + 1;
    }
    assert(subs.take(n as int) =~= subs);
    if found.len() > 0 {
        return found;
    }
    let mut all: Vec<String> = Vec::new();
    let mut j: usize = 0;
    while j < n
        invariant
            n == sub_commands@.len(),
            subs == strings_view(sub_commands@),
            j <= n,
            strings_view(all@) == subs.take(j as int),
        decreases n - j,
    {
        let c = sub_commands[j].clone();
        assert(c@ == subs[j as int]);
        all.push(c);
        assert(strings_view(all@) =~= subs.take(j as int).push(subs[j as int]));
        assert(subs.take(j as int).push(subs[j as int]) =~= subs.take(j + 1));
        j = j + 1;
    }
    all
}

/// The words to print for bash completion, given the word being completed
/// and the last word before it on the command line.
pub fn completion_candidates(word_being_completed: &str, last_word: &str) -> (r: Vec<String>)
    ensures
        strings_view(r@) == spec_completion(word_being_completed@, last_word@),
{
    if ends_with(last_word, "dropbox_backup_to_external_disk_cli") {
        let subs = top_level_sub_commands();
        select_sub_commands(&subs, word_being_completed)
    } else if str_equals(last_word, "list_and_sync") || str_equals(last_word, "local_list")
        || str_equals(last_word, "all_list") {
        let subs = base_path_suggestions();
        select_sub_commands(&subs, word_being_completed)
    } else {
        let r: Vec<String> = Vec::new();
        assert(strings_view(r@) =~= Seq::<Seq<char>>::empty());
        r
    }
}

/// Every word of `spec_prefixed(subs, word)` is a word of `subs` that
/// starts with `word`, and every such word is kept.
pub proof fn lemma_prefixed_members(subs: Seq<Seq<char>>, word: Seq<char>)
    ensures
        forall|x: Seq<char>| #[trigger]
            spec_prefixed(subs, word).contains(x) <==> (subs.contains(x) && is_prefix_of(
                word,
                x,
            )),
    decreases subs.len(),
{
    if subs.len() > 0 {
        lemma_prefixed_members(subs.drop_last(), word);
        assert forall|x: Seq<char>| #[trigger]
            spec_prefixed(subs, word).contains(x) <==> (subs.contains(x) && is_prefix_of(
                word,
                x,
            )) by {
            if subs.contains(x) {
                let k = choose|k: int| 0 <= k < subs.len() && subs[k] == x;
                if k < subs.len() - 1 {
                    assert(subs.drop_last()[k] == x);
                }
            }
            if subs.drop_last().contains(x) {
                let k = choose|k: int| 0 <= k < subs.drop_last().len() && subs.drop_last()[k] == x;
                assert(subs[k] == x);
            }
            let rest = spec_prefixed(subs.drop_last(), word);
            if is_prefix_of(word, subs.last()) {
                assert(rest.push(subs.last())[rest.len() as int] == subs.last());
                if rest.contains(x) {
                    let k = choose|k: int| 0 <= k < rest.len() && rest[k] == x;
                    assert(rest.push(subs.last())[k] == x);
                }
                if rest.push(subs.last()).contains(x) && x != subs.last() {
                    let k = choose|k: int|
                        0 <= k < rest.push(subs.last()).len() && rest.push(subs.last())[k] == x;
                    assert(rest[k] == x);
                }
            }
        }
    }
}

/// Completion offers only listed words, and offers something whenever the
/// list is not empty: the listed words that start with the word being
/// completed where there are any (all of them then), and the whole list
/// otherwise.
pub proof fn lemma_selection(subs: Seq<Seq<char>>, word: Seq<char>)
    ensures
        forall|x: Seq<char>| #[trigger] spec_select(subs, word).contains(x) ==> subs.contains(x),
        (exists|x: Seq<char>| #[trigger] subs.contains(x) && is_prefix_of(word, x)) ==> forall|
            x: Seq<char>,
        |
            (#[trigger] subs.contains(x) && is_prefix_of(word, x)) <==> spec_select(
                subs,
                word,
            ).contains(x),
        subs.len() > 0 ==> spec_select(subs, word).len() > 0,
{
    lemma_prefixed_members(subs, word);
    let p = spec_prefixed(subs, word);
    if exists|x: Seq<char>| #[trigger] subs.contains(x) && is_prefix_of(word, x) {
        let x = choose|x: Seq<char>| #[trigger] subs.contains(x) && is_prefix_of(word, x);
        assert(p.contains(x));
        assert(p.len() > 0);
    }
    if subs.len() > 0 && p.len() == 0 {
        assert(spec_select(subs, word) == subs);
    }
}

/// Every sub-command that completion offers after the tool's name is one
/// that the argument routing accepts, but for `second_backup`, which the
/// tool offers and has no sub-command for.
pub proof fn lemma_offered_sub_commands_are_routed(i: int)
    requires
        0 <= i < spec_top_level_sub_commands().len(),
        spec_top_level_sub_commands()[i] != "second_backup"@,
    ensures
        spec_kind_of_word(spec_top_level_sub_commands()[i]) is Some,
{
}

/// The sub-commands offered after the tool's name are every word that runs
/// a sub-command (but `completion` itself, which bash runs), each once,
/// and `second_backup`.
pub proof fn lemma_offered_words_are_the_sub_commands(w: Seq<char>)
    ensures
        (spec_kind_of_word(w) is Some && w != "completion"@) ==> spec_top_level_sub_commands().contains(w),
        spec_top_level_sub_commands().contains(w) ==> (spec_kind_of_word(w) is Some || w
            == "second_backup"@),
        spec_top_level_sub_commands().contains("second_backup"@),
        !spec_top_level_sub_commands().contains("completion"@),
        spec_top_level_sub_commands().no_duplicates(),
{
    lemma_command_word_facts();
    let l = spec_top_level_sub_commands();
    assert(l[15] == "second_backup"@);
    if w == "--help"@ {
        assert(l[0] == w);
    } else if w == "-h"@ {
        assert(l[1] == w);
    } else if w == "encode_token"@ {
        assert(l[16] == w);
    } else if w == "test"@ {
        assert(l[18] == w);
    } else if w == "remote_list"@ {
        assert(l[14] == w);
    } else if w == "local_list"@ {
        assert(l[10] == w);
    } else if w == "all_list"@ {
        assert(l[2] == w);
    } else if w == "read_only_remove"@ {
        assert(l[7] == w);
    } else if w == "compare_files"@ {
        assert(l[3] == w);
    } else if w == "compare_folders"@ {
        assert(l[4] == w);
    } else if w == "change_time_files"@ {
        assert(l[5] == w);
    } else if w == "create_folders"@ {
        assert(l[6] == w);
    } else if w == "move_local_files"@ {
        assert(l[11] == w);
    } else if w == "rename_local_files"@ {
        assert(l[12] == w);
    } else if w == "trash_files"@ {
        assert(l[20] == w);
    } else if w == "trash_folders"@ {
        assert(l[19] == w);
    } else if w == "one_file_download"@ {
        assert(l[13] == w);
    } else if w == "download_from_list"@ {
        assert(l[8] == w);
    } else if w == "sync_only"@ {
        assert(l[17] == w);
    } else if w == "list_and_sync"@ {
        assert(l[9] == w);
    }
    if l.contains(w) {
        let i = choose|i: int| 0 <= i < l.len() && l[i] == w;
        if w != "second_backup"@ {
            lemma_offered_sub_commands_are_routed(i);
        }
    }
    assert forall|i: int, j: int| 0 <= i < l.len() && 0 <= j < l.len() && i != j implies l[i] != l[j] by {
    }
    if l.contains("completion"@) {
        let i = choose|i: int| 0 <= i < l.len() && l[i] == "completion"@;
        assert(l[i].len() != 10 || l[i][0] != 'c');
    }
}

} // verus!
