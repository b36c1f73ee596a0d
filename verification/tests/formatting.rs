use git_prompt::branch_state::{default_branch_name, BranchState};
use git_prompt::decimal::{decimal_string, digit_str, push_decimal};
use git_prompt::error::PromptError;
use git_prompt::file_state::{FileFlags, FileState};
use git_prompt::status_line::{join_segments, status_line, status_segments, Segment, Tone};
use git_prompt::style::{colour_of, styled_line, Colour};

fn no_flags() -> FileFlags {
    FileFlags {
        wt_new: false,
        wt_modified: false,
        wt_deleted: false,
        wt_renamed: false,
        index_new: false,
        index_modified: false,
        index_deleted: false,
        index_renamed: false,
    }
}

fn branch(name: &str, ahead: usize, behind: usize, is_detached: bool) -> BranchState {
    let mut sha = [0u8; 20];
    sha[0] = 0xab;
    sha[1] = 0xc1;
    sha[2] = 0x23;
    sha[19] = 0x0f;
    BranchState { name: name.to_string(), ahead, behind, is_detached, sha }
}

fn files(index: (usize, usize, usize), wt: (usize, usize, usize)) -> FileState {
    FileState {
        wt_add: wt.0,
        wt_edit: wt.1,
        wt_remove: wt.2,
        index_add: index.0,
        index_edit: index.1,
        index_remove: index.2,
    }
}

#[test]
fn decimal_of_small_and_large_numbers() {
    assert_eq!(decimal_string(0), "0");
    assert_eq!(decimal_string(7), "7");
    assert_eq!(decimal_string(10), "10");
    assert_eq!(decimal_string(109), "109");
    assert_eq!(decimal_string(12345), "12345");
    assert_eq!(decimal_string(usize::MAX), usize::MAX.to_string());
}

#[test]
fn decimal_is_appended_to_what_is_there() {
    let mut text = String::from("n=");
    push_decimal(&mut text, 42);
    push_decimal(&mut text, 0);
    assert_eq!(text, "n=420");
}

#[test]
fn digits_have_their_own_text() {
    let all: Vec<&str> = (0..10).map(digit_str).collect();
    assert_eq!(all.concat(), "0123456789");
}

#[test]
fn delta_text_is_empty_when_all_counts_are_zero() {
    assert_eq!(FileState::as_string(0, 0, 0), "");
}

#[test]
fn delta_text_shows_each_count_with_its_symbol() {
    assert_eq!(FileState::as_string(1, 0, 0), " +1");
    assert_eq!(FileState::as_string(0, 2, 0), " ~2");
    assert_eq!(FileState::as_string(0, 0, 3), " -3");
}

#[test]
fn delta_text_keeps_the_order_add_edit_remove() {
    assert_eq!(FileState::as_string(1, 2, 3), " +1 ~2 -3");
    assert_eq!(FileState::as_string(10, 0, 205), " +10 -205");
    assert_eq!(FileState::as_string(0, 7, 1), " ~7 -1");
    assert_eq!(FileState::as_string(4, 11, 0), " +4 ~11");
}

#[test]
fn each_side_has_its_own_text() {
    let state = files((1, 2, 3), (4, 5, 6));
    assert_eq!(state.index_as_string(), " +1 ~2 -3");
    assert_eq!(state.wt_as_string(), " +4 ~5 -6");
}

#[test]
fn new_state_counts_nothing() {
    let state = FileState::new();
    assert_eq!(state.index_as_string(), "");
    assert_eq!(state.wt_as_string(), "");
}

#[test]
fn staged_rename_counts_as_add_and_remove() {
    let mut state = FileState::new();
    state.record(FileFlags { index_renamed: true, ..no_flags() });
    assert_eq!((state.index_add, state.index_edit, state.index_remove), (1, 0, 1));
    assert_eq!((state.wt_add, state.wt_edit, state.wt_remove), (0, 0, 0));
}

#[test]
fn unstaged_rename_counts_as_add_and_remove() {
    let mut state = FileState::new();
    state.record(FileFlags { wt_renamed: true, ..no_flags() });
    assert_eq!((state.wt_add, state.wt_edit, state.wt_remove), (1, 0, 1));
    assert_eq!((state.index_add, state.index_edit, state.index_remove), (0, 0, 0));
}

#[test]
fn flags_are_counted_independently() {
    let mut state = FileState::new();
    state.record(FileFlags { index_renamed: true, index_modified: true, wt_modified: true, ..no_flags() });
    state.record(FileFlags { index_new: true, index_renamed: true, wt_deleted: true, ..no_flags() });
    state.record(FileFlags { wt_new: true, ..no_flags() });
    state.record(no_flags());
    assert_eq!((state.index_add, state.index_edit, state.index_remove), (3, 1, 2));
    assert_eq!((state.wt_add, state.wt_edit, state.wt_remove), (1, 1, 1));
}

#[test]
fn counting_order_does_not_matter() {
    let a = FileFlags { index_new: true, wt_modified: true, ..no_flags() };
    let b = FileFlags { wt_renamed: true, index_deleted: true, ..no_flags() };
    let mut one = FileState::new();
    one.record(a);
    one.record(b);
    let mut other = FileState::new();
    other.record(b);
    other.record(a);
    assert_eq!(one.index_as_string(), other.index_as_string());
    assert_eq!(one.wt_as_string(), other.wt_as_string());
    assert_eq!(one.index_as_string(), " +1 -1");
    assert_eq!(one.wt_as_string(), " +1 ~1 -1");
}

#[test]
fn branch_without_distance_is_its_name() {
    assert_eq!(branch("main", 0, 0, false).as_string(), "main");
}

#[test]
fn detached_branch_shows_the_full_sha() {
    assert_eq!(
        branch("HEAD", 0, 0, true).as_string(),
        "HEAD(abc123000000000000000000000000000000000f)"
    );
}

#[test]
fn behind_and_ahead_are_shown_with_arrows() {
    assert_eq!(branch("name", 0, 3, false).as_string(), "name \u{2193}3");
    assert_eq!(branch("name", 2, 0, false).as_string(), "name \u{2191}2");
    assert_eq!(branch("name", 2, 3, false).as_string(), "name \u{2193}3 \u{2191}2");
}

#[test]
fn detached_branch_with_distance_shows_both() {
    assert_eq!(
        branch("HEAD", 12, 1, true).as_string(),
        "HEAD(abc123000000000000000000000000000000000f) \u{2193}1 \u{2191}12"
    );
}

#[test]
fn sha_is_written_in_lower_case_hex() {
    let mut state = branch("x", 0, 0, true);
    state.sha = [
        0x00, 0x01, 0x09, 0x0a, 0x10, 0x7f, 0x80, 0x9a, 0xa9, 0xbc, 0xcd, 0xde, 0xef, 0xf0, 0xff,
        0x12, 0x34, 0x56, 0x78, 0x90,
    ];
    assert_eq!(state.as_string(), "x(0001090a107f809aa9bccddeeff0ff1234567890)");
}

#[test]
fn unborn_branch_has_no_distance_and_a_zero_sha() {
    let state = BranchState::unborn("trunk".to_string());
    assert_eq!(state.name, "trunk");
    assert_eq!(state.ahead, 0);
    assert_eq!(state.behind, 0);
    assert!(!state.is_detached);
    assert_eq!(state.sha, [0u8; 20]);
    assert_eq!(state.as_string(), "trunk");
}

#[test]
fn new_branch_state_keeps_what_it_is_given() {
    let state = BranchState::new("dev".to_string(), 4, 5, true, [7u8; 20]);
    assert_eq!(state.name, "dev");
    assert_eq!((state.ahead, state.behind), (4, 5));
    assert!(state.is_detached);
    assert_eq!(state.sha, [7u8; 20]);
}

#[test]
fn default_branch_prefers_local_then_global_then_master() {
    assert_eq!(default_branch_name(Some("trunk".to_string()), Some("main".to_string())), "trunk");
    assert_eq!(default_branch_name(Some("trunk".to_string()), None), "trunk");
    assert_eq!(default_branch_name(None, Some("main".to_string())), "main");
    assert_eq!(default_branch_name(None, None), "master");
}

#[test]
fn line_without_changes_is_the_branch_in_brackets() {
    assert_eq!(status_line(&branch("branch", 0, 0, false), &files((0, 0, 0), (0, 0, 0))), "[branch]");
}

#[test]
fn line_has_no_separator_when_only_one_side_changed() {
    let b = branch("branch", 0, 0, false);
    assert_eq!(status_line(&b, &files((1, 0, 0), (0, 0, 0))), "[branch +1]");
    assert_eq!(status_line(&b, &files((0, 0, 0), (0, 2, 0))), "[branch ~2]");
}

#[test]
fn line_has_a_separator_when_both_sides_changed() {
    let b = branch("branch", 0, 0, false);
    assert_eq!(status_line(&b, &files((1, 0, 0), (0, 2, 0))), "[branch +1 | ~2]");
    assert_eq!(status_line(&b, &files((1, 2, 3), (4, 5, 6))), "[branch +1 ~2 -3 | +4 ~5 -6]");
}

#[test]
fn line_shows_distance_before_changes() {
    let b = branch("main", 2, 3, false);
    assert_eq!(status_line(&b, &files((0, 0, 1), (1, 0, 0))), "[main \u{2193}3 \u{2191}2 -1 | +1]");
}

fn parts(segments: &[Segment]) -> Vec<(String, Tone)> {
    segments.iter().map(|s| (s.text.clone(), s.tone)).collect()
}

#[test]
fn segments_carry_their_tones() {
    let b = branch("main", 0, 0, false);
    let all = status_segments(&b, &files((1, 0, 0), (0, 2, 0)));
    assert_eq!(
        parts(&all),
        vec![
            ("[".to_string(), Tone::Frame),
            ("main".to_string(), Tone::Frame),
            (" +1".to_string(), Tone::Staged),
            (" |".to_string(), Tone::Frame),
            (" ~2".to_string(), Tone::Unstaged),
            ("]".to_string(), Tone::Frame),
        ]
    );
}

#[test]
fn segments_leave_out_empty_sides() {
    let b = branch("main", 0, 0, false);
    let staged = status_segments(&b, &files((0, 0, 4), (0, 0, 0)));
    assert_eq!(
        parts(&staged),
        vec![
            ("[".to_string(), Tone::Frame),
            ("main".to_string(), Tone::Frame),
            (" -4".to_string(), Tone::Staged),
            ("]".to_string(), Tone::Frame),
        ]
    );
    let unstaged = status_segments(&b, &files((0, 0, 0), (9, 0, 0)));
    assert_eq!(
        parts(&unstaged),
        vec![
            ("[".to_string(), Tone::Frame),
            ("main".to_string(), Tone::Frame),
            (" +9".to_string(), Tone::Unstaged),
            ("]".to_string(), Tone::Frame),
        ]
    );
    let clean = status_segments(&b, &files((0, 0, 0), (0, 0, 0)));
    assert_eq!(
        parts(&clean),
        vec![("[".to_string(), Tone::Frame), ("main".to_string(), Tone::Frame), ("]".to_string(), Tone::Frame)]
    );
}

#[test]
fn joined_segments_are_the_line() {
    let b = branch("topic", 1, 0, true);
    let f = files((0, 3, 0), (2, 0, 0));
    assert_eq!(join_segments(&status_segments(&b, &f)), status_line(&b, &f));
    assert_eq!(join_segments(&Vec::new()), "");
}

#[test]
fn error_with_context_names_operation_and_cause() {
    let error = PromptError::with_context("Unable to get HEAD", "reference not found");
    assert_eq!(error.message(), "Unable to get HEAD. Error: reference not found");
    assert_eq!(error.message, "Unable to get HEAD. Error: reference not found");
}

#[test]
fn error_from_text_keeps_the_text() {
    assert_eq!(PromptError::from_str("Unable to get local branch id").message(), "Unable to get local branch id");
}

#[test]
fn tones_have_their_colours() {
    assert_eq!(colour_of(Tone::Frame), Colour::Cyan);
    assert_eq!(colour_of(Tone::Staged), Colour::Green);
    assert_eq!(colour_of(Tone::Unstaged), Colour::Red);
}

#[test]
fn styled_line_without_colours_is_the_plain_line() {
    colored::control::set_override(false);
    let b = branch("main", 1, 0, false);
    let f = files((1, 0, 0), (0, 2, 0));
    assert_eq!(styled_line(&status_segments(&b, &f)), "[main \u{2191}1 +1 | ~2]");
    assert_eq!(styled_line(&Vec::new()), "");
}

#[test]
fn styled_line_with_colours_wraps_each_part() {
    colored::control::set_override(true);
    let b = branch("main", 0, 0, false);
    let f = files((1, 0, 0), (0, 0, 0));
    assert_eq!(
        styled_line(&status_segments(&b, &f)),
        "\u{1b}[1;36m[\u{1b}[0m\u{1b}[1;36mmain\u{1b}[0m\u{1b}[1;32m +1\u{1b}[0m\u{1b}[1;36m]\u{1b}[0m"
    );
    assert_eq!(styled_line(&Vec::new()), "");
}

#[test]
fn styled_part_repeats_its_code_behind_an_inner_reset() {
    colored::control::set_override(true);
    let part = Segment { text: "a\u{1b}[0mb".to_string(), tone: Tone::Staged };
    assert_eq!(
        styled_line(&vec![part]),
        "\u{1b}[1;32ma\u{1b}[0m\u{1b}[1;32mb\u{1b}[0m"
    );
}

#[test]
fn styled_parts_have_the_colour_of_their_tone() {
    colored::control::set_override(true);
    let parts = vec![
        Segment { text: "x".to_string(), tone: Tone::Unstaged },
        Segment { text: "".to_string(), tone: Tone::Frame },
    ];
    assert_eq!(styled_line(&parts), "\u{1b}[1;31mx\u{1b}[0m\u{1b}[1;36m\u{1b}[0m");
}
