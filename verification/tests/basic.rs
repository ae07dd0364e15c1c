use branch_prune::action::{action_from_char, BranchAction};
use branch_prune::branch::{local_timestamp, BranchInfo};
use branch_prune::enumerate::select_branches;
use branch_prune::errors::PruneError;
use branch_prune::render::{
    deleted_line, echo_line, help_lines, no_branches_line, nothing_to_undo_line, prompt_line,
    skip_line,
};

const ID_A: &str = "0123456789abcdef0123456789abcdef01234567";
const ID_B: &str = "fedcba9876543210fedcba9876543210fedcba98";

fn branch(name: &str, time_secs: i64, is_head: bool) -> BranchInfo {
    BranchInfo::new(name.to_string(), ID_A.to_string(), time_secs, 0, is_head).unwrap()
}

#[test]
fn local_timestamp_shifts_by_offset_minutes() {
    assert_eq!(local_timestamp(1000, 120), Some(1000 + 120 * 60));
    assert_eq!(local_timestamp(1000, -120), Some(1000 - 120 * 60));
    assert_eq!(local_timestamp(0, 0), Some(0));
}

#[test]
fn local_timestamp_reports_overflow() {
    assert_eq!(local_timestamp(i64::MAX, 1), None);
    assert_eq!(local_timestamp(i64::MIN, -1), None);
}

#[test]
fn branch_new_checks_the_commit_id() {
    assert!(BranchInfo::new("a".to_string(), "0123".to_string(), 0, 0, false).is_none());
    assert!(BranchInfo::new("a".to_string(), "é123456789abcdef0123456789abcdef01234567".to_string(), 0, 0, false).is_none());
    let b = BranchInfo::new("a".to_string(), ID_A.to_string(), 50, 1, false).unwrap();
    assert_eq!(b.name, "a");
    assert_eq!(b.id, ID_A);
    assert_eq!(b.time_secs, 110);
    assert!(!b.is_head);
}

#[test]
fn branch_new_rejects_unrenderable_timestamps() {
    assert!(BranchInfo::new("a".to_string(), ID_A.to_string(), 8_000_000_000_001, 0, false).is_none());
    assert!(BranchInfo::new("a".to_string(), ID_A.to_string(), -8_000_000_000_001, 0, false).is_none());
}

#[test]
fn actions_parse_case_sensitively() {
    assert_eq!(action_from_char('k').unwrap(), BranchAction::Keep);
    assert_eq!(action_from_char('d').unwrap(), BranchAction::Delete);
    assert_eq!(action_from_char('q').unwrap(), BranchAction::Quit);
    assert_eq!(action_from_char('u').unwrap(), BranchAction::Undo);
    assert!(action_from_char('K').is_err());
    assert!(action_from_char('x').is_err());
}

#[test]
fn rejected_keystroke_is_named_in_the_error() {
    let e = action_from_char('x').unwrap_err();
    assert!(matches!(e, PruneError::InvalidInput { input: 'x' }));
    assert_eq!(e.message(), "Invalid input. Don't know what 'x' means");
}

#[test]
fn wrapped_errors_show_their_own_text() {
    let e = PruneError::Backend { detail: "could not open repository".to_string() };
    assert_eq!(e.message(), "could not open repository");
    let e = PruneError::Io { detail: "stream closed".to_string() };
    assert_eq!(e.message(), "stream closed");
    let e = PruneError::Encoding { detail: "invalid utf-8 sequence".to_string() };
    assert_eq!(e.message(), "invalid utf-8 sequence");
    let e = PruneError::TerminalMode { detail: "raw mode failed".to_string() };
    assert_eq!(e.message(), "raw mode failed");
}

#[test]
fn enumerator_excludes_exactly_master() {
    let input = vec![
        branch("feature", 300, false),
        branch("master", 100, false),
        branch("bugfix", 200, false),
    ];
    let out = select_branches(&input);
    let names: Vec<&str> = out.iter().map(|b| b.name.as_str()).collect();
    assert_eq!(names, vec!["bugfix", "feature"]);
}

#[test]
fn enumerator_keeps_near_misses_of_master() {
    let input = vec![branch("Master", 10, false), branch("masters", 20, false)];
    let out = select_branches(&input);
    assert_eq!(out.len(), 2);
}

#[test]
fn enumerator_sorts_by_local_commit_time() {
    let input = vec![
        branch("c", 30, false),
        branch("a", 10, true),
        branch("d", 40, false),
        branch("b", 20, false),
    ];
    let out = select_branches(&input);
    let names: Vec<&str> = out.iter().map(|b| b.name.as_str()).collect();
    assert_eq!(names, vec!["a", "b", "c", "d"]);
}

#[test]
fn enumerator_keeps_duplicates_and_ties() {
    let input = vec![branch("x", 10, false), branch("y", 10, false), branch("x", 10, false)];
    let out = select_branches(&input);
    assert_eq!(out.len(), 3);
    assert_eq!(out.iter().filter(|b| b.name == "x").count(), 2);
    assert_eq!(out.iter().filter(|b| b.name == "y").count(), 1);
    assert!(out.windows(2).all(|w| w[0].time_secs <= w[1].time_secs));
}

#[test]
fn enumerator_of_nothing_is_empty() {
    let out = select_branches(&Vec::new());
    assert!(out.is_empty());
}

#[test]
fn messages_are_verbatim() {
    assert_eq!(no_branches_line(), "Found no branches (we ignore 'master')\r\n");
    assert_eq!(
        skip_line(&"main".to_string()),
        "Ignoring 'main' because it is the current branch\r\n"
    );
    assert_eq!(
        deleted_line(&"old".to_string(), &ID_B.to_string()),
        format!("Deleted branch 'old', to undo run `git branch old {}`\r\n", ID_B)
    );
    assert_eq!(nothing_to_undo_line(), "Didn't find anything to undo");
    assert_eq!(echo_line('k'), "k\r\n");
    assert_eq!(
        help_lines(),
        "Here are what the commands mean\r\nk - Keep the branch\r\nd - Delete the branch\r\nu - Undo last deleted branch\r\nq - Quit\r\n? - Show this help text\r\n"
    );
}

#[test]
fn prompt_shows_name_id_prefix_and_timestamp() {
    let b = branch("feature", 0, false);
    assert_eq!(
        prompt_line(&b),
        "'feature' (0123456789) last commit at 1970-01-01 00:00:00 (k/d/q/u/?) > "
    );
}

#[test]
fn prompt_renders_a_recent_timestamp() {
    let b = BranchInfo::new("wip".to_string(), ID_B.to_string(), 1_600_000_000, 0, false).unwrap();
    assert_eq!(
        prompt_line(&b),
        "'wip' (fedcba9876) last commit at 2020-09-13 12:26:40 (k/d/q/u/?) > "
    );
}

#[test]
fn prompt_uses_the_local_offset() {
    // 2020-09-13 12:26:40 UTC at an offset of +90 minutes reads 13:56:40.
    let secs = local_timestamp(1_600_000_000, 90).unwrap();
    let b = BranchInfo::new("wip".to_string(), ID_B.to_string(), secs, 0, false).unwrap();
    assert_eq!(
        prompt_line(&b),
        "'wip' (fedcba9876) last commit at 2020-09-13 13:56:40 (k/d/q/u/?) > "
    );
}
