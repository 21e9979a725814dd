use r_git_fu::oid::ObjectId;
use r_git_fu::primitives::{
    BranchInfo, BranchState, DirtyState, Position, RemoteStatus, RepoStatus,
};
use r_git_fu::text::{decimal_string, str_lt};

fn green(s: &str) -> String {
    format!("\x1b[32m{}\x1b[39m", s)
}
fn red(s: &str) -> String {
    format!("\x1b[31m{}\x1b[39m", s)
}
fn yellow(s: &str) -> String {
    format!("\x1b[33m{}\x1b[39m", s)
}
fn magenta(s: &str) -> String {
    format!("\x1b[35m{}\x1b[39m", s)
}
fn cyan(s: &str) -> String {
    format!("\x1b[36m{}\x1b[39m", s)
}

fn status(
    branch: BranchState,
    worktree: usize,
    index: usize,
    position: Option<Position>,
    remote_status: Option<RemoteStatus>,
) -> RepoStatus {
    RepoStatus {
        branch,
        dirty: DirtyState { worktree, index },
        position,
        head_oid: ObjectId::zero(),
        remote_status,
    }
}

#[test]
fn string_markers_both_counts() {
    let (a, b) = Position { ahead: 2, behind: 13 }.string_markers();
    assert_eq!(a, "↑2");
    assert_eq!(b, "↓13");
}

#[test]
fn string_markers_zero_counts_are_empty() {
    let (a, b) = Position { ahead: 0, behind: 0 }.string_markers();
    assert_eq!(a, "");
    assert_eq!(b, "");
    let (a, b) = Position { ahead: 0, behind: 7 }.string_markers();
    assert_eq!(a, "");
    assert_eq!(b, "↓7");
}

#[test]
fn decimal_rendering() {
    assert_eq!(decimal_string(0), "0");
    assert_eq!(decimal_string(9), "9");
    assert_eq!(decimal_string(10), "10");
    assert_eq!(decimal_string(1234567890), "1234567890");
    assert_eq!(decimal_string(usize::MAX), usize::MAX.to_string());
}

#[test]
fn string_order_matches_std() {
    let words = ["", "a", "b", "ab", "abc", "abd", "B", "é", "z", "lolcat", "lolcat-r"];
    for x in words.iter() {
        for y in words.iter() {
            assert_eq!(str_lt(x, y), x < y, "{:?} < {:?}", x, y);
        }
    }
}

#[test]
fn clean_prompt_shows_tick() {
    // README: "(main|✔)"
    let s = status(BranchState::Named("main".to_string()), 0, 0, None, None);
    assert_eq!(s.dirty_marker(), green("✔"));
    assert_eq!(s.position_marker(), "");
    assert_eq!(s.to_display_string(), format!("({}|{})", magenta("main"), green("✔")));
}

#[test]
fn behind_and_dirty_prompt() {
    // README: "(main↓6|●4)"
    let s = status(
        BranchState::Named("main".to_string()),
        4,
        0,
        Some(Position { ahead: 0, behind: 6 }),
        None,
    );
    assert_eq!(s.position_marker(), red("↓6"));
    assert_eq!(s.dirty_marker(), format!("{}{}", red("●"), yellow("4")));
    assert_eq!(
        s.to_display_string(),
        format!("({}{}|{}{})", magenta("main"), red("↓6"), red("●"), yellow("4"))
    );
}

#[test]
fn dirty_marker_with_index_count() {
    let s = status(BranchState::Named("x".to_string()), 3, 2, None, None);
    assert_eq!(s.dirty_marker(), format!("{}{}{}", red("●"), yellow("3"), yellow("+2")));
    let s = status(BranchState::Named("x".to_string()), 0, 5, None, None);
    assert_eq!(s.dirty_marker(), format!("{}{}", red("●"), yellow("+5")));
}

#[test]
fn position_marker_ahead_behind_and_remote() {
    let s = status(
        BranchState::Named("dev".to_string()),
        0,
        0,
        Some(Position { ahead: 1, behind: 2 }),
        Some(RemoteStatus { position: Some(Position { ahead: 0, behind: 4 }), refreshed: true }),
    );
    assert_eq!(
        s.position_marker(),
        format!("{} {}{}", green("↑1"), red("↓2"), yellow("[|↓4]"))
    );
}

#[test]
fn remote_marker_needs_local_position() {
    let s = status(
        BranchState::Named("dev".to_string()),
        0,
        0,
        None,
        Some(RemoteStatus { position: Some(Position { ahead: 3, behind: 4 }), refreshed: true }),
    );
    assert_eq!(s.position_marker(), "");
    let s = status(
        BranchState::Named("dev".to_string()),
        0,
        0,
        Some(Position { ahead: 0, behind: 0 }),
        Some(RemoteStatus { position: Some(Position { ahead: 3, behind: 4 }), refreshed: false }),
    );
    assert_eq!(s.position_marker(), yellow("[↑3|↓4]"));
}

#[test]
fn detached_branch_name_is_short_hex() {
    let mut bytes = [0u8; 20];
    bytes[0] = 0xab;
    bytes[1] = 0x01;
    bytes[2] = 0xf0;
    bytes[3] = 0x9c;
    let s = RepoStatus {
        branch: BranchState::Detached,
        dirty: DirtyState { worktree: 0, index: 0 },
        position: None,
        head_oid: ObjectId { bytes },
        remote_status: None,
    };
    assert_eq!(s.branch_name(false), "ab01f09");
    assert_eq!(s.branch_name(true), cyan("ab01f09"));
    assert_eq!(s.head_oid.to_hex(), format!("ab01f09c{}", "0".repeat(32)));
    assert!(!s.head_oid.is_zero());
}

#[test]
fn named_branch_name() {
    let s = status(BranchState::Named("feature/x".to_string()), 0, 0, None, None);
    assert_eq!(s.branch_name(false), "feature/x");
    assert_eq!(s.branch_name(true), magenta("feature/x"));
}

#[test]
fn broken_state_is_clean_with_zero_head() {
    let s = RepoStatus::broken_state("broken-head".to_string());
    assert!(matches!(&s.branch, BranchState::Named(n) if n == "broken-head"));
    assert_eq!(s.dirty.worktree, 0);
    assert_eq!(s.dirty.index, 0);
    assert!(s.position.is_none());
    assert!(s.remote_status.is_none());
    assert!(s.head_oid.is_zero());
    assert_eq!(s.head_oid.to_hex(), "0".repeat(40));
}

#[test]
fn branch_info_line() {
    let b = BranchInfo {
        name: "main".to_string(),
        commit_time: 0,
        iso_date: "1970-01-01 00:00:00".to_string(),
        delta: "5s".to_string(),
    };
    assert_eq!(
        b.to_display_string(),
        "\x1b[32m1970-01-01 00:00:00\x1b[39m \x1b[34m5s\x1b[39m \x1b[37mmain\x1b[39m"
    );
}
