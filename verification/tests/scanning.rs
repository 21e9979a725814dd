use r_git_fu::cli::{console_dump, get_prompt};
use r_git_fu::git::{
    get_branch_state, get_dirty, position_step, remote_ref_name, remote_status_from,
    remote_status_step, repo_status_of, FetchOutcome, PositionStep, RemoteStep,
};
use r_git_fu::oid::ObjectId;
use r_git_fu::primitives::{
    BranchState, DirtyState, FuError, Position, RemoteStatus, RepoStatus,
};
use r_git_fu::scan::{DirScan, StatusMap};

fn with_remote(refreshed: Option<bool>) -> RepoStatus {
    RepoStatus {
        branch: BranchState::Named("main".to_string()),
        dirty: DirtyState { worktree: 0, index: 0 },
        position: None,
        head_oid: ObjectId { bytes: [1u8; 20] },
        remote_status: refreshed.map(|r| RemoteStatus {
            position: Some(Position { ahead: 0, behind: 0 }),
            refreshed: r,
        }),
    }
}

#[test]
fn fetch_stops_after_unfinished_fetch() {
    let mut scan = DirScan::new(true);
    scan.record("a".to_string(), Ok(with_remote(Some(true))), Some(FetchOutcome::Worked));
    assert!(scan.fetch);
    scan.record("b".to_string(), Ok(with_remote(None)), None);
    assert!(scan.fetch);
    scan.record("c".to_string(), Err(FuError::Custom("x".to_string())), None);
    assert!(scan.fetch);
    scan.record("d".to_string(), Ok(with_remote(Some(false))), Some(FetchOutcome::TimedOut));
    assert!(!scan.fetch);
    scan.record("e".to_string(), Ok(with_remote(Some(true))), None);
    assert!(!scan.fetch);
    scan.record("f".to_string(), Ok(with_remote(None)), Some(FetchOutcome::Worked));
    assert!(!scan.fetch);
    let map = scan.finish().unwrap();
    assert_eq!(map.entries().len(), 6);
    let (name, broken) = &map.entries()[2];
    assert_eq!(name, "c");
    assert!(matches!(&broken.branch, BranchState::Named(n) if n == "broken-head"));
    assert!(broken.head_oid.is_zero());
}

#[test]
fn timed_out_fetch_without_remote_ref_stops_fetching() {
    // The fetch of "a" timed out and its origin branch is missing: no remote
    // status, but later repositories still skip the fetch.
    let mut scan = DirScan::new(true);
    scan.record("a".to_string(), Ok(with_remote(None)), Some(FetchOutcome::TimedOut));
    assert!(!scan.fetch);
    let mut scan = DirScan::new(true);
    scan.record("b".to_string(), Err(FuError::Custom("bad head".to_string())), Some(FetchOutcome::TimedOut));
    assert!(!scan.fetch);
}

#[test]
fn failed_fetch_keeps_fetching() {
    // A fetch that finished but failed is not a timeout: later repositories
    // are still fetched, and its remote marker is not green.
    let mut scan = DirScan::new(true);
    scan.record("a".to_string(), Ok(with_remote(Some(false))), Some(FetchOutcome::Failed));
    assert!(scan.fetch);
    scan.record("b".to_string(), Ok(with_remote(Some(false))), Some(FetchOutcome::TimedOut));
    assert!(!scan.fetch);
}

#[test]
fn scan_without_fetch_never_fetches() {
    let mut scan = DirScan::new(false);
    scan.record("a".to_string(), Ok(with_remote(Some(true))), None);
    assert!(!scan.fetch);
}

#[test]
fn empty_scan_gives_nothing() {
    assert!(DirScan::new(true).finish().is_none());
}

#[test]
fn status_map_replaces_same_name() {
    let mut map = StatusMap::new();
    map.insert("a".to_string(), with_remote(None));
    map.insert("b".to_string(), with_remote(None));
    map.insert("a".to_string(), RepoStatus::broken_state("x".to_string()));
    assert_eq!(map.entries().len(), 2);
    assert_eq!(map.entries()[0].0, "a");
    assert!(map.entries()[0].1.head_oid.is_zero());
    assert_eq!(map.entries()[1].0, "b");
    assert!(!map.entries()[1].1.head_oid.is_zero());
    assert!(!map.is_empty());
}

#[test]
fn dirty_counts_from_status_bits() {
    // INDEX_NEW=1, INDEX_MODIFIED=2, INDEX_DELETED=4, INDEX_RENAMED=8,
    // WT_NEW=128, WT_MODIFIED=256, WT_DELETED=512, WT_TYPECHANGE=1024, IGNORED=16384
    let bits = vec![1u32, 256, 128 | 2, 8, 1024, 512, 4, 16384, 0];
    let d = get_dirty(&bits);
    assert_eq!(d.worktree, 3);
    assert_eq!(d.index, 3);
    let d = get_dirty(&Vec::new());
    assert_eq!((d.worktree, d.index), (0, 0));
}

#[test]
fn branch_state_of_head() {
    assert!(matches!(get_branch_state(false, Some("main")), Ok(BranchState::Detached)));
    assert!(matches!(get_branch_state(true, Some("main")), Ok(BranchState::Named(n)) if n == "main"));
    assert!(matches!(
        get_branch_state(true, None),
        Err(FuError::Custom(m)) if m == "No name for a named branch"
    ));
}

#[test]
fn remote_ref_of_branch() {
    assert_eq!(remote_ref_name("main"), "refs/remotes/origin/main");
    assert_eq!(remote_ref_name("a/b"), "refs/remotes/origin/a/b");
}

#[test]
fn remote_status_of_lookup() {
    assert!(remote_status_from(true, None).is_none());
    let rs = remote_status_from(false, Some((1, 2))).unwrap();
    assert!(!rs.refreshed);
    let p = rs.position.unwrap();
    assert_eq!((p.ahead, p.behind), (1, 2));
}

#[test]
fn prompt_outcomes() {
    assert!(get_prompt(None).unwrap().is_none());
    assert!(matches!(get_prompt(Some(Err(FuError::Custom("e".to_string())))), Err(FuError::Custom(_))));
    let line = get_prompt(Some(Ok(with_remote(None)))).unwrap().unwrap();
    assert_eq!(line, "(\x1b[35mmain\x1b[39m|\x1b[32m✔\x1b[39m)");
}

#[test]
fn console_lines() {
    assert!(console_dump(None).is_empty());
    assert_eq!(console_dump(Some(vec!["a".to_string(), "b".to_string()])), vec!["a", "b"]);
}

fn wd() -> Option<Option<String>> {
    Some(Some("/work/repo".to_string()))
}

#[test]
fn remote_step_workdir_errors() {
    let r = remote_status_step(true, None, true, None, Some("main"), None);
    assert!(matches!(r, RemoteStep::Done(Err(FuError::Custom(m))) if m == "Cannot find workdir"));
    let r = remote_status_step(true, Some(None), false, None, Some("main"), None);
    assert!(
        matches!(r, RemoteStep::Done(Err(FuError::Custom(m))) if m == "Cannot convert workdir to string")
    );
}

#[test]
fn remote_step_detached_head() {
    assert!(matches!(remote_status_step(true, wd(), false, None, None, None), RemoteStep::Done(Ok(None))));
}

#[test]
fn remote_step_fetches_only_when_asked() {
    let r = remote_status_step(true, wd(), true, None, Some("main"), None);
    assert!(matches!(r, RemoteStep::Fetch(p) if p == "/work/repo"));
    let r = remote_status_step(false, wd(), true, None, Some("main"), None);
    assert!(matches!(r, RemoteStep::LookUp(n) if n == "refs/remotes/origin/main"));
    let r = remote_status_step(true, wd(), true, Some(FetchOutcome::TimedOut), Some("main"), None);
    assert!(matches!(r, RemoteStep::LookUp(n) if n == "refs/remotes/origin/main"));
}

#[test]
fn remote_step_missing_name_and_ref() {
    let r = remote_status_step(false, wd(), true, None, None, None);
    assert!(matches!(r, RemoteStep::Done(Err(FuError::Custom(m))) if m == "No branch name"));
    let r = remote_status_step(true, wd(), true, Some(FetchOutcome::Worked), Some("main"), Some(None));
    assert!(matches!(r, RemoteStep::Done(Ok(None))));
}

#[test]
fn remote_step_refreshed_only_after_working_fetch() {
    let done = |fetch: bool, fetched: Option<FetchOutcome>| {
        match remote_status_step(fetch, wd(), true, fetched, Some("main"), Some(Some((2, 5)))) {
            RemoteStep::Done(Ok(Some(rs))) => rs,
            other => panic!("unexpected step {:?}", other),
        }
    };
    let rs = done(true, Some(FetchOutcome::Worked));
    assert!(rs.refreshed);
    let p = rs.position.unwrap();
    assert_eq!((p.ahead, p.behind), (2, 5));
    assert!(!done(true, Some(FetchOutcome::Failed)).refreshed);
    assert!(!done(true, Some(FetchOutcome::TimedOut)).refreshed);
    assert!(!done(false, None).refreshed);
}

#[test]
fn position_steps() {
    assert!(matches!(position_step(false, None), PositionStep::Done(None)));
    assert!(matches!(position_step(true, None), PositionStep::LookUp));
    assert!(matches!(position_step(true, Some(None)), PositionStep::Done(None)));
    match position_step(true, Some(Some((3, 1)))) {
        PositionStep::Done(Some(p)) => assert_eq!((p.ahead, p.behind), (3, 1)),
        other => panic!("unexpected step {:?}", other),
    }
}

#[test]
fn repo_status_assembly() {
    let make = |want: bool, remote: Option<Result<Option<RemoteStatus>, FuError>>| {
        repo_status_of(
            want,
            BranchState::Named("main".to_string()),
            DirtyState { worktree: 1, index: 2 },
            Some(Position { ahead: 3, behind: 4 }),
            ObjectId { bytes: [9u8; 20] },
            remote,
        )
    };
    let remote = || Some(Ok(Some(RemoteStatus { position: None, refreshed: true })));
    let s = make(true, remote()).unwrap();
    assert!(matches!(&s.branch, BranchState::Named(n) if n == "main"));
    assert_eq!((s.dirty.worktree, s.dirty.index), (1, 2));
    assert_eq!(s.position.as_ref().map(|p| (p.ahead, p.behind)), Some((3, 4)));
    assert_eq!(s.head_oid.bytes, [9u8; 20]);
    assert!(s.remote_status.unwrap().refreshed);
    assert!(make(false, remote()).unwrap().remote_status.is_none());
    assert!(make(true, None).unwrap().remote_status.is_none());
    let failed = make(true, Some(Err(FuError::Custom("lookup".to_string()))));
    assert!(matches!(failed, Err(FuError::Custom(m)) if m == "lookup"));
    assert!(make(false, Some(Err(FuError::Custom("x".to_string())))).is_ok());
}
