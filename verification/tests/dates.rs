use r_git_fu::display::{format_commit_time, format_commit_time_at, timestamp_to_datetime};
use r_git_fu::git::get_branch_info;
use r_git_fu::primitives::FuError;

#[test]
fn commit_time_at_fixed_now() {
    let (iso, delta) = format_commit_time_at(0, 90061).unwrap();
    assert_eq!(iso, "1970-01-01 00:00:00");
    assert_eq!(delta, "1day 1h 1m 1s");
    let (iso, delta) = format_commit_time_at(1769860711, 1769860711).unwrap();
    assert_eq!(iso, "2026-01-31 11:58:31");
    assert_eq!(delta, "0s");
}

#[test]
fn commit_in_the_future_wraps_age() {
    let (_, delta) = format_commit_time_at(10, 9).unwrap();
    let expected = humantime::format_duration(std::time::Duration::from_secs(u64::MAX)).to_string();
    assert_eq!(delta, expected);
}

#[test]
fn out_of_range_timestamp() {
    assert!(matches!(timestamp_to_datetime(i64::MAX), Err(FuError::Custom(m)) if m == "Time out of range"));
    assert!(matches!(format_commit_time(i64::MIN), Err(FuError::Custom(m)) if m == "Time out of range"));
    assert_eq!(timestamp_to_datetime(42).unwrap().secs, 42);
}

#[test]
fn timestamp_range_bounds() {
    assert!(timestamp_to_datetime(-8334601228800).is_ok());
    assert!(timestamp_to_datetime(-8334601228801).is_err());
    assert!(timestamp_to_datetime(8210266876799).is_ok());
    assert!(timestamp_to_datetime(8210266876800).is_err());
    let (iso, _) = format_commit_time_at(8210266876799, 0).unwrap();
    assert_eq!(iso, "+262142-12-31 23:59:59");
}

#[test]
fn commit_time_now() {
    let (iso, _) = format_commit_time(86400).unwrap();
    assert_eq!(iso, "1970-01-02 00:00:00");
}

#[test]
fn branches_newest_first_stable() {
    let entries = vec![
        ("old".to_string(), 100i64),
        ("new".to_string(), 300),
        ("mid1".to_string(), 200),
        ("mid2".to_string(), 200),
    ];
    let list = get_branch_info(entries, None).unwrap().unwrap();
    let names: Vec<&str> = list.iter().map(|b| b.name.as_str()).collect();
    assert_eq!(names, vec!["new", "mid1", "mid2", "old"]);
    assert_eq!(list[3].iso_date, "1970-01-01 00:01:40");
    assert_eq!(list[0].commit_time, 300);
}

#[test]
fn branches_none_and_errors() {
    assert!(get_branch_info(Vec::new(), None).unwrap().is_none());
    let failed = get_branch_info(vec![("a".to_string(), 1)], Some(FuError::Custom("git".to_string())));
    assert!(matches!(failed, Err(FuError::Custom(m)) if m == "git"));
    let bad_time = get_branch_info(
        vec![("a".to_string(), 1), ("b".to_string(), i64::MAX)],
        Some(FuError::Custom("git".to_string())),
    );
    assert!(matches!(bad_time, Err(FuError::Custom(m)) if m == "Time out of range"));
}
