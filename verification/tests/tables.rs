use comfy_table::{Cell, Color};
use r_git_fu::cli::{dir_status, dump_branches};
use r_git_fu::display::standard_table_setup;
use r_git_fu::oid::ObjectId;
use r_git_fu::primitives::{
    BranchInfo, BranchState, DirtyState, FuError, Position, RemoteStatus, RepoStatus,
};
use r_git_fu::scan::StatusMap;
use r_git_fu::tables::{branch_table, repo_table};

fn cells(t: &comfy_table::Table, row: usize) -> Vec<Cell> {
    t.row(row).unwrap().cell_iter().cloned().collect()
}

fn header(t: &comfy_table::Table) -> Vec<String> {
    t.header().unwrap().cell_iter().map(|c| c.content()).collect()
}

fn clean(name: &str) -> RepoStatus {
    RepoStatus {
        branch: BranchState::Named(name.to_string()),
        dirty: DirtyState { worktree: 0, index: 0 },
        position: None,
        head_oid: ObjectId { bytes: [7u8; 20] },
        remote_status: None,
    }
}

#[test]
fn test_tables() {
    let test_state_row = RepoStatus {
        branch: BranchState::Named("test".to_string()),
        dirty: DirtyState { worktree: 1, index: 2 },
        position: Some(Position { ahead: 2, behind: 3 }),
        head_oid: ObjectId::zero(),
        remote_status: None,
    };
    let mut sample_output = StatusMap::new();
    sample_output.insert("long_name_to_test".to_string(), test_state_row);
    let table = repo_table(Some(sample_output), false).unwrap();
    println!("{}", table);
    assert_eq!(header(&table), vec!["Repo", "Branch", "Dirty", "Position", "Remote"]);
    assert_eq!(table.row_count(), 1);
    assert_eq!(
        cells(&table, 0),
        vec![
            Cell::new("long_name_to_test").fg(Color::White),
            Cell::new("test").fg(Color::White),
            Cell::new("●1+2").fg(Color::Red),
            Cell::new("↑2↓3").fg(Color::Green),
            Cell::new("").fg(Color::Green),
        ]
    );
}

#[test]
fn repo_table_sorted_by_name() {
    let mut map = StatusMap::new();
    map.insert("r-git-fu".to_string(), clean("remote_pulling"));
    map.insert("lolcat".to_string(), clean("main"));
    map.insert("lolcat-r".to_string(), clean("main"));
    let table = repo_table(Some(map), true).unwrap();
    let names: Vec<String> = table
        .row_iter()
        .map(|r| r.cell_iter().next().unwrap().content())
        .collect();
    assert_eq!(names, vec!["lolcat", "lolcat-r", "r-git-fu"]);
}

#[test]
fn repo_table_colours() {
    let mut map = StatusMap::new();
    // could not be read: magenta
    map.insert("a".to_string(), RepoStatus::broken_state("broken-head".to_string()));
    // dirty only: yellow, remote not refreshed: yellow legend
    let mut dirty = clean("dev");
    dirty.dirty.worktree = 3;
    dirty.remote_status = Some(RemoteStatus {
        position: Some(Position { ahead: 1, behind: 0 }),
        refreshed: false,
    });
    map.insert("b".to_string(), dirty);
    // clean with a refreshed, even remote: white, green empty legend
    let mut even = clean("main");
    even.remote_status = Some(RemoteStatus {
        position: Some(Position { ahead: 0, behind: 0 }),
        refreshed: true,
    });
    map.insert("c".to_string(), even);
    let table = repo_table(Some(map), false).unwrap();
    assert_eq!(
        cells(&table, 0),
        vec![
            Cell::new("a").fg(Color::Magenta),
            Cell::new("broken-head").fg(Color::Magenta),
            Cell::new("").fg(Color::Red),
            Cell::new("").fg(Color::Green),
            Cell::new("").fg(Color::Green),
        ]
    );
    assert_eq!(
        cells(&table, 1),
        vec![
            Cell::new("b").fg(Color::Yellow),
            Cell::new("dev").fg(Color::Yellow),
            Cell::new("●3+0").fg(Color::Red),
            Cell::new("").fg(Color::Green),
            Cell::new("↑1↓0").fg(Color::Yellow),
        ]
    );
    assert_eq!(
        cells(&table, 2),
        vec![
            Cell::new("c").fg(Color::White),
            Cell::new("main").fg(Color::White),
            Cell::new("").fg(Color::Red),
            Cell::new("").fg(Color::Green),
            Cell::new("").fg(Color::Green),
        ]
    );
}

#[test]
fn repo_table_of_nothing() {
    assert!(repo_table(None, false).is_none());
    let empty = repo_table(Some(StatusMap::new()), false).unwrap();
    assert_eq!(empty.row_count(), 0);
}

#[test]
fn table_styles() {
    let mut plain = standard_table_setup(true);
    assert_eq!(plain.current_style_as_preset(), comfy_table::presets::NOTHING);
    let mut boxed = standard_table_setup(false);
    assert_eq!(
        boxed.current_style_as_preset(),
        comfy_table::presets::ASCII_BORDERS_ONLY_CONDENSED
    );
    assert!(plain.header().is_none());
    assert_eq!(plain.row_count(), 0);
    assert!(matches!(plain.content_arrangement(), comfy_table::ContentArrangement::Dynamic));
    assert!(matches!(boxed.content_arrangement(), comfy_table::ContentArrangement::Dynamic));
}

fn info(name: &str, t: i64) -> BranchInfo {
    BranchInfo {
        name: name.to_string(),
        commit_time: t,
        iso_date: format!("date{}", t),
        delta: format!("age{}", t),
    }
}

#[test]
fn branch_table_rows() {
    let table = branch_table(vec![info("main", 5), info("dev", 3)], false);
    assert_eq!(header(&table), vec!["Last commit", "Age", "Branch name"]);
    assert_eq!(
        cells(&table, 0),
        vec![
            Cell::new("date5").fg(Color::Green),
            Cell::new("age5").fg(Color::Blue),
            Cell::new("main").fg(Color::White),
        ]
    );
    assert_eq!(table.row_count(), 2);
}

#[test]
fn dump_branches_outcomes() {
    assert!(dump_branches(None, false).unwrap().is_none());
    assert!(dump_branches(Some(Ok(None)), false).unwrap().is_none());
    let err = dump_branches(Some(Err(FuError::Custom("boom".to_string()))), false);
    assert!(matches!(err, Err(FuError::Custom(m)) if m == "boom"));
    let t = dump_branches(Some(Ok(Some(vec![info("main", 1)]))), true).unwrap().unwrap();
    assert_eq!(t.row_count(), 1);
}

#[test]
fn dir_status_outcomes() {
    assert!(dir_status(Ok(None), false).unwrap().is_none());
    let err = dir_status(Err(FuError::Custom("no dir".to_string())), false);
    assert!(matches!(err, Err(FuError::Custom(m)) if m == "no dir"));
    let mut map = StatusMap::new();
    map.insert("x".to_string(), clean("main"));
    let t = dir_status(Ok(Some(map)), false).unwrap().unwrap();
    assert_eq!(t.row_count(), 1);
}
