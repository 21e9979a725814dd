//! The commands of the tool: what each prints, from what was read of the
//! repositories.
use crate::display::{
    standard_style, table_arrangement, table_header, table_rows, table_style, TableArrangement,
};
use crate::primitives::{prompt_text, BranchInfo, FuError, RepoStatus};
use crate::scan::StatusMap;
use crate::tables::{branch_header, branch_row, branch_table, repo_header, repo_table, rows_by_name};
use vstd::prelude::*;

verus! {

/// The command line: a command and its options.
#[derive(Debug)]
pub struct Cli {
    pub command: Command,
    /// The repository, or the directory of repositories.
    pub repo_path: String,
    /// Fetch from the remotes before comparing.
    pub fetch: bool,
    /// How long a fetch may take, in milliseconds.
    pub timeout: u64,
    /// Compare the branch with its branch on the remote too.
    pub remote_status: bool,
    /// Tables without borders.
    pub plain_tables: bool,
}

/// What to show.
#[derive(Debug, Clone, Copy, PartialEq, Eq)]
pub enum Command {
    /// The prompt text of one repository.
    Prompt,
    /// The table of the local branches of one repository.
    Branches,
    /// The table of the repositories of a directory.
    DirStatus,
}

/// The prompt line: nothing when there is no repository at the path, the
/// error when its status could not be read, else its prompt text.
pub fn get_prompt(repo_state: Option<Result<RepoStatus, FuError>>) -> (r: Result<Option<String>, FuError>)
    ensures
        repo_state is None ==> r == Ok::<Option<String>, FuError>(None),
        repo_state matches Some(Err(e)) ==> r == Err::<Option<String>, FuError>(e),
        repo_state matches Some(Ok(s)) ==> (r matches Ok(Some(line)) && line@ == prompt_text(s)),
{
    match repo_state {
        None => Ok(None),
        Some(Err(e)) => Err(e),
        Some(Ok(s)) => Ok(Some(s.to_display_string())),
    }
}

/// The branch table: nothing when there is no repository at the path or it
/// has no local branch, the error when its branches could not be read, else
/// the table of the branches in the given order.
pub fn dump_branches(
    branch_info: Option<Result<Option<Vec<BranchInfo>>, FuError>>,
    plain_tables: bool,
) -> (r: Result<Option<comfy_table::Table>, FuError>)
    ensures
        branch_info is None ==> r is Ok && r.unwrap() is None,
        branch_info matches Some(Ok(None)) ==> r is Ok && r.unwrap() is None,
        branch_info matches Some(Err(e)) ==> r == Err::<Option<comfy_table::Table>, FuError>(e),
        branch_info matches Some(Ok(Some(v))) ==> (r matches Ok(Some(t)) && table_header(t)
            == Some(branch_header()) && table_style(t) == standard_style(plain_tables)
            && table_arrangement(t) == TableArrangement::Dynamic
            && table_rows(t).len() == v@.len() && forall|k: int|
            0 <= k < v@.len() ==> #[trigger] table_rows(t)[k] == branch_row(v@[k])),
{
    match branch_info {
        None => Ok(None),
        Some(Err(e)) => Err(e),
        Some(Ok(None)) => Ok(None),
        Some(Ok(Some(branch_summary))) => Ok(Some(branch_table(branch_summary, plain_tables))),
    }
}

/// The directory table: the error when the directory could not be scanned,
/// nothing when it holds no repository, else the table of its repositories
/// by name.
pub fn dir_status(statuses: Result<Option<StatusMap>, FuError>, plain_tables: bool) -> (r: Result<
    Option<comfy_table::Table>,
    FuError,
>)
    ensures
        statuses matches Err(e) ==> r == Err::<Option<comfy_table::Table>, FuError>(e),
        statuses matches Ok(None) ==> r is Ok && r.unwrap() is None,
        statuses matches Ok(Some(m)) ==> (r matches Ok(Some(t)) && table_header(t) == Some(
            repo_header(),
        ) && table_style(t) == standard_style(plain_tables) && table_arrangement(t)
            == TableArrangement::Dynamic && exists|perm: Seq<int>|
            #[trigger] rows_by_name(m@, perm, table_rows(t))),
{
    match statuses {
        Err(e) => Err(e),
        Ok(full_results) => Ok(repo_table(full_results, plain_tables)),
    }
}

/// The lines to print of an optional list: each item on its own line.
pub fn console_dump(outbound_array: Option<Vec<String>>) -> (r: Vec<String>)
    ensures
        outbound_array is None ==> r@.len() == 0,
        outbound_array matches Some(v) ==> r@ == v@,
{
    match outbound_array {
        Some(v) => v,
        None => Vec::new(),
    }
}

} // verus!
