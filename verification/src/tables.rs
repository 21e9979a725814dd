//! The two tables the tool prints: the repositories of a directory, by name,
//! and the local branches of a repository.
use crate::color::TermColor;
use crate::display::{
    row_view, standard_style, standard_table_setup, table_add_row, table_arrangement,
    table_header, table_rows, table_set_header, table_style, TableArrangement,
};
use crate::git::is_permutation;
use crate::primitives::{plain_branch_name, BranchInfo, DirtyState, Position, RemoteStatus, RepoStatus};
use crate::scan::{distinct_names, StatusMap};
use crate::text::{decimal, lemma_lex_lt_total, lemma_lex_lt_transitive, lex_lt, push_char, push_decimal, str_lt};
use vstd::prelude::*;
use vstd::string::*;

verus! {

/// The dirty cell: `●w+i`, or nothing when no entry changed.
pub open spec fn dirty_value(d: DirtyState) -> Seq<char> {
    if d.worktree + d.index == 0 {
        Seq::empty()
    } else {
        seq!['●'] + decimal(d.worktree as nat) + seq!['+'] + decimal(d.index as nat)
    }
}

/// The position cell: `↑a↓b`, or nothing without a position or when even.
pub open spec fn arrows_value(p: Option<Position>) -> Seq<char> {
    match p {
        Some(pos) => if pos.ahead > 0 || pos.behind > 0 {
            seq!['↑'] + decimal(pos.ahead as nat) + seq!['↓'] + decimal(pos.behind as nat)
        } else {
            Seq::empty()
        },
        None => Seq::empty(),
    }
}

/// The remote cell: the remote position, green when the fetch worked (or
/// there is no remote status), yellow when it did not or did not run.
pub open spec fn remote_cell(rs: Option<RemoteStatus>) -> (Seq<char>, TermColor) {
    match rs {
        Some(r) => (arrows_value(r.position), if r.refreshed {
            TermColor::Green
        } else {
            TermColor::Yellow
        }),
        None => (Seq::empty(), TermColor::Green),
    }
}

/// The colour of the name and branch cells: white for a clean, even
/// repository, magenta when moreover its head id is zero (it could not be
/// read), yellow when only one of dirty and position is empty, white when
/// neither is.
pub open spec fn name_color(dirty_empty: bool, position_empty: bool, head_zero: bool) -> TermColor {
    if dirty_empty && position_empty && !head_zero {
        TermColor::White
    } else if dirty_empty && position_empty && head_zero {
        TermColor::Magenta
    } else if dirty_empty || position_empty {
        TermColor::Yellow
    } else {
        TermColor::White
    }
}

/// The row of one repository: name, branch, dirty, position and remote cells.
pub open spec fn repo_row(name: Seq<char>, s: RepoStatus) -> Seq<(Seq<char>, TermColor)> {
    let d = dirty_value(s.dirty);
    let p = arrows_value(s.position);
    let c = name_color(d.len() == 0, p.len() == 0, s.head_oid.spec_is_zero());
    seq![
        (name, c),
        (plain_branch_name(s), c),
        (d, TermColor::Red),
        (p, TermColor::Green),
        remote_cell(s.remote_status),
    ]
}

/// The header of the repository table.
pub open spec fn repo_header() -> Seq<Seq<char>> {
    seq!["Repo"@, "Branch"@, "Dirty"@, "Position"@, "Remote"@]
}

/// The header of the branch table.
pub open spec fn branch_header() -> Seq<Seq<char>> {
    seq!["Last commit"@, "Age"@, "Branch name"@]
}

/// The row of one branch: green date, blue age, white name.
pub open spec fn branch_row(b: BranchInfo) -> Seq<(Seq<char>, TermColor)> {
    seq![
        (b.iso_date@, TermColor::Green),
        (b.delta@, TermColor::Blue),
        (b.name@, TermColor::White),
    ]
}

/// `order` sorts the names of `entries` strictly ascending.
pub open spec fn sorted_by_name(entries: Seq<(String, RepoStatus)>, order: Seq<int>) -> bool {
    forall|k: int, l: int|
        0 <= k < l < order.len() ==> lex_lt(entries[order[k]].0@, entries[order[l]].0@)
}

/// `rows` holds one row per entry, in ascending order of name, through the
/// order `perm`.
pub open spec fn rows_by_name(
    entries: Seq<(String, RepoStatus)>,
    perm: Seq<int>,
    rows: Seq<Seq<(Seq<char>, TermColor)>>,
) -> bool {
    &&& is_permutation(perm, entries.len())
    &&& sorted_by_name(entries, perm)
    &&& rows.len() == perm.len()
    &&& forall|k: int|
        0 <= k < rows.len() ==> #[trigger] rows[k] == repo_row(
            entries[perm[k]].0@,
            entries[perm[k]].1,
        )
}

/// The indices of the entries, ordered by ascending name.
fn name_order(entries: &Vec<(String, RepoStatus)>) -> (r: Vec<usize>)
    requires
        distinct_names(entries@),
    ensures
        is_permutation(r@.map_values(|x: usize| x as int), entries@.len()),
        sorted_by_name(entries@, r@.map_values(|x: usize| x as int)),
{
    let n = entries.len();
    let mut order: Vec<usize> = Vec::new();
    let mut i: usize = 0;
    while i < n
        invariant
            n == entries@.len(),
            distinct_names(entries@),
            i <= n,
            is_permutation(order@.map_values(|x: usize| x as int), i as nat),
            sorted_by_name(entries@, order@.map_values(|x: usize| x as int)),
        decreases n - i,
    {
        let ghost o = order@.map_values(|x: usize| x as int);
        let ghost key = entries@[i as int].0@;
        proof {
            assert forall|k: int| 0 <= k < order@.len() implies #[trigger] order@[k] < i by {
                assert(o[k] == order@[k] as int);
            }
        }
        let mut j: usize = 0;
        while j < order.len() && str_lt(entries[order[j]].0.as_str(), entries[i].0.as_str())
            invariant
                n == entries@.len(),
                j <= order@.len(),
                o == order@.map_values(|x: usize| x as int),
                key == entries@[i as int].0@,
                forall|k: int| 0 <= k < o.len() ==> 0 <= #[trigger] o[k] < i,
                forall|k: int| 0 <= k < order@.len() ==> #[trigger] order@[k] < i,
                i < n,
                forall|k: int| 0 <= k < j ==> lex_lt(#[trigger] entries@[o[k]].0@, key),
            decreases order@.len() - j,
        {
            j += 1;
        }
        proof {
            let o2 = o.insert(j as int, i as int);
            assert(order@.insert(j as int, i).map_values(|x: usize| x as int) =~= o2);
            assert forall|k: int| 0 <= k < o.len() implies #[trigger] o[k] < i && o[k] != i by {}
            assert forall|k: int| j <= k < o.len() implies lex_lt(key, #[trigger] entries@[o[k]].0@) by {
                let kj = entries@[o[j as int]].0@;
                assert(!lex_lt(kj, key));
                assert(kj != key) by {
                    assert(entries@[o[j as int]].0@ != entries@[i as int].0@);
                }
                lemma_lex_lt_total(kj, key);
                if k > j {
                    lemma_lex_lt_transitive(key, kj, entries@[o[k]].0@);
                }
            }
            assert forall|k: int| 0 <= k < o2.len() implies 0 <= #[trigger] o2[k] < i + 1 by {
                if k < j {
                    assert(o2[k] == o[k]);
                } else if k > j {
                    assert(o2[k] == o[k - 1]);
                }
            }
            assert forall|k: int, l: int| 0 <= k < l < o2.len() implies o2[k] != o2[l] by {
                if k != j && l != j {
                    let k0 = if k < j { k } else { k - 1 };
                    let l0 = if l < j { l } else { l - 1 };
                    assert(o2[k] == o[k0]);
                    assert(o2[l] == o[l0]);
                } else if k == j {
                    assert(o2[l] == o[l - 1]);
                } else {
                    assert(o2[k] == o[k]);
                }
            }
            assert forall|k: int, l: int| 0 <= k < l < o2.len() implies lex_lt(
                entries@[o2[k]].0@,
                entries@[o2[l]].0@,
            ) by {
                if k != j && l != j {
                    let k0 = if k < j { k } else { k - 1 };
                    let l0 = if l < j { l } else { l - 1 };
                    assert(o2[k] == o[k0]);
                    assert(o2[l] == o[l0]);
                } else if k == j {
                    assert(o2[l] == o[l - 1]);
                } else {
                    assert(o2[k] == o[k]);
                }
            }
        }
        order.insert(j, i);
        i += 1;
    }
    order
}

/// The arrows text of a position.
fn arrows_string(p: &Option<Position>) -> (r: String)
    ensures
        r@ == arrows_value(*p),
{
    let mut s = String::new();
    match p {
        Some(pos) => {
            if pos.ahead > 0 || pos.behind > 0 {
                push_char(&mut s, '↑');
                push_decimal(&mut s, pos.ahead);
                push_char(&mut s, '↓');
                push_decimal(&mut s, pos.behind);
                proof {
                    assert(s@ =~= arrows_value(*p));
                }
            }
        },
        None => {},
    }
    s
}

/// The cells of the row of the repository `name`.
pub fn repo_row_cells(name: &String, status: &RepoStatus) -> (r: Vec<(String, TermColor)>)
    ensures
        row_view(r@) == repo_row(name@, *status),
{
    let mut dirty_val = String::new();
    if !(status.dirty.worktree == 0 && status.dirty.index == 0) {
        push_char(&mut dirty_val, '●');
        push_decimal(&mut dirty_val, status.dirty.worktree);
        push_char(&mut dirty_val, '+');
        push_decimal(&mut dirty_val, status.dirty.index);
    }
    proof {
        assert(dirty_val@ =~= dirty_value(status.dirty));
    }
    let position_val = arrows_string(&status.position);
    let remote = match &status.remote_status {
        Some(remote_position) => {
            let legend = arrows_string(&remote_position.position);
            if remote_position.refreshed {
                (legend, TermColor::Green)
            } else {
                (legend, TermColor::Yellow)
            }
        },
        None => (String::new(), TermColor::Green),
    };
    let dirty_empty = dirty_val.as_str().is_empty();
    let position_empty = position_val.as_str().is_empty();
    let head_zero = status.head_oid.is_zero();
    let color = if dirty_empty && position_empty && !head_zero {
        TermColor::White
    } else if dirty_empty && position_empty && head_zero {
        TermColor::Magenta
    } else if dirty_empty || position_empty {
        TermColor::Yellow
    } else {
        TermColor::White
    };
    let branch = status.branch_name(false);
    let mut row: Vec<(String, TermColor)> = Vec::new();
    row.push((name.clone(), color));
    row.push((branch, color));
    row.push((dirty_val, TermColor::Red));
    row.push((position_val, TermColor::Green));
    row.push(remote);
    proof {
        assert(row_view(row@) =~= repo_row(name@, *status));
    }
    row
}

/// The table of the repositories of a directory: one row per repository, in
/// ascending order of name, under the repository header; nothing when there
/// is no status map.
pub fn repo_table(result_option: Option<StatusMap>, plain_tables: bool) -> (r: Option<
    comfy_table::Table,
>)
    ensures
        result_option is None ==> r is None,
        result_option matches Some(m) ==> (r matches Some(t) && table_header(t) == Some(
            repo_header(),
        ) && table_style(t) == standard_style(plain_tables) && table_arrangement(t)
            == TableArrangement::Dynamic && exists|perm: Seq<int>|
            #[trigger] rows_by_name(m@, perm, table_rows(t))),
{
    match result_option {
        None => None,
        Some(results) => {
            let entries = results.entries();
            let order = name_order(entries);
            let ghost perm = order@.map_values(|x: usize| x as int);
            let mut table = standard_table_setup(plain_tables);
            let mut header: Vec<&str> = Vec::new();
            header.push("Repo");
            header.push("Branch");
            header.push("Dirty");
            header.push("Position");
            header.push("Remote");
            table_set_header(&mut table, header);
            proof {
                assert(header@.map_values(|n: &str| n@) =~= repo_header());
            }
            let n = order.len();
            let mut k: usize = 0;
            while k < n
                invariant
                    n == order@.len(),
                    perm == order@.map_values(|x: usize| x as int),
                    is_permutation(perm, entries@.len()),
                    k <= n,
                    table_header(table) == Some(repo_header()),
                    table_style(table) == standard_style(plain_tables),
                    table_arrangement(table) == TableArrangement::Dynamic,
                    table_rows(table).len() == k,
                    forall|q: int|
                        0 <= q < k ==> #[trigger] table_rows(table)[q] == repo_row(
                            entries@[perm[q]].0@,
                            entries@[perm[q]].1,
                        ),
                decreases n - k,
            {
                let idx = order[k];
                assert(perm[k as int] == idx as int);
                let cells = repo_row_cells(&entries[idx].0, &entries[idx].1);
                table_add_row(&mut table, cells);
                k += 1;
            }
            proof {
                assert(rows_by_name(entries@, perm, table_rows(table)));
            }
            Some(table)
        },
    }
}

/// The table of the branches, in the given order, under the branch header.
pub fn branch_table(branch_summary: Vec<BranchInfo>, plain_tables: bool) -> (r: comfy_table::Table)
    ensures
        table_header(r) == Some(branch_header()),
        table_style(r) == standard_style(plain_tables),
        table_arrangement(r) == TableArrangement::Dynamic,
        table_rows(r).len() == branch_summary@.len(),
        forall|k: int|
            0 <= k < branch_summary@.len() ==> #[trigger] table_rows(r)[k] == branch_row(
                branch_summary@[k],
            ),
{
    let mut table = standard_table_setup(plain_tables);
    let mut header: Vec<&str> = Vec::new();
    header.push("Last commit");
    header.push("Age");
    header.push("Branch name");
    table_set_header(&mut table, header);
    proof {
        assert(header@.map_values(|n: &str| n@) =~= branch_header());
    }
    let n = branch_summary.len();
    let mut k: usize = 0;
    while k < n
        invariant
            n == branch_summary@.len(),
            k <= n,
            table_header(table) == Some(branch_header()),
            table_style(table) == standard_style(plain_tables),
            table_arrangement(table) == TableArrangement::Dynamic,
            table_rows(table).len() == k,
            forall|q: int|
                0 <= q < k ==> #[trigger] table_rows(table)[q] == branch_row(branch_summary@[q]),
        decreases n - k,
    {
        let b = &branch_summary[k];
        let mut cells: Vec<(String, TermColor)> = Vec::new();
        cells.push((b.iso_date.clone(), TermColor::Green));
        cells.push((b.delta.clone(), TermColor::Blue));
        cells.push((b.name.clone(), TermColor::White));
        proof {
            assert(row_view(cells@) =~= branch_row(branch_summary@[k as int]));
        }
        table_add_row(&mut table, cells);
        k += 1;
    }
    table
}

/// A repository that could not be read (clean, no position, zero head id)
/// shows its name and branch in magenta.
pub proof fn lemma_unreadable_repo_row_magenta(name: Seq<char>, s: RepoStatus)
    requires
        s.dirty.worktree == 0,
        s.dirty.index == 0,
        s.position is None,
        s.head_oid.spec_is_zero(),
    ensures
        repo_row(name, s)[0].1 == TermColor::Magenta,
        repo_row(name, s)[1].1 == TermColor::Magenta,
{
}

/// The remote cell is green exactly when the fetch of the repository worked,
/// and yellow when it did not or did not run.
pub proof fn lemma_remote_cell_color(name: Seq<char>, s: RepoStatus)
    requires
        s.remote_status is Some,
    ensures
        repo_row(name, s)[4].1 == TermColor::Green <==> s.remote_status.unwrap().refreshed,
        repo_row(name, s)[4].1 == TermColor::Yellow <==> !s.remote_status.unwrap().refreshed,
{
}

/// The dirty cell of a repository's row is empty exactly when nothing
/// changed, neither in the work tree nor in the index; otherwise it starts
/// with the `●` marker.
pub proof fn lemma_dirty_cell_empty_iff_clean(name: Seq<char>, s: RepoStatus)
    ensures
        repo_row(name, s)[2].0.len() == 0 <==> (s.dirty.worktree == 0 && s.dirty.index == 0),
        !(s.dirty.worktree == 0 && s.dirty.index == 0) ==> repo_row(name, s)[2].0[0] == '●',
        repo_row(name, s)[2].1 == TermColor::Red,
{
}

/// A repository with changes (in the work tree or only staged) and no
/// position to show has its name and branch in yellow, never in white.
pub proof fn lemma_changed_even_repo_is_yellow(name: Seq<char>, s: RepoStatus)
    requires
        s.dirty.worktree > 0 || s.dirty.index > 0,
        s.position is None,
    ensures
        repo_row(name, s)[0].1 == TermColor::Yellow,
        repo_row(name, s)[1].1 == TermColor::Yellow,
{
}

/// The position cell is empty exactly when there is no position or the
/// branch is even with its upstream (nothing ahead, nothing behind);
/// otherwise it starts with `↑`.
pub proof fn lemma_position_cell_empty_iff_even(name: Seq<char>, s: RepoStatus)
    ensures
        repo_row(name, s)[3].0.len() == 0 <==> (s.position is None || (s.position.unwrap().ahead
            == 0 && s.position.unwrap().behind == 0)),
        repo_row(name, s)[3].0.len() > 0 ==> repo_row(name, s)[3].0[0] == '↑',
        repo_row(name, s)[3].1 == TermColor::Green,
{
}

/// The remote cell is empty exactly when there is no remote status, no
/// remote position, or the branch is even with its remote branch; a branch
/// only behind (or only ahead of) its remote shows `↑a↓b`.
pub proof fn lemma_remote_cell_empty_iff_even(name: Seq<char>, s: RepoStatus)
    ensures
        repo_row(name, s)[4].0.len() == 0 <==> (match s.remote_status {
            None => true,
            Some(r) => r.position is None || (r.position.unwrap().ahead == 0
                && r.position.unwrap().behind == 0),
        }),
        repo_row(name, s)[4].0.len() > 0 ==> repo_row(name, s)[4].0[0] == '↑',
{
}

} // verus!
