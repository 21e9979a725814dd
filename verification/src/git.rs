//! What the tool decides from what a repository reports: the branch state,
//! the counts of changed entries, the remote ref of a branch, the remote
//! status, and the list of local branches by age.
use crate::display::{
    chrono_utc_format, chrono_utc_in_range, format_commit_time, humantime_text, iso_pattern,
    is_custom_error, age_secs, out_of_range_message,
};
use crate::oid::ObjectId;
use crate::primitives::{
    BranchInfo, BranchState, DirtyState, FuError, Position, RemoteStatus, RepoStatus,
};
use vstd::prelude::*;
use vstd::string::*;

verus! {

// ---------------------------------------------------------------------------
// Branch state
// ---------------------------------------------------------------------------

/// The message for a branch reference that has no short name.
pub open spec fn no_name_message() -> Seq<char> {
    "No name for a named branch"@
}

/// The branch state of HEAD: its short name when it is a branch, detached
/// otherwise; an error when a branch has no short name.
pub fn get_branch_state(is_branch: bool, shorthand: Option<&str>) -> (r: Result<BranchState, FuError>)
    ensures
        !is_branch ==> r == Ok::<BranchState, FuError>(BranchState::Detached),
        is_branch && shorthand is None ==> (r matches Err(e) && is_custom_error(
            e,
            no_name_message(),
        )),
        is_branch && shorthand is Some ==> (r matches Ok(BranchState::Named(n)) && n@
            == shorthand.unwrap()@),
{
    if is_branch {
        match shorthand {
            Some(name) => Ok(BranchState::Named(String::from_str(name))),
            None => Err(FuError::Custom(String::from_str("No name for a named branch"))),
        }
    } else {
        Ok(BranchState::Detached)
    }
}

// ---------------------------------------------------------------------------
// Changed entries
// ---------------------------------------------------------------------------

/// `git2::Status::is_wt_new` on raw status bits (`WT_NEW` is bit 7).
#[verifier::external_body]
fn status_is_wt_new(bits: u32) -> (r: bool)
    ensures
        r == (bits & 0x80u32 != 0),
{
    git2::Status::from_bits_retain(bits).is_wt_new()
}

/// `git2::Status::is_wt_modified` on raw status bits (`WT_MODIFIED` is bit 8).
#[verifier::external_body]
fn status_is_wt_modified(bits: u32) -> (r: bool)
    ensures
        r == (bits & 0x100u32 != 0),
{
    git2::Status::from_bits_retain(bits).is_wt_modified()
}

/// `git2::Status::is_wt_deleted` on raw status bits (`WT_DELETED` is bit 9).
#[verifier::external_body]
fn status_is_wt_deleted(bits: u32) -> (r: bool)
    ensures
        r == (bits & 0x200u32 != 0),
{
    git2::Status::from_bits_retain(bits).is_wt_deleted()
}

/// `git2::Status::is_index_new` on raw status bits (`INDEX_NEW` is bit 0).
#[verifier::external_body]
fn status_is_index_new(bits: u32) -> (r: bool)
    ensures
        r == (bits & 0x1u32 != 0),
{
    git2::Status::from_bits_retain(bits).is_index_new()
}

/// `git2::Status::is_index_modified` on raw status bits (`INDEX_MODIFIED` is
/// bit 1).
#[verifier::external_body]
fn status_is_index_modified(bits: u32) -> (r: bool)
    ensures
        r == (bits & 0x2u32 != 0),
{
    git2::Status::from_bits_retain(bits).is_index_modified()
}

/// `git2::Status::is_index_deleted` on raw status bits (`INDEX_DELETED` is
/// bit 2).
#[verifier::external_body]
fn status_is_index_deleted(bits: u32) -> (r: bool)
    ensures
        r == (bits & 0x4u32 != 0),
{
    git2::Status::from_bits_retain(bits).is_index_deleted()
}

/// A status entry changed in the work tree: new, modified or deleted there.
pub open spec fn worktree_changed(bits: u32) -> bool {
    bits & 0x80u32 != 0 || bits & 0x100u32 != 0 || bits & 0x200u32 != 0
}

/// A status entry changed in the index: new, modified or deleted there.
pub open spec fn index_changed(bits: u32) -> bool {
    bits & 0x1u32 != 0 || bits & 0x2u32 != 0 || bits & 0x4u32 != 0
}

/// How many entries changed in the work tree.
pub open spec fn count_worktree(s: Seq<u32>) -> nat
    decreases s.len(),
{
    if s.len() == 0 {
        0
    } else {
        count_worktree(s.drop_last()) + if worktree_changed(s.last()) {
            1nat
        } else {
            0nat
        }
    }
}

/// How many entries changed in the index.
pub open spec fn count_index(s: Seq<u32>) -> nat
    decreases s.len(),
{
    if s.len() == 0 {
        0
    } else {
        count_index(s.drop_last()) + if index_changed(s.last()) {
            1nat
        } else {
            0nat
        }
    }
}

/// Each entry adds one to the work-tree count exactly when it carries git's
/// `WT_NEW` (0x80), `WT_MODIFIED` (0x100) or `WT_DELETED` (0x200) flag, and
/// one to the index count exactly when it carries `INDEX_NEW` (0x1),
/// `INDEX_MODIFIED` (0x2) or `INDEX_DELETED` (0x4); other flags, such as
/// `WT_TYPECHANGE` (0x400) or `IGNORED`, count nothing.
pub proof fn lemma_change_counts_per_entry(s: Seq<u32>, bits: u32)
    ensures
        count_worktree(s.push(bits)) == count_worktree(s) + (if bits & 0x80u32 != 0 || bits
            & 0x100u32 != 0 || bits & 0x200u32 != 0 {
            1int
        } else {
            0int
        }),
        count_index(s.push(bits)) == count_index(s) + (if bits & 0x1u32 != 0 || bits & 0x2u32
            != 0 || bits & 0x4u32 != 0 {
            1int
        } else {
            0int
        }),
{
    assert(s.push(bits).drop_last() =~= s);
}

/// No entries, no changes; and the counts never exceed the number of
/// entries.
pub proof fn lemma_change_counts_bounded(s: Seq<u32>)
    ensures
        count_worktree(s) <= s.len(),
        count_index(s) <= s.len(),
        s.len() == 0 ==> count_worktree(s) == 0 && count_index(s) == 0,
    decreases s.len(),
{
    if s.len() > 0 {
        lemma_change_counts_bounded(s.drop_last());
    }
}

/// The counts of changed entries, from the status bits of each entry of the
/// repository.
pub fn get_dirty(statuses: &Vec<u32>) -> (r: DirtyState)
    ensures
        r.worktree == count_worktree(statuses@),
        r.index == count_index(statuses@),
{
    let mut worktree_dirty: usize = 0;
    let mut index_dirty: usize = 0;
    let n = statuses.len();
    let mut i: usize = 0;
    while i < n
        invariant
            n == statuses@.len(),
            i <= n,
            worktree_dirty == count_worktree(statuses@.take(i as int)),
            index_dirty == count_index(statuses@.take(i as int)),
            worktree_dirty <= i,
            index_dirty <= i,
        decreases n - i,
    {
        let s = statuses[i];
        proof {
            assert(statuses@.take(i + 1).drop_last() =~= statuses@.take(i as int));
            assert(statuses@.take(i + 1).last() == s);
        }
        if status_is_wt_modified(s) || status_is_wt_new(s) || status_is_wt_deleted(s) {
            worktree_dirty += 1;
        }
        if status_is_index_modified(s) || status_is_index_new(s) || status_is_index_deleted(s) {
            index_dirty += 1;
        }
        i += 1;
    }
    proof {
        assert(statuses@.take(n as int) =~= statuses@);
    }
    DirtyState { worktree: worktree_dirty, index: index_dirty }
}

// ---------------------------------------------------------------------------
// Remote
// ---------------------------------------------------------------------------

/// The name of the remote the tool compares against.
pub const ORIGIN: &'static str = "origin";

/// The name of the remote, as text.
pub open spec fn origin() -> Seq<char> {
    ORIGIN@
}

/// `refs/remotes/origin/<branch>`.
pub open spec fn remote_ref_text(branch: Seq<char>) -> Seq<char> {
    "refs/remotes/"@ + origin() + "/"@ + branch
}

/// The full name of the branch of the same name on the `origin` remote.
pub fn remote_ref_name(branch: &str) -> (r: String)
    ensures
        r@ == remote_ref_text(branch@),
{
    let mut s = String::from_str("refs/remotes/");
    s.append(ORIGIN);
    s.append("/");
    s.append(branch);
    s
}

/// The remote status of a branch: nothing when the remote branch was not
/// found, else its position and whether a fetch finished.
pub fn remote_status_from(refreshed: bool, ahead_behind: Option<(usize, usize)>) -> (r: Option<
    RemoteStatus,
>)
    ensures
        ahead_behind is None ==> r is None,
        ahead_behind matches Some(ab) ==> (r matches Some(rs) && rs.refreshed == refreshed && (
        rs.position matches Some(p) && p.ahead == ab.0 && p.behind == ab.1)),
{
    match ahead_behind {
        None => None,
        Some((ahead, behind)) => Some(
            RemoteStatus { position: Some(Position { ahead, behind }), refreshed },
        ),
    }
}

/// What finding the position of HEAD's branch against its upstream needs next.
#[derive(Debug)]
pub enum PositionStep {
    /// The position is known: nothing when HEAD is detached or its branch
    /// has no upstream.
    Done(Option<Position>),
    /// Look up the upstream of HEAD's branch and, when there is one, count
    /// the commits each side lacks; then step again with the counts.
    LookUp,
}

/// One step towards the position of HEAD's branch against its upstream:
/// `ahead_behind` is the result of the look-up, `Some(None)` when the branch
/// has no upstream, `None` before it ran. A detached HEAD has no position.
pub fn position_step(is_branch: bool, ahead_behind: Option<Option<(usize, usize)>>) -> (r: PositionStep)
    ensures
        !is_branch ==> (r matches PositionStep::Done(None)),
        is_branch && ahead_behind is None ==> r is LookUp,
        is_branch && ahead_behind == Some(None::<(usize, usize)>) ==> (r matches PositionStep::Done(None)),
        is_branch && (ahead_behind matches Some(Some(_))) ==> (r matches PositionStep::Done(Some(p))
            && p.ahead == ahead_behind.unwrap().unwrap().0 && p.behind
            == ahead_behind.unwrap().unwrap().1),
{
    if !is_branch {
        return PositionStep::Done(None);
    }
    match ahead_behind {
        None => PositionStep::LookUp,
        Some(None) => PositionStep::Done(None),
        Some(Some((ahead, behind))) => PositionStep::Done(Some(Position { ahead, behind })),
    }
}

/// The message when the repository has no work tree.
pub open spec fn no_workdir_message() -> Seq<char> {
    "Cannot find workdir"@
}

/// The message when the path of the work tree is not text.
pub open spec fn workdir_not_text_message() -> Seq<char> {
    "Cannot convert workdir to string"@
}

/// The message when HEAD's branch has no short name.
pub open spec fn no_branch_name_message() -> Seq<char> {
    "No branch name"@
}

/// How a fetch from the remote went.
#[derive(Clone, Copy, Debug, PartialEq, Eq)]
pub enum FetchOutcome {
    /// It did not finish within the timeout.
    TimedOut,
    /// It finished in time and failed.
    Failed,
    /// It finished in time and succeeded.
    Worked,
}

/// What finding the remote status of HEAD's branch needs next.
#[derive(Debug)]
pub enum RemoteStep {
    /// The remote status is known, or it failed.
    Done(Result<Option<RemoteStatus>, FuError>),
    /// Fetch `origin` into the work tree at this path, then step again with
    /// how the fetch went.
    Fetch(String),
    /// Look up this ref and, when it exists, count the commits of HEAD and of
    /// the ref that the other lacks; then step again with the counts.
    LookUp(String),
}

/// The work tree is known, as text, and HEAD is on a branch.
pub open spec fn remote_gate_open(workdir: Option<Option<String>>, is_branch: bool) -> bool {
    workdir matches Some(Some(_)) && is_branch
}

/// A fetch is asked for and has not run yet.
pub open spec fn fetch_pending(fetch: bool, fetched: Option<FetchOutcome>) -> bool {
    fetch && fetched is None
}

/// One step towards the remote status of HEAD's branch, from what is known
/// so far: `workdir` is the work tree (`None` for a bare repository, `Some(None)`
/// when its path is not text); `fetched` is how the fetch that was asked for
/// went, `None` before it ran; the remote status is refreshed only after a
/// fetch that worked;
/// `ahead_behind` is the result of the look-up, `Some(None)` when the remote
/// ref does not exist, `None` before it ran.
pub fn remote_status_step(
    fetch: bool,
    workdir: Option<Option<String>>,
    is_branch: bool,
    fetched: Option<FetchOutcome>,
    shorthand: Option<&str>,
    ahead_behind: Option<Option<(usize, usize)>>,
) -> (r: RemoteStep)
    ensures
        workdir is None ==> (r matches RemoteStep::Done(Err(e)) && is_custom_error(
            e,
            no_workdir_message(),
        )),
        workdir matches Some(None) ==> (r matches RemoteStep::Done(Err(e)) && is_custom_error(
            e,
            workdir_not_text_message(),
        )),
        workdir matches Some(Some(_)) && !is_branch ==> (r matches RemoteStep::Done(Ok(None))),
        remote_gate_open(workdir, is_branch) && fetch_pending(fetch, fetched) ==> (r matches RemoteStep::Fetch(p)
            && p@ == workdir.unwrap().unwrap()@),
        remote_gate_open(workdir, is_branch) && !fetch_pending(fetch, fetched) && shorthand is None ==> (
        r matches RemoteStep::Done(Err(e)) && is_custom_error(e, no_branch_name_message())),
        remote_gate_open(workdir, is_branch) && !fetch_pending(fetch, fetched) && shorthand is Some
            && ahead_behind is None ==> (r matches RemoteStep::LookUp(n) && n@ == remote_ref_text(
            shorthand.unwrap()@,
        )),
        remote_gate_open(workdir, is_branch) && !fetch_pending(fetch, fetched) && shorthand is Some
            && ahead_behind == Some(None::<(usize, usize)>) ==> (r matches RemoteStep::Done(Ok(None))),
        remote_gate_open(workdir, is_branch) && !fetch_pending(fetch, fetched) && shorthand is Some
            && (ahead_behind matches Some(Some(_))) ==> (r matches RemoteStep::Done(Ok(Some(rs)))
            && rs.refreshed == (fetched == Some(FetchOutcome::Worked)) && (rs.position matches Some(pos) && pos.ahead
            == ahead_behind.unwrap().unwrap().0 && pos.behind == ahead_behind.unwrap().unwrap().1)),
        r is Fetch ==> fetch_pending(fetch, fetched),
        r matches RemoteStep::Done(Ok(Some(rs))) ==> rs.refreshed == (fetched == Some(FetchOutcome::Worked)),
{
    let w = match workdir {
        None => {
            return RemoteStep::Done(Err(FuError::Custom(String::from_str("Cannot find workdir"))));
        },
        Some(None) => {
            return RemoteStep::Done(
                Err(FuError::Custom(String::from_str("Cannot convert workdir to string"))),
            );
        },
        Some(Some(w)) => w,
    };
    if !is_branch {
        return RemoteStep::Done(Ok(None));
    }
    if fetch && fetched.is_none() {
        return RemoteStep::Fetch(w);
    }
    let branch_name = match shorthand {
        None => {
            return RemoteStep::Done(Err(FuError::Custom(String::from_str("No branch name"))));
        },
        Some(n) => n,
    };
    match ahead_behind {
        None => RemoteStep::LookUp(remote_ref_name(branch_name)),
        Some(found) => {
            let refreshed = match fetched {
                Some(FetchOutcome::Worked) => true,
                _ => false,
            };
            RemoteStep::Done(Ok(remote_status_from(refreshed, found)))
        },
    }
}

/// The status of a repository from the parts read of it. `remote` is the
/// outcome of reading the remote status, `None` when it was not read; it is
/// used only when `remote_status` asks for it, and then an error reading it
/// is the error of the whole.
pub fn repo_status_of(
    remote_status: bool,
    branch: BranchState,
    dirty: DirtyState,
    position: Option<Position>,
    head_oid: ObjectId,
    remote: Option<Result<Option<RemoteStatus>, FuError>>,
) -> (r: Result<RepoStatus, FuError>)
    ensures
        remote_status && (remote matches Some(Err(_))) ==> (r matches Err(e) && remote
            == Some(Err::<Option<RemoteStatus>, FuError>(e))),
        !(remote_status && (remote matches Some(Err(_)))) ==> (r matches Ok(s) && s.branch
            == branch && s.dirty == dirty && s.position == position && s.head_oid == head_oid
            && s.remote_status == (if remote_status && (remote matches Some(Ok(_))) {
            remote.unwrap().unwrap()
        } else {
            None
        })),
{
    let remote_part = if remote_status {
        match remote {
            Some(Err(e)) => {
                return Err(e);
            },
            Some(Ok(found)) => found,
            None => None,
        }
    } else {
        None
    };
    Ok(RepoStatus { branch, dirty, position, head_oid, remote_status: remote_part })
}

// ---------------------------------------------------------------------------
// Branches by age
// ---------------------------------------------------------------------------

/// `perm` lists each of `0..n` exactly once.
pub open spec fn is_permutation(perm: Seq<int>, n: nat) -> bool {
    &&& perm.len() == n
    &&& forall|k: int| 0 <= k < perm.len() ==> 0 <= #[trigger] perm[k] < n
    &&& forall|k: int, l: int| 0 <= k < l < perm.len() ==> perm[k] != perm[l]
}

/// `perm` orders the keys newest first, keeping the given order among equal
/// keys.
pub open spec fn stable_newest_first(keys: Seq<i64>, perm: Seq<int>) -> bool {
    forall|k: int, l: int|
        0 <= k < l < perm.len() ==> keys[perm[k]] > keys[perm[l]] || (keys[perm[k]]
            == keys[perm[l]] && perm[k] < perm[l])
}

/// The keys of the branch entries: their commit times.
pub open spec fn entry_times(entries: Seq<(Seq<char>, i64)>) -> Seq<i64> {
    entries.map_values(|e: (Seq<char>, i64)| e.1)
}

/// `info` is the listing line of the branch `e`: its name, its commit time,
/// the date of that time, and its age at some moment.
pub open spec fn describes(info: BranchInfo, e: (Seq<char>, i64)) -> bool {
    &&& info.name@ == e.0
    &&& info.commit_time == e.1
    &&& chrono_utc_in_range(e.1)
    &&& info.iso_date@ == chrono_utc_format(e.1, iso_pattern())
    &&& exists|now: i64| info.delta@ == humantime_text(#[trigger] age_secs(e.1, now))
}

/// `out` lists the first `i` branch entries through the order `perm`: newest
/// commit first, in the given order among equal times.
pub open spec fn listing_prefix(entries: Seq<(Seq<char>, i64)>, i: nat, perm: Seq<int>, out: Seq<BranchInfo>) -> bool {
    &&& is_permutation(perm, i)
    &&& stable_newest_first(entry_times(entries), perm)
    &&& out.len() == perm.len()
    &&& forall|k: int| 0 <= k < out.len() ==> describes(#[trigger] out[k], entries[perm[k]])
}

/// `out` lists all the branches `entries` (name and commit time, in the order
/// the repository gave them) through the order `perm`.
pub open spec fn listed_by(entries: Seq<(Seq<char>, i64)>, perm: Seq<int>, out: Seq<BranchInfo>) -> bool {
    listing_prefix(entries, entries.len(), perm, out)
}

/// Inserting the next entry after all entries at least as new keeps the
/// listing ordered and stable.
proof fn lemma_insert_keeps_listing(
    entries: Seq<(Seq<char>, i64)>,
    i: nat,
    perm: Seq<int>,
    out: Seq<BranchInfo>,
    j: int,
    info: BranchInfo,
)
    requires
        listing_prefix(entries, i, perm, out),
        i < entries.len(),
        0 <= j <= out.len(),
        forall|k: int| 0 <= k < j ==> #[trigger] out[k].commit_time >= entries[i as int].1,
        j < out.len() ==> out[j].commit_time < entries[i as int].1,
        describes(info, entries[i as int]),
    ensures
        listing_prefix(entries, i + 1, perm.insert(j, i as int), out.insert(j, info)),
{
    let keys = entry_times(entries);
    let p2 = perm.insert(j, i as int);
    let o2 = out.insert(j, info);
    assert(keys[i as int] == entries[i as int].1);
    assert forall|k: int| 0 <= k < out.len() implies #[trigger] keys[perm[k]] == out[k].commit_time by {
        assert(describes(out[k], entries[perm[k]]));
    }
    assert forall|k: int| 0 <= k < p2.len() implies 0 <= #[trigger] p2[k] < i + 1 by {
        if k < j {
            assert(p2[k] == perm[k]);
        } else if k > j {
            assert(p2[k] == perm[k - 1]);
        }
    }
    assert forall|k: int, l: int| 0 <= k < l < p2.len() implies p2[k] != p2[l] by {
        if k != j && l != j {
            let k0 = if k < j { k } else { k - 1 };
            let l0 = if l < j { l } else { l - 1 };
            assert(p2[k] == perm[k0]);
            assert(p2[l] == perm[l0]);
        } else if k == j {
            assert(p2[l] == perm[l - 1]);
        } else {
            assert(p2[k] == perm[k]);
        }
    }
    assert forall|k: int, l: int| 0 <= k < l < p2.len() implies keys[p2[k]] > keys[p2[l]] || (
    keys[p2[k]] == keys[p2[l]] && p2[k] < p2[l]) by {
        if k != j && l != j {
            let k0 = if k < j { k } else { k - 1 };
            let l0 = if l < j { l } else { l - 1 };
            assert(p2[k] == perm[k0]);
            assert(p2[l] == perm[l0]);
        } else if k == j {
            assert(p2[l] == perm[l - 1]);
            assert(out[l - 1].commit_time == keys[perm[l - 1]]);
            if l - 1 > j {
                assert(keys[perm[j]] > keys[perm[l - 1]] || keys[perm[j]] == keys[perm[l - 1]]);
            }
        } else {
            assert(p2[k] == perm[k]);
            assert(out[k].commit_time >= entries[i as int].1);
        }
    }
    assert forall|k: int| 0 <= k < o2.len() implies describes(#[trigger] o2[k], entries[p2[k]]) by {
        if k < j {
            assert(o2[k] == out[k]);
            assert(p2[k] == perm[k]);
        } else if k > j {
            assert(o2[k] == out[k - 1]);
            assert(p2[k] == perm[k - 1]);
        }
    }
}

/// Every commit time of the entries is one `chrono` can represent.
pub open spec fn all_in_range(entries: Seq<(Seq<char>, i64)>) -> bool {
    forall|k: int| 0 <= k < entries.len() ==> chrono_utc_in_range(#[trigger] entries[k].1)
}

/// The view of the branch entries: names as text, with their commit times.
pub open spec fn entries_view(entries: Seq<(String, i64)>) -> Seq<(Seq<char>, i64)> {
    entries.map_values(|e: (String, i64)| (e.0@, e.1))
}

/// The local branches, newest last commit first (in the repository's order
/// among equal times), each with its commit date and age; nothing when there
/// are no branches. `entries` holds the name and commit time of each branch
/// the repository listed before it failed with `failure`, if it did. A commit
/// time out of `chrono`'s range fails first, then the repository's failure.
pub fn get_branch_info(entries: Vec<(String, i64)>, failure: Option<FuError>) -> (r: Result<
    Option<Vec<BranchInfo>>,
    FuError,
>)
    ensures
        !all_in_range(entries_view(entries@)) ==> (r matches Err(e) && is_custom_error(
            e,
            out_of_range_message(),
        )),
        all_in_range(entries_view(entries@)) && failure is Some ==> r == Err::<
            Option<Vec<BranchInfo>>,
            FuError,
        >(failure.unwrap()),
        all_in_range(entries_view(entries@)) && failure is None && entries@.len() == 0 ==> r
            == Ok::<Option<Vec<BranchInfo>>, FuError>(None),
        all_in_range(entries_view(entries@)) && failure is None && entries@.len() > 0 ==> (r matches Ok(
            Some(v),
        ) && exists|perm: Seq<int>| #[trigger] listed_by(entries_view(entries@), perm, v@)),
{
    let ghost ev = entries_view(entries@);
    let ghost keys = entry_times(ev);
    let mut branches: Vec<BranchInfo> = Vec::new();
    let ghost mut perm: Seq<int> = Seq::empty();
    let n = entries.len();
    let mut i: usize = 0;
    while i < n
        invariant
            n == entries@.len(),
            ev == entries_view(entries@),
            keys == entry_times(ev),
            i <= n,
            listing_prefix(ev, i as nat, perm, branches@),
            forall|k: int| 0 <= k < i ==> chrono_utc_in_range(#[trigger] ev[k].1),
        decreases n - i,
    {
        let ts = entries[i].1;
        let (iso_date, delta) = match format_commit_time(ts) {
            Ok(p) => p,
            Err(e) => {
                proof {
                    assert(ev[i as int].1 == ts);
                    assert(!all_in_range(ev));
                }
                return Err(e);
            },
        };
        let info = BranchInfo { name: entries[i].0.clone(), commit_time: ts, iso_date, delta };
        let mut j: usize = 0;
        while j < branches.len() && branches[j].commit_time >= ts
            invariant
                j <= branches@.len(),
                forall|k: int| 0 <= k < j ==> #[trigger] branches@[k].commit_time >= ts,
            decreases branches@.len() - j,
        {
            j += 1;
        }
        proof {
            assert(ev[i as int].1 == ts);
            assert(ev[i as int].0 == info.name@);
            assert(describes(info, ev[i as int]));
            lemma_insert_keeps_listing(ev, i as nat, perm, branches@, j as int, info);
            perm = perm.insert(j as int, i as int);
        }
        branches.insert(j, info);
        i += 1;
    }
    if let Some(e) = failure {
        return Err(e);
    }
    if branches.len() == 0 {
        proof {
            assert(ev.len() == 0);
            assert(entries@.len() == 0);
        }
        Ok(None)
    } else {
        proof {
            assert(listed_by(ev, perm, branches@));
            assert(exists|p: Seq<int>| #[trigger] listed_by(entries_view(entries@), p, branches@));
        }
        let listing: Result<Option<Vec<BranchInfo>>, FuError> = Ok(Some(branches));
        assert(listing matches Ok(Some(v)) && v@ == branches@);
        listing
    }
}

} // verus!
