//! Scanning a directory of repositories: the status of each repository by
//! name, and whether the next repository is still fetched from its remote.
use crate::git::FetchOutcome;
use crate::primitives::{BranchState, FuError, RepoStatus};
use vstd::prelude::*;
use vstd::string::*;

verus! {

/// The statuses of the repositories of a directory, by repository name.
/// Names are distinct.
#[derive(Debug)]
pub struct StatusMap {
    entries: Vec<(String, RepoStatus)>,
}

impl View for StatusMap {
    type V = Seq<(String, RepoStatus)>;

    /// The (name, status) entries, in the order they were first recorded.
    closed spec fn view(&self) -> Seq<(String, RepoStatus)> {
        self.entries@
    }
}

/// No name occurs twice.
pub open spec fn distinct_names(entries: Seq<(String, RepoStatus)>) -> bool {
    forall|i: int, j: int|
        0 <= i < j < entries.len() ==> #[trigger] entries[i].0@ != #[trigger] entries[j].0@
}

/// Some entry has the name.
pub open spec fn has_name(entries: Seq<(String, RepoStatus)>, name: Seq<char>) -> bool {
    exists|i: int| 0 <= i < entries.len() && #[trigger] entries[i].0@ == name
}

/// The position of the entry with the name.
pub open spec fn name_index(entries: Seq<(String, RepoStatus)>, name: Seq<char>) -> int {
    choose|i: int| 0 <= i < entries.len() && #[trigger] entries[i].0@ == name
}

/// The entries after recording `status` under `name`: it replaces the status
/// of that name, or goes last when the name is new.
pub open spec fn inserted(entries: Seq<(String, RepoStatus)>, name: String, status: RepoStatus) -> Seq<
    (String, RepoStatus),
> {
    if has_name(entries, name@) {
        entries.update(name_index(entries, name@), (name, status))
    } else {
        entries.push((name, status))
    }
}

/// Records `status` under `name` in entries with distinct names, replacing
/// an earlier status of that name.
fn insert_entry(entries: &mut Vec<(String, RepoStatus)>, name: String, status: RepoStatus)
    requires
        distinct_names(old(entries)@),
    ensures
        distinct_names(final(entries)@),
        final(entries)@ == inserted(old(entries)@, name, status),
{
    let n = entries.len();
    let mut i: usize = 0;
    while i < n
        invariant
            n == entries@.len(),
            entries@ == old(entries)@,
            distinct_names(entries@),
            i <= n,
            forall|k: int| 0 <= k < i ==> #[trigger] entries@[k].0@ != name@,
        decreases n - i,
    {
        if entries[i].0 == name {
            proof {
                let e = entries@;
                assert(has_name(e, name@));
                let c = name_index(e, name@);
                if c != i {
                    if c < i {
                        assert(e[c].0@ != name@);
                    } else {
                        assert(e[i as int].0@ != e[c].0@);
                    }
                }
                let e2 = e.update(i as int, (name, status));
                assert forall|a: int, b: int| 0 <= a < b < e2.len() implies #[trigger] e2[a].0@
                    != #[trigger] e2[b].0@ by {
                    if a == i {
                        assert(e[b].0@ != e[i as int].0@);
                    } else if b == i {
                        assert(e[a].0@ != e[i as int].0@);
                    }
                }
            }
            entries.set(i, (name, status));
            return ;
        }
        i += 1;
    }
    proof {
        let e = entries@;
        assert(!has_name(e, name@));
        let e2 = e.push((name, status));
        assert forall|a: int, b: int| 0 <= a < b < e2.len() implies #[trigger] e2[a].0@
            != #[trigger] e2[b].0@ by {
            if b == e.len() {
                assert(e[a].0@ != name@);
            }
        }
    }
    entries.push((name, status));
}

impl StatusMap {
    /// Names are distinct.
    #[verifier::type_invariant]
    spec fn names_distinct(self) -> bool {
        distinct_names(self.entries@)
    }

    /// No statuses yet.
    pub fn new() -> (r: StatusMap)
        ensures
            r@.len() == 0,
    {
        StatusMap { entries: Vec::new() }
    }

    /// Whether no status was recorded.
    pub fn is_empty(&self) -> (r: bool)
        ensures
            r == (self@.len() == 0),
    {
        self.entries.len() == 0
    }

    /// The (name, status) entries; no name occurs twice.
    pub fn entries(&self) -> (r: &Vec<(String, RepoStatus)>)
        ensures
            r@ == self@,
            distinct_names(self@),
    {
        proof {
            use_type_invariant(self);
        }
        &self.entries
    }

    /// Records `status` under `name`, replacing an earlier status of that
    /// name.
    pub fn insert(&mut self, name: String, status: RepoStatus)
        ensures
            distinct_names(final(self)@),
            final(self)@ == inserted(old(self)@, name, status),
    {
        proof {
            use_type_invariant(&*self);
        }
        let mut entries: Vec<(String, RepoStatus)> = Vec::new();
        std::mem::swap(&mut entries, &mut self.entries);
        insert_entry(&mut entries, name, status);
        self.entries = entries;
    }
}

/// The name shown for a repository whose status could not be read.
pub open spec fn broken_head_name() -> Seq<char> {
    "broken-head"@
}

/// The status recorded for a repository whose status could not be read.
pub open spec fn is_broken_head(s: RepoStatus) -> bool {
    &&& s.branch matches BranchState::Named(n) && n@ == broken_head_name()
    &&& s.dirty.worktree == 0
    &&& s.dirty.index == 0
    &&& s.position is None
    &&& s.head_oid.spec_is_zero()
    &&& s.remote_status is None
}

/// Whether the next repository is fetched, after one whose fetch outcome
/// was `fetched`: only while no fetch so far timed out; a fetch that finished,
/// whether it failed or succeeded, and a repository that was not fetched
/// change nothing.
pub open spec fn fetch_after(fetch: bool, fetched: Option<FetchOutcome>) -> bool {
    fetch && fetched != Some(FetchOutcome::TimedOut)
}

/// The fetch flag after the fetch outcomes of several repositories, in order.
pub open spec fn fetch_after_all(fetch: bool, fetches: Seq<Option<FetchOutcome>>) -> bool
    decreases fetches.len(),
{
    if fetches.len() == 0 {
        fetch
    } else {
        fetch_after(fetch_after_all(fetch, fetches.drop_last()), fetches.last())
    }
}

/// The progress of a scan: whether the next repository is fetched, and the
/// statuses so far.
#[derive(Debug)]
pub struct DirScan {
    pub fetch: bool,
    pub results: StatusMap,
}

impl DirScan {
    /// A scan that fetches as asked and has no statuses yet.
    pub fn new(fetch: bool) -> (r: DirScan)
        ensures
            r.fetch == fetch,
            r.results@.len() == 0,
    {
        DirScan { fetch, results: StatusMap::new() }
    }

    /// Records the outcome of reading the repository `name`: its status, or
    /// the broken-head status when it could not be read. `fetched` tells how
    /// the fetch of it went (`None` when none ran); after a fetch that timed
    /// out, no later repository is fetched.
    pub fn record(
        &mut self,
        name: String,
        outcome: Result<RepoStatus, FuError>,
        fetched: Option<FetchOutcome>,
    )
        ensures
            final(self).fetch == fetch_after(old(self).fetch, fetched),
            final(self).fetch == (old(self).fetch && fetched != Some(FetchOutcome::TimedOut)),
            outcome is Ok ==> final(self).results@ == inserted(
                old(self).results@,
                name,
                outcome.unwrap(),
            ),
            outcome is Err ==> exists|b: RepoStatus|
                #![trigger inserted(old(self).results@, name, b)]
                is_broken_head(b) && final(self).results@ == inserted(old(self).results@, name, b),
    {
        let timed_out = match fetched {
            Some(FetchOutcome::TimedOut) => true,
            _ => false,
        };
        self.fetch = self.fetch && !timed_out;
        match outcome {
            Ok(repo_status) => {
                self.results.insert(name, repo_status);
            },
            Err(_) => {
                let b = RepoStatus::broken_state(String::from_str("broken-head"));
                let ghost gb = b;
                self.results.insert(name, b);
                proof {
                    assert(is_broken_head(gb));
                }
            },
        }
    }

    /// The statuses, or nothing when no repository was recorded.
    pub fn finish(self) -> (r: Option<StatusMap>)
        ensures
            self.results@.len() == 0 ==> r is None,
            self.results@.len() > 0 ==> r == Some(self.results),
    {
        if self.results.is_empty() {
            None
        } else {
            Some(self.results)
        }
    }
}

/// Once a scan stops fetching, it never fetches again: if the flag is off
/// after the first `k` repositories, it is off after all of them.
pub proof fn lemma_fetch_never_resumes(fetch: bool, fetches: Seq<Option<FetchOutcome>>, k: int)
    requires
        0 <= k <= fetches.len(),
        !fetch_after_all(fetch, fetches.take(k)),
    ensures
        !fetch_after_all(fetch, fetches),
    decreases fetches.len() - k,
{
    if k < fetches.len() {
        let next = fetches.take(k + 1);
        assert(next.drop_last() =~= fetches.take(k));
        lemma_fetch_never_resumes(fetch, fetches, k + 1);
    } else {
        assert(fetches.take(k) =~= fetches);
    }
}

/// A fetch that timed out turns fetching off for every later repository of
/// the scan.
pub proof fn lemma_timed_out_fetch_stops_fetching(
    fetch: bool,
    fetches: Seq<Option<FetchOutcome>>,
    k: int,
)
    requires
        0 <= k < fetches.len(),
        fetches[k] == Some(FetchOutcome::TimedOut),
    ensures
        forall|j: int| k < j <= fetches.len() ==> !#[trigger] fetch_after_all(fetch, fetches.take(j)),
{
    assert forall|j: int| k < j <= fetches.len() implies !#[trigger] fetch_after_all(
        fetch,
        fetches.take(j),
    ) by {
        let pre = fetches.take(j);
        let next = pre.take(k + 1);
        assert(next.drop_last() =~= pre.take(k));
        assert(next.last() == fetches[k]);
        lemma_fetch_never_resumes(fetch, pre, k + 1);
    }
}

/// While no fetch so far timed out, a scan that started fetching still
/// fetches: a fetch that finished and failed does not stop it.
pub proof fn lemma_fetch_continues_until_timeout(
    fetch: bool,
    fetches: Seq<Option<FetchOutcome>>,
)
    requires
        fetch,
        forall|k: int|
            0 <= k < fetches.len() ==> #[trigger] fetches[k] != Some(FetchOutcome::TimedOut),
    ensures
        fetch_after_all(fetch, fetches),
    decreases fetches.len(),
{
    if fetches.len() > 0 {
        let front = fetches.drop_last();
        assert forall|k: int| 0 <= k < front.len() implies #[trigger] front[k] != Some(
            FetchOutcome::TimedOut,
        ) by {
            assert(front[k] == fetches[k]);
        }
        lemma_fetch_continues_until_timeout(fetch, front);
    }
}

/// The status recorded under a name.
pub open spec fn status_of(entries: Seq<(String, RepoStatus)>, name: Seq<char>) -> RepoStatus {
    entries[name_index(entries, name)].1
}

/// With distinct names, the entry found for a name is the one holding it.
proof fn lemma_name_index_unique(entries: Seq<(String, RepoStatus)>, j: int)
    requires
        distinct_names(entries),
        0 <= j < entries.len(),
    ensures
        has_name(entries, entries[j].0@),
        name_index(entries, entries[j].0@) == j,
{
    let n = entries[j].0@;
    assert(has_name(entries, n));
    let c = name_index(entries, n);
    if c < j {
        assert(entries[c].0@ != entries[j].0@);
    } else if c > j {
        assert(entries[j].0@ != entries[c].0@);
    }
}

/// Recording a status under a name reads back as that status, and leaves
/// every other name, and its status, as it was.
pub proof fn lemma_insert_then_lookup(
    entries: Seq<(String, RepoStatus)>,
    name: String,
    status: RepoStatus,
    other: Seq<char>,
)
    requires
        distinct_names(entries),
    ensures
        has_name(inserted(entries, name, status), name@),
        status_of(inserted(entries, name, status), name@) == status,
        other != name@ ==> has_name(inserted(entries, name, status), other) == has_name(
            entries,
            other,
        ),
        other != name@ && has_name(entries, other) ==> status_of(
            inserted(entries, name, status),
            other,
        ) == status_of(entries, other),
{
    let e2 = inserted(entries, name, status);
    let p = if has_name(entries, name@) {
        name_index(entries, name@)
    } else {
        entries.len() as int
    };
    assert(e2[p].0@ == name@);
    assert(e2.len() == entries.len() || e2.len() == entries.len() + 1);
    assert forall|k: int| 0 <= k < e2.len() && k != p implies #[trigger] e2[k] == entries[k] by {}
    assert(distinct_names(e2)) by {
        assert forall|a: int, b: int| 0 <= a < b < e2.len() implies #[trigger] e2[a].0@
            != #[trigger] e2[b].0@ by {
            if a == p {
                if has_name(entries, name@) {
                    assert(entries[b].0@ != entries[a].0@);
                } else {
                    assert(false);
                }
            } else if b == p {
                if has_name(entries, name@) {
                    assert(entries[a].0@ != entries[b].0@);
                } else {
                    assert(entries[a].0@ != name@);
                }
            }
        }
    }
    lemma_name_index_unique(e2, p);
    if other != name@ {
        if has_name(entries, other) {
            let q = name_index(entries, other);
            assert(q != p);
            assert(e2[q] == entries[q]);
            lemma_name_index_unique(entries, q);
            lemma_name_index_unique(e2, q);
        }
        if has_name(e2, other) {
            let q = name_index(e2, other);
            assert(q != p);
            assert(e2[q] == entries[q]);
            assert(entries[q].0@ == other);
        }
    }
}

} // verus!
