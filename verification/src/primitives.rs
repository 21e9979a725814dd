//! The status of a repository and of its branches, and the coloured markers
//! the shell prompt is made of.
use crate::color::{
    fg_start, painted, paint_blue, paint_cyan, paint_green, paint_magenta, paint_red, paint_white,
    paint_yellow, TermColor,
};
use crate::oid::{lower_hex, ObjectId};
use crate::text::{decimal, decimal_string, push_char, push_decimal};
use vstd::prelude::*;
use vstd::string::*;

verus! {

/// How far a branch is from another ref: commits only on the branch
/// (`ahead`) and commits only on the other side (`behind`).
#[derive(Debug)]
pub struct Position {
    pub ahead: usize,
    pub behind: usize,
}

/// What the HEAD of a repository points at.
#[derive(Debug)]
pub enum BranchState {
    Named(String),
    Detached,
}

/// Counts of changed entries.
#[derive(Debug)]
pub struct DirtyState {
    /// Entries changed in the work tree and not staged.
    pub worktree: usize,
    /// Entries staged in the index.
    pub index: usize,
}

/// Where the current branch stands against its branch on the `origin` remote.
#[derive(Debug)]
pub struct RemoteStatus {
    pub position: Option<Position>,
    /// Whether a fetch from the remote was asked for and worked: it finished
    /// within the timeout and succeeded.
    pub refreshed: bool,
}

/// Everything the prompt and the directory table show of one repository.
#[derive(Debug)]
pub struct RepoStatus {
    pub branch: BranchState,
    pub dirty: DirtyState,
    /// Against the configured upstream of the branch, if there is one.
    pub position: Option<Position>,
    pub head_oid: ObjectId,
    pub remote_status: Option<RemoteStatus>,
}

/// One local branch, with the time of its last commit.
#[derive(Debug)]
pub struct BranchInfo {
    pub name: String,
    /// Seconds since the Unix epoch.
    pub commit_time: i64,
    /// `YYYY-MM-DD HH:MM:SS` in UTC.
    pub iso_date: String,
    /// Human readable age of the commit.
    pub delta: String,
}

/// Why reading an environment variable failed.
#[derive(Debug)]
pub enum EnvVarError {
    NotPresent,
    /// The value, decoded lossily.
    NotUnicode(String),
}

/// Errors of the tool.
#[derive(Debug)]
pub enum FuError {
    Custom(String),
    Git2Error(git2::Error),
    VarError(EnvVarError),
    IoError(std::io::Error),
}

/// `git2::Error` is carried as it is.
#[verifier::external_type_specification]
#[verifier::external_body]
pub struct ExGit2Error(git2::Error);

/// `std::io::Error` is carried as it is.
#[verifier::external_type_specification]
#[verifier::external_body]
pub struct ExIoError(std::io::Error);

/// `↑n` when `n` is positive, else nothing.
pub open spec fn ahead_marker(n: usize) -> Seq<char> {
    if n > 0 {
        seq!['↑'] + decimal(n as nat)
    } else {
        Seq::empty()
    }
}

/// `↓n` when `n` is positive, else nothing.
pub open spec fn behind_marker(n: usize) -> Seq<char> {
    if n > 0 {
        seq!['↓'] + decimal(n as nat)
    } else {
        Seq::empty()
    }
}

impl Position {
    /// The ahead and the behind marker: `↑n` and `↓n`, each empty when its
    /// count is zero.
    pub fn string_markers(&self) -> (r: (String, String))
        ensures
            r.0@ == ahead_marker(self.ahead),
            r.1@ == behind_marker(self.behind),
    {
        let mut ahead = String::new();
        let mut behind = String::new();
        if self.ahead > 0 {
            push_char(&mut ahead, '↑');
            push_decimal(&mut ahead, self.ahead);
        }
        if self.behind > 0 {
            push_char(&mut behind, '↓');
            push_decimal(&mut behind, self.behind);
        }
        proof {
            assert(ahead@ =~= ahead_marker(self.ahead));
            assert(behind@ =~= behind_marker(self.behind));
        }
        (ahead, behind)
    }
}

/// The branch text: the branch name, or the first seven hex digits of the
/// head commit when HEAD is detached.
pub open spec fn plain_branch_name(s: RepoStatus) -> Seq<char> {
    match s.branch {
        BranchState::Named(name) => name@,
        BranchState::Detached => lower_hex(s.head_oid.bytes@).take(7),
    }
}

/// The branch text, coloured magenta for a named branch and cyan for a
/// detached HEAD when `colour` is set.
pub open spec fn branch_label(s: RepoStatus, colour: bool) -> Seq<char> {
    if !colour {
        plain_branch_name(s)
    } else {
        match s.branch {
            BranchState::Named(_) => painted(TermColor::Magenta, plain_branch_name(s)),
            BranchState::Detached => painted(TermColor::Cyan, plain_branch_name(s)),
        }
    }
}

/// The yellow `[↑a|↓b]` marker of the remote branch, when the remote
/// position is known and not even.
pub open spec fn remote_marker(rs: Option<RemoteStatus>) -> Seq<char> {
    match rs {
        Some(r) => match r.position {
            Some(rp) => if rp.behind > 0 || rp.ahead > 0 {
                painted(
                    TermColor::Yellow,
                    seq!['['] + ahead_marker(rp.ahead) + seq!['|'] + behind_marker(rp.behind)
                        + seq![']'],
                )
            } else {
                Seq::empty()
            },
            None => Seq::empty(),
        },
        None => Seq::empty(),
    }
}

/// The position marker: green `↑a`, a space when both are shown, red `↓b`,
/// then the remote marker; nothing at all without an upstream position.
pub open spec fn position_text(s: RepoStatus) -> Seq<char> {
    match s.position {
        None => Seq::empty(),
        Some(p) => {
            let a = if p.ahead > 0 {
                painted(TermColor::Green, ahead_marker(p.ahead))
            } else {
                Seq::empty()
            };
            let b = if p.behind > 0 {
                (if p.ahead > 0 {
                    seq![' ']
                } else {
                    Seq::empty()
                }) + painted(TermColor::Red, behind_marker(p.behind))
            } else {
                Seq::empty()
            };
            a + b + remote_marker(s.remote_status)
        },
    }
}

/// The dirty marker: a green tick when nothing changed, else a red `●`
/// followed by the yellow work tree count and the yellow `+` index count,
/// each only when positive.
pub open spec fn dirty_text(d: DirtyState) -> Seq<char> {
    if d.worktree == 0 && d.index == 0 {
        painted(TermColor::Green, seq!['✔'])
    } else {
        painted(TermColor::Red, seq!['●']) + (if d.worktree > 0 {
            painted(TermColor::Yellow, decimal(d.worktree as nat))
        } else {
            Seq::empty()
        }) + (if d.index > 0 {
            painted(TermColor::Yellow, seq!['+'] + decimal(d.index as nat))
        } else {
            Seq::empty()
        })
    }
}

/// The prompt text: `(`, the coloured branch, then position and dirty
/// markers joined by `|` when either is non-empty, then `)`.
pub open spec fn prompt_text(s: RepoStatus) -> Seq<char> {
    let pos = position_text(s);
    let dirty = dirty_text(s.dirty);
    seq!['('] + branch_label(s, true) + (if pos.len() > 0 || dirty.len() > 0 {
        pos + seq!['|'] + dirty
    } else {
        Seq::empty()
    }) + seq![')']
}

/// The line of a branch listing: green date, blue age, white name, separated
/// by single spaces.
pub open spec fn branch_line(b: BranchInfo) -> Seq<char> {
    painted(TermColor::Green, b.iso_date@) + seq![' '] + painted(TermColor::Blue, b.delta@)
        + seq![' '] + painted(TermColor::White, b.name@)
}

/// The dirty marker is never empty: the prompt always shows `|`.
pub proof fn lemma_prompt_always_has_separator(s: RepoStatus)
    ensures
        dirty_text(s.dirty).len() > 0,
        prompt_text(s) == seq!['('] + branch_label(s, true) + position_text(s) + seq!['|']
            + dirty_text(s.dirty) + seq![')'],
{
}

/// With a position against the upstream, the position marker of the prompt
/// is empty exactly when the branch is even with its upstream and, when the
/// remote position is known, even with its remote branch too: commits ahead
/// of or behind the remote always show.
pub proof fn lemma_position_marker_empty_iff_even(s: RepoStatus)
    requires
        s.position is Some,
    ensures
        position_text(s).len() == 0 <==> ({
            let p = s.position.unwrap();
            &&& p.ahead == 0
            &&& p.behind == 0
            &&& match s.remote_status {
                Some(r) => match r.position {
                    Some(rp) => rp.ahead == 0 && rp.behind == 0,
                    None => true,
                },
                None => true,
            }
        }),
{
}

/// The remote marker is shown exactly when the remote position is known and
/// not even; it is then `[`, the ahead and behind markers, and `]`, in
/// yellow.
pub proof fn lemma_remote_marker_shown_iff_not_even(rs: Option<RemoteStatus>)
    ensures
        remote_marker(rs).len() > 0 <==> (rs matches Some(r) && r.position matches Some(rp) && (
        rp.ahead > 0 || rp.behind > 0)),
        remote_marker(rs).len() > 0 ==> remote_marker(rs).subrange(0, 5) == fg_start(
            TermColor::Yellow,
        ) && remote_marker(rs)[5] == '[',
{
}

/// Appends `b` to `a`.
fn append_string(a: &mut String, b: &String)
    ensures
        final(a)@ == old(a)@ + b@,
{
    a.append(b.as_str());
}

impl RepoStatus {
    /// The status shown for a directory whose repository could not be read:
    /// the given text as branch name, clean, no position, zero head id and no
    /// remote status.
    pub fn broken_state(broken_state: String) -> (r: RepoStatus)
        ensures
            r.branch == BranchState::Named(broken_state),
            r.dirty.worktree == 0,
            r.dirty.index == 0,
            r.position is None,
            r.head_oid.spec_is_zero(),
            r.remote_status is None,
    {
        RepoStatus {
            branch: BranchState::Named(broken_state),
            dirty: DirtyState { worktree: 0, index: 0 },
            position: None,
            head_oid: ObjectId::zero(),
            remote_status: None,
        }
    }

    /// The branch name, or the short head id when detached; coloured when
    /// `colour_flag` is set.
    pub fn branch_name(&self, colour_flag: bool) -> (r: String)
        ensures
            r@ == branch_label(*self, colour_flag),
    {
        let branch_str = match &self.branch {
            BranchState::Named(name) => name.clone(),
            BranchState::Detached => {
                let hex = self.head_oid.to_hex();
                let short = hex.as_str().substring_char(0, 7);
                String::from_str(short)
            },
        };
        if colour_flag {
            match &self.branch {
                BranchState::Named(_name) => paint_magenta(branch_str.as_str()),
                BranchState::Detached => paint_cyan(branch_str.as_str()),
            }
        } else {
            branch_str
        }
    }

    /// The coloured ahead/behind marker of the branch and of its remote.
    pub fn position_marker(&self) -> (r: String)
        ensures
            r@ == position_text(*self),
    {
        match &self.position {
            Some(pos) => {
                let mut s = String::new();
                let (ahead, behind) = pos.string_markers();
                if pos.ahead > 0 {
                    let g = paint_green(ahead.as_str());
                    append_string(&mut s, &g);
                }
                if pos.behind > 0 {
                    if !s.as_str().is_empty() {
                        push_char(&mut s, ' ');
                    }
                    let r = paint_red(behind.as_str());
                    append_string(&mut s, &r);
                }
                let ghost before_remote = s@;
                match &self.remote_status {
                    Some(remote_status) => {
                        if let Some(remote_position) = &remote_status.position {
                            let (remote_ahead, remote_behind) = remote_position.string_markers();
                            if remote_position.behind > 0 || remote_position.ahead > 0 {
                                let mut remote_string = String::new();
                                push_char(&mut remote_string, '[');
                                append_string(&mut remote_string, &remote_ahead);
                                push_char(&mut remote_string, '|');
                                append_string(&mut remote_string, &remote_behind);
                                push_char(&mut remote_string, ']');
                                let y = paint_yellow(remote_string.as_str());
                                append_string(&mut s, &y);
                                proof {
                                    assert(remote_string@ =~= seq!['['] + ahead_marker(
                                        remote_position.ahead,
                                    ) + seq!['|'] + behind_marker(remote_position.behind)
                                        + seq![']']);
                                }
                            }
                        }
                    },
                    None => {},
                }
                proof {
                    assert(s@ =~= position_text(*self));
                }
                s
            },
            None => String::new(),
        }
    }

    /// The coloured tick, or the counts of changed entries.
    pub fn dirty_marker(&self) -> (r: String)
        ensures
            r@ == dirty_text(self.dirty),
    {
        proof {
            reveal_strlit("✔");
            reveal_strlit("●");
        }
        if self.dirty.worktree == 0 && self.dirty.index == 0 {
            let t = paint_green("✔");
            proof {
                assert(t@ =~= dirty_text(self.dirty));
            }
            return t;
        }
        let mut s = paint_red("●");
        if self.dirty.worktree > 0 {
            let w = decimal_string(self.dirty.worktree);
            let y = paint_yellow(w.as_str());
            append_string(&mut s, &y);
        }
        if self.dirty.index > 0 {
            let mut i = String::new();
            push_char(&mut i, '+');
            push_decimal(&mut i, self.dirty.index);
            let y = paint_yellow(i.as_str());
            append_string(&mut s, &y);
            proof {
                assert(i@ =~= seq!['+'] + decimal(self.dirty.index as nat));
            }
        }
        proof {
            assert(s@ =~= dirty_text(self.dirty));
        }
        s
    }

    /// The prompt text of the repository, as its `Display` shows it.
    pub fn to_display_string(&self) -> (r: String)
        ensures
            r@ == prompt_text(*self),
    {
        let branch_str = self.branch_name(true);
        let position_str = self.position_marker();
        let dirty = self.dirty_marker();
        let mut out = String::new();
        push_char(&mut out, '(');
        append_string(&mut out, &branch_str);
        if !position_str.as_str().is_empty() || !dirty.as_str().is_empty() {
            append_string(&mut out, &position_str);
            push_char(&mut out, '|');
            append_string(&mut out, &dirty);
        }
        push_char(&mut out, ')');
        proof {
            assert(out@ =~= prompt_text(*self));
        }
        out
    }
}

impl BranchInfo {
    /// The listing line of the branch, as its `Display` shows it.
    pub fn to_display_string(&self) -> (r: String)
        ensures
            r@ == branch_line(*self),
    {
        let mut out = paint_green(self.iso_date.as_str());
        push_char(&mut out, ' ');
        let d = paint_blue(self.delta.as_str());
        append_string(&mut out, &d);
        push_char(&mut out, ' ');
        let n = paint_white(self.name.as_str());
        append_string(&mut out, &n);
        proof {
            assert(out@ =~= branch_line(*self));
        }
        out
    }
}

} // verus!
