//! The sync service of one repository: its settings and one cycle of its
//! work (stage, commit or amend, decide whether to push).
use vstd::prelude::*;
use crate::git::{
    commit_amend, commit_files, compare_with_tracking, comparison_holds, open, stage_files_report,
    stage_holds, CommitMade, CommitMode, GitError, StageReport, TrackingComparison,
};

verus! {

/// How a cycle commits what it staged.
pub enum CommitKind {
    /// A new commit on top of HEAD, made when HEAD matched the remote branch.
    Fresh,
    /// HEAD amended, made when HEAD was ahead of (or apart from) the remote branch.
    Amend,
}

/// What one cycle saw and decided.
pub struct CycleReport {
    /// The number of the cycle, counting from one.
    pub cycle: u64,
    /// Whether HEAD matched the remote branch before staging (`false` where
    /// that could not be told).
    pub up_to_date_before: bool,
    /// How many files were staged, `None` where staging failed.
    pub staged: Option<usize>,
    /// Whether HEAD matched the remote branch after staging, asked only
    /// when files were staged (`false` where it could not be told).
    pub up_to_date_after: Option<bool>,
    /// The commit that was attempted, if any.
    pub commit: Option<CommitKind>,
    /// What the commit attempt gave: the commit made, or why it failed.
    pub made: Option<Result<CommitMade, GitError>>,
    /// Whether the repository should now be pushed.
    pub push_due: bool,
    /// HEAD compared with its remote-tracking branch before staging, where
    /// the comparison could be made.
    pub before: Option<TrackingComparison>,
    /// What staging did, where it succeeded.
    pub staging: Option<StageReport>,
    /// HEAD compared with its remote-tracking branch after staging, where
    /// it was asked and the comparison could be made.
    pub after: Option<TrackingComparison>,
}

/// Whether a comparison, if one was made, found HEAD and its
/// remote-tracking branch at the same commit.
pub open spec fn found_same(c: Option<TrackingComparison>) -> bool {
    c matches Some(x) && x.same
}

/// What a cycle saw is consistent: each comparison is one that
/// `comparison_holds`, the up-to-date answers are what the comparisons
/// found (`false` where none could be made), and the staged count is that
/// of the staging report.
pub open spec fn cycle_observed(r: CycleReport) -> bool {
    &&& (r.before matches Some(c) ==> comparison_holds(c))
    &&& (r.after matches Some(c) ==> comparison_holds(c))
    &&& r.up_to_date_before == found_same(r.before)
    &&& (r.up_to_date_after matches Some(u) ==> u == found_same(r.after))
    &&& (r.up_to_date_after is None ==> r.after is None)
    &&& (r.staging matches Some(s) ==> stage_holds(s))
    &&& r.staged == match r.staging {
        Some(s) => Some(s.count),
        None => None::<usize>,
    }
}

/// Every third cycle may push.
pub open spec fn is_push_cycle(cycle: u64) -> bool {
    cycle % 3 == 0
}

/// Whether HEAD matched the remote branch at the end of the cycle, as far
/// as the cycle knows.
pub open spec fn final_up_to_date(r: CycleReport) -> bool {
    match r.up_to_date_after {
        Some(u) => u,
        None => r.up_to_date_before,
    }
}

/// The commit a cycle makes once it knows whether HEAD matches the remote.
pub open spec fn commit_kind_for(up_to_date: bool) -> CommitKind {
    if up_to_date {
        CommitKind::Fresh
    } else {
        CommitKind::Amend
    }
}

/// A commit made of the kind decided: a fresh commit is a new one made by
/// `commit_files`; an amend is one `commit_amend` made (HEAD amended, or a
/// new commit where HEAD could not be read).
pub open spec fn commit_made_as(c: CommitMade, kind: CommitKind) -> bool {
    match kind {
        CommitKind::Fresh => c.mode is New,
        CommitKind::Amend => c.mode is Amended || c.mode is NewInsteadOfAmend,
    }
}

/// The decisions of a cycle, given what it saw: the remote is asked again
/// and a commit is made exactly when files were staged, a fresh commit when
/// HEAD matches the remote and an amend otherwise; a push is due on every
/// third cycle when HEAD does not match the remote.
pub open spec fn cycle_decided(r: CycleReport) -> bool {
    &&& (r.up_to_date_after is Some <==> (r.staged matches Some(n) && n > 0))
    &&& (r.commit is Some <==> r.up_to_date_after is Some)
    &&& (r.up_to_date_after matches Some(u) ==> r.commit == Some(commit_kind_for(u)))
    &&& (r.made is Some <==> r.commit is Some)
    &&& (r.made matches Some(Ok(c)) ==> commit_made_as(c, r.commit->0))
    &&& r.push_due == (is_push_cycle(r.cycle) && !final_up_to_date(r))
}

/// Whether the commits HEAD and its remote-tracking branch resolved to, in
/// a comparison that could be made, have the same id.
pub open spec fn same_commit(c: Option<TrackingComparison>) -> bool {
    c matches Some(x) && x.head.bytes@ == x.remote_tip.bytes@
}

/// A cycle pushes exactly on every third cycle where HEAD's commit is not
/// the commit of `origin/<HEAD's short name>`, as compared after staging
/// where files were staged and before staging otherwise (a comparison that
/// could not be made counts as different).
pub proof fn lemma_cycle_push_rule(r: CycleReport)
    requires
        cycle_decided(r),
        cycle_observed(r),
    ensures
        (r.staged matches Some(n) && n > 0) ==> r.push_due == (is_push_cycle(r.cycle)
            && !same_commit(r.after)),
        !(r.staged matches Some(n) && n > 0) ==> r.push_due == (is_push_cycle(r.cycle)
            && !same_commit(r.before)),
        r.before matches Some(c) ==> c.tracking@ == "origin/"@ + c.branch@,
{
}

/// A cycle commits only what it staged, and the commit it makes is a new
/// one exactly when, after staging, HEAD's commit was that of its
/// remote-tracking branch; otherwise it amends (or, where HEAD cannot be
/// read, makes a new commit through `commit_amend`).
pub proof fn lemma_cycle_commit_rule(r: CycleReport)
    requires
        cycle_decided(r),
        cycle_observed(r),
    ensures
        r.made is Some ==> (r.staging matches Some(s) && s.count > 0),
        r.made matches Some(Ok(c)) ==> (c.mode is New <==> same_commit(r.after)),
{
}

/// Of any three cycles in a row, exactly one may push.
pub proof fn lemma_one_push_cycle_in_three(c: u64)
    requires
        c <= u64::MAX - 3,
    ensures
        (is_push_cycle((c + 1) as u64) as int) + (is_push_cycle((c + 2) as u64) as int) + (
        is_push_cycle((c + 3) as u64) as int) == 1,
{
}

/// Whether a cycle numbered `cycle`, ending with HEAD matching the remote
/// or not, should push.
pub fn push_due(cycle: u64, up_to_date: bool) -> (r: bool)
    ensures
        r == (is_push_cycle(cycle) && !up_to_date),
{
    cycle % 3 == 0 && !up_to_date
}

/// The commit to make once it is known whether HEAD matches the remote.
pub fn commit_kind(up_to_date: bool) -> (k: CommitKind)
    ensures
        k == commit_kind_for(up_to_date),
{
    if up_to_date {
        CommitKind::Fresh
    } else {
        CommitKind::Amend
    }
}

/// The sync service of one repository.
pub struct GitService {
    pub repo_path: String,
    repo: git2::Repository,
    interval: u64,
    interval_count: u64,
    running: bool,
}

impl GitService {
    /// The path of the repository.
    pub closed spec fn path(&self) -> Seq<char> {
        self.repo_path@
    }

    /// The seconds between two cycles.
    pub closed spec fn interval_secs(&self) -> u64 {
        self.interval
    }

    /// The number of cycles run so far.
    pub closed spec fn cycles(&self) -> u64 {
        self.interval_count
    }

    /// Whether the service is switched on.
    pub closed spec fn is_on(&self) -> bool {
        self.running
    }

    /// Opens (creating if needed) the repository at `repo_path`; the service
    /// starts switched off, with ten seconds between cycles and no cycle run.
    pub fn new(repo_path: &str) -> (r: Result<Self, GitError>)
        ensures
            r matches Ok(s) ==> {
                &&& s.path() == repo_path@
                &&& s.interval_secs() == 10
                &&& s.cycles() == 0
                &&& !s.is_on()
            },
            r matches Err(e) ==> e is Library,
    {
        let repo = open(repo_path)?;
        Ok(GitService {
            repo_path: repo_path.to_owned(),
            repo,
            interval: 10,
            interval_count: 0,
            running: false,
        })
    }

    /// Sets the seconds between two cycles.
    pub fn set_interval(&mut self, i: u64) -> (r: &Self)
        ensures
            final(self).interval_secs() == i,
            final(self).cycles() == old(self).cycles(),
            final(self).is_on() == old(self).is_on(),
            final(self).path() == old(self).path(),
            *r == *final(self),
    {
        self.interval = i;
        self
    }

    /// The path of the repository.
    pub fn path_text(&self) -> (p: &String)
        ensures
            p@ == self.path(),
    {
        &self.repo_path
    }

    /// The seconds between two cycles.
    pub fn interval(&self) -> (i: u64)
        ensures
            i == self.interval_secs(),
    {
        self.interval
    }

    /// The number of cycles run so far.
    pub fn cycle_count(&self) -> (c: u64)
        ensures
            c == self.cycles(),
    {
        self.interval_count
    }

    /// Whether the service is switched on.
    pub fn running(&self) -> (b: bool)
        ensures
            b == self.is_on(),
    {
        self.running
    }

    /// The repository the service works on.
    pub closed spec fn repository_value(&self) -> git2::Repository {
        self.repo
    }

    /// The repository the service works on.
    pub fn repository(&self) -> (r: &git2::Repository)
        ensures
            *r == self.repository_value(),
    {
        &self.repo
    }

    /// Switches the service on.
    pub fn start(&mut self)
        ensures
            final(self).is_on(),
            final(self).interval_secs() == old(self).interval_secs(),
            final(self).cycles() == old(self).cycles(),
            final(self).path() == old(self).path(),
    {
        self.running = true;
    }

    /// Switches the service off.
    pub fn stop(&mut self)
        ensures
            !final(self).is_on(),
            final(self).interval_secs() == old(self).interval_secs(),
            final(self).cycles() == old(self).cycles(),
            final(self).path() == old(self).path(),
    {
        self.running = false;
    }

    /// Runs one cycle: counts it, asks whether HEAD matches the remote
    /// branch, stages the changed files and, where any were staged, asks
    /// again and makes a fresh commit (HEAD matches) or amends HEAD (it does
    /// not). Reports what it saw and whether a push is now due.
    pub fn sync_once(&mut self) -> (r: CycleReport)
        requires
            old(self).cycles() < u64::MAX,
        ensures
            r.cycle == old(self).cycles() + 1,
            final(self).cycles() == r.cycle,
            cycle_decided(r),
            cycle_observed(r),
            final(self).interval_secs() == old(self).interval_secs(),
            final(self).is_on() == old(self).is_on(),
            final(self).path() == old(self).path(),
    {
        self.interval_count = self.interval_count + 1;
        let cycle = self.interval_count;
        let before = match compare_with_tracking(&self.repo) {
            Ok(c) => Some(c),
            Err(_) => None,
        };
        let up_to_date_before = match &before {
            Some(c) => c.same,
            None => false,
        };
        let (staging, after, up_to_date_after, commit, made) = match stage_files_report(&self.repo) {
            Ok(report) => {
                if report.count > 0 {
                    let after = match compare_with_tracking(&self.repo) {
                        Ok(c) => Some(c),
                        Err(_) => None,
                    };
                    let u = match &after {
                        Some(c) => c.same,
                        None => false,
                    };
                    let kind = commit_kind(u);
                    let made = match kind {
                        CommitKind::Fresh => commit_files(&self.repo),
                        CommitKind::Amend => commit_amend(&self.repo),
                    };
                    (Some(report), after, Some(u), Some(kind), Some(made))
                } else {
                    (Some(report), None, None, None, None)
                }
            },
            Err(_) => (None, None, None, None, None),
        };
        let staged = match &staging {
            Some(s) => Some(s.count),
            None => None,
        };
        let up_to_date = match up_to_date_after {
            Some(u) => u,
            None => up_to_date_before,
        };
        CycleReport {
            cycle,
            up_to_date_before,
            staged,
            up_to_date_after,
            commit,
            made,
            push_due: push_due(cycle, up_to_date),
            before,
            staging,
            after,
        }
    }

    /// Switches the service off when it is on and on when it is off; gives
    /// the new state.
    pub fn toggle(&mut self) -> (on: bool)
        ensures
            on == !old(self).is_on(),
            final(self).is_on() == on,
            final(self).interval_secs() == old(self).interval_secs(),
            final(self).cycles() == old(self).cycles(),
            final(self).path() == old(self).path(),
    {
        if self.running {
            self.stop();
        } else {
            self.start();
        }
        self.running
    }
}

} // verus!
