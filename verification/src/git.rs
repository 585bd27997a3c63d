//! Repository operations: staging, committing, amending, comparing with the
//! remote-tracking branch and pushing.
use vstd::prelude::*;
use crate::git_api::{
    branch_reference, commit_amend_with, commit_id, error_message, index_add_path, index_write,
    index_write_tree, oid_bytes, proxy_options_auto, proxy_options_new, proxy_options_url,
    push_options_callbacks, push_options_new, push_options_proxy, reference_peel_to_commit,
    reference_shorthand, remote_callbacks_new, remote_push, repository_commit,
    repository_find_remote, repository_find_remote_branch, repository_find_tree, repository_head,
    repository_index, repository_init, repository_remote_names, repository_signature,
    repository_status_paths, repository_workdir,
};

verus! {

/// Why a repository operation failed.
pub enum GitError {
    /// `git2` reported this error.
    Library(git2::Error),
    /// HEAD has no readable short name, so the remote branch to compare with
    /// is unknown.
    NoBranchName,
    /// The repository has no working directory to run `git push` in.
    NoWorkdir,
    /// HEAD has no readable short name, so the branch to push is unknown.
    NoPushBranch,
    /// A `git push` command could not be started; the text says why.
    Command(String),
}

impl GitError {
    /// The text of the error.
    pub fn message(&self) -> (m: String)
        ensures
            self matches GitError::Command(t) ==> m@ == t@,
            self is NoBranchName ==> m@ == "Failed to get current branch name"@,
            self is NoWorkdir ==> m@ == "Failed to get repository working directory"@,
            self is NoPushBranch ==> m@ == "Failed find remote"@,
    {
        match self {
            GitError::Library(e) => error_message(e),
            GitError::Command(t) => t.clone(),
            GitError::NoBranchName => "Failed to get current branch name".to_owned(),
            GitError::NoWorkdir => "Failed to get repository working directory".to_owned(),
            GitError::NoPushBranch => "Failed find remote".to_owned(),
        }
    }
}

/// The error of the library for an error of `git2`: that error itself.
fn library_error(e: git2::Error) -> (r: GitError)
    ensures
        r == GitError::Library(e),
{
    GitError::Library(e)
}

/// The result of a `git2` call as a result of the library: the same value,
/// or the very error `git2` reported.
pub fn from_git<T>(r: Result<T, git2::Error>) -> (out: Result<T, GitError>)
    ensures
        match r {
            Ok(v) => out == Ok::<T, GitError>(v),
            Err(e) => out == Err::<T, GitError>(GitError::Library(e)),
        },
{
    match r {
        Ok(v) => Ok(v),
        Err(e) => Err(library_error(e)),
    }
}

/// The id of a git object, as its raw bytes.
pub struct ObjectId {
    pub bytes: Vec<u8>,
}

fn object_id(id: &git2::Oid) -> (r: ObjectId)
    ensures
        r.bytes@.len() == 20,
{
    ObjectId { bytes: oid_bytes(id) }
}

/// Whether two ids are the same.
pub fn same_id(a: &ObjectId, b: &ObjectId) -> (r: bool)
    ensures
        r == (a.bytes@ == b.bytes@),
{
    if a.bytes.len() != b.bytes.len() {
        return false;
    }
    let mut i: usize = 0;
    while i < a.bytes.len()
        invariant
            a.bytes.len() == b.bytes.len(),
            i <= a.bytes.len(),
            forall|j: int| 0 <= j < i ==> a.bytes@[j] == b.bytes@[j],
        decreases a.bytes.len() - i,
    {
        if a.bytes[i] != b.bytes[i] {
            return false;
        }
        i = i + 1;
    }
    assert(a.bytes@ =~= b.bytes@);
    true
}

/// The message of every commit this library makes.
pub open spec fn commit_message_text() -> Seq<char> {
    "Update file"@
}

/// The message of every commit this library makes: `Update file`.
pub fn commit_message() -> (m: String)
    ensures
        m@ == commit_message_text(),
{
    "Update file".to_owned()
}

/// The name of the remote-tracking branch of `branch` on `origin`.
pub fn remote_branch_name(branch: &str) -> (name: String)
    ensures
        name@ == "origin/"@ + branch@,
{
    let mut name = "origin/".to_owned();
    name.append(branch);
    name
}

/// Opens the repository at `dir_path`, creating it if there is none.
pub fn open(dir_path: &str) -> (r: Result<git2::Repository, GitError>)
    ensures
        r matches Err(e) ==> e is Library,
{
    from_git(repository_init(dir_path))
}

/// Whether the add of one status entry succeeded: it had a path and
/// `Index::add_path` took it.
pub open spec fn was_added(outcome: Option<Result<(), git2::Error>>) -> bool {
    outcome matches Some(Ok(_))
}

/// The number of entries that were added.
pub open spec fn added_count(outcomes: Seq<Option<Result<(), git2::Error>>>) -> nat
    decreases outcomes.len(),
{
    if outcomes.len() == 0 {
        0
    } else {
        added_count(outcomes.drop_last()) + if was_added(outcomes.last()) {
            1nat
        } else {
            0nat
        }
    }
}

/// Adds each named path to the index; gives, for each entry, what
/// `Index::add_path` answered, and `None` for an entry without a path,
/// which is not added.
fn stage_paths(index: &mut git2::Index, paths: &Vec<Option<String>>) -> (outcomes: Vec<
    Option<Result<(), git2::Error>>,
>)
    ensures
        outcomes@.len() == paths@.len(),
        forall|i: int|
            0 <= i < outcomes@.len() ==> (#[trigger] outcomes@[i] is None <==> paths@[i] is None),
{
    let mut outcomes: Vec<Option<Result<(), git2::Error>>> = Vec::new();
    let mut i: usize = 0;
    while i < paths.len()
        invariant
            i <= paths.len(),
            outcomes@.len() == i,
            forall|j: int| 0 <= j < i ==> (#[trigger] outcomes@[j] is None <==> paths@[j] is None),
        decreases paths.len() - i,
    {
        let outcome = match &paths[i] {
            Some(p) => Some(index_add_path(index, p.as_str())),
            None => None,
        };
        outcomes.push(outcome);
        i = i + 1;
    }
    outcomes
}

/// The number of files staged: the entries that were added.
pub fn staged_count(outcomes: &Vec<Option<Result<(), git2::Error>>>) -> (count: usize)
    ensures
        count == added_count(outcomes@),
{
    let mut count: usize = 0;
    let mut i: usize = 0;
    while i < outcomes.len()
        invariant
            i <= outcomes.len(),
            count == added_count(outcomes@.take(i as int)),
            count <= i,
        decreases outcomes.len() - i,
    {
        proof {
            assert(outcomes@.take(i + 1).drop_last() =~= outcomes@.take(i as int));
        }
        match &outcomes[i] {
            Some(Ok(())) => {
                count = count + 1;
            },
            _ => {},
        }
        i = i + 1;
    }
    assert(outcomes@.take(outcomes.len() as int) =~= outcomes@);
    count
}

/// What staging did: the path of each status entry (`None` where it is not
/// UTF-8), what `Index::add_path` answered for each (`None` for an entry
/// without a path) and how many were added.
pub struct StageReport {
    pub paths: Vec<Option<String>>,
    pub outcomes: Vec<Option<Result<(), git2::Error>>>,
    pub count: usize,
}

/// A staging report is consistent: one answer per entry, an answer exactly
/// for the entries with a path, and the count is that of the entries added.
pub open spec fn stage_holds(s: StageReport) -> bool {
    &&& s.outcomes@.len() == s.paths@.len()
    &&& forall|i: int|
        0 <= i < s.outcomes@.len() ==> (#[trigger] s.outcomes@[i] is None <==> s.paths@[i] is None)
    &&& s.count == added_count(s.outcomes@)
}

proof fn lemma_added_count_bounds(outcomes: Seq<Option<Result<(), git2::Error>>>)
    ensures
        added_count(outcomes) <= outcomes.len(),
        (added_count(outcomes) == 0) <==> (forall|i: int|
            0 <= i < outcomes.len() ==> !was_added(#[trigger] outcomes[i])),
    decreases outcomes.len(),
{
    if outcomes.len() > 0 {
        let rest = outcomes.drop_last();
        lemma_added_count_bounds(rest);
        if added_count(outcomes) == 0 {
            assert forall|i: int| 0 <= i < outcomes.len() implies !was_added(
                #[trigger] outcomes[i],
            ) by {
                if i < outcomes.len() - 1 {
                    assert(outcomes[i] == rest[i]);
                }
            }
        } else if forall|i: int| 0 <= i < outcomes.len() ==> !was_added(#[trigger] outcomes[i]) {
            assert(!was_added(outcomes[outcomes.len() - 1]));
            assert forall|i: int| 0 <= i < rest.len() implies !was_added(#[trigger] rest[i]) by {
                assert(rest[i] == outcomes[i]);
            }
        }
    }
}

/// Staging adds at most one file per status entry, only entries that have a
/// path, and reports none staged exactly when `Index::add_path` accepted
/// none of them.
pub proof fn lemma_staged_files(s: StageReport)
    requires
        stage_holds(s),
    ensures
        s.count <= s.paths@.len(),
        (s.count == 0) <==> (forall|i: int|
            0 <= i < s.outcomes@.len() ==> !(#[trigger] s.outcomes@[i] matches Some(Ok(_)))),
        forall|i: int|
            0 <= i < s.outcomes@.len() && (#[trigger] s.outcomes@[i] matches Some(Ok(_)))
                ==> s.paths@[i] is Some,
{
    lemma_added_count_bounds(s.outcomes@);
}

/// Stages every file that `git status` lists and writes the index; the
/// report says, per entry, what was added, as `stage_holds` states.
pub fn stage_files_report(repo: &git2::Repository) -> (r: Result<StageReport, GitError>)
    ensures
        r matches Ok(s) ==> stage_holds(s),
        r matches Err(e) ==> e is Library,
{
    let mut index = from_git(repository_index(repo))?;
    let paths = from_git(repository_status_paths(repo))?;
    let outcomes = stage_paths(&mut index, &paths);
    let count = staged_count(&outcomes);
    from_git(index_write(&mut index))?;
    Ok(StageReport { paths, outcomes, count })
}

/// Stages every file that `git status` lists and writes the index; gives the
/// number of files staged, as `stage_files_report` counts them.
pub fn stage_files(repo: &git2::Repository) -> (r: Result<usize, GitError>)
    ensures
        r matches Err(e) ==> e is Library,
{
    match stage_files_report(repo) {
        Ok(s) => Ok(s.count),
        Err(e) => Err(e),
    }
}

/// How a commit came about.
pub enum CommitMode {
    /// A new commit, made by `commit_files`.
    New,
    /// HEAD amended, by `commit_amend`.
    Amended,
    /// A new commit that `commit_amend` made because HEAD could not be read.
    NewInsteadOfAmend,
}

/// A commit that was made: its id and how it came about.
pub struct CommitMade {
    pub id: ObjectId,
    pub mode: CommitMode,
    /// The id of the commit an amend replaced; `None` for a new commit.
    pub replaced: Option<ObjectId>,
}

/// What a commit made by `commit_files` is handed: the reference it
/// updates, its message and its parents.
pub struct CommitPlan<'repo> {
    pub update_ref: String,
    pub message: String,
    pub parents: Vec<git2::Commit<'repo>>,
}

/// The commit to make on top of `head`, the commit HEAD resolves to (`None`
/// where HEAD cannot be read): it updates `HEAD`, has the message
/// `Update file`, and has `head` as its only parent, or no parent without one.
pub fn commit_plan<'repo>(head: Option<git2::Commit<'repo>>) -> (p: CommitPlan<'repo>)
    ensures
        p.update_ref@ == "HEAD"@,
        p.message@ == commit_message_text(),
        p.parents@ == match head {
            Some(c) => seq![c],
            None => Seq::<git2::Commit<'repo>>::empty(),
        },
{
    let mut parents: Vec<git2::Commit<'repo>> = Vec::new();
    match head {
        Some(c) => parents.push(c),
        None => {},
    }
    proof {
        assert(parents@ =~= match head {
            Some(c) => seq![c],
            None => Seq::<git2::Commit<'repo>>::empty(),
        });
    }
    CommitPlan { update_ref: "HEAD".to_owned(), message: commit_message(), parents }
}

/// Commits the index on top of HEAD (with no parent where HEAD cannot be
/// read), with the message `Update file`, as `commit_plan` says; gives the
/// new commit's id.
pub fn commit_files(repo: &git2::Repository) -> (r: Result<CommitMade, GitError>)
    ensures
        r matches Ok(c) ==> c.id.bytes@.len() == 20 && c.mode is New && c.replaced is None,
        r matches Err(e) ==> e is Library,
{
    let mut index = from_git(repository_index(repo))?;
    let tree_id = from_git(index_write_tree(&mut index))?;
    let tree = from_git(repository_find_tree(repo, tree_id))?;
    let head = match repository_head(repo) {
        Ok(head) => match reference_peel_to_commit(&head) {
            Ok(commit) => Some(commit),
            Err(e) => return Err(library_error(e)),
        },
        Err(_) => None,
    };
    let sig = from_git(repository_signature(repo))?;
    let plan = commit_plan(head);
    match repository_commit(
        repo,
        Some(plan.update_ref.as_str()),
        &sig,
        &sig,
        plan.message.as_str(),
        &tree,
        &plan.parents,
    ) {
        Ok(id) => Ok(CommitMade { id: object_id(&id), mode: CommitMode::New, replaced: None }),
        Err(e) => Err(library_error(e)),
    }
}

/// What `commit_amend` does.
pub enum AmendChoice {
    /// Amend the commit HEAD resolves to.
    AmendHead,
    /// Make a new commit as `commit_files` does.
    NewCommit,
}

/// Amend HEAD where it can be read, make a new commit otherwise.
pub fn amend_choice(head_readable: bool) -> (c: AmendChoice)
    ensures
        head_readable ==> c is AmendHead,
        !head_readable ==> c is NewCommit,
{
    if head_readable {
        AmendChoice::AmendHead
    } else {
        AmendChoice::NewCommit
    }
}

/// What an amend is handed besides the commit and the tree: the reference
/// it updates and the new message.
pub struct AmendPlan {
    pub update_ref: String,
    pub message: String,
}

/// An amend updates `HEAD` and takes the message `Update file`.
pub fn amend_plan() -> (p: AmendPlan)
    ensures
        p.update_ref@ == "HEAD"@,
        p.message@ == commit_message_text(),
{
    AmendPlan { update_ref: "HEAD".to_owned(), message: commit_message() }
}

/// Replaces the commit at HEAD by one of the current index, with the
/// message `Update file` (as `amend_plan` says); where HEAD cannot be read,
/// makes a new commit as `commit_files` does (as `amend_choice` says).
/// Gives the id of the commit made and which of the two it was.
pub fn commit_amend(repo: &git2::Repository) -> (r: Result<CommitMade, GitError>)
    ensures
        r matches Ok(c) ==> c.id.bytes@.len() == 20 && (c.mode is Amended
            || c.mode is NewInsteadOfAmend),
        r matches Ok(c) ==> (c.mode is Amended <==> c.replaced is Some),
        r matches Ok(c) ==> (c.replaced matches Some(old) ==> old.bytes@.len() == 20),
        r matches Err(e) ==> e is Library,
{
    let mut index = from_git(repository_index(repo))?;
    let tree_id = from_git(index_write_tree(&mut index))?;
    let tree = from_git(repository_find_tree(repo, tree_id))?;
    let head = repository_head(repo);
    match amend_choice(head.is_ok()) {
        AmendChoice::NewCommit => match commit_files(repo) {
            Ok(c) => Ok(
                CommitMade { id: c.id, mode: CommitMode::NewInsteadOfAmend, replaced: None },
            ),
            Err(e) => Err(e),
        },
        AmendChoice::AmendHead => {
            let head = from_git(head)?;
            let commit = from_git(reference_peel_to_commit(&head))?;
            let sig = from_git(repository_signature(repo))?;
            let plan = amend_plan();
            match commit_amend_with(
                &commit,
                Some(plan.update_ref.as_str()),
                Some(&sig),
                Some(&sig),
                None,
                Some(plan.message.as_str()),
                Some(&tree),
            ) {
                Ok(id) => Ok(
                    CommitMade {
                        id: object_id(&id),
                        mode: CommitMode::Amended,
                        replaced: Some(object_id(&commit_id(&commit))),
                    },
                ),
                Err(e) => Err(library_error(e)),
            }
        },
    }
}

/// The remote-tracking branch to compare HEAD with, from HEAD's short name
/// (`None` where it is not readable): `origin/<name>`, or `NoBranchName`.
pub fn tracking_branch(head_name: Option<String>) -> (r: Result<String, GitError>)
    ensures
        match head_name {
            Some(name) => r matches Ok(t) && t@ == "origin/"@ + name@,
            None => r matches Err(e) && e is NoBranchName,
        },
{
    match head_name {
        Some(name) => Ok(remote_branch_name(name.as_str())),
        None => Err(GitError::NoBranchName),
    }
}

/// Whether HEAD, resolved to the commit `local`, matches the remote
/// branch, which resolved to `remote` or failed to: that failure is the
/// error; otherwise whether the ids are the same.
pub fn compare_commits(local: &ObjectId, remote: Result<ObjectId, git2::Error>) -> (r: Result<
    bool,
    GitError,
>)
    ensures
        match remote {
            Err(e) => r == Err::<bool, GitError>(GitError::Library(e)),
            Ok(b) => r == Ok::<bool, GitError>(local.bytes@ == b.bytes@),
        },
{
    match remote {
        Err(e) => Err(library_error(e)),
        Ok(b) => Ok(same_id(local, &b)),
    }
}

/// The id of the commit a reference resolves to.
fn resolved_id(reference: &git2::Reference<'_>) -> (r: Result<ObjectId, git2::Error>)
    ensures
        r matches Ok(id) ==> id.bytes@.len() == 20,
{
    match reference_peel_to_commit(reference) {
        Ok(commit) => Ok(object_id(&commit_id(&commit))),
        Err(e) => Err(e),
    }
}

/// HEAD compared with its remote-tracking branch: HEAD's short name, the
/// tracking branch's name, the ids of the two commits and whether they are
/// the same.
pub struct TrackingComparison {
    pub branch: String,
    pub tracking: String,
    pub head: ObjectId,
    pub remote_tip: ObjectId,
    pub same: bool,
}

/// A comparison is consistent: the tracking branch is `origin/<branch>`,
/// and `same` holds exactly when the two commits have the same id.
pub open spec fn comparison_holds(c: TrackingComparison) -> bool {
    &&& c.tracking@ == "origin/"@ + c.branch@
    &&& c.same == (c.head.bytes@ == c.remote_tip.bytes@)
}

/// Compares HEAD with `origin/<HEAD's short name>`. Fails where HEAD cannot
/// be read, with `NoBranchName` where HEAD has no readable short name, where
/// HEAD cannot be resolved to a commit, and where the remote branch cannot
/// be found or resolved, in that order, with the error `git2` reported.
pub fn compare_with_tracking(repo: &git2::Repository) -> (r: Result<TrackingComparison, GitError>)
    ensures
        r matches Ok(c) ==> comparison_holds(c),
        r matches Err(e) ==> (e is Library || e is NoBranchName),
{
    let head = from_git(repository_head(repo))?;
    let branch = match reference_shorthand(&head) {
        Some(name) => name,
        None => return Err(GitError::NoBranchName),
    };
    let tracking = tracking_branch(Some(branch.clone()))?;
    let local = from_git(resolved_id(&head))?;
    let remote_branch = from_git(repository_find_remote_branch(repo, tracking.as_str()))?;
    let remote_tip = from_git(resolved_id(branch_reference(&remote_branch)))?;
    let same = same_id(&local, &remote_tip);
    Ok(TrackingComparison { branch, tracking, head: local, remote_tip, same })
}

/// Whether the local HEAD and `origin/<current branch>` are the same commit,
/// as `compare_with_tracking` finds. Fails where HEAD cannot be read, with
/// `NoBranchName` where HEAD has no readable short name, where HEAD cannot
/// be resolved to a commit, and where the remote branch cannot be found or
/// resolved.
pub fn check_is_updated(repo: &git2::Repository) -> (r: Result<bool, GitError>)
    ensures
        r matches Err(e) ==> (e is Library || e is NoBranchName),
{
    match compare_with_tracking(repo) {
        Ok(c) => Ok(c.same),
        Err(e) => Err(e),
    }
}

/// How a push reaches the network.
pub enum ProxyChoice {
    /// Through the proxy at this URL.
    Url(String),
    /// Through the proxy of the git configuration.
    Auto,
}

/// What a push is handed: the refspec and the proxy.
pub struct PushPlan {
    pub refspec: String,
    pub proxy: ProxyChoice,
}

/// A push sends `refs/heads/main:refs/heads/main`, through `proxy` where
/// one is given and through the proxy of the git configuration otherwise.
pub fn push_plan(proxy: Option<String>) -> (p: PushPlan)
    ensures
        p.refspec@ == "refs/heads/main:refs/heads/main"@,
        match proxy {
            Some(url) => p.proxy == ProxyChoice::Url(url),
            None => p.proxy is Auto,
        },
{
    let choice = match proxy {
        Some(url) => ProxyChoice::Url(url),
        None => ProxyChoice::Auto,
    };
    PushPlan { refspec: "refs/heads/main:refs/heads/main".to_owned(), proxy: choice }
}

/// Pushes as `push_plan` says to the remote named `remote`. The proxy is
/// asked of `lookup_proxy` once the remote is found; none of its answers
/// may hold a NUL character. A missing remote and a failed push give the
/// error `git2` reported.
pub fn push<F: FnOnce() -> Option<String>>(
    repo: &git2::Repository,
    remote: &str,
    lookup_proxy: F,
) -> (r: Result<(), GitError>)
    requires
        call_requires(lookup_proxy, ()),
        forall|p: Option<String>|
            #[trigger] call_ensures(lookup_proxy, (), p) ==> (p matches Some(url) ==> !url@.contains(
                '\0',
            )),
    ensures
        r matches Err(e) ==> e is Library,
{
    let mut target = from_git(repository_find_remote(repo, remote))?;
    let callbacks = remote_callbacks_new();
    let mut proxy_opts = proxy_options_new();
    let plan = push_plan(lookup_proxy());
    match &plan.proxy {
        ProxyChoice::Url(url) => proxy_options_url(&mut proxy_opts, url.as_str()),
        ProxyChoice::Auto => proxy_options_auto(&mut proxy_opts),
    }
    let mut opts = push_options_new();
    push_options_callbacks(&mut opts, callbacks);
    push_options_proxy(&mut opts, proxy_opts);
    let refspecs: [&str; 1] = [plan.refspec.as_str()];
    from_git(remote_push(&mut target, refspecs.as_slice(), &mut opts))
}

/// The leading named entries of `names`, up to the first unnamed one.
pub open spec fn named_prefix(names: Seq<Option<String>>) -> Seq<String>
    decreases names.len(),
{
    if names.len() == 0 {
        seq![]
    } else {
        match names[0] {
            Some(n) => seq![n] + named_prefix(names.drop_first()),
            None => seq![],
        }
    }
}

/// The remotes that `git push` goes to: those listed before the first
/// remote without a readable name.
pub fn remotes_until_unnamed(names: Vec<Option<String>>) -> (r: Vec<String>)
    ensures
        r@ == named_prefix(names@),
{
    let mut r: Vec<String> = Vec::new();
    let mut i: usize = 0;
    assert(names@.skip(0) =~= names@);
    while i < names.len()
        invariant
            i <= names.len(),
            r@ + named_prefix(names@.skip(i as int)) == named_prefix(names@),
        decreases names.len() - i,
    {
        let ghost rest = names@.skip(i as int);
        assert(rest[0] == names@[i as int]);
        match &names[i] {
            Some(n) => {
                let ghost old_r = r@;
                r.push(n.clone());
                assert(rest.drop_first() =~= names@.skip(i + 1));
                assert(r@ + named_prefix(names@.skip(i + 1)) =~= old_r + named_prefix(rest));
            },
            None => {
                assert(r@ + named_prefix(rest) =~= r@);
                return r;
            },
        }
        i = i + 1;
    }
    assert(named_prefix(names@.skip(i as int)) =~= Seq::<String>::empty());
    assert(r@ + named_prefix(names@.skip(i as int)) =~= r@);
    r
}

/// One `git push <remote> <branch>` to run in the repository's working
/// directory.
pub struct PushCommand {
    pub remote: String,
    pub branch: String,
}

/// The next thing a push through the `git` command needs.
pub enum PushStep {
    /// Run `git push <remote> <branch>` in the working directory and report
    /// whether it could be started.
    Run(PushCommand),
    /// The push is over, with this outcome.
    Done(Result<(), GitError>),
}

/// A push through the `git` command in progress: the working directory,
/// the branch, the remotes in order and the index of the next one.
pub struct PushRun {
    workdir: std::path::PathBuf,
    branch: String,
    remotes: Vec<String>,
    next: usize,
}

/// A step of a push, as the specification sees it.
pub enum PushStepView {
    /// `git push <remote> <branch>`.
    Run(Seq<char>, Seq<char>),
    /// Every command was started.
    Succeeded,
    /// A command could not be started, for this reason.
    Failed(Seq<char>),
    /// The push ended with an error of another kind.
    FailedOtherwise,
}

/// The specification's view of a step.
pub open spec fn push_step_view(step: PushStep) -> PushStepView {
    match step {
        PushStep::Run(c) => PushStepView::Run(c.remote@, c.branch@),
        PushStep::Done(Ok(())) => PushStepView::Succeeded,
        PushStep::Done(Err(GitError::Command(why))) => PushStepView::Failed(why@),
        PushStep::Done(Err(_)) => PushStepView::FailedOtherwise,
    }
}

/// The step that stands when the remote at `next` is due: its push, or,
/// past the last remote, success.
pub open spec fn push_step_at(remotes: Seq<Seq<char>>, branch: Seq<char>, next: nat) -> PushStepView {
    if next < remotes.len() {
        PushStepView::Run(remotes[next as int], branch)
    } else {
        PushStepView::Succeeded
    }
}

/// Where a push stands after the command for the remote at `next` was or
/// was not started: a command that could not be started ends the push with
/// that failure; otherwise the next remote follows.
pub open spec fn after_start(
    remotes: Seq<Seq<char>>,
    branch: Seq<char>,
    next: nat,
    started: Result<(), String>,
) -> (nat, PushStepView) {
    match started {
        Err(why) => (next, PushStepView::Failed(why@)),
        Ok(()) => ((next + 1) as nat, push_step_at(remotes, branch, (next + 1) as nat)),
    }
}

/// The outcome of a push that stands at the remote `next` and whose
/// commands start as `starts` says, in turn, each step taken as
/// `after_start` takes it.
pub open spec fn push_outcome(
    remotes: Seq<Seq<char>>,
    branch: Seq<char>,
    next: nat,
    starts: Seq<Result<(), String>>,
) -> PushStepView
    decreases starts.len(),
{
    match push_step_at(remotes, branch, next) {
        PushStepView::Run(_, _) => if starts.len() == 0 {
            PushStepView::Succeeded
        } else {
            let (n, step) = after_start(remotes, branch, next, starts[0]);
            match step {
                PushStepView::Run(_, _) => push_outcome(remotes, branch, n, starts.drop_first()),
                other => other,
            }
        },
        other => other,
    }
}

/// The first reason a command could not be started.
pub open spec fn first_start_failure(starts: Seq<Result<(), String>>) -> Option<Seq<char>>
    decreases starts.len(),
{
    if starts.len() == 0 {
        None
    } else {
        match starts[0] {
            Err(why) => Some(why@),
            Ok(()) => first_start_failure(starts.drop_first()),
        }
    }
}

/// A push in which a command is started for every remaining remote, in
/// order, fails exactly when one of them could not be started, with the
/// first such reason, and succeeds otherwise.
pub proof fn lemma_push_fails_at_first_unstarted(
    remotes: Seq<Seq<char>>,
    branch: Seq<char>,
    next: nat,
    starts: Seq<Result<(), String>>,
)
    requires
        next <= remotes.len(),
        starts.len() == remotes.len() - next,
    ensures
        push_outcome(remotes, branch, next, starts) == match first_start_failure(starts) {
            Some(why) => PushStepView::Failed(why),
            None => PushStepView::Succeeded,
        },
    decreases starts.len(),
{
    if next < remotes.len() {
        match starts[0] {
            Err(_) => {},
            Ok(()) => {
                lemma_push_fails_at_first_unstarted(remotes, branch, next + 1, starts.drop_first());
                if next + 1 == remotes.len() {
                    assert(starts.drop_first().len() == 0);
                }
            },
        }
    }
}

impl PushRun {
    /// The remotes to push to, in order.
    pub closed spec fn remotes(&self) -> Seq<Seq<char>> {
        self.remotes@.map_values(|s: String| s@)
    }

    /// The branch that is pushed.
    pub closed spec fn branch(&self) -> Seq<char> {
        self.branch@
    }

    /// The index of the next remote to push to.
    pub closed spec fn next_index(&self) -> nat {
        self.next as nat
    }

    /// The working directory to run the commands in.
    pub closed spec fn workdir_path(&self) -> std::path::PathBuf {
        self.workdir
    }

    /// The working directory to run the commands in.
    pub fn workdir(&self) -> (w: &std::path::PathBuf)
        ensures
            *w == self.workdir_path(),
    {
        &self.workdir
    }

    /// The step that stands next.
    pub fn current(&self) -> (step: PushStep)
        ensures
            push_step_view(step) == push_step_at(self.remotes(), self.branch(), self.next_index()),
    {
        if self.next < self.remotes.len() {
            run_step(&self.remotes[self.next], &self.branch)
        } else {
            PushStep::Done(Ok(()))
        }
    }

    /// Takes whether the awaited command could be started (`Err` with the
    /// reason if not) and gives the next step, as `after_start` says.
    /// Whether a started command succeeded does not matter.
    pub fn on_started(&mut self, started: Result<(), String>) -> (step: PushStep)
        requires
            old(self).next_index() < old(self).remotes().len(),
        ensures
            final(self).remotes() == old(self).remotes(),
            final(self).branch() == old(self).branch(),
            (final(self).next_index(), push_step_view(step)) == after_start(
                old(self).remotes(),
                old(self).branch(),
                old(self).next_index(),
                started,
            ),
    {
        match started {
            Err(why) => PushStep::Done(Err(GitError::Command(why))),
            Ok(()) => {
                assert(self.remotes@.len() == self.remotes().len());
                assert(self.next < self.remotes.len());
                self.next = self.next + 1;
                self.current()
            },
        }
    }
}

/// The step that runs `git push <remote> <branch>`.
fn run_step(remote: &String, branch: &String) -> (step: PushStep)
    ensures
        step matches PushStep::Run(c) && c.remote@ == remote@ && c.branch@ == branch@,
{
    PushStep::Run(PushCommand { remote: remote.clone(), branch: branch.clone() })
}

/// The push that `push_with_command` prepares, from what the repository
/// gave: its working directory (`None` for a bare repository), the names of
/// its remotes (see `remotes_until_unnamed`) and HEAD's short name (`None`
/// where it is not readable). The first of these to be missing or failed,
/// in that order, is the error: `NoWorkdir`, the error `git2` reported for
/// the remotes or for HEAD, or `NoPushBranch`. Otherwise the run pushes the
/// branch from the working directory to the remotes before the first one
/// without a readable name.
pub fn plan_push(
    workdir: Option<std::path::PathBuf>,
    remote_names: Result<Vec<Option<String>>, git2::Error>,
    head_branch: Result<Option<String>, git2::Error>,
) -> (r: Result<PushRun, GitError>)
    ensures
        match (workdir, remote_names, head_branch) {
            (None, _, _) => r matches Err(e) && e is NoWorkdir,
            (Some(_), Err(e), _) => r matches Err(f) && f == GitError::Library(e),
            (Some(_), Ok(_), Err(e)) => r matches Err(f) && f == GitError::Library(e),
            (Some(_), Ok(_), Ok(None)) => r matches Err(e) && e is NoPushBranch,
            (Some(w), Ok(names), Ok(Some(branch))) => r matches Ok(run) && {
                &&& run.workdir_path() == w
                &&& run.branch() == branch@
                &&& run.remotes() == named_prefix(names@).map_values(|s: String| s@)
                &&& run.next_index() == 0
            },
        },
{
    let workdir = match workdir {
        Some(w) => w,
        None => return Err(GitError::NoWorkdir),
    };
    let names = from_git(remote_names)?;
    let branch = match head_branch {
        Ok(Some(name)) => name,
        Ok(None) => return Err(GitError::NoPushBranch),
        Err(e) => return Err(library_error(e)),
    };
    let remotes = remotes_until_unnamed(names);
    Ok(PushRun { workdir, branch, remotes, next: 0 })
}

/// Prepares pushing the current branch to every remote with the `git`
/// command, as `plan_push` says of what the repository gives.
pub fn push_with_command(repo: &git2::Repository) -> (r: Result<PushRun, GitError>)
    ensures
        r matches Ok(run) ==> run.next_index() == 0,
        r matches Err(e) ==> (e is NoWorkdir || e is NoPushBranch || e is Library),
{
    let workdir = repository_workdir(repo);
    let names = repository_remote_names(repo);
    let head_branch = match repository_head(repo) {
        Ok(head) => Ok(reference_shorthand(&head)),
        Err(e) => Err(e),
    };
    plan_push(workdir, names, head_branch)
}

} // verus!
