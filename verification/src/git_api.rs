//! The calls into `git2` that the repository operations make, and the
//! `git2` types they carry. Every result here depends on the repository on
//! disk, so most calls promise nothing of what they return; where the
//! source of `git2` shows a fact that holds of every outcome, it is stated.
use vstd::prelude::*;

verus! {

#[verifier::external_type_specification]
#[verifier::external_body]
pub struct ExRepository(git2::Repository);

#[verifier::external_type_specification]
#[verifier::external_body]
pub struct ExGitError(git2::Error);

#[verifier::external_type_specification]
#[verifier::external_body]
pub struct ExOid(git2::Oid);

#[verifier::external_type_specification]
#[verifier::external_body]
pub struct ExIndex(git2::Index);

#[verifier::external_type_specification]
#[verifier::external_body]
pub struct ExTree<'repo>(git2::Tree<'repo>);

#[verifier::external_type_specification]
#[verifier::external_body]
pub struct ExCommit<'repo>(git2::Commit<'repo>);

#[verifier::external_type_specification]
#[verifier::external_body]
pub struct ExReference<'repo>(git2::Reference<'repo>);

#[verifier::external_type_specification]
#[verifier::external_body]
pub struct ExBranch<'repo>(git2::Branch<'repo>);

#[verifier::external_type_specification]
#[verifier::external_body]
pub struct ExSignature<'a>(git2::Signature<'a>);

#[verifier::external_type_specification]
#[verifier::external_body]
pub struct ExRemote<'repo>(git2::Remote<'repo>);

#[verifier::external_type_specification]
#[verifier::external_body]
pub struct ExRemoteCallbacks<'a>(git2::RemoteCallbacks<'a>);

#[verifier::external_type_specification]
#[verifier::external_body]
pub struct ExProxyOptions<'a>(git2::ProxyOptions<'a>);

#[verifier::external_type_specification]
#[verifier::external_body]
pub struct ExPushOptions<'cb>(git2::PushOptions<'cb>);

#[verifier::external_type_specification]
#[verifier::external_body]
pub struct ExPathBuf(std::path::PathBuf);

/// `git2::Repository::init`: creates (or reopens) a repository at `path`.
/// Nothing is promised of the outcome, which depends on the disk.
#[verifier::external_body]
pub(crate) fn repository_init(path: &str) -> (r: Result<git2::Repository, git2::Error>) {
    git2::Repository::init(path)
}

/// `git2::Error::message`: the text of an error. Nothing is promised of it.
#[verifier::external_body]
pub(crate) fn error_message(e: &git2::Error) -> (m: String) {
    e.message().to_string()
}

/// `git2::Repository::index`: the repository's index.
#[verifier::external_body]
pub(crate) fn repository_index(repo: &git2::Repository) -> (r: Result<git2::Index, git2::Error>) {
    repo.index()
}

/// `git2::Repository::statuses` with no options: the path of each status
/// entry, in the order of the list, `None` for an entry whose path is not
/// UTF-8 (where `StatusEntry::path` fails).
#[verifier::external_body]
pub(crate) fn repository_status_paths(repo: &git2::Repository) -> (r: Result<
    Vec<Option<String>>,
    git2::Error,
>) {
    let statuses = repo.statuses(None)?;
    Ok(statuses.iter().map(|entry| entry.path().ok().map(|p| p.to_string())).collect())
}

/// `git2::Index::add_path`: stages the file at `path`.
#[verifier::external_body]
pub(crate) fn index_add_path(index: &mut git2::Index, path: &str) -> (r: Result<(), git2::Error>) {
    index.add_path(std::path::Path::new(path))
}

/// `git2::Index::write`: writes the index back to disk.
#[verifier::external_body]
pub(crate) fn index_write(index: &mut git2::Index) -> (r: Result<(), git2::Error>) {
    index.write()
}

/// `git2::Index::write_tree`: writes the index as a tree and gives its id.
#[verifier::external_body]
pub(crate) fn index_write_tree(index: &mut git2::Index) -> (r: Result<git2::Oid, git2::Error>) {
    index.write_tree()
}

/// `git2::Repository::find_tree`: looks a tree up by its id.
#[verifier::external_body]
pub(crate) fn repository_find_tree(repo: &git2::Repository, id: git2::Oid) -> (r: Result<
    git2::Tree<'_>,
    git2::Error,
>) {
    repo.find_tree(id)
}

/// `git2::Repository::head`: the reference HEAD points to.
#[verifier::external_body]
pub(crate) fn repository_head(repo: &git2::Repository) -> (r: Result<
    git2::Reference<'_>,
    git2::Error,
>) {
    repo.head()
}

/// `git2::Reference::peel_to_commit`: the commit a reference leads to.
#[verifier::external_body]
pub(crate) fn reference_peel_to_commit<'repo>(reference: &git2::Reference<'repo>) -> (r: Result<
    git2::Commit<'repo>,
    git2::Error,
>) {
    reference.peel_to_commit()
}

/// `git2::Reference::shorthand`: the short name of a reference, `None`
/// where it is not UTF-8 (where the call fails).
#[verifier::external_body]
pub(crate) fn reference_shorthand(reference: &git2::Reference<'_>) -> (r: Option<String>) {
    reference.shorthand().ok().map(|s| s.to_string())
}

/// `git2::Repository::signature`: the configured author signature.
#[verifier::external_body]
pub(crate) fn repository_signature(repo: &git2::Repository) -> (r: Result<
    git2::Signature<'static>,
    git2::Error,
>) {
    repo.signature()
}

/// `git2::Repository::commit`: creates a commit of `tree` with `parents`.
#[verifier::external_body]
pub(crate) fn repository_commit(
    repo: &git2::Repository,
    update_ref: Option<&str>,
    author: &git2::Signature<'_>,
    committer: &git2::Signature<'_>,
    message: &str,
    tree: &git2::Tree<'_>,
    parents: &Vec<git2::Commit<'_>>,
) -> (r: Result<git2::Oid, git2::Error>) {
    repo.commit(
        update_ref,
        author,
        committer,
        message,
        tree,
        &parents.iter().collect::<Vec<&git2::Commit<'_>>>(),
    )
}

/// `git2::Commit::amend`: a copy of the commit with the given parts replaced.
#[verifier::external_body]
pub(crate) fn commit_amend_with<'repo>(
    commit: &git2::Commit<'repo>,
    update_ref: Option<&str>,
    author: Option<&git2::Signature<'_>>,
    committer: Option<&git2::Signature<'_>>,
    message_encoding: Option<&str>,
    message: Option<&str>,
    tree: Option<&git2::Tree<'repo>>,
) -> (r: Result<git2::Oid, git2::Error>) {
    commit.amend(update_ref, author, committer, message_encoding, message, tree)
}

/// `git2::Commit::id`: the id of a commit.
#[verifier::external_body]
pub(crate) fn commit_id(commit: &git2::Commit<'_>) -> (id: git2::Oid) {
    commit.id()
}

/// `git2::Oid::as_bytes`: the raw bytes of an id; with SHA-1 ids (the only
/// format of this build) there are 20 of them.
#[verifier::external_body]
pub(crate) fn oid_bytes(id: &git2::Oid) -> (bytes: Vec<u8>)
    ensures
        bytes@.len() == 20,
{
    id.as_bytes().to_vec()
}

/// `git2::Repository::find_branch` for a remote-tracking branch.
#[verifier::external_body]
pub(crate) fn repository_find_remote_branch<'repo>(repo: &'repo git2::Repository, name: &str) -> (r:
    Result<git2::Branch<'repo>, git2::Error>) {
    repo.find_branch(name, git2::BranchType::Remote)
}

/// `git2::Branch::get`: the reference underneath a branch.
#[verifier::external_body]
pub(crate) fn branch_reference<'a, 'repo>(branch: &'a git2::Branch<'repo>) -> (r: &'a git2::Reference<
    'repo,
>) {
    branch.get()
}

/// `git2::Repository::find_remote`: looks a remote up by name.
#[verifier::external_body]
pub(crate) fn repository_find_remote<'repo>(repo: &'repo git2::Repository, name: &str) -> (r: Result<
    git2::Remote<'repo>,
    git2::Error,
>) {
    repo.find_remote(name)
}

/// `git2::RemoteCallbacks::new`: a set of callbacks that does nothing.
#[verifier::external_body]
pub(crate) fn remote_callbacks_new<'a>() -> (r: git2::RemoteCallbacks<'a>) {
    git2::RemoteCallbacks::new()
}

/// `git2::ProxyOptions::new`: proxy options that name no proxy.
#[verifier::external_body]
pub(crate) fn proxy_options_new<'a>() -> (r: git2::ProxyOptions<'a>) {
    git2::ProxyOptions::new()
}

/// `git2::ProxyOptions::url`: use the proxy at `url`. The call panics on a
/// URL that holds a NUL character, which `requires` leaves out.
#[verifier::external_body]
pub(crate) fn proxy_options_url(opts: &mut git2::ProxyOptions<'_>, url: &str)
    requires
        !url@.contains('\0'),
{
    opts.url(url);
}

/// `git2::ProxyOptions::auto`: detect the proxy from the git configuration.
#[verifier::external_body]
pub(crate) fn proxy_options_auto(opts: &mut git2::ProxyOptions<'_>) {
    opts.auto();
}

/// `git2::PushOptions::new`: blank push options.
#[verifier::external_body]
pub(crate) fn push_options_new<'cb>() -> (r: git2::PushOptions<'cb>) {
    git2::PushOptions::new()
}

/// `git2::PushOptions::remote_callbacks`: sets the callbacks of a push.
#[verifier::external_body]
pub(crate) fn push_options_callbacks<'cb>(
    opts: &mut git2::PushOptions<'cb>,
    callbacks: git2::RemoteCallbacks<'cb>,
) {
    opts.remote_callbacks(callbacks);
}

/// `git2::PushOptions::proxy_options`: sets the proxy of a push.
#[verifier::external_body]
pub(crate) fn push_options_proxy<'cb>(
    opts: &mut git2::PushOptions<'cb>,
    proxy: git2::ProxyOptions<'cb>,
) {
    opts.proxy_options(proxy);
}

/// `git2::Remote::push`: pushes the refspecs to the remote.
#[verifier::external_body]
pub(crate) fn remote_push(
    remote: &mut git2::Remote<'_>,
    refspecs: &[&str],
    opts: &mut git2::PushOptions<'_>,
) -> (r: Result<(), git2::Error>) {
    remote.push(refspecs, Some(opts))
}

/// `git2::Repository::workdir`: the working directory, `None` for a bare
/// repository.
#[verifier::external_body]
pub(crate) fn repository_workdir(repo: &git2::Repository) -> (r: Option<std::path::PathBuf>) {
    repo.workdir().map(|p| p.to_path_buf())
}

/// `git2::Repository::remotes`: the names of the remotes in order, each
/// `Some` for an entry that holds a UTF-8 name and `None` otherwise (an
/// entry that `StringArray` yields as `Ok(None)` or as an error).
#[verifier::external_body]
pub(crate) fn repository_remote_names(repo: &git2::Repository) -> (r: Result<
    Vec<Option<String>>,
    git2::Error,
>) {
    let names = repo.remotes()?;
    Ok(names.iter().map(|n| n.ok().flatten().map(|s| s.to_string())).collect())
}

} // verus!
