//! What the repository window shows and how its controls act: the row of
//! each repository, the details of the selected one, and the selection.
use vstd::prelude::*;
use crate::config::{AppConfig, Repo, RepoEntry};
use crate::git::GitError;
use crate::git_service::GitService;
use crate::text::chars_of;

verus! {

/// The text after the last `/` of `path` (all of it when there is none),
/// as `path.split("/").last()` gives it.
pub open spec fn last_segment(path: Seq<char>) -> Seq<char>
    decreases path.len(),
{
    if path.len() == 0 {
        path
    } else if path.last() == '/' {
        seq![]
    } else {
        last_segment(path.drop_last()).push(path.last())
    }
}

/// The name a repository is listed under: the last segment of its path.
pub fn repo_display_name(repo_path: &str) -> (name: String)
    ensures
        name@ == last_segment(repo_path@),
{
    let v = chars_of(repo_path);
    let n = v.len();
    let mut i: usize = n;
    proof {
        assert(v@.skip(n as int) =~= Seq::<char>::empty());
    }
    while i > 0 && v[i - 1] != '/'
        invariant
            i <= n == v.len(),
            v@ == repo_path@,
            forall|j: int| i <= j < n ==> v@[j] != '/',
        decreases i,
    {
        i = i - 1;
    }
    proof {
        lemma_last_segment(v@, i as int);
    }
    repo_path.substring_char(i, n).to_owned()
}

proof fn lemma_last_segment(s: Seq<char>, i: int)
    requires
        0 <= i <= s.len(),
        forall|j: int| i <= j < s.len() ==> s[j] != '/',
        i == 0 || s[i - 1] == '/',
    ensures
        last_segment(s) == s.subrange(i, s.len() as int),
    decreases s.len(),
{
    if s.len() == 0 {
        assert(s.subrange(i, 0) =~= s);
    } else if s.last() == '/' {
        assert(s.subrange(i, s.len() as int) =~= Seq::<char>::empty());
    } else {
        lemma_last_segment(s.drop_last(), i);
        assert(s.subrange(i, s.len() as int) =~= s.drop_last().subrange(i, s.len() - 1).push(
            s.last(),
        ));
    }
}

/// The label of the status button: `started` for a running service,
/// `stopped` otherwise.
pub open spec fn status_text(running: bool) -> Seq<char> {
    if running {
        "started"@
    } else {
        "stopped"@
    }
}

/// The label of the status button for a service.
pub fn status_label(running: bool) -> (label: String)
    ensures
        label@ == status_text(running),
{
    if running {
        "started".to_owned()
    } else {
        "stopped".to_owned()
    }
}

/// The state of the window: the id of the selected repository, if any.
pub struct AppState {
    pub current: Option<String>,
}

impl AppState {
    /// A window with nothing selected.
    pub fn new() -> (s: Self)
        ensures
            s.current is None,
    {
        AppState { current: None }
    }

    /// The id of the selected repository, empty when none is.
    pub fn current_id(&self) -> (id: String)
        ensures
            id@ == match self.current {
                Some(c) => c@,
                None => Seq::<char>::empty(),
            },
    {
        match &self.current {
            Some(c) => c.clone(),
            None => String::new(),
        }
    }

    /// Selects the repository with id `id`, as a tap on its row does.
    pub fn select(&mut self, id: String)
        ensures
            final(self).current matches Some(c) && c@ == id@,
    {
        self.current = Some(id);
    }
}

/// One row of the repository list.
pub struct RepoRow {
    /// The name shown.
    pub label: String,
    /// Whether the row is the selected one.
    pub highlighted: bool,
    /// The id selected by a tap on the row.
    pub id: String,
}

/// The rows of the repository list: each repository's name (the last
/// segment of its service's path), highlighted when its id is `current`.
pub fn repo_rows(repos: &Vec<Repo>, current: &String) -> (rows: Vec<RepoRow>)
    ensures
        rows@.len() == repos@.len(),
        forall|i: int|
            0 <= i < rows@.len() ==> {
                &&& (#[trigger] rows@[i]).label@ == last_segment(repos@[i].service.path())
                &&& rows@[i].highlighted == (repos@[i].id@ == current@)
                &&& rows@[i].id@ == repos@[i].id@
            },
{
    let mut rows: Vec<RepoRow> = Vec::new();
    let mut i: usize = 0;
    while i < repos.len()
        invariant
            i <= repos.len(),
            rows@.len() == i,
            forall|j: int|
                0 <= j < i ==> {
                    &&& (#[trigger] rows@[j]).label@ == last_segment(repos@[j].service.path())
                    &&& rows@[j].highlighted == (repos@[j].id@ == current@)
                    &&& rows@[j].id@ == repos@[j].id@
                },
        decreases repos.len() - i,
    {
        let repo = &repos[i];
        rows.push(
            RepoRow {
                label: repo_display_name(repo.service.path_text().as_str()),
                highlighted: repo.id == *current,
                id: repo.id.clone(),
            },
        );
        i = i + 1;
    }
    rows
}

/// The index of the first repository whose id is `current`.
pub fn selected_repo(repos: &Vec<Repo>, current: &String) -> (r: Option<usize>)
    ensures
        match r {
            Some(k) => k < repos@.len() && repos@[k as int].id@ == current@ && forall|j: int|
                0 <= j < k ==> (#[trigger] repos@[j]).id@ != current@,
            None => forall|j: int| 0 <= j < repos@.len() ==> (#[trigger] repos@[j]).id@ != current@,
        },
{
    let mut i: usize = 0;
    while i < repos.len()
        invariant
            i <= repos.len(),
            forall|j: int| 0 <= j < i ==> (#[trigger] repos@[j]).id@ != current@,
        decreases repos.len() - i,
    {
        if repos[i].id == *current {
            return Some(i);
        }
        i = i + 1;
    }
    None
}

/// The details pane: the selected repository's path and status label and
/// its index, or empty texts when nothing is selected.
pub struct RepoDetails {
    pub path: String,
    pub status: String,
    pub index: Option<usize>,
}

/// The details of the repository whose id is `current`.
pub fn repo_details(repos: &Vec<Repo>, current: &String) -> (d: RepoDetails)
    ensures
        match d.index {
            Some(k) => {
                &&& k < repos@.len()
                &&& repos@[k as int].id@ == current@
                &&& forall|j: int| 0 <= j < k ==> (#[trigger] repos@[j]).id@ != current@
                &&& d.path@ == repos@[k as int].path@
                &&& d.status@ == status_text(repos@[k as int].service.is_on())
            },
            None => {
                &&& forall|j: int| 0 <= j < repos@.len() ==> (#[trigger] repos@[j]).id@ != current@
                &&& d.path@ == Seq::<char>::empty()
                &&& d.status@ == Seq::<char>::empty()
            },
        },
{
    match selected_repo(repos, current) {
        Some(k) => RepoDetails {
            path: repos[k].path.clone(),
            status: status_label(repos[k].service.running()),
            index: Some(k),
        },
        None => RepoDetails { path: String::new(), status: String::new(), index: None },
    }
}

/// Fresh copies of the configured repositories, each with a new service and
/// not started, as the window lists them. Fails with the first repository
/// that cannot be opened.
pub fn calc_repos(config: &AppConfig) -> (r: Result<Vec<Repo>, GitError>)
    ensures
        r matches Ok(repos) ==> {
            &&& repos@.len() == config.repo_list().len()
            &&& forall|i: int|
                0 <= i < repos@.len() ==> {
                    &&& (#[trigger] repos@[i]).entry() == (RepoEntry {
                        started: false,
                        ..config.repo_list()[i].entry()
                    })
                    &&& repos@[i].fresh()
                }
        },
        r matches Err(e) ==> e is Library,
        config.repo_list().len() == 0 ==> r is Ok,
{
    let source = config.get_repos();
    let mut repos: Vec<Repo> = Vec::new();
    let mut i: usize = 0;
    while i < source.len()
        invariant
            source@ == config.repo_list(),
            i <= source.len(),
            repos@.len() == i,
            forall|j: int|
                0 <= j < i ==> {
                    &&& (#[trigger] repos@[j]).entry() == (RepoEntry {
                        started: false,
                        ..config.repo_list()[j].entry()
                    })
                    &&& repos@[j].fresh()
                },
        decreases source.len() - i,
    {
        let val = &source[i];
        let service = GitService::new(val.path.as_str())?;
        repos.push(Repo { path: val.path.clone(), service, started: false, id: val.id.clone() });
        i = i + 1;
    }
    Ok(repos)
}

} // verus!
