//! The configuration: the repositories to keep in sync, as they are saved
//! to the configuration file and as the running application holds them.
use vstd::prelude::*;
use crate::git::GitError;
use crate::git_service::GitService;

verus! {

/// One repository as the configuration file records it.
pub struct FileRepoConfig {
    pub repo_path: String,
    pub stated: bool,
    pub id: String,
}

/// The content of the configuration file.
pub struct FileConfig {
    pub repos: Vec<FileRepoConfig>,
}

/// What the configuration says of one repository.
pub struct RepoEntry {
    pub path: Seq<char>,
    pub started: bool,
    pub id: Seq<char>,
}

impl FileRepoConfig {
    pub open spec fn entry(&self) -> RepoEntry {
        RepoEntry { path: self.repo_path@, started: self.stated, id: self.id@ }
    }
}

impl FileConfig {
    /// The repositories of the file, in order.
    pub open spec fn entries(&self) -> Seq<RepoEntry> {
        self.repos@.map_values(|r: FileRepoConfig| r.entry())
    }
}

impl Default for FileConfig {
    /// A configuration without repositories.
    fn default() -> (c: Self)
        ensures
            c.repos@.len() == 0,
    {
        FileConfig { repos: Vec::new() }
    }
}

/// A repository of the running application: its path, its sync service,
/// whether it was started, and its id.
pub struct Repo {
    pub path: String,
    pub service: GitService,
    pub started: bool,
    pub id: String,
}

impl Repo {
    pub open spec fn entry(&self) -> RepoEntry {
        RepoEntry { path: self.path@, started: self.started, id: self.id@ }
    }

    /// The repository's service works on its path and has not run yet.
    pub open spec fn fresh(&self) -> bool {
        &&& self.service.path() == self.path@
        &&& self.service.interval_secs() == 10
        &&& self.service.cycles() == 0
        &&& !self.service.is_on()
    }
}

/// The configuration of the running application.
pub struct AppConfig {
    repos: Vec<Repo>,
}

/// The entries as the application holds them after loading: every
/// repository not started.
pub open spec fn restarted(entries: Seq<RepoEntry>) -> Seq<RepoEntry> {
    entries.map_values(|e: RepoEntry| RepoEntry { started: false, ..e })
}

/// The text of a version-4 UUID as `uuid` formats it: 36 characters,
/// hyphens at 8, 13, 18 and 23, lowercase hexadecimal digits elsewhere, the
/// version digit `4` at 14 and one of `8`, `9`, `a`, `b` at 19.
pub open spec fn is_v4_uuid_text(s: Seq<char>) -> bool {
    &&& s.len() == 36
    &&& forall|i: int|
        0 <= i < 36 ==> if i == 8 || i == 13 || i == 18 || i == 23 {
            #[trigger] s[i] == '-'
        } else {
            is_lower_hex(s[i])
        }
    &&& s[14] == '4'
    &&& (s[19] == '8' || s[19] == '9' || s[19] == 'a' || s[19] == 'b')
}

pub open spec fn is_lower_hex(c: char) -> bool {
    (0x30 <= c as u32 <= 0x39) || (0x61 <= c as u32 <= 0x66)
}

/// `uuid::Uuid::new_v4` formatted with `to_string`: a fresh random id, of
/// which the format is all that is promised.
#[verifier::external_body]
fn new_repo_id() -> (id: String)
    ensures
        is_v4_uuid_text(id@),
{
    uuid::Uuid::new_v4().to_string()
}

impl AppConfig {
    /// The repositories, in order.
    pub closed spec fn repo_list(&self) -> Seq<Repo> {
        self.repos@
    }

    /// What the configuration says of its repositories, in order.
    pub open spec fn entries(&self) -> Seq<RepoEntry> {
        self.repo_list().map_values(|r: Repo| r.entry())
    }

    /// A configuration without repositories.
    pub fn new() -> (c: Self)
        ensures
            c.repo_list().len() == 0,
    {
        AppConfig { repos: Vec::new() }
    }

    /// The configuration that the file describes: each repository opened
    /// with a fresh service and not started. Fails with the first repository
    /// that cannot be opened.
    pub fn init(file: &FileConfig) -> (r: Result<Self, GitError>)
        ensures
            r matches Ok(c) ==> {
                &&& c.entries() == restarted(file.entries())
                &&& forall|i: int| 0 <= i < c.repo_list().len() ==> (#[trigger] c.repo_list()[i]).fresh()
            },
            r matches Err(e) ==> e is Library,
            file.repos@.len() == 0 ==> r is Ok,
    {
        let mut repos: Vec<Repo> = Vec::new();
        let mut i: usize = 0;
        while i < file.repos.len()
            invariant
                i <= file.repos.len(),
                repos@.len() == i,
                forall|j: int|
                    0 <= j < i ==> {
                        &&& (#[trigger] repos@[j]).entry() == (RepoEntry {
                            started: false,
                            ..file.repos@[j].entry()
                        })
                        &&& repos@[j].fresh()
                    },
            decreases file.repos.len() - i,
        {
            let entry = &file.repos[i];
            let service = GitService::new(entry.repo_path.as_str())?;
            repos.push(
                Repo {
                    path: entry.repo_path.clone(),
                    service,
                    started: false,
                    id: entry.id.clone(),
                },
            );
            i = i + 1;
        }
        let c = AppConfig { repos };
        assert(c.entries() =~= restarted(file.entries()));
        Ok(c)
    }

    /// What the configuration file should hold for this configuration.
    pub fn to_file_config(&self) -> (f: FileConfig)
        ensures
            f.entries() == self.entries(),
    {
        let mut repos: Vec<FileRepoConfig> = Vec::new();
        let mut i: usize = 0;
        while i < self.repos.len()
            invariant
                i <= self.repos.len(),
                repos@.len() == i,
                forall|j: int| 0 <= j < i ==> (#[trigger] repos@[j]).entry() == self.repos@[j].entry(),
            decreases self.repos.len() - i,
        {
            let repo = &self.repos[i];
            repos.push(
                FileRepoConfig {
                    repo_path: repo.path.clone(),
                    stated: repo.started,
                    id: repo.id.clone(),
                },
            );
            i = i + 1;
        }
        let f = FileConfig { repos };
        assert(f.entries() =~= self.entries());
        f
    }

    /// The repositories, in order.
    pub fn get_repos(&self) -> (r: &Vec<Repo>)
        ensures
            r@ == self.repo_list(),
    {
        &self.repos
    }

    /// The repositories, in order, given up by the configuration (so that
    /// each can be run on its own).
    pub fn into_repos(self) -> (r: Vec<Repo>)
        ensures
            r@ == self.repo_list(),
    {
        self.repos
    }

    /// The repository at `index`, for changing its service.
    pub fn repo_mut(&mut self, index: usize) -> (r: &mut Repo)
        requires
            index < old(self).repo_list().len(),
        ensures
            *r == old(self).repo_list()[index as int],
            final(self).repo_list() == old(self).repo_list().update(index as int, *final(r)),
    {
        &mut self.repos[index]
    }

    /// Adds the repository at `repo_path` with a fresh id, not started, with
    /// a fresh service. Fails, changing nothing, where the repository cannot
    /// be opened.
    pub fn add(&mut self, repo_path: String) -> (r: Result<(), GitError>)
        ensures
            r is Ok ==> {
                let last = final(self).repo_list().last();
                &&& final(self).repo_list().len() == old(self).repo_list().len() + 1
                &&& final(self).repo_list().drop_last() == old(self).repo_list()
                &&& last.path@ == repo_path@
                &&& !last.started
                &&& is_v4_uuid_text(last.id@)
                &&& last.fresh()
            },
            r matches Err(e) ==> {
                &&& e is Library
                &&& final(self).repo_list() == old(self).repo_list()
            },
    {
        let id = new_repo_id();
        let service = GitService::new(repo_path.as_str())?;
        self.repos.push(Repo { path: repo_path, service, started: false, id });
        assert(self.repos@.drop_last() =~= old(self).repos@);
        Ok(())
    }
}

/// Loading what was saved and saving it again changes nothing: a
/// configuration read back after one load is the configuration it was.
pub proof fn lemma_reload_is_stable(entries: Seq<RepoEntry>)
    ensures
        restarted(restarted(entries)) == restarted(entries),
{
    assert(restarted(restarted(entries)) =~= restarted(entries));
}

/// Saving a configuration in which no repository is started and loading
/// it again gives back the same repositories.
pub proof fn lemma_save_then_load(entries: Seq<RepoEntry>)
    requires
        forall|i: int| 0 <= i < entries.len() ==> !(#[trigger] entries[i]).started,
    ensures
        restarted(entries) == entries,
{
    assert(restarted(entries) =~= entries);
}

/// `base` with the relative component `comp` appended, as
/// `PathBuf::push` appends it: a `/` goes between them unless `base` is
/// empty or already ends with one.
pub open spec fn join_component(base: Seq<char>, comp: Seq<char>) -> Seq<char> {
    if base.len() > 0 && base.last() != '/' {
        base + seq!['/'] + comp
    } else {
        base + comp
    }
}

/// Where the configuration file lives: under the home directory in
/// `Library/Application Support/gbksync/config.json`, or `config.json` in
/// the working directory when no home directory is known.
pub open spec fn config_path_for(home: Option<Seq<char>>) -> Seq<char> {
    match home {
        Some(h) => join_component(
            join_component(
                join_component(join_component(h, "Library"@), "Application Support"@),
                "gbksync"@,
            ),
            "config.json"@,
        ),
        None => "config.json"@,
    }
}

/// Appends a relative component that neither starts nor ends with `/`.
fn push_component(base: String, comp: &str) -> (r: String)
    ensures
        r@ == join_component(base@, comp@),
{
    let n = base.as_str().unicode_len();
    if n > 0 && base.as_str().get_char(n - 1) != '/' {
        let mut r = base;
        r.append("/");
        proof {
            reveal_strlit("/");
        }
        r.append(comp);
        assert(r@ =~= join_component(base@, comp@));
        r
    } else {
        let mut r = base;
        r.append(comp);
        r
    }
}

/// The path of the configuration file for the home directory `home`.
pub fn get_config_path(home: Option<&str>) -> (p: String)
    ensures
        p@ == config_path_for(
            match home {
                Some(h) => Some(h@),
                None => None,
            },
        ),
{
    match home {
        Some(h) => {
            let p = push_component(h.to_owned(), "Library");
            let p = push_component(p, "Application Support");
            let p = push_component(p, "gbksync");
            push_component(p, "config.json")
        },
        None => "config.json".to_owned(),
    }
}

} // verus!
