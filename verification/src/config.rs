//! The bridge's configuration, and the lookup of a Gerrit project among the
//! configured repositories.
use vstd::prelude::*;
use vstd::string::*;

use crate::ssh;
use crate::text::same_text;

verus! {

/// The whole configuration: how to reach Gerrit and GitLab, and which
/// repositories are mirrored.
#[derive(Clone, Debug)]
pub struct Config {
    pub gerrit: GerritConfig,
    pub gitlab: GitlabConfig,
    pub repositories: Vec<RepositoryConfig>,
}

/// One mirrored repository: a Gerrit project and its GitLab counterpart.
#[derive(Clone, Debug)]
pub struct RepositoryConfig {
    pub name: String,
    pub gitlab_git_remote: String,
    pub gitlab_project_id: u64,
    pub private_access_token: Option<String>,
}

/// How to reach Gerrit: the ssh endpoint and the directory that holds the
/// bare repositories Gerrit serves.
#[derive(Clone, Debug)]
pub struct GerritConfig {
    pub ssh: ssh::Config,
    pub internal_git_directory: String,
}

/// GitLab settings.
#[derive(Clone, Debug)]
pub struct GitlabConfig {
    pub ci_branch_prefix: String,
    pub ssh: GitlabSshConfig,
    pub api: GitlabApiConfig,
}

#[derive(Clone, Debug)]
pub struct GitlabSshConfig {
    pub private_key_path: Option<String>,
}

impl Default for GitlabSshConfig {
    fn default() -> (c: Self)
        ensures
            c.private_key_path is None,
    {
        GitlabSshConfig { private_key_path: None }
    }
}

/// GitLab API settings: the review comments that ask for a retry, and the
/// access token used when a repository has none of its own.
#[derive(Clone, Debug)]
pub struct GitlabApiConfig {
    pub retry_command: Option<String>,
    pub force_retry_command: Option<String>,
    pub private_access_token: Option<String>,
}

impl Default for GitlabApiConfig {
    fn default() -> (c: Self)
        ensures
            c.retry_command is None,
            c.force_retry_command is None,
            c.private_access_token is None,
    {
        GitlabApiConfig { retry_command: None, force_retry_command: None, private_access_token: None }
    }
}

/// Why a repository lookup failed.
#[derive(Clone, Debug)]
pub enum RepositoryError {
    /// No repository of this name is in the configuration.
    NotRegistered { name: String },
}

/// The text that reports a failed repository lookup.
pub open spec fn repository_error_text(e: RepositoryError) -> Seq<char> {
    match e {
        RepositoryError::NotRegistered { name } => "Repository "@ + name@
            + " is not registered in a configuration"@,
    }
}

impl RepositoryError {
    /// The text that reports the error.
    pub fn message(&self) -> (s: String)
        ensures
            s@ == repository_error_text(*self),
    {
        match self {
            RepositoryError::NotRegistered { name } => {
                let mut s = "Repository ".to_owned();
                s.append(name.as_str());
                s.append(" is not registered in a configuration");
                s
            },
        }
    }
}

/// The index of the first repository named `name`, if any.
pub open spec fn find_index(repos: Seq<RepositoryConfig>, name: Seq<char>) -> Option<int>
    decreases repos.len(),
{
    if repos.len() == 0 {
        None
    } else {
        match find_index(repos.drop_last(), name) {
            Some(i) => Some(i),
            None => if repos.last().name@ == name {
                Some(repos.len() - 1)
            } else {
                None
            },
        }
    }
}

/// What a lookup answers when `name` is not registered.
pub open spec fn not_registered(e: RepositoryError, name: Seq<char>) -> bool {
    match e {
        RepositoryError::NotRegistered { name: n } => n@ == name,
    }
}

proof fn lemma_find_index_bounds(repos: Seq<RepositoryConfig>, name: Seq<char>)
    ensures
        find_index(repos, name) matches Some(i) ==> 0 <= i < repos.len() && repos[i].name@ == name,
        find_index(repos, name) is None ==> forall|j: int|
            0 <= j < repos.len() ==> #[trigger] repos[j].name@ != name,
    decreases repos.len(),
{
    if repos.len() > 0 {
        lemma_find_index_bounds(repos.drop_last(), name);
        assert forall|j: int| 0 <= j < repos.len() - 1 implies repos[j] == #[trigger] repos.drop_last()[j] by {}
        if find_index(repos, name) is None {
            assert forall|j: int| 0 <= j < repos.len() implies #[trigger] repos[j].name@ != name by {
                if j < repos.len() - 1 {
                    assert(repos[j] == repos.drop_last()[j]);
                }
            }
        }
    }
}

/// Registering more repositories after the first entry of a name leaves the
/// lookup of that name unchanged: a name always resolves to its first entry.
pub proof fn lemma_first_entry_wins(repos: Seq<RepositoryConfig>, more: Seq<RepositoryConfig>, name: Seq<char>)
    requires
        find_index(repos, name) is Some,
    ensures
        find_index(repos + more, name) == find_index(repos, name),
    decreases more.len(),
{
    if more.len() == 0 {
        assert(repos + more =~= repos);
    } else {
        lemma_first_entry_wins(repos, more.drop_last(), name);
        assert((repos + more).drop_last() =~= repos + more.drop_last());
    }
}

/// Every lookup of a name answers from the same entry, and fails on the same
/// names: the remote, the project id and the token of a repository always
/// come from the first entry of that name.
pub proof fn lemma_lookups_agree(repos: Seq<RepositoryConfig>, name: Seq<char>)
    ensures
        find_index(repos, name) matches Some(i) ==> {
            &&& 0 <= i < repos.len()
            &&& repos[i].name@ == name
            &&& forall|j: int| 0 <= j < i ==> #[trigger] repos[j].name@ != name
        },
        find_index(repos, name) is None <==> forall|j: int|
            0 <= j < repos.len() ==> #[trigger] repos[j].name@ != name,
{
    lemma_find_index_bounds(repos, name);
    if let Some(i) = find_index(repos, name) {
        lemma_find_index_bounds(repos.take(i), name);
        lemma_first_entry_scan(repos, name, i);
    }
}

proof fn lemma_first_entry_scan(repos: Seq<RepositoryConfig>, name: Seq<char>, i: int)
    requires
        find_index(repos, name) == Some(i),
    ensures
        forall|j: int| 0 <= j < i ==> #[trigger] repos[j].name@ != name,
    decreases repos.len(),
{
    lemma_find_index_bounds(repos.drop_last(), name);
    match find_index(repos.drop_last(), name) {
        Some(k) => {
            lemma_first_entry_scan(repos.drop_last(), name, k);
            assert forall|j: int| 0 <= j < i implies #[trigger] repos[j].name@ != name by {
                assert(repos[j] == repos.drop_last()[j]);
            }
        },
        None => {
            assert forall|j: int| 0 <= j < i implies #[trigger] repos[j].name@ != name by {
                assert(repos[j] == repos.drop_last()[j]);
            }
        },
    }
}

/// Looks up the configured repository of a Gerrit project.
pub trait FindRepository {
    /// The git remote of the GitLab mirror.
    fn find_git_remote(&self, name: &str) -> Result<String, RepositoryError>;

    /// The GitLab project id.
    fn find_project_id(&self, name: &str) -> Result<u64, RepositoryError>;

    /// The repository's own GitLab access token, if it has one.
    fn find_private_access_token(&self, name: &str) -> Result<Option<String>, RepositoryError>;
}

/// The index of the first repository called `name`.
fn position(repos: &Vec<RepositoryConfig>, name: &str) -> (res: Option<usize>)
    ensures
        match res {
            Some(i) => find_index(repos@, name@) == Some(i as int) && i < repos@.len(),
            None => find_index(repos@, name@) is None,
        },
{
    let n = repos.len();
    let mut i: usize = 0;
    while i < n
        invariant
            n == repos@.len(),
            i <= n,
            find_index(repos@.take(i as int), name@) is None,
        decreases n - i,
    {
        let found = same_text(repos[i].name.as_str(), name);
        proof {
            assert(repos@.take(i + 1).drop_last() =~= repos@.take(i as int));
        }
        if found {
            proof {
                assert(find_index(repos@.take(i + 1), name@) == Some(i as int));
                lemma_first_entry_wins(repos@.take(i + 1), repos@.skip(i + 1), name@);
                assert(repos@.take(i + 1) + repos@.skip(i + 1) =~= repos@);
            }
            proof {
                lemma_find_index_bounds(repos@, name@);
            }
            return Some(i);
        }
        i = i + 1;
    }
    proof {
        assert(repos@.take(n as int) =~= repos@);
    }
    None
}

impl FindRepository for Vec<RepositoryConfig> {
    fn find_git_remote(&self, name: &str) -> (res: Result<String, RepositoryError>)
        ensures
            match res {
                Ok(remote) => find_index(self@, name@) matches Some(i)
                    && remote@ == self@[i].gitlab_git_remote@,
                Err(e) => find_index(self@, name@) is None && not_registered(e, name@),
            },
    {
        match position(self, name) {
            Some(i) => Ok(self[i].gitlab_git_remote.clone()),
            None => Err(RepositoryError::NotRegistered { name: name.to_owned() }),
        }
    }

    fn find_project_id(&self, name: &str) -> (res: Result<u64, RepositoryError>)
        ensures
            match res {
                Ok(id) => find_index(self@, name@) matches Some(i) && id == self@[i].gitlab_project_id,
                Err(e) => find_index(self@, name@) is None && not_registered(e, name@),
            },
    {
        match position(self, name) {
            Some(i) => Ok(self[i].gitlab_project_id),
            None => Err(RepositoryError::NotRegistered { name: name.to_owned() }),
        }
    }

    fn find_private_access_token(&self, name: &str) -> (res: Result<Option<String>, RepositoryError>)
        ensures
            match res {
                Ok(token) => find_index(self@, name@) matches Some(i) && token.deep_view()
                    == self@[i].private_access_token.deep_view(),
                Err(e) => find_index(self@, name@) is None && not_registered(e, name@),
            },
    {
        match position(self, name) {
            Some(i) => {
                let token = match &self[i].private_access_token {
                    Some(t) => Some(t.clone()),
                    None => None,
                };
                Ok(token)
            },
            None => Err(RepositoryError::NotRegistered { name: name.to_owned() }),
        }
    }
}

} // verus!
