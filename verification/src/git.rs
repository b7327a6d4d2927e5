//! Mirroring patchsets into GitLab branches with `git push`: the commands,
//! and the reading of what `git push --porcelain` reports.
use vstd::prelude::*;
use vstd::string::*;

use crate::command_line::{push_arg, push_owned_arg, CommandLine};
use crate::config::{
    self, find_index, not_registered, repository_error_text, FindRepository, RepositoryError,
};
use crate::gerrit_stream_events::models::{Change, Patchset};
use crate::text::{
    decimal, decimal_string, ends_with, has_prefix, has_suffix, is_digit, lemma_decimal_digits,
    lemma_decimal_injective, starts_with,
};

verus! {

/// What a push did to the branch.
#[derive(Clone, Debug)]
pub enum PushOperation {
    /// The branch was created or moved.
    Updated { branch: String },
    /// The branch already pointed at the patchset.
    NoChange { branch: String },
}

impl PushOperation {
    /// The branch that was pushed.
    pub fn branch(self) -> (b: String)
        ensures
            b == match self {
                PushOperation::Updated { branch } => branch,
                PushOperation::NoChange { branch } => branch,
            },
    {
        match self {
            PushOperation::Updated { branch } => branch,
            PushOperation::NoChange { branch } => branch,
        }
    }
}

/// Why a git operation failed.
#[derive(Clone, Debug)]
pub enum GitError {
    /// The change targets one of Gerrit's internal refs, which are not mirrored.
    InternalRef { branch: String },
    /// The change's project is not configured.
    Repository(RepositoryError),
    /// `git push` succeeded but reported no line that says what it did.
    UnrecognizedPushOutput,
    /// `git push --delete` succeeded but reported no deleted ref.
    UnrecognizedDeleteOutput,
}

/// The text that reports a failed git operation.
pub open spec fn git_error_text(e: GitError) -> Seq<char> {
    match e {
        GitError::InternalRef { branch } => "Tried to push an internal ref: "@ + branch@,
        GitError::Repository(r) => repository_error_text(r),
        GitError::UnrecognizedPushOutput => "git-push returned 0 but parsing did not find \n[*+=]?"@,
        GitError::UnrecognizedDeleteOutput => "git-push returned 0 but parsing did not find \n[-]?"@,
    }
}

impl GitError {
    /// The text that reports the error.
    pub fn message(&self) -> (s: String)
        ensures
            s@ == git_error_text(*self),
    {
        match self {
            GitError::InternalRef { branch } => {
                let mut s = "Tried to push an internal ref: ".to_owned();
                s.append(branch.as_str());
                s
            },
            GitError::Repository(r) => r.message(),
            GitError::UnrecognizedPushOutput => "git-push returned 0 but parsing did not find \n[*+=]?".to_owned(),
            GitError::UnrecognizedDeleteOutput => "git-push returned 0 but parsing did not find \n[-]?".to_owned(),
        }
    }
}

/// Runs git against the bare repositories that Gerrit serves.
pub struct Git {
    pub config: config::Config,
}

/// The GitLab branch of a change: the configured prefix, the change number,
/// a dash, and the change id.
pub open spec fn branch_name(prefix: Seq<char>, number: u64, id: Seq<char>) -> Seq<char> {
    prefix + decimal(number as nat) + "-"@ + id
}

/// `base` joined with the relative or absolute path `rel`, as a Unix
/// `PathBuf::join` does: an absolute `rel` replaces `base`, otherwise a
/// separator is put between them unless `base` is empty or already ends
/// with one.
pub open spec fn join_path(base: Seq<char>, rel: Seq<char>) -> Seq<char> {
    if has_prefix(rel, "/"@) {
        rel
    } else if base.len() == 0 || has_suffix(base, "/"@) {
        base + rel
    } else {
        base + "/"@ + rel
    }
}

/// The git directory of a project: `<project>.git` in Gerrit's directory.
pub open spec fn git_dir(c: config::Config, project: Seq<char>) -> Seq<char> {
    join_path(c.gerrit.internal_git_directory@, project + ".git"@)
}

/// The GitLab remote configured for a project, if the project is registered.
pub open spec fn remote_of(c: config::Config, project: Seq<char>) -> Option<Seq<char>> {
    match find_index(c.repositories@, project) {
        Some(i) => Some(c.repositories@[i].gitlab_git_remote@),
        None => None,
    }
}

/// The arguments of the push that mirrors `reference` to the change branch.
pub open spec fn push_args(remote: Seq<char>, reference: Seq<char>, branch: Seq<char>) -> Seq<Seq<char>> {
    seq!["push"@, "--porcelain"@, "--force"@, remote, reference + ":refs/heads/"@ + branch]
}

/// The arguments of the push that deletes the change branch.
pub open spec fn delete_args(remote: Seq<char>, branch: Seq<char>) -> Seq<Seq<char>> {
    seq!["push"@, "--porcelain"@, "--delete"@, remote, branch]
}

/// The environment of git commands: the project's git directory.
pub open spec fn git_envs(c: config::Config, project: Seq<char>) -> Seq<(Seq<char>, Seq<char>)> {
    seq![("GIT_DIR"@, git_dir(c, project))]
}

/// Whether the change targets one of Gerrit's internal refs.
pub open spec fn is_internal_ref(branch: Seq<char>) -> bool {
    has_prefix(branch, "refs"@)
}

/// The marker of the first line of `out`, from position `i` on, that starts
/// with one of `a`, `b`, `c`: a line break followed by the marker byte.
pub open spec fn first_marker(out: Seq<u8>, i: int, a: u8, b: u8, c: u8) -> Option<u8>
    decreases out.len() - i,
{
    if i < 0 || i + 1 >= out.len() {
        None
    } else if out[i] == 10u8 && (out[i + 1] == a || out[i + 1] == b || out[i + 1] == c) {
        Some(out[i + 1])
    } else {
        first_marker(out, i + 1, a, b, c)
    }
}

/// Finds the first line break followed by one of `a`, `b`, `c`.
fn scan_markers(out: &[u8], a: u8, b: u8, c: u8) -> (m: Option<u8>)
    ensures
        m == first_marker(out@, 0, a, b, c),
{
    let n = out.len();
    let mut i: usize = 0;
    while i < n && i + 1 < n
        invariant
            n == out@.len(),
            i <= n,
            first_marker(out@, 0, a, b, c) == first_marker(out@, i as int, a, b, c),
        decreases n - i,
    {
        if out[i] == 10u8 && (out[i + 1] == a || out[i + 1] == b || out[i + 1] == c) {
            return Some(out[i + 1]);
        }
        i = i + 1;
    }
    None
}

/// Joins two path fragments as [`join_path`] says.
fn join(base: &str, rel: &str) -> (p: String)
    ensures
        p@ == join_path(base@, rel@),
{
    if starts_with(rel, "/") {
        rel.to_owned()
    } else if base.unicode_len() == 0 || ends_with(base, "/") {
        let mut p = base.to_owned();
        p.append(rel);
        p
    } else {
        let mut p = base.to_owned();
        p.append("/");
        p.append(rel);
        p
    }
}

impl Git {
    pub fn new(config: config::Config) -> (g: Self)
        ensures
            g.config == config,
    {
        Git { config }
    }

    /// The GitLab branch that mirrors `change`.
    pub fn generate_branch_name(&self, change: &Change) -> (name: String)
        ensures
            name@ == branch_name(self.config.gitlab.ci_branch_prefix@, change.number, change.id@),
    {
        let mut name = self.config.gitlab.ci_branch_prefix.clone();
        name.append(decimal_string(change.number).as_str());
        name.append("-");
        name.append(change.id.as_str());
        name
    }

    /// The GitLab remote of the change's project.
    pub fn retrieve_remote(&self, change: &Change) -> (res: Result<String, RepositoryError>)
        ensures
            match res {
                Ok(remote) => remote_of(self.config, change.project@) == Some(remote@),
                Err(e) => remote_of(self.config, change.project@) is None && not_registered(
                    e,
                    change.project@,
                ),
            },
    {
        self.config.repositories.find_git_remote(change.project.as_str())
    }

    /// The git directory that Gerrit keeps for the change's project.
    pub fn retrieve_git_dir(&self, change: &Change) -> (dir: String)
        ensures
            dir@ == git_dir(self.config, change.project@),
    {
        let mut name = change.project.clone();
        name.append(".git");
        join(self.config.gerrit.internal_git_directory.as_str(), name.as_str())
    }

    /// The `git push` that force-pushes the patchset to the change branch.
    /// Changes on Gerrit's internal refs are refused, and so are projects
    /// that are not configured.
    pub fn push_command(&self, patchset: &Patchset, change: &Change) -> (res: Result<CommandLine, GitError>)
        ensures
            is_internal_ref(change.branch@) ==> (res matches Err(GitError::InternalRef { branch })
                && branch@ == change.branch@),
            !is_internal_ref(change.branch@) && remote_of(self.config, change.project@) is None
                ==> (res matches Err(GitError::Repository(e)) && not_registered(e, change.project@)),
            !is_internal_ref(change.branch@) && remote_of(self.config, change.project@) is Some
                ==> (res matches Ok(cmd) && cmd@.program == "git"@ && cmd@.args == push_args(
                remote_of(self.config, change.project@)->0,
                patchset.reference@,
                branch_name(self.config.gitlab.ci_branch_prefix@, change.number, change.id@),
            ) && cmd@.envs == git_envs(self.config, change.project@)),
    {
        if starts_with(change.branch.as_str(), "refs") {
            return Err(GitError::InternalRef { branch: change.branch.clone() });
        }
        let branch = self.generate_branch_name(change);
        let dir = self.retrieve_git_dir(change);
        let remote = match self.retrieve_remote(change) {
            Ok(remote) => remote,
            Err(e) => return Err(GitError::Repository(e)),
        };
        let mut args: Vec<String> = Vec::new();
        push_arg(&mut args, "push");
        push_arg(&mut args, "--porcelain");
        push_arg(&mut args, "--force");
        push_owned_arg(&mut args, remote);
        let mut refspec = patchset.reference.clone();
        refspec.append(":refs/heads/");
        refspec.append(branch.as_str());
        push_owned_arg(&mut args, refspec);
        let mut envs: Vec<(String, String)> = Vec::new();
        envs.push(("GIT_DIR".to_owned(), dir));
        let cmd = CommandLine { program: "git".to_owned(), args, envs };
        proof {
            assert(cmd@.args =~= push_args(remote@, patchset.reference@, branch@));
            assert(cmd@.envs =~= git_envs(self.config, change.project@));
        }
        Ok(cmd)
    }

    /// The `git push --delete` that removes the change branch from GitLab.
    pub fn push_delete_command(&self, change: &Change) -> (res: Result<CommandLine, GitError>)
        ensures
            remote_of(self.config, change.project@) is None ==> (res matches Err(
                GitError::Repository(e),
            ) && not_registered(e, change.project@)),
            remote_of(self.config, change.project@) is Some ==> (res matches Ok(cmd)
                && cmd@.program == "git"@ && cmd@.args == delete_args(
                remote_of(self.config, change.project@)->0,
                branch_name(self.config.gitlab.ci_branch_prefix@, change.number, change.id@),
            ) && cmd@.envs == git_envs(self.config, change.project@)),
    {
        let dir = self.retrieve_git_dir(change);
        let remote = match self.retrieve_remote(change) {
            Ok(remote) => remote,
            Err(e) => return Err(GitError::Repository(e)),
        };
        let branch = self.generate_branch_name(change);
        let mut args: Vec<String> = Vec::new();
        push_arg(&mut args, "push");
        push_arg(&mut args, "--porcelain");
        push_arg(&mut args, "--delete");
        push_owned_arg(&mut args, remote);
        push_owned_arg(&mut args, branch);
        let mut envs: Vec<(String, String)> = Vec::new();
        envs.push(("GIT_DIR".to_owned(), dir));
        let cmd = CommandLine { program: "git".to_owned(), args, envs };
        proof {
            assert(cmd@.args =~= delete_args(remote@, branch@));
            assert(cmd@.envs =~= git_envs(self.config, change.project@));
        }
        Ok(cmd)
    }

    /// Reads what a successful `git push --porcelain` of the change branch
    /// did: the first line that starts with `*` or `+` means the branch was
    /// updated, one that starts with `=` means it was already up to date.
    pub fn push_outcome(&self, change: &Change, stdout: &[u8]) -> (res: Result<PushOperation, GitError>)
        ensures
            first_marker(stdout@, 0, 42, 43, 61) == Some(42u8) || first_marker(stdout@, 0, 42, 43, 61)
                == Some(43u8) ==> (res matches Ok(PushOperation::Updated { branch }) && branch@
                == branch_name(self.config.gitlab.ci_branch_prefix@, change.number, change.id@)),
            first_marker(stdout@, 0, 42, 43, 61) == Some(61u8) ==> (res matches Ok(
                PushOperation::NoChange { branch },
            ) && branch@ == branch_name(
                self.config.gitlab.ci_branch_prefix@,
                change.number,
                change.id@,
            )),
            first_marker(stdout@, 0, 42, 43, 61) is None ==> (res matches Err(
                GitError::UnrecognizedPushOutput,
            )),
    {
        match scan_markers(stdout, 42u8, 43u8, 61u8) {
            Some(m) => {
                let branch = self.generate_branch_name(change);
                if m == 61u8 {
                    Ok(PushOperation::NoChange { branch })
                } else {
                    Ok(PushOperation::Updated { branch })
                }
            },
            None => Err(GitError::UnrecognizedPushOutput),
        }
    }

    /// Reads whether a successful `git push --porcelain --delete` deleted the
    /// branch: some line must start with `-`.
    pub fn push_delete_outcome(stdout: &[u8]) -> (res: Result<(), GitError>)
        ensures
            first_marker(stdout@, 0, 45, 45, 45) is Some <==> res is Ok,
            res is Err ==> (res matches Err(GitError::UnrecognizedDeleteOutput)),
    {
        match scan_markers(stdout, 45u8, 45u8, 45u8) {
            Some(_) => Ok(()),
            None => Err(GitError::UnrecognizedDeleteOutput),
        }
    }
}

/// Retiring a change deletes exactly the branch that mirroring it pushed:
/// both commands run in the same git directory, against the same remote,
/// and name the same branch.
pub proof fn lemma_delete_targets_pushed_branch(c: config::Config, patchset: Patchset, change: Change)
    requires
        remote_of(c, change.project@) is Some,
    ensures
        ({
            let remote = remote_of(c, change.project@)->0;
            let branch = branch_name(c.gitlab.ci_branch_prefix@, change.number, change.id@);
            &&& push_args(remote, patchset.reference@, branch)[3] == delete_args(remote, branch)[3]
            &&& push_args(remote, patchset.reference@, branch)[4] == patchset.reference@
                + ":refs/heads/"@ + delete_args(remote, branch)[4]
        }),
{
}

/// Different changes are mirrored to different branches: the branch name
/// determines the change number and the change id.
pub proof fn lemma_branch_names_distinct(prefix: Seq<char>, n1: u64, id1: Seq<char>, n2: u64, id2: Seq<char>)
    requires
        branch_name(prefix, n1, id1) == branch_name(prefix, n2, id2),
    ensures
        n1 == n2,
        id1 == id2,
{
    let d1 = decimal(n1 as nat);
    let d2 = decimal(n2 as nat);
    let s = branch_name(prefix, n1, id1);
    let t = branch_name(prefix, n2, id2);
    lemma_decimal_digits(n1 as nat);
    lemma_decimal_digits(n2 as nat);
    reveal_strlit("-");
    let p = prefix.len() as int;
    assert(forall|k: int| 0 <= k < d1.len() ==> s[p + k] == d1[k]);
    assert(forall|k: int| 0 <= k < d2.len() ==> t[p + k] == d2[k]);
    assert(s[p + d1.len()] == '-');
    assert(t[p + d2.len()] == '-');
    if d1.len() < d2.len() {
        assert(is_digit(d2[d1.len() as int]));
        assert(t[p + d1.len()] == d2[d1.len() as int]);
        assert(false);
    }
    if d2.len() < d1.len() {
        assert(is_digit(d1[d2.len() as int]));
        assert(s[p + d2.len()] == d1[d2.len() as int]);
        assert(false);
    }
    assert(d1 =~= d2) by {
        assert forall|k: int| 0 <= k < d1.len() implies d1[k] == d2[k] by {
            assert(s[p + k] == t[p + k]);
        }
    }
    lemma_decimal_injective(n1 as nat, n2 as nat);
    let q = p + d1.len() + 1;
    assert(id1 =~= id2) by {
        assert(s.len() == t.len());
        assert forall|k: int| 0 <= k < id1.len() implies id1[k] == id2[k] by {
            assert(s[q + k] == id1[k]);
            assert(t[q + k] == id2[k]);
        }
    }
}

} // verus!
