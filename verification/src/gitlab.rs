//! The GitLab pipelines API as the bridge uses it: the endpoints, the access
//! token, how replies are read, and the pipeline data.
use vstd::prelude::*;
use vstd::string::*;
use vstd::utf8::*;

use crate::config::{
    self, find_index, not_registered, repository_error_text, FindRepository, RepositoryError,
};
use crate::text::{decimal, decimal_string};

verus! {

/// Talks to the GitLab API on behalf of the configured repositories. The
/// HTTP transport is supplied by the caller; this type decides the
/// endpoints and the credentials.
pub struct Client {
    pub config: config::Config,
}

/// The answer to "which is the latest pipeline of this branch".
#[derive(Clone, Debug)]
pub enum PipelineQueryResult {
    LatestPipeline { pipeline: Pipeline },
    NotFound,
}

/// The status of a GitLab pipeline.
#[derive(Clone, Copy, Debug, PartialEq, Eq, Structural)]
pub enum PipelineStatus {
    Created,
    WaitingForResource,
    Preparing,
    Pending,
    Running,
    Success,
    Failed,
    Canceled,
    Skipped,
    Manual,
    Scheduled,
}

/// The statuses of a pipeline that has not finished yet.
pub open spec fn running_status(s: PipelineStatus) -> bool {
    match s {
        PipelineStatus::Created | PipelineStatus::WaitingForResource | PipelineStatus::Preparing
        | PipelineStatus::Pending | PipelineStatus::Running => true,
        _ => false,
    }
}

/// The name of a status, as its `Debug` rendering writes it.
pub open spec fn status_name(s: PipelineStatus) -> Seq<char> {
    match s {
        PipelineStatus::Created => "Created"@,
        PipelineStatus::WaitingForResource => "WaitingForResource"@,
        PipelineStatus::Preparing => "Preparing"@,
        PipelineStatus::Pending => "Pending"@,
        PipelineStatus::Running => "Running"@,
        PipelineStatus::Success => "Success"@,
        PipelineStatus::Failed => "Failed"@,
        PipelineStatus::Canceled => "Canceled"@,
        PipelineStatus::Skipped => "Skipped"@,
        PipelineStatus::Manual => "Manual"@,
        PipelineStatus::Scheduled => "Scheduled"@,
    }
}

impl PipelineStatus {
    /// Whether the pipeline has not finished yet.
    pub fn is_running(self) -> (r: bool)
        ensures
            r == running_status(self),
    {
        match self {
            PipelineStatus::Created | PipelineStatus::WaitingForResource | PipelineStatus::Preparing
            | PipelineStatus::Pending | PipelineStatus::Running => true,
            PipelineStatus::Success | PipelineStatus::Failed | PipelineStatus::Canceled => false,
            PipelineStatus::Skipped | PipelineStatus::Manual | PipelineStatus::Scheduled => false,
        }
    }

    /// The status's name, as `{:?}` renders it.
    pub fn name(self) -> (n: &'static str)
        ensures
            n@ == status_name(self),
    {
        match self {
            PipelineStatus::Created => "Created",
            PipelineStatus::WaitingForResource => "WaitingForResource",
            PipelineStatus::Preparing => "Preparing",
            PipelineStatus::Pending => "Pending",
            PipelineStatus::Running => "Running",
            PipelineStatus::Success => "Success",
            PipelineStatus::Failed => "Failed",
            PipelineStatus::Canceled => "Canceled",
            PipelineStatus::Skipped => "Skipped",
            PipelineStatus::Manual => "Manual",
            PipelineStatus::Scheduled => "Scheduled",
        }
    }
}

/// A GitLab pipeline.
#[derive(Clone, Debug)]
pub struct Pipeline {
    pub id: u64,
    pub status: PipelineStatus,
    /// The commit the pipeline runs on.
    pub sha: String,
    pub web_url: String,
}

/// The body of a request that triggers a pipeline.
#[derive(Clone, Debug)]
pub struct TriggerPipelineRequestBody {
    /// The branch to run the pipeline on.
    pub reference: String,
    pub variables: Option<ArrayOfHashes>,
}

/// GitLab's "array of hashes" parameter: a list of key/value pairs.
#[derive(Clone, Debug)]
pub struct ArrayOfHashes {
    pub variables: Vec<HashKeyValuePair>,
}

#[derive(Clone, Debug)]
pub struct HashKeyValuePair {
    pub key: String,
    pub value: String,
}

/// The key/value pairs of an [`ArrayOfHashes`].
pub open spec fn pairs_view(v: Seq<HashKeyValuePair>) -> Seq<(Seq<char>, Seq<char>)> {
    v.map_values(|p: HashKeyValuePair| (p.key@, p.value@))
}

impl ArrayOfHashes {
    /// The pairs, in order.
    pub fn new(pairs: &[(&str, &str)]) -> (a: Self)
        ensures
            pairs_view(a.variables@) == pairs@.map_values(|p: (&str, &str)| (p.0@, p.1@)),
    {
        let mut variables: Vec<HashKeyValuePair> = Vec::new();
        let n = pairs.len();
        let mut i: usize = 0;
        while i < n
            invariant
                n == pairs@.len(),
                i <= n,
                pairs_view(variables@) == pairs@.take(i as int).map_values(
                    |p: (&str, &str)| (p.0@, p.1@),
                ),
            decreases n - i,
        {
            let (k, v) = pairs[i];
            let pair = HashKeyValuePair { key: k.to_owned(), value: v.to_owned() };
            let ghost before = variables@;
            variables.push(pair);
            proof {
                let prev = pairs@.take(i as int).map_values(|p: (&str, &str)| (p.0@, p.1@));
                let next = pairs@.take(i + 1).map_values(|p: (&str, &str)| (p.0@, p.1@));
                assert(pairs@[i as int] == (k, v));
                assert(pairs_view(before).len() == before.len());
                assert forall|j: int| 0 <= j < i implies next[j] == prev[j] && pairs_view(
                    variables@,
                )[j] == prev[j] by {
                    assert(pairs@.take(i + 1)[j] == pairs@.take(i as int)[j]);
                    assert(variables@[j] == before[j]);
                }
                assert(pairs_view(variables@) =~= next);
            }
            i = i + 1;
        }
        proof {
            assert(pairs@.take(n as int) =~= pairs@);
        }
        ArrayOfHashes { variables }
    }
}

impl TriggerPipelineRequestBody {
    /// Triggers a pipeline on `branch` the way a merge request pipeline is
    /// triggered: with `CI_PIPELINE_SOURCE` set to `merge_request_event`.
    pub fn new_gerrit_pipeline(branch: &str) -> (b: Self)
        ensures
            b.reference@ == branch@,
            b.variables matches Some(v) && pairs_view(v.variables@) == seq![
                ("CI_PIPELINE_SOURCE"@, "merge_request_event"@),
            ],
    {
        let pairs = [("CI_PIPELINE_SOURCE", "merge_request_event")];
        let variables = ArrayOfHashes::new(pairs.as_slice());
        proof {
            assert(pairs@.map_values(|p: (&str, &str)| (p.0@, p.1@)) =~= seq![
                ("CI_PIPELINE_SOURCE"@, "merge_request_event"@),
            ]);
        }
        TriggerPipelineRequestBody { reference: branch.to_owned(), variables: Some(variables) }
    }
}

/// Why a request could not be prepared.
#[derive(Clone, Debug)]
pub enum GitlabError {
    /// The project is not configured.
    Repository(RepositoryError),
    /// Neither the repository nor the GitLab settings hold an access token.
    NoAccessToken,
    /// The access token holds bytes that an HTTP header value cannot hold.
    InvalidAccessToken,
}

/// The text that reports why a request could not be prepared; an invalid
/// token is reported as `HeaderValue::from_str`'s error displays itself.
pub open spec fn gitlab_error_text(e: GitlabError) -> Seq<char> {
    match e {
        GitlabError::Repository(r) => repository_error_text(r),
        GitlabError::NoAccessToken => "No private access tokens available for API authentication"@,
        GitlabError::InvalidAccessToken => "failed to parse header value"@,
    }
}

impl GitlabError {
    /// The text that reports the error.
    pub fn message(&self) -> (s: String)
        ensures
            s@ == gitlab_error_text(*self),
    {
        match self {
            GitlabError::Repository(r) => r.message(),
            GitlabError::NoAccessToken => "No private access tokens available for API authentication".to_owned(),
            GitlabError::InvalidAccessToken => "failed to parse header value".to_owned(),
        }
    }
}

/// The GitLab project id of a Gerrit project, if the project is registered.
pub open spec fn project_id_of(c: config::Config, project: Seq<char>) -> Option<u64> {
    match find_index(c.repositories@, project) {
        Some(i) => Some(c.repositories@[i].gitlab_project_id),
        None => None,
    }
}

/// The token that authenticates requests about a registered project: its
/// own, or else the one of the GitLab settings.
pub open spec fn token_of(c: config::Config, project: Seq<char>) -> Option<Seq<char>>
    recommends
        find_index(c.repositories@, project) is Some,
{
    let i = find_index(c.repositories@, project)->0;
    match c.repositories@[i].private_access_token {
        Some(t) => Some(t@),
        None => match c.gitlab.api.private_access_token {
            Some(t) => Some(t@),
            None => None,
        },
    }
}

/// A byte an HTTP header value may hold: a visible byte, a space or a tab.
pub open spec fn header_byte_allowed(b: u8) -> bool {
    (b >= 32 && b != 127) || b == 9
}

/// Every byte of `bytes` may stand in an HTTP header value.
pub open spec fn valid_header_value(bytes: Seq<u8>) -> bool {
    forall|i: int| 0 <= i < bytes.len() ==> header_byte_allowed(#[trigger] bytes[i])
}

/// Whether `reqwest::header::HeaderValue::from_str` accepts `value`: it
/// accepts a string exactly when every byte of its UTF-8 encoding is a tab
/// or at least 32 and not 127.
#[verifier::external_body]
fn header_value_accepted(value: &str) -> (ok: bool)
    ensures
        ok == valid_header_value(value.spec_bytes()),
{
    reqwest::header::HeaderValue::from_str(value).is_ok()
}

/// The API root of a project.
pub open spec fn project_root(id: u64) -> Seq<char> {
    "https://gitlab.com/api/v4/projects/"@ + decimal(id as nat)
}

pub open spec fn latest_pipeline_path(id: u64, branch: Seq<char>) -> Seq<char> {
    project_root(id) + "/pipelines/latest?ref="@ + branch
}

pub open spec fn pipelines_path(id: u64, branch: Seq<char>, sha: Seq<char>) -> Seq<char> {
    project_root(id) + "/pipelines?ref="@ + branch + "&sha="@ + sha
}

pub open spec fn trigger_pipeline_path(id: u64) -> Seq<char> {
    project_root(id) + "/pipeline"@
}

pub open spec fn cancel_pipeline_path(id: u64, pipeline: u64) -> Seq<char> {
    project_root(id) + "/pipelines/"@ + decimal(pipeline as nat) + "/cancel"@
}

pub open spec fn retry_pipeline_path(id: u64, pipeline: u64) -> Seq<char> {
    project_root(id) + "/pipelines/"@ + decimal(pipeline as nat) + "/retry"@
}

/// A URL of a registered project: `Ok` with `url(id)` for its project id,
/// or the registration error.
pub open spec fn project_url(
    c: config::Config,
    project: Seq<char>,
    res: Result<String, RepositoryError>,
    url: spec_fn(u64) -> Seq<char>,
) -> bool {
    match res {
        Ok(u) => project_id_of(c, project) matches Some(id) && u@ == url(id),
        Err(e) => project_id_of(c, project) is None && not_registered(e, project),
    }
}

/// How to read the reply to a request.
#[derive(Clone, Copy, Debug, PartialEq, Eq, Structural)]
pub enum ReplyKind {
    /// The resource is absent.
    NotFound,
    /// The server answered with an error status.
    Error,
    /// The body holds the answer.
    Body,
}

/// A client (4xx) or server (5xx) error status.
pub open spec fn error_status(status: u16) -> bool {
    400 <= status < 600
}

/// How to read a reply with status `status`: error statuses fail the
/// request, others carry the answer in the body.
pub fn reply_kind(status: u16) -> (k: ReplyKind)
    ensures
        k == (if error_status(status) {
            ReplyKind::Error
        } else {
            ReplyKind::Body
        }),
{
    if 400 <= status && status < 600 {
        ReplyKind::Error
    } else {
        ReplyKind::Body
    }
}

/// How to read the reply to a "latest pipeline" query: GitLab answers 403
/// Forbidden while a branch has no pipeline, which means there is none.
pub fn latest_pipeline_reply_kind(status: u16) -> (k: ReplyKind)
    ensures
        k == (if status == 403 {
            ReplyKind::NotFound
        } else if error_status(status) {
            ReplyKind::Error
        } else {
            ReplyKind::Body
        }),
{
    if status == 403 {
        ReplyKind::NotFound
    } else {
        reply_kind(status)
    }
}

impl Client {
    pub fn new(config: config::Config) -> (c: Self)
        ensures
            c.config == config,
    {
        Client { config }
    }

    /// The GitLab project id of a Gerrit project.
    pub fn project_id(&self, project_name: &str) -> (res: Result<u64, RepositoryError>)
        ensures
            match res {
                Ok(id) => project_id_of(self.config, project_name@) == Some(id),
                Err(e) => project_id_of(self.config, project_name@) is None && not_registered(
                    e,
                    project_name@,
                ),
            },
    {
        self.config.repositories.find_project_id(project_name)
    }

    /// The access token for requests about a project, which is sent as the
    /// `PRIVATE-TOKEN` header: the repository's own token is preferred to
    /// the one of the GitLab settings.
    pub fn access_token(&self, project_name: &str) -> (res: Result<String, GitlabError>)
        ensures
            find_index(self.config.repositories@, project_name@) is None ==> (res matches Err(
                GitlabError::Repository(e),
            ) && not_registered(e, project_name@)),
            find_index(self.config.repositories@, project_name@) is Some ==> match token_of(
                self.config,
                project_name@,
            ) {
                None => res matches Err(GitlabError::NoAccessToken),
                Some(t) => if valid_header_value(encode_utf8(t)) {
                    res matches Ok(token) && token@ == t
                } else {
                    res matches Err(GitlabError::InvalidAccessToken)
                },
            },
    {
        let own = match self.config.repositories.find_private_access_token(project_name) {
            Ok(own) => own,
            Err(e) => return Err(GitlabError::Repository(e)),
        };
        let token = match own {
            Some(t) => t,
            None => match &self.config.gitlab.api.private_access_token {
                Some(t) => t.clone(),
                None => return Err(GitlabError::NoAccessToken),
            },
        };
        if header_value_accepted(token.as_str()) {
            Ok(token)
        } else {
            Err(GitlabError::InvalidAccessToken)
        }
    }

    fn project_root_url(&self, project_name: &str) -> (res: Result<String, RepositoryError>)
        ensures
            project_url(self.config, project_name@, res, |id: u64| project_root(id)),
    {
        let id = self.project_id(project_name)?;
        let mut url = "https://gitlab.com/api/v4/projects/".to_owned();
        url.append(decimal_string(id).as_str());
        Ok(url)
    }

    /// The endpoint of the latest pipeline of `branch`.
    pub fn latest_pipeline_url(&self, branch: &str, project_name: &str) -> (res: Result<String, RepositoryError>)
        ensures
            project_url(self.config, project_name@, res, |id: u64| latest_pipeline_path(id, branch@)),
    {
        let mut url = self.project_root_url(project_name)?;
        url.append("/pipelines/latest?ref=");
        url.append(branch);
        Ok(url)
    }

    /// The endpoint of the pipelines of `branch` at commit `sha`.
    pub fn pipelines_url(&self, branch: &str, sha: &str, project_name: &str) -> (res: Result<String, RepositoryError>)
        ensures
            project_url(self.config, project_name@, res, |id: u64| pipelines_path(id, branch@, sha@)),
    {
        let mut url = self.project_root_url(project_name)?;
        url.append("/pipelines?ref=");
        url.append(branch);
        url.append("&sha=");
        url.append(sha);
        Ok(url)
    }

    /// The endpoint that triggers a pipeline.
    pub fn trigger_pipeline_url(&self, project_name: &str) -> (res: Result<String, RepositoryError>)
        ensures
            project_url(self.config, project_name@, res, |id: u64| trigger_pipeline_path(id)),
    {
        let mut url = self.project_root_url(project_name)?;
        url.append("/pipeline");
        Ok(url)
    }

    /// The endpoint that cancels pipeline `id`.
    pub fn cancel_pipeline_url(&self, id: u64, project_name: &str) -> (res: Result<String, RepositoryError>)
        ensures
            project_url(self.config, project_name@, res, |p: u64| cancel_pipeline_path(p, id)),
    {
        let mut url = self.project_root_url(project_name)?;
        url.append("/pipelines/");
        url.append(decimal_string(id).as_str());
        url.append("/cancel");
        Ok(url)
    }

    /// The endpoint that retries pipeline `id`.
    pub fn retry_pipeline_url(&self, id: u64, project_name: &str) -> (res: Result<String, RepositoryError>)
        ensures
            project_url(self.config, project_name@, res, |p: u64| retry_pipeline_path(p, id)),
    {
        let mut url = self.project_root_url(project_name)?;
        url.append("/pipelines/");
        url.append(decimal_string(id).as_str());
        url.append("/retry");
        Ok(url)
    }
}

} // verus!
