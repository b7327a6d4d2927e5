//! The decisions of the change tracker: which job a Gerrit event starts, and
//! at each step of a job, what to do next given what the last step returned.
//! The caller performs the actions (git, GitLab and Gerrit calls) and feeds
//! their results back.
use vstd::prelude::*;
use vstd::string::*;

use crate::config;
use crate::gerrit_ssh_command::{Review, ReviewView, Verified};
use crate::gerrit_stream_events::models::{Change, Event, Patchset, PatchsetKind};
use crate::git::{is_internal_ref, PushOperation};
use crate::gitlab::{running_status, status_name, Pipeline, PipelineStatus};
use crate::text::{ends_with, has_suffix, starts_with};

verus! {

/// Starts a job for each relevant Gerrit event.
pub struct ChangeTracker {
    pub config: config::Config,
}

/// Whether a patchset kind implies a code change that needs a CI run.
pub open spec fn code_change(kind: PatchsetKind) -> bool {
    kind != PatchsetKind::NoCodeChange && kind != PatchsetKind::NoChange
}

/// Whether the patchset changes code, so that CI has to run on it.
pub fn code_change_in_patchset(patchset: &Patchset) -> (r: bool)
    ensures
        r == code_change(patchset.kind),
{
    match patchset.kind {
        PatchsetKind::NoCodeChange => false,
        PatchsetKind::NoChange => false,
        _ => true,
    }
}

/// The work that an event calls for.
#[derive(Clone, Debug)]
pub enum Job {
    /// Mirror the patchset to its branch and run a new pipeline on it.
    NewPipeline { patchset: Patchset, change: Change },
    /// Retry the latest pipeline of the change, if it failed.
    RetryPipeline { patchset: Patchset, change: Change },
    /// Delete the change's branch.
    RetireChange { patchset: Patchset, change: Change },
    /// Nothing to do.
    Ignore,
}

/// A patchset that gets a pipeline when it appears: its change is neither
/// work in progress nor private, and it changes code.
pub open spec fn ready_for_ci(patchset: Patchset, change: Change) -> bool {
    !change.wip && !change.private && code_change(patchset.kind)
}

/// The review comment that asks for a retry.
pub open spec fn retry_command(c: config::Config) -> Seq<char> {
    match c.gitlab.api.retry_command {
        Some(s) => s@,
        None => "retry"@,
    }
}

/// The review comment that asks for a new pipeline.
pub open spec fn force_retry_command(c: config::Config) -> Seq<char> {
    match c.gitlab.api.force_retry_command {
        Some(s) => s@,
        None => "retry force"@,
    }
}

/// A new pipeline for a ready patchset, nothing otherwise.
pub open spec fn new_pipeline_if_ready(patchset: Patchset, change: Change) -> Job {
    if ready_for_ci(patchset, change) {
        Job::NewPipeline { patchset, change }
    } else {
        Job::Ignore
    }
}

/// The job that an event starts.
pub open spec fn job_for(c: config::Config, event: Event) -> Job {
    match event {
        Event::PatchsetCreated { patchset, change } => new_pipeline_if_ready(patchset, change),
        Event::ChangeRestored { patchset, change } => new_pipeline_if_ready(patchset, change),
        Event::WipStateChanged { patchset, change } => new_pipeline_if_ready(patchset, change),
        Event::PrivateStateChanged { patchset, change } => new_pipeline_if_ready(patchset, change),
        Event::ChangeAbandoned { patchset, change } => Job::RetireChange { patchset, change },
        Event::ChangeDeleted { patchset, change } => Job::RetireChange { patchset, change },
        Event::ChangeMerged { patchset, change } => Job::RetireChange { patchset, change },
        Event::CommentAdded { comment, patchset, change } => if has_suffix(
            comment@,
            retry_command(c),
        ) {
            Job::RetryPipeline { patchset, change }
        } else if has_suffix(comment@, force_retry_command(c)) {
            Job::NewPipeline { patchset, change }
        } else {
            Job::Ignore
        },
    }
}

fn new_pipeline_when_ready(patchset: Patchset, change: Change) -> (job: Job)
    ensures
        job == new_pipeline_if_ready(patchset, change),
{
    if !change.wip && !change.private && code_change_in_patchset(&patchset) {
        Job::NewPipeline { patchset, change }
    } else {
        Job::Ignore
    }
}

impl ChangeTracker {
    pub fn new(config: config::Config) -> (t: Self)
        ensures
            t.config == config,
    {
        ChangeTracker { config }
    }

    /// Whether `comment` ends with the configured retry command (by default
    /// `retry`).
    fn asks_retry(&self, comment: &str) -> (r: bool)
        ensures
            r == has_suffix(comment@, retry_command(self.config)),
    {
        match &self.config.gitlab.api.retry_command {
            Some(command) => ends_with(comment, command.as_str()),
            None => ends_with(comment, "retry"),
        }
    }

    /// Whether `comment` ends with the configured forced retry command (by
    /// default `retry force`).
    fn asks_force_retry(&self, comment: &str) -> (r: bool)
        ensures
            r == has_suffix(comment@, force_retry_command(self.config)),
    {
        match &self.config.gitlab.api.force_retry_command {
            Some(command) => ends_with(comment, command.as_str()),
            None => ends_with(comment, "retry force"),
        }
    }

    /// The job an event starts. New patchsets, and changes that are
    /// restored or leave the work-in-progress or private state, get a new
    /// pipeline when they are ready for CI; abandoned, deleted and merged
    /// changes are retired; a review comment that ends with the retry
    /// command retries the latest pipeline, and one that ends with the
    /// forced retry command starts a new one.
    pub fn plan(&self, event: Event) -> (job: Job)
        ensures
            job == job_for(self.config, event),
    {
        match event {
            Event::PatchsetCreated { patchset, change } => new_pipeline_when_ready(patchset, change),
            Event::ChangeRestored { patchset, change } => new_pipeline_when_ready(patchset, change),
            Event::WipStateChanged { patchset, change } => new_pipeline_when_ready(patchset, change),
            Event::PrivateStateChanged { patchset, change } => new_pipeline_when_ready(
                patchset,
                change,
            ),
            Event::ChangeAbandoned { patchset, change } => Job::RetireChange { patchset, change },
            Event::ChangeDeleted { patchset, change } => Job::RetireChange { patchset, change },
            Event::ChangeMerged { patchset, change } => Job::RetireChange { patchset, change },
            Event::CommentAdded { comment, patchset, change } => {
                if self.asks_retry(comment.as_str()) {
                    Job::RetryPipeline { patchset, change }
                } else if self.asks_force_retry(comment.as_str()) {
                    Job::NewPipeline { patchset, change }
                } else {
                    Job::Ignore
                }
            },
        }
    }
}

/// The patchset and change an event is about.
pub open spec fn event_parts(event: Event) -> (Patchset, Change) {
    match event {
        Event::PatchsetCreated { patchset, change } => (patchset, change),
        Event::ChangeAbandoned { patchset, change } => (patchset, change),
        Event::ChangeDeleted { patchset, change } => (patchset, change),
        Event::ChangeMerged { patchset, change } => (patchset, change),
        Event::ChangeRestored { patchset, change } => (patchset, change),
        Event::CommentAdded { patchset, change, .. } => (patchset, change),
        Event::WipStateChanged { patchset, change } => (patchset, change),
        Event::PrivateStateChanged { patchset, change } => (patchset, change),
    }
}

/// Whether the event is a review comment that ends with the forced retry
/// command but not with the retry command.
pub open spec fn forces_new_pipeline(c: config::Config, event: Event) -> bool {
    match event {
        Event::CommentAdded { comment, .. } => !has_suffix(comment@, retry_command(c)) && has_suffix(
            comment@,
            force_retry_command(c),
        ),
        _ => false,
    }
}

/// A change that is work in progress or private, or a patchset that does
/// not change code, gets a new pipeline only when a user forces one; every
/// job concerns the patchset and change of its event; abandoned, deleted
/// and merged changes are always retired.
pub proof fn lemma_pipelines_only_when_ready_or_forced(c: config::Config, event: Event)
    ensures
        job_for(c, event) matches Job::NewPipeline { patchset, change } ==> (patchset, change)
            == event_parts(event) && (ready_for_ci(patchset, change) || forces_new_pipeline(
            c,
            event,
        )),
        job_for(c, event) matches Job::RetryPipeline { patchset, change } ==> (patchset, change)
            == event_parts(event) && event is CommentAdded,
        job_for(c, event) matches Job::RetireChange { patchset, change } ==> (patchset, change)
            == event_parts(event),
        (event is ChangeAbandoned || event is ChangeDeleted || event is ChangeMerged) ==> job_for(
            c,
            event,
        ) is RetireChange,
{
}

/// Whether the change is on one of Gerrit's internal refs, which are
/// neither mirrored nor retired.
pub fn on_internal_ref(change: &Change) -> (r: bool)
    ensures
        r == is_internal_ref(change.branch@),
{
    starts_with(change.branch.as_str(), "refs")
}

/// What a query for the latest pipeline of a branch returned.
#[derive(Clone, Debug)]
pub enum LatestQuery {
    Found(Pipeline),
    NotFound,
    /// The query failed; the text is the error's `Debug` rendering.
    Failed(String),
}

/// A review without a vote.
pub open spec fn note(message: Seq<char>) -> ReviewView {
    ReviewView { message, verified: None }
}

/// `text` followed by the pipeline's URL in parentheses.
pub open spec fn with_url(text: Seq<char>, url: Seq<char>) -> Seq<char> {
    text + " ("@ + url + ")"@
}

fn text_with_url(text: &str, url: &String) -> (s: String)
    ensures
        s@ == with_url(text@, url@),
{
    let mut s = text.to_owned();
    s.append(" (");
    s.append(url.as_str());
    s.append(")");
    s
}

fn review_note(message: String) -> (r: Review)
    ensures
        r@ == note(message@),
{
    Review { message, verified: None }
}

// ----------------------------------------------------------------------
// Retrying a pipeline
// ----------------------------------------------------------------------

/// The first decision of a retry: retry the latest pipeline, or tell the
/// user why not.
#[derive(Clone, Debug)]
pub enum RetryDecision {
    Retry { pipeline_id: u64 },
    Refuse { review: Review },
}

/// The message that refuses to retry a pipeline that did not fail.
pub open spec fn not_failed_message(p: Pipeline) -> Seq<char> {
    "Latest pipeline ("@ + p.web_url@ + ") found was "@ + status_name(p.status) + ", cannot retry."@
}

pub open spec fn not_found_message() -> Seq<char> {
    "Latest pipeline was not found."@
}

pub open spec fn query_error_message() -> Seq<char> {
    "Error occured when trying to query the latest pipeline status."@
}

pub open spec fn retry_error_message() -> Seq<char> {
    "Error occured when trying to retry the latest pipeline status."@
}

/// Only a failed latest pipeline is retried; otherwise the user is told
/// what was found.
pub fn retry_decision(latest: LatestQuery) -> (d: RetryDecision)
    ensures
        match latest {
            LatestQuery::Found(p) => if p.status == PipelineStatus::Failed {
                d == RetryDecision::Retry { pipeline_id: p.id }
            } else {
                d matches RetryDecision::Refuse { review } && review@ == note(not_failed_message(p))
            },
            LatestQuery::NotFound => d matches RetryDecision::Refuse { review } && review@ == note(
                not_found_message(),
            ),
            LatestQuery::Failed(_) => d matches RetryDecision::Refuse { review } && review@ == note(
                query_error_message(),
            ),
        },
{
    match latest {
        LatestQuery::Found(p) => {
            if p.status == PipelineStatus::Failed {
                RetryDecision::Retry { pipeline_id: p.id }
            } else {
                let mut message = "Latest pipeline (".to_owned();
                message.append(p.web_url.as_str());
                message.append(") found was ");
                message.append(p.status.name());
                message.append(", cannot retry.");
                RetryDecision::Refuse { review: review_note(message) }
            }
        },
        LatestQuery::NotFound => RetryDecision::Refuse {
            review: review_note("Latest pipeline was not found.".to_owned()),
        },
        LatestQuery::Failed(_) => RetryDecision::Refuse {
            review: review_note(
                "Error occured when trying to query the latest pipeline status.".to_owned(),
            ),
        },
    }
}

/// What follows a retry request: the review to post, and the pipeline to
/// track if the retry went through.
#[derive(Clone, Debug)]
pub struct RetryOutcome {
    pub review: Review,
    pub track: Option<u64>,
}

/// After retrying pipeline `pipeline_id`: on success, say so with the URL
/// GitLab answered and track the retried pipeline; on failure, say so and
/// stop.
pub fn retry_outcome(pipeline_id: u64, retried: Option<Pipeline>) -> (o: RetryOutcome)
    ensures
        match retried {
            Some(p) => o.review@ == note(with_url("Pipeline retried"@, p.web_url@)) && o.track
                == Some(pipeline_id),
            None => o.review@ == note(retry_error_message()) && o.track is None,
        },
{
    match retried {
        Some(p) => RetryOutcome {
            review: review_note(text_with_url("Pipeline retried", &p.web_url)),
            track: Some(pipeline_id),
        },
        None => RetryOutcome {
            review: review_note(
                "Error occured when trying to retry the latest pipeline status.".to_owned(),
            ),
            track: None,
        },
    }
}

// ----------------------------------------------------------------------
// Running a new pipeline
// ----------------------------------------------------------------------

/// Where a new-pipeline job stands.
#[derive(Clone, Debug)]
pub enum NewPipelineStage {
    /// Nothing done yet.
    Start,
    /// The patchset is being pushed to its branch.
    Pushing,
    /// The pipelines already running on the branch are being listed.
    Listing { branch: String },
    /// Stale pipelines are cancelled and a new one is triggered.
    Triggering { branch: String },
    /// The job is over.
    Done,
}

/// What the last action of a new-pipeline job returned.
#[derive(Clone, Debug)]
pub enum NewPipelineEvent {
    Begin,
    /// The push, or `None` if it failed.
    Pushed(Option<PushOperation>),
    /// The pipelines of the branch at the patchset's revision, or `None` if
    /// the query failed.
    Listed(Option<Vec<Pipeline>>),
    /// The triggered pipeline, or `None` if triggering failed.
    Triggered(Option<Pipeline>),
}

/// What a new-pipeline job does next.
#[derive(Clone, Debug)]
pub enum NewPipelineAction {
    /// The change is on an internal ref: nothing to do.
    Skip,
    /// Push the patchset to its branch.
    Push,
    /// List the pipelines of `branch` at the patchset's revision.
    ListPipelines { branch: String },
    /// Cancel the pipelines `cancel` (they were started by the push or by a
    /// concurrent job, and would not run the Gerrit-only jobs), then trigger
    /// a pipeline on `branch`.
    CancelAndTrigger { cancel: Vec<u64>, branch: String },
    /// Track pipeline `pipeline_id` of `branch`.
    Track { pipeline_id: u64, branch: String },
    /// Stop: a step failed.
    Stop,
}

/// The ids of the pipelines, in order.
pub open spec fn pipeline_ids(ps: Seq<Pipeline>) -> Seq<u64> {
    ps.map_values(|p: Pipeline| p.id)
}

fn ids_of(pipelines: &Vec<Pipeline>) -> (ids: Vec<u64>)
    ensures
        ids@ == pipeline_ids(pipelines@),
{
    let mut ids: Vec<u64> = Vec::new();
    let n = pipelines.len();
    let mut i: usize = 0;
    while i < n
        invariant
            n == pipelines@.len(),
            i <= n,
            ids@ == pipeline_ids(pipelines@.take(i as int)),
        decreases n - i,
    {
        ids.push(pipelines[i].id);
        proof {
            assert(pipeline_ids(pipelines@.take(i + 1)) =~= pipeline_ids(pipelines@.take(i as int)).push(
                pipelines@[i as int].id,
            ));
        }
        i = i + 1;
    }
    proof {
        assert(pipelines@.take(n as int) =~= pipelines@);
    }
    ids
}

/// One step of a new-pipeline job on `change`. Any failure ends the job;
/// an event that does not belong to the stage ends it too.
pub fn new_pipeline_step(change: &Change, stage: NewPipelineStage, event: NewPipelineEvent) -> (r: (
    NewPipelineStage,
    NewPipelineAction,
))
    ensures
        match (stage, event) {
            (NewPipelineStage::Start, NewPipelineEvent::Begin) => if is_internal_ref(change.branch@) {
                r.0 is Done && r.1 is Skip
            } else {
                r.0 is Pushing && r.1 is Push
            },
            (NewPipelineStage::Pushing, NewPipelineEvent::Pushed(Some(op))) => {
                let branch = match op {
                    PushOperation::Updated { branch } => branch,
                    PushOperation::NoChange { branch } => branch,
                };
                &&& r.0 == NewPipelineStage::Listing { branch }
                &&& r.1 matches NewPipelineAction::ListPipelines { branch: b } && b@ == branch@
            },
            (NewPipelineStage::Listing { branch }, NewPipelineEvent::Listed(Some(pipelines))) => {
                &&& r.0 matches NewPipelineStage::Triggering { branch: b } && b@ == branch@
                &&& r.1 matches NewPipelineAction::CancelAndTrigger { cancel, branch: b } && cancel@
                    == pipeline_ids(pipelines@) && b@ == branch@
            },
            (NewPipelineStage::Triggering { branch }, NewPipelineEvent::Triggered(Some(p))) => {
                &&& r.0 is Done
                &&& r.1 == NewPipelineAction::Track { pipeline_id: p.id, branch }
            },
            _ => r.0 is Done && r.1 is Stop,
        },
{
    match (stage, event) {
        (NewPipelineStage::Start, NewPipelineEvent::Begin) => {
            if on_internal_ref(change) {
                (NewPipelineStage::Done, NewPipelineAction::Skip)
            } else {
                (NewPipelineStage::Pushing, NewPipelineAction::Push)
            }
        },
        (NewPipelineStage::Pushing, NewPipelineEvent::Pushed(Some(op))) => {
            let branch = op.branch();
            let listed = branch.clone();
            (NewPipelineStage::Listing { branch }, NewPipelineAction::ListPipelines { branch: listed })
        },
        (NewPipelineStage::Listing { branch }, NewPipelineEvent::Listed(Some(pipelines))) => {
            let cancel = ids_of(&pipelines);
            let triggered = branch.clone();
            (
                NewPipelineStage::Triggering { branch },
                NewPipelineAction::CancelAndTrigger { cancel, branch: triggered },
            )
        },
        (NewPipelineStage::Triggering { branch }, NewPipelineEvent::Triggered(Some(p))) => {
            (NewPipelineStage::Done, NewPipelineAction::Track { pipeline_id: p.id, branch })
        },
        _ => (NewPipelineStage::Done, NewPipelineAction::Stop),
    }
}

// ----------------------------------------------------------------------
// Tracking a pipeline
// ----------------------------------------------------------------------

/// How many times in a row the latest pipeline may be missing before
/// tracking gives up: GitLab answers "not found" for a while after a new
/// revision of the branch is pushed.
pub open spec fn not_found_allowance() -> u8 {
    5
}

/// The state of a tracking loop.
#[derive(Clone, Copy, Debug, PartialEq, Eq, Structural)]
pub struct TrackState {
    /// How many times the latest pipeline was queried.
    pub counter: u64,
    /// How many more "not found" answers are tolerated.
    pub not_found_allowed: u8,
}

/// Why tracking failed.
#[derive(Clone, Debug)]
pub enum TrackError {
    /// The query for the latest pipeline failed with the error whose `Debug`
    /// rendering is held.
    QueryFailed(String),
    /// The latest pipeline stayed missing.
    NotFound,
    /// The pipeline is in a status that a triggered pipeline should not reach.
    UnexpectedStatus(PipelineStatus),
}

/// The text that reports why tracking failed.
pub open spec fn track_error_text(e: TrackError) -> Seq<char> {
    match e {
        TrackError::QueryFailed(error) => "Error when trying to query the latest pipeline status: Err("@
            + error@ + ")"@,
        TrackError::NotFound => "Error when trying to query the latest pipeline status: Ok(NotFound)"@,
        TrackError::UnexpectedStatus(s) => "Unexpected pipeline status: "@ + status_name(s) + "?"@,
    }
}

impl TrackError {
    /// The text that reports the error.
    pub fn message(&self) -> (s: String)
        ensures
            s@ == track_error_text(*self),
    {
        match self {
            TrackError::QueryFailed(error) => {
                let mut t = "Error when trying to query the latest pipeline status: Err(".to_owned();
                t.append(error.as_str());
                t.append(")");
                t
            },
            TrackError::NotFound => "Error when trying to query the latest pipeline status: Ok(NotFound)".to_owned(),
            TrackError::UnexpectedStatus(s) => {
                let mut t = "Unexpected pipeline status: ".to_owned();
                t.append(s.name());
                t.append("?");
                t
            },
        }
    }
}

/// What tracking does after a query.
#[derive(Clone, Debug)]
pub enum TrackAction {
    /// Query again after a pause.
    Poll,
    /// Post `review`, then query again after a pause. Tracking fails if the
    /// review cannot be posted.
    ReviewAndPoll { review: Review },
    /// Post `review` and stop. Tracking fails if the review cannot be posted.
    ReviewAndStop { review: Review },
    /// The tracked pipeline is no longer the latest one of the branch, or no
    /// longer runs the patchset's revision: cancel it and stop.
    CancelAndStop,
    /// Stop with an error.
    Fail { error: TrackError },
}

/// The mathematical content of a [`TrackAction`].
pub enum TrackActionView {
    Poll,
    ReviewAndPoll(ReviewView),
    ReviewAndStop(ReviewView),
    CancelAndStop,
    Fail(TrackError),
}

impl View for TrackAction {
    type V = TrackActionView;

    open spec fn view(&self) -> TrackActionView {
        match self {
            TrackAction::Poll => TrackActionView::Poll,
            TrackAction::ReviewAndPoll { review } => TrackActionView::ReviewAndPoll(review@),
            TrackAction::ReviewAndStop { review } => TrackActionView::ReviewAndStop(review@),
            TrackAction::CancelAndStop => TrackActionView::CancelAndStop,
            TrackAction::Fail { error } => TrackActionView::Fail(*error),
        }
    }
}

/// The state before the first query.
pub open spec fn initial_track_state() -> TrackState {
    TrackState { counter: 0, not_found_allowed: not_found_allowance() }
}

/// Whether `p` is still the pipeline being tracked: the tracked id, on the
/// patchset's revision.
pub open spec fn still_relevant(p: Pipeline, pipeline_id: u64, revision: Seq<char>) -> bool {
    p.id == pipeline_id && p.sha@ == revision
}

/// The review that reports a finished pipeline, if its status is final.
pub open spec fn verdict(p: Pipeline) -> Option<ReviewView> {
    match p.status {
        PipelineStatus::Success => Some(
            ReviewView {
                message: with_url("Pipeline succeeded"@, p.web_url@),
                verified: Some(Verified::Positive),
            },
        ),
        PipelineStatus::Failed => Some(
            ReviewView {
                message: with_url("Pipeline failed"@, p.web_url@),
                verified: Some(Verified::Negative),
            },
        ),
        PipelineStatus::Canceled => Some(note(with_url("Pipeline was cancelled"@, p.web_url@))),
        _ => None,
    }
}

/// The statuses a triggered pipeline should never reach.
pub open spec fn unexpected_status(s: PipelineStatus) -> bool {
    s == PipelineStatus::Skipped || s == PipelineStatus::Manual || s == PipelineStatus::Scheduled
}

/// One step of tracking pipeline `pipeline_id` of a patchset at `revision`,
/// after the latest pipeline of the branch was queried. Each step counts
/// one query. "Not found" answers are tolerated while the allowance lasts.
/// A pipeline that is no longer relevant is cancelled. A finished pipeline
/// is reported, with a `+1` vote on success and `-1` on failure. While it
/// runs, the user is told once, at the third query, that it started.
pub open spec fn track_transition(
    state: TrackState,
    pipeline_id: u64,
    revision: Seq<char>,
    latest: LatestQuery,
) -> (TrackState, TrackActionView) {
    let counter = (state.counter + 1) as u64;
    let counted = TrackState { counter, ..state };
    match latest {
        LatestQuery::NotFound => if state.not_found_allowed > 0 {
            (
                TrackState { counter, not_found_allowed: (state.not_found_allowed - 1) as u8 },
                TrackActionView::Poll,
            )
        } else {
            (counted, TrackActionView::Fail(TrackError::NotFound))
        },
        LatestQuery::Failed(error) => (
            counted,
            TrackActionView::Fail(TrackError::QueryFailed(error)),
        ),
        LatestQuery::Found(p) => if !still_relevant(p, pipeline_id, revision) {
            (counted, TrackActionView::CancelAndStop)
        } else if verdict(p) is Some {
            (counted, TrackActionView::ReviewAndStop(verdict(p)->0))
        } else if unexpected_status(p.status) {
            (counted, TrackActionView::Fail(TrackError::UnexpectedStatus(p.status)))
        } else if counter == 3 {
            (
                counted,
                TrackActionView::ReviewAndPoll(note(with_url("Pipeline was started"@, p.web_url@))),
            )
        } else {
            (counted, TrackActionView::Poll)
        },
    }
}

/// The state before the first query.
pub fn track_start() -> (s: TrackState)
    ensures
        s == initial_track_state(),
{
    TrackState { counter: 0, not_found_allowed: 5 }
}

/// Performs one step of [`track_transition`].
pub fn track_step(state: TrackState, pipeline_id: u64, revision: &str, latest: LatestQuery) -> (r: (
    TrackState,
    TrackAction,
))
    requires
        state.counter < u64::MAX,
    ensures
        (r.0, r.1@) == track_transition(state, pipeline_id, revision@, latest),
{
    let counter = state.counter + 1;
    let counted = TrackState { counter, ..state };
    match latest {
        LatestQuery::NotFound => {
            if state.not_found_allowed > 0 {
                (
                    TrackState { counter, not_found_allowed: state.not_found_allowed - 1 },
                    TrackAction::Poll,
                )
            } else {
                (counted, TrackAction::Fail { error: TrackError::NotFound })
            }
        },
        LatestQuery::Failed(error) => (
            counted,
            TrackAction::Fail { error: TrackError::QueryFailed(error) },
        ),
        LatestQuery::Found(p) => {
            if p.id != pipeline_id || !crate::text::same_text(p.sha.as_str(), revision) {
                return (counted, TrackAction::CancelAndStop);
            }
            match p.status {
                PipelineStatus::Success => (
                    counted,
                    TrackAction::ReviewAndStop {
                        review: Review {
                            message: text_with_url("Pipeline succeeded", &p.web_url),
                            verified: Some(Verified::Positive),
                        },
                    },
                ),
                PipelineStatus::Failed => (
                    counted,
                    TrackAction::ReviewAndStop {
                        review: Review {
                            message: text_with_url("Pipeline failed", &p.web_url),
                            verified: Some(Verified::Negative),
                        },
                    },
                ),
                PipelineStatus::Canceled => (
                    counted,
                    TrackAction::ReviewAndStop {
                        review: review_note(text_with_url("Pipeline was cancelled", &p.web_url)),
                    },
                ),
                PipelineStatus::Skipped | PipelineStatus::Manual | PipelineStatus::Scheduled => (
                    counted,
                    TrackAction::Fail { error: TrackError::UnexpectedStatus(p.status) },
                ),
                _ => {
                    if counter == 3 {
                        (
                            counted,
                            TrackAction::ReviewAndPoll {
                                review: review_note(text_with_url("Pipeline was started", &p.web_url)),
                            },
                        )
                    } else {
                        (counted, TrackAction::Poll)
                    }
                },
            }
        },
    }
}

/// Whether an action keeps the tracking loop going.
pub open spec fn keeps_polling(a: TrackActionView) -> bool {
    a is Poll || a is ReviewAndPoll
}

/// Tracking goes on exactly while the tracked pipeline runs: for the
/// relevant pipeline, the loop continues if and only if
/// [`PipelineStatus::is_running`] holds of its status.
pub proof fn lemma_tracking_continues_while_running(
    state: TrackState,
    pipeline_id: u64,
    revision: Seq<char>,
    p: Pipeline,
)
    requires
        still_relevant(p, pipeline_id, revision),
    ensures
        keeps_polling(track_transition(state, pipeline_id, revision, LatestQuery::Found(p)).1)
            <==> running_status(p.status),
{
}

/// Every step counts one query, and the "pipeline started" note is posted
/// only at the third query; since the count only grows, it is posted at
/// most once per tracked pipeline.
pub proof fn lemma_started_note_once(
    state: TrackState,
    pipeline_id: u64,
    revision: Seq<char>,
    latest: LatestQuery,
)
    requires
        state.counter < u64::MAX,
    ensures
        track_transition(state, pipeline_id, revision, latest).0.counter == state.counter + 1,
        track_transition(state, pipeline_id, revision, latest).1 is ReviewAndPoll ==> state.counter
            == 2,
{
}

/// Whether an action posts a vote `v` on the `Verified` label.
pub open spec fn casts_vote(a: TrackActionView, v: Verified) -> bool {
    match a {
        TrackActionView::ReviewAndStop(r) => r.verified == Some(v),
        TrackActionView::ReviewAndPoll(r) => r.verified == Some(v),
        _ => false,
    }
}

/// Whether the query found the tracked pipeline in status `s`.
pub open spec fn found_in_status(
    latest: LatestQuery,
    pipeline_id: u64,
    revision: Seq<char>,
    s: PipelineStatus,
) -> bool {
    match latest {
        LatestQuery::Found(p) => still_relevant(p, pipeline_id, revision) && p.status == s,
        _ => false,
    }
}

/// A vote on the `Verified` label is cast only on the tracked pipeline
/// itself, `+1` only when it succeeded and `-1` only when it failed; a
/// reset vote is never cast.
pub proof fn lemma_votes_follow_outcome(
    state: TrackState,
    pipeline_id: u64,
    revision: Seq<char>,
    latest: LatestQuery,
)
    ensures
        casts_vote(track_transition(state, pipeline_id, revision, latest).1, Verified::Positive)
            ==> found_in_status(latest, pipeline_id, revision, PipelineStatus::Success),
        casts_vote(track_transition(state, pipeline_id, revision, latest).1, Verified::Negative)
            ==> found_in_status(latest, pipeline_id, revision, PipelineStatus::Failed),
        !casts_vote(track_transition(state, pipeline_id, revision, latest).1, Verified::Reset),
{
}

/// A pipeline that is no longer the latest of its branch, or no longer runs
/// the patchset's revision, is cancelled and tracking stops.
pub proof fn lemma_stale_pipeline_cancelled(
    state: TrackState,
    pipeline_id: u64,
    revision: Seq<char>,
    p: Pipeline,
)
    requires
        !still_relevant(p, pipeline_id, revision),
    ensures
        track_transition(state, pipeline_id, revision, LatestQuery::Found(p)).1 is CancelAndStop,
{
}

/// The state after `k` "not found" answers in a row.
pub open spec fn after_not_found(state: TrackState, k: nat) -> TrackState
    decreases k,
{
    if k == 0 {
        state
    } else {
        track_transition(after_not_found(state, (k - 1) as nat), 0, Seq::empty(), LatestQuery::NotFound).0
    }
}

proof fn lemma_not_found_state(state: TrackState, k: nat)
    requires
        k <= state.not_found_allowed,
        state.counter + k < u64::MAX,
    ensures
        after_not_found(state, k) == (TrackState {
            counter: (state.counter + k) as u64,
            not_found_allowed: (state.not_found_allowed - k) as u8,
        }),
    decreases k,
{
    if k > 0 {
        lemma_not_found_state(state, (k - 1) as nat);
    }
}

/// From the start, the first five "not found" answers in a row are
/// tolerated and the sixth ends tracking with an error, whichever pipeline
/// is tracked.
pub proof fn lemma_not_found_tolerance(pipeline_id: u64, revision: Seq<char>, k: nat)
    requires
        k <= not_found_allowance(),
    ensures
        k < not_found_allowance() ==> track_transition(
            after_not_found(initial_track_state(), k),
            pipeline_id,
            revision,
            LatestQuery::NotFound,
        ).1 is Poll,
        k == not_found_allowance() ==> track_transition(
            after_not_found(initial_track_state(), k),
            pipeline_id,
            revision,
            LatestQuery::NotFound,
        ).1 == TrackActionView::Fail(TrackError::NotFound),
{
    lemma_not_found_state(initial_track_state(), k);
}

/// The actions of a tracking run that starts in `state` and gets the
/// answers `queries`, one per query: the run ends after the first action
/// that does not keep polling, or when the answers run out.
pub open spec fn track_run(
    state: TrackState,
    pipeline_id: u64,
    revision: Seq<char>,
    queries: Seq<LatestQuery>,
) -> Seq<TrackActionView>
    decreases queries.len(),
{
    if queries.len() == 0 {
        Seq::empty()
    } else {
        let (next, a) = track_transition(state, pipeline_id, revision, queries[0]);
        if keeps_polling(a) {
            seq![a] + track_run(next, pipeline_id, revision, queries.drop_first())
        } else {
            seq![a]
        }
    }
}

/// Whether an action votes on the `Verified` label at all.
pub open spec fn votes(a: TrackActionView) -> bool {
    casts_vote(a, Verified::Positive) || casts_vote(a, Verified::Negative) || casts_vote(
        a,
        Verified::Reset,
    )
}

/// Over a whole tracking run: every action but the last keeps polling, so
/// nothing is posted or queried after a stop; a vote is cast only by the
/// last action, which ends the run, so at most one vote per run; and a
/// `+1` (`-1`) is cast only on an answer that showed the tracked pipeline,
/// on the patchset's revision, succeeded (failed).
pub proof fn lemma_one_vote_per_run(
    state: TrackState,
    pipeline_id: u64,
    revision: Seq<char>,
    queries: Seq<LatestQuery>,
)
    ensures
        track_run(state, pipeline_id, revision, queries).len() <= queries.len(),
        forall|i: int|
            0 <= i < track_run(state, pipeline_id, revision, queries).len() - 1 ==> keeps_polling(
                #[trigger] track_run(state, pipeline_id, revision, queries)[i],
            ),
        forall|i: int|
            0 <= i < track_run(state, pipeline_id, revision, queries).len() && votes(
                #[trigger] track_run(state, pipeline_id, revision, queries)[i],
            ) ==> i == track_run(state, pipeline_id, revision, queries).len() - 1 && !keeps_polling(
                track_run(state, pipeline_id, revision, queries)[i],
            ),
        forall|i: int|
            0 <= i < track_run(state, pipeline_id, revision, queries).len() && casts_vote(
                #[trigger] track_run(state, pipeline_id, revision, queries)[i],
                Verified::Positive,
            ) ==> found_in_status(queries[i], pipeline_id, revision, PipelineStatus::Success),
        forall|i: int|
            0 <= i < track_run(state, pipeline_id, revision, queries).len() && casts_vote(
                #[trigger] track_run(state, pipeline_id, revision, queries)[i],
                Verified::Negative,
            ) ==> found_in_status(queries[i], pipeline_id, revision, PipelineStatus::Failed),
    decreases queries.len(),
{
    if queries.len() > 0 {
        let (next, a) = track_transition(state, pipeline_id, revision, queries[0]);
        lemma_votes_follow_outcome(state, pipeline_id, revision, queries[0]);
        let acts = track_run(state, pipeline_id, revision, queries);
        if keeps_polling(a) {
            let rest = queries.drop_first();
            lemma_one_vote_per_run(next, pipeline_id, revision, rest);
            let tail = track_run(next, pipeline_id, revision, rest);
            assert(acts == seq![a] + tail);
            assert(!votes(a));
            assert forall|i: int| 1 <= i < acts.len() implies acts[i] == tail[i - 1] && queries[i]
                == rest[i - 1] by {}
            assert forall|i: int| 0 <= i < acts.len() - 1 implies keeps_polling(#[trigger] acts[i]) by {
                if i > 0 {
                    assert(acts[i] == tail[i - 1]);
                }
            }
            assert forall|i: int| 0 <= i < acts.len() && votes(#[trigger] acts[i]) implies i
                == acts.len() - 1 && !keeps_polling(acts[i]) by {
                assert(i > 0);
                assert(acts[i] == tail[i - 1]);
            }
            assert forall|i: int|
                0 <= i < acts.len() && casts_vote(#[trigger] acts[i], Verified::Positive) implies found_in_status(
                queries[i],
                pipeline_id,
                revision,
                PipelineStatus::Success,
            ) by {
                assert(i > 0);
                assert(acts[i] == tail[i - 1]);
                assert(queries[i] == rest[i - 1]);
            }
            assert forall|i: int|
                0 <= i < acts.len() && casts_vote(#[trigger] acts[i], Verified::Negative) implies found_in_status(
                queries[i],
                pipeline_id,
                revision,
                PipelineStatus::Failed,
            ) by {
                assert(i > 0);
                assert(acts[i] == tail[i - 1]);
                assert(queries[i] == rest[i - 1]);
            }
        } else {
            assert(acts == seq![a]);
        }
    }
}

// ----------------------------------------------------------------------
// What each event and each tracking answer leads to, stated directly
// ----------------------------------------------------------------------

/// The patchset and change of a new, restored, un-WIP'd or un-privated
/// patchset get a new pipeline exactly when the change is neither work in
/// progress nor private and the patchset changes code; otherwise nothing
/// happens.
pub proof fn lemma_patchset_events_start_pipelines_when_ready(
    c: config::Config,
    patchset: Patchset,
    change: Change,
)
    ensures
        ({
            let ready = !change.wip && !change.private && patchset.kind != PatchsetKind::NoCodeChange
                && patchset.kind != PatchsetKind::NoChange;
            let expected = if ready {
                Job::NewPipeline { patchset, change }
            } else {
                Job::Ignore
            };
            &&& job_for(c, Event::PatchsetCreated { patchset, change }) == expected
            &&& job_for(c, Event::ChangeRestored { patchset, change }) == expected
            &&& job_for(c, Event::WipStateChanged { patchset, change }) == expected
            &&& job_for(c, Event::PrivateStateChanged { patchset, change }) == expected
        }),
{
}

/// A change is retired exactly on the events that end it (abandoned,
/// deleted, merged), whatever its state, and the retired change is the
/// event's.
pub proof fn lemma_retire_exactly_ended_changes(c: config::Config, event: Event)
    ensures
        (job_for(c, event) is RetireChange) <==> (event is ChangeAbandoned || event is ChangeDeleted
            || (event is ChangeMerged)),
        (event is ChangeAbandoned || event is ChangeDeleted || (event is ChangeMerged)) ==> job_for(
            c,
            event,
        ) == (Job::RetireChange { patchset: event_parts(event).0, change: event_parts(event).1 }),
{
}

/// `comment` ends with `command`.
pub open spec fn ends_in(comment: Seq<char>, command: Seq<char>) -> bool {
    command.len() <= comment.len() && forall|k: int|
        0 <= k < command.len() ==> comment[comment.len() - command.len() + k] == #[trigger] command[k]
}

proof fn lemma_ends_in(comment: Seq<char>, command: Seq<char>)
    ensures
        ends_in(comment, command) == has_suffix(comment, command),
{
    if ends_in(comment, command) {
        assert(comment.subrange(comment.len() - command.len(), comment.len() as int) =~= command);
    }
    if has_suffix(comment, command) {
        assert forall|k: int| 0 <= k < command.len() implies comment[comment.len() - command.len() + k]
            == #[trigger] command[k] by {
            assert(comment.subrange(comment.len() - command.len(), comment.len() as int)[k]
                == command[k]);
        }
    }
}

/// A review comment that ends with the retry command (by default `retry`)
/// retries; otherwise one that ends with the forced retry command (by
/// default `retry force`) starts a new pipeline, whatever the change's
/// state; any other comment does nothing.
pub proof fn lemma_comments_retry_or_force(
    c: config::Config,
    comment: String,
    patchset: Patchset,
    change: Change,
)
    ensures
        ({
            let retry = match c.gitlab.api.retry_command {
                Some(s) => s@,
                None => "retry"@,
            };
            let force = match c.gitlab.api.force_retry_command {
                Some(s) => s@,
                None => "retry force"@,
            };
            job_for(c, Event::CommentAdded { comment, patchset, change }) == if ends_in(
                comment@,
                retry,
            ) {
                Job::RetryPipeline { patchset, change }
            } else if ends_in(comment@, force) {
                Job::NewPipeline { patchset, change }
            } else {
                Job::Ignore
            }
        }),
{
    lemma_ends_in(comment@, retry_command(c));
    lemma_ends_in(comment@, force_retry_command(c));
}

/// A "not found" answer is tolerated, whatever the query count, while any
/// allowance is left: it uses one unit of allowance and tracking goes on.
/// With no allowance left it ends tracking with `NotFound`.
pub proof fn lemma_not_found_uses_allowance(state: TrackState, pipeline_id: u64, revision: Seq<char>)
    requires
        state.counter < u64::MAX,
    ensures
        state.not_found_allowed > 0 ==> track_transition(
            state,
            pipeline_id,
            revision,
            LatestQuery::NotFound,
        ) == (
            TrackState {
                counter: (state.counter + 1) as u64,
                not_found_allowed: (state.not_found_allowed - 1) as u8,
            },
            TrackActionView::Poll,
        ),
        state.not_found_allowed == 0 ==> track_transition(
            state,
            pipeline_id,
            revision,
            LatestQuery::NotFound,
        ) == (
            TrackState { counter: (state.counter + 1) as u64, not_found_allowed: 0 },
            TrackActionView::Fail(TrackError::NotFound),
        ),
{
}

/// While the tracked pipeline is in any in-progress status (created,
/// waiting for a resource, preparing, pending, running), tracking goes on,
/// and at the third query, only then, it posts "Pipeline was started
/// (<url>)" without a vote.
pub proof fn lemma_in_progress_pipelines(
    state: TrackState,
    pipeline_id: u64,
    revision: Seq<char>,
    p: Pipeline,
)
    requires
        state.counter < u64::MAX,
        p.id == pipeline_id,
        p.sha@ == revision,
        p.status == PipelineStatus::Created || p.status == PipelineStatus::WaitingForResource
            || p.status == PipelineStatus::Preparing || p.status == PipelineStatus::Pending
            || p.status == PipelineStatus::Running,
    ensures
        track_transition(state, pipeline_id, revision, LatestQuery::Found(p)).0 == (TrackState {
            counter: (state.counter + 1) as u64,
            not_found_allowed: state.not_found_allowed,
        }),
        state.counter == 2 ==> track_transition(state, pipeline_id, revision, LatestQuery::Found(p)).1
            == TrackActionView::ReviewAndPoll(
            ReviewView { message: "Pipeline was started"@ + " ("@ + p.web_url@ + ")"@, verified: None },
        ),
        state.counter != 2 ==> track_transition(state, pipeline_id, revision, LatestQuery::Found(p)).1
            == TrackActionView::Poll,
{
}

/// A finished tracked pipeline is reported and tracking stops: success with
/// "Pipeline succeeded (<url>)" and a `+1`, failure with "Pipeline failed
/// (<url>)" and a `-1`, cancellation with "Pipeline was cancelled (<url>)"
/// and no vote, whatever the query count. Skipped, manual and scheduled
/// pipelines end tracking with an error naming the status.
pub proof fn lemma_finished_pipelines(
    state: TrackState,
    pipeline_id: u64,
    revision: Seq<char>,
    p: Pipeline,
)
    requires
        state.counter < u64::MAX,
        p.id == pipeline_id,
        p.sha@ == revision,
    ensures
        p.status == PipelineStatus::Success ==> track_transition(
            state,
            pipeline_id,
            revision,
            LatestQuery::Found(p),
        ).1 == TrackActionView::ReviewAndStop(
            ReviewView {
                message: "Pipeline succeeded"@ + " ("@ + p.web_url@ + ")"@,
                verified: Some(Verified::Positive),
            },
        ),
        p.status == PipelineStatus::Failed ==> track_transition(
            state,
            pipeline_id,
            revision,
            LatestQuery::Found(p),
        ).1 == TrackActionView::ReviewAndStop(
            ReviewView {
                message: "Pipeline failed"@ + " ("@ + p.web_url@ + ")"@,
                verified: Some(Verified::Negative),
            },
        ),
        p.status == PipelineStatus::Canceled ==> track_transition(
            state,
            pipeline_id,
            revision,
            LatestQuery::Found(p),
        ).1 == TrackActionView::ReviewAndStop(
            ReviewView { message: "Pipeline was cancelled"@ + " ("@ + p.web_url@ + ")"@, verified: None },
        ),
        (p.status == PipelineStatus::Skipped || p.status == PipelineStatus::Manual || p.status
            == PipelineStatus::Scheduled) ==> track_transition(
            state,
            pipeline_id,
            revision,
            LatestQuery::Found(p),
        ).1 == TrackActionView::Fail(TrackError::UnexpectedStatus(p.status)),
        track_transition(state, pipeline_id, revision, LatestQuery::Found(p)).0.counter
            == state.counter + 1,
{
}

/// A failed query ends tracking with that query's error; a pipeline other
/// than the tracked one, or on another revision, is cancelled and tracking
/// stops, whatever its status.
pub proof fn lemma_failed_query_and_stale_pipeline(
    state: TrackState,
    pipeline_id: u64,
    revision: Seq<char>,
    error: String,
    p: Pipeline,
)
    requires
        state.counter < u64::MAX,
    ensures
        track_transition(state, pipeline_id, revision, LatestQuery::Failed(error)).1
            == TrackActionView::Fail(TrackError::QueryFailed(error)),
        (p.id != pipeline_id || p.sha@ != revision) ==> track_transition(
            state,
            pipeline_id,
            revision,
            LatestQuery::Found(p),
        ).1 == TrackActionView::CancelAndStop,
{
}

} // verus!
