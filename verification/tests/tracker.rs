use gerrit_gitlab_ci::change_tracker::{
    code_change_in_patchset, new_pipeline_step, on_internal_ref, retry_decision, retry_outcome,
    track_start, track_step, ChangeTracker, Job, LatestQuery, NewPipelineAction, NewPipelineEvent,
    NewPipelineStage, RetryDecision, TrackAction, TrackError, TrackState,
};
use gerrit_gitlab_ci::config::{Config, GerritConfig, GitlabApiConfig, GitlabConfig, GitlabSshConfig};
use gerrit_gitlab_ci::gerrit_ssh_command::Verified;
use gerrit_gitlab_ci::gerrit_stream_events::models::{Change, ChangeStatus, Patchset, PatchsetKind};
use gerrit_gitlab_ci::gerrit_stream_events::Event;
use gerrit_gitlab_ci::git::PushOperation;
use gerrit_gitlab_ci::gitlab::{Pipeline, PipelineStatus};
use gerrit_gitlab_ci::ssh;

const REV: &str = "fa6b3cf76e9cda2f2e87f31aad124148a49ef49a";

fn tracker_with(retry: Option<&str>, force: Option<&str>) -> ChangeTracker {
    ChangeTracker::new(Config {
        gerrit: GerritConfig {
            ssh: ssh::Config {
                user: "u".to_string(),
                host: "h".to_string(),
                port: None,
                private_key_path: None,
            },
            internal_git_directory: "/git".to_string(),
        },
        gitlab: GitlabConfig {
            ci_branch_prefix: "ci/".to_string(),
            ssh: GitlabSshConfig::default(),
            api: GitlabApiConfig {
                retry_command: retry.map(|s| s.to_string()),
                force_retry_command: force.map(|s| s.to_string()),
                private_access_token: None,
            },
        },
        repositories: vec![],
    })
}

fn patchset_of(kind: PatchsetKind) -> Patchset {
    Patchset {
        reference: "refs/changes/82/2082/2".to_string(),
        kind,
        revision: REV.to_string(),
        number: 2,
    }
}

fn change_of(branch: &str, wip: bool, private: bool) -> Change {
    Change {
        project: "p".to_string(),
        branch: branch.to_string(),
        id: "Ib5fa8c667c3e8ff42e8b2404b5083c8b6af2af6d".to_string(),
        number: 2082,
        status: ChangeStatus::New,
        wip,
        private,
    }
}

fn pipeline(id: u64, status: PipelineStatus, sha: &str) -> Pipeline {
    Pipeline {
        id,
        status,
        sha: sha.to_string(),
        web_url: format!("https://gitlab.com/p/-/pipelines/{id}"),
    }
}

fn kind_of(job: &Job) -> &'static str {
    match job {
        Job::NewPipeline { .. } => "new",
        Job::RetryPipeline { .. } => "retry",
        Job::RetireChange { .. } => "retire",
        Job::Ignore => "ignore",
    }
}

#[test]
fn code_changes() {
    assert!(code_change_in_patchset(&patchset_of(PatchsetKind::Other)));
    assert!(!code_change_in_patchset(&patchset_of(PatchsetKind::NoCodeChange)));
    assert!(!code_change_in_patchset(&patchset_of(PatchsetKind::NoChange)));
}

#[test]
fn new_patchsets_start_pipelines_when_ready() {
    let t = tracker_with(None, None);
    let ready = |k: PatchsetKind, wip: bool, private: bool| {
        t.plan(Event::PatchsetCreated { patchset: patchset_of(k), change: change_of("master", wip, private) })
    };
    match ready(PatchsetKind::Other, false, false) {
        Job::NewPipeline { patchset, change } => {
            assert_eq!(patchset.number, 2);
            assert_eq!(change.number, 2082);
        }
        other => panic!("unexpected {other:?}"),
    }
    assert_eq!(kind_of(&ready(PatchsetKind::Other, true, false)), "ignore");
    assert_eq!(kind_of(&ready(PatchsetKind::Other, false, true)), "ignore");
    assert_eq!(kind_of(&ready(PatchsetKind::NoCodeChange, false, false)), "ignore");
    assert_eq!(kind_of(&ready(PatchsetKind::NoChange, false, false)), "ignore");
    let restored = t.plan(Event::ChangeRestored { patchset: patchset_of(PatchsetKind::Other), change: change_of("master", false, false) });
    assert_eq!(kind_of(&restored), "new");
    let wip_left = t.plan(Event::WipStateChanged { patchset: patchset_of(PatchsetKind::Other), change: change_of("master", false, false) });
    assert_eq!(kind_of(&wip_left), "new");
    let wip_entered = t.plan(Event::WipStateChanged { patchset: patchset_of(PatchsetKind::Other), change: change_of("master", true, false) });
    assert_eq!(kind_of(&wip_entered), "ignore");
    let private_left = t.plan(Event::PrivateStateChanged { patchset: patchset_of(PatchsetKind::Other), change: change_of("master", false, false) });
    assert_eq!(kind_of(&private_left), "new");
}

#[test]
fn ended_changes_are_retired() {
    let t = tracker_with(None, None);
    for event in [
        Event::ChangeAbandoned { patchset: patchset_of(PatchsetKind::Other), change: change_of("master", true, true) },
        Event::ChangeDeleted { patchset: patchset_of(PatchsetKind::NoChange), change: change_of("master", false, false) },
        Event::ChangeMerged { patchset: patchset_of(PatchsetKind::Other), change: change_of("master", false, false) },
    ] {
        assert_eq!(kind_of(&t.plan(event)), "retire");
    }
}

#[test]
fn comments_retry_or_force() {
    let t = tracker_with(None, None);
    let comment = |text: &str| {
        t.plan(Event::CommentAdded {
            comment: text.to_string(),
            patchset: patchset_of(PatchsetKind::NoChange),
            change: change_of("master", true, false),
        })
    };
    assert_eq!(kind_of(&comment("Patch Set 2:\n\nretry")), "retry");
    assert_eq!(kind_of(&comment("Patch Set 2:\n\nretry force")), "new");
    assert_eq!(kind_of(&comment("looks good")), "ignore");
    assert_eq!(kind_of(&comment("retry please")), "ignore");

    let custom = tracker_with(Some("/ci again"), Some("/ci fresh"));
    let comment = |text: &str| {
        custom.plan(Event::CommentAdded {
            comment: text.to_string(),
            patchset: patchset_of(PatchsetKind::Other),
            change: change_of("master", false, false),
        })
    };
    assert_eq!(kind_of(&comment("x /ci again")), "retry");
    assert_eq!(kind_of(&comment("x /ci fresh")), "new");
    assert_eq!(kind_of(&comment("retry")), "ignore");

    // The retry command is checked first.
    let overlapping = tracker_with(Some("go"), Some("go"));
    let job = overlapping.plan(Event::CommentAdded {
        comment: "go".to_string(),
        patchset: patchset_of(PatchsetKind::Other),
        change: change_of("master", false, false),
    });
    assert_eq!(kind_of(&job), "retry");
}

#[test]
fn internal_refs() {
    assert!(on_internal_ref(&change_of("refs/meta/config", false, false)));
    assert!(!on_internal_ref(&change_of("master", false, false)));
}

#[test]
fn retry_decisions() {
    match retry_decision(LatestQuery::Found(pipeline(9, PipelineStatus::Failed, REV))) {
        RetryDecision::Retry { pipeline_id } => assert_eq!(pipeline_id, 9),
        other => panic!("unexpected {other:?}"),
    }
    match retry_decision(LatestQuery::Found(pipeline(9, PipelineStatus::Running, REV))) {
        RetryDecision::Refuse { review } => {
            assert_eq!(
                review.message,
                "Latest pipeline (https://gitlab.com/p/-/pipelines/9) found was Running, cannot retry."
            );
            assert!(review.verified.is_none());
        }
        other => panic!("unexpected {other:?}"),
    }
    match retry_decision(LatestQuery::NotFound) {
        RetryDecision::Refuse { review } => assert_eq!(review.message, "Latest pipeline was not found."),
        other => panic!("unexpected {other:?}"),
    }
    match retry_decision(LatestQuery::Failed("timeout".to_string())) {
        RetryDecision::Refuse { review } => assert_eq!(
            review.message,
            "Error occured when trying to query the latest pipeline status."
        ),
        other => panic!("unexpected {other:?}"),
    }
}

#[test]
fn retry_outcomes() {
    let ok = retry_outcome(9, Some(pipeline(9, PipelineStatus::Pending, REV)));
    assert_eq!(ok.review.message, "Pipeline retried (https://gitlab.com/p/-/pipelines/9)");
    assert_eq!(ok.track, Some(9));
    let failed = retry_outcome(9, None);
    assert_eq!(
        failed.review.message,
        "Error occured when trying to retry the latest pipeline status."
    );
    assert_eq!(failed.track, None);
}

#[test]
fn new_pipeline_steps() {
    let change = change_of("master", false, false);
    let (stage, action) = new_pipeline_step(&change, NewPipelineStage::Start, NewPipelineEvent::Begin);
    assert!(matches!(stage, NewPipelineStage::Pushing));
    assert!(matches!(action, NewPipelineAction::Push));
    let (stage, action) = new_pipeline_step(
        &change,
        stage,
        NewPipelineEvent::Pushed(Some(PushOperation::NoChange { branch: "ci/2082-I".to_string() })),
    );
    match &action {
        NewPipelineAction::ListPipelines { branch } => assert_eq!(branch, "ci/2082-I"),
        other => panic!("unexpected {other:?}"),
    }
    let (stage, action) = new_pipeline_step(
        &change,
        stage,
        NewPipelineEvent::Listed(Some(vec![
            pipeline(3, PipelineStatus::Running, REV),
            pipeline(4, PipelineStatus::Created, REV),
        ])),
    );
    match &action {
        NewPipelineAction::CancelAndTrigger { cancel, branch } => {
            assert_eq!(cancel, &vec![3, 4]);
            assert_eq!(branch, "ci/2082-I");
        }
        other => panic!("unexpected {other:?}"),
    }
    let (stage, action) = new_pipeline_step(
        &change,
        stage,
        NewPipelineEvent::Triggered(Some(pipeline(5, PipelineStatus::Created, REV))),
    );
    assert!(matches!(stage, NewPipelineStage::Done));
    match action {
        NewPipelineAction::Track { pipeline_id, branch } => {
            assert_eq!(pipeline_id, 5);
            assert_eq!(branch, "ci/2082-I");
        }
        other => panic!("unexpected {other:?}"),
    }
}

#[test]
fn new_pipeline_stops_on_failures() {
    let change = change_of("master", false, false);
    let internal = change_of("refs/meta/config", false, false);
    let (stage, action) = new_pipeline_step(&internal, NewPipelineStage::Start, NewPipelineEvent::Begin);
    assert!(matches!(stage, NewPipelineStage::Done));
    assert!(matches!(action, NewPipelineAction::Skip));
    let (_, action) = new_pipeline_step(&change, NewPipelineStage::Pushing, NewPipelineEvent::Pushed(None));
    assert!(matches!(action, NewPipelineAction::Stop));
    let (_, action) = new_pipeline_step(
        &change,
        NewPipelineStage::Listing { branch: "b".to_string() },
        NewPipelineEvent::Listed(None),
    );
    assert!(matches!(action, NewPipelineAction::Stop));
    let (_, action) = new_pipeline_step(
        &change,
        NewPipelineStage::Triggering { branch: "b".to_string() },
        NewPipelineEvent::Triggered(None),
    );
    assert!(matches!(action, NewPipelineAction::Stop));
    let (_, action) = new_pipeline_step(&change, NewPipelineStage::Done, NewPipelineEvent::Begin);
    assert!(matches!(action, NewPipelineAction::Stop));
}

#[test]
fn tracking_tolerates_five_missing_answers() {
    let mut state = track_start();
    assert_eq!(state, TrackState { counter: 0, not_found_allowed: 5 });
    for i in 0..5 {
        let (next, action) = track_step(state, 5, REV, LatestQuery::NotFound);
        assert!(matches!(action, TrackAction::Poll), "answer {i}");
        state = next;
    }
    assert_eq!(state, TrackState { counter: 5, not_found_allowed: 0 });
    let (_, action) = track_step(state, 5, REV, LatestQuery::NotFound);
    assert!(matches!(action, TrackAction::Fail { error: TrackError::NotFound }));
}

#[test]
fn tracking_reports_start_once() {
    let mut state = track_start();
    let mut notes = 0;
    for query in 1..=6u64 {
        let (next, action) = track_step(state, 5, REV, LatestQuery::Found(pipeline(5, PipelineStatus::Running, REV)));
        assert_eq!(next.counter, query);
        match action {
            TrackAction::ReviewAndPoll { review } => {
                notes += 1;
                assert_eq!(query, 3);
                assert_eq!(review.message, "Pipeline was started (https://gitlab.com/p/-/pipelines/5)");
                assert!(review.verified.is_none());
            }
            TrackAction::Poll => {}
            other => panic!("unexpected {other:?}"),
        }
        state = next;
    }
    assert_eq!(notes, 1);
}

#[test]
fn tracking_reports_outcomes() {
    let state = TrackState { counter: 7, not_found_allowed: 2 };
    let (_, success) = track_step(state, 5, REV, LatestQuery::Found(pipeline(5, PipelineStatus::Success, REV)));
    match success {
        TrackAction::ReviewAndStop { review } => {
            assert_eq!(review.message, "Pipeline succeeded (https://gitlab.com/p/-/pipelines/5)");
            assert_eq!(review.verified, Some(Verified::Positive));
        }
        other => panic!("unexpected {other:?}"),
    }
    let (_, failure) = track_step(state, 5, REV, LatestQuery::Found(pipeline(5, PipelineStatus::Failed, REV)));
    match failure {
        TrackAction::ReviewAndStop { review } => {
            assert_eq!(review.message, "Pipeline failed (https://gitlab.com/p/-/pipelines/5)");
            assert_eq!(review.verified, Some(Verified::Negative));
        }
        other => panic!("unexpected {other:?}"),
    }
    let (_, canceled) = track_step(state, 5, REV, LatestQuery::Found(pipeline(5, PipelineStatus::Canceled, REV)));
    match canceled {
        TrackAction::ReviewAndStop { review } => {
            assert_eq!(review.message, "Pipeline was cancelled (https://gitlab.com/p/-/pipelines/5)");
            assert_eq!(review.verified, None);
        }
        other => panic!("unexpected {other:?}"),
    }
    for s in [PipelineStatus::Skipped, PipelineStatus::Manual, PipelineStatus::Scheduled] {
        let (_, action) = track_step(state, 5, REV, LatestQuery::Found(pipeline(5, s, REV)));
        assert!(matches!(action, TrackAction::Fail { error: TrackError::UnexpectedStatus(x) } if x == s));
    }
    let (next, failed_query) = track_step(state, 5, REV, LatestQuery::Failed("timeout".to_string()));
    match failed_query {
        TrackAction::Fail { error: TrackError::QueryFailed(detail) } => {
            assert_eq!(detail, "timeout");
            assert_eq!(
                TrackError::QueryFailed(detail).message(),
                "Error when trying to query the latest pipeline status: Err(timeout)"
            );
        }
        other => panic!("unexpected {other:?}"),
    }
    assert_eq!(next, TrackState { counter: 8, not_found_allowed: 2 });
}

#[test]
fn tracking_cancels_stale_pipelines() {
    let state = track_start();
    let (_, newer) = track_step(state, 5, REV, LatestQuery::Found(pipeline(6, PipelineStatus::Success, REV)));
    assert!(matches!(newer, TrackAction::CancelAndStop));
    let (_, other_rev) = track_step(state, 5, REV, LatestQuery::Found(pipeline(5, PipelineStatus::Success, "0000000")));
    assert!(matches!(other_rev, TrackAction::CancelAndStop));
}

#[test]
fn tracking_polls_exactly_while_running() {
    let state = TrackState { counter: 10, not_found_allowed: 5 };
    for s in [PipelineStatus::Created, PipelineStatus::WaitingForResource, PipelineStatus::Preparing, PipelineStatus::Pending, PipelineStatus::Running, PipelineStatus::Success, PipelineStatus::Failed, PipelineStatus::Canceled, PipelineStatus::Skipped, PipelineStatus::Manual, PipelineStatus::Scheduled] {
        let (_, action) = track_step(state, 5, REV, LatestQuery::Found(pipeline(5, s, REV)));
        let polls = matches!(action, TrackAction::Poll | TrackAction::ReviewAndPoll { .. });
        assert_eq!(polls, s.is_running(), "{s:?}");
    }
}

#[test]
fn tracking_error_messages() {
    assert_eq!(
        TrackError::UnexpectedStatus(PipelineStatus::Manual).message(),
        "Unexpected pipeline status: Manual?"
    );
    assert_eq!(
        TrackError::NotFound.message(),
        "Error when trying to query the latest pipeline status: Ok(NotFound)"
    );
}

#[test]
fn tracking_run_votes_once_and_stops() {
    // A run: missing, running three times, then success; the success stops it.
    let answers = vec![
        LatestQuery::NotFound,
        LatestQuery::Found(pipeline(5, PipelineStatus::Pending, REV)),
        LatestQuery::Found(pipeline(5, PipelineStatus::Running, REV)),
        LatestQuery::Found(pipeline(5, PipelineStatus::Running, REV)),
        LatestQuery::Found(pipeline(5, PipelineStatus::Success, REV)),
    ];
    let mut state = track_start();
    let mut votes = Vec::new();
    let mut stopped_at = None;
    for (i, answer) in answers.into_iter().enumerate() {
        let (next, action) = track_step(state, 5, REV, answer);
        state = next;
        match action {
            TrackAction::Poll => {}
            TrackAction::ReviewAndPoll { review } => assert!(review.verified.is_none()),
            TrackAction::ReviewAndStop { review } => {
                if let Some(v) = review.verified {
                    votes.push(v);
                }
                stopped_at = Some(i);
                break;
            }
            other => panic!("unexpected {other:?}"),
        }
    }
    assert_eq!(votes, vec![Verified::Positive]);
    assert_eq!(stopped_at, Some(4));
}
