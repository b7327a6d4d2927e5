//! Decisions of branch mirroring: merged changes of the `master` branch are
//! mirrored to GitLab, and the outcome is reported on the change.
use vstd::prelude::*;
use vstd::string::*;

use crate::gerrit_ssh_command::{Review, ReviewView};
use crate::gerrit_stream_events::models::{Change, Event, Patchset};
use crate::text::same_text;

verus! {

/// The change and patchset to mirror for an event: only merges are
/// mirrored.
pub open spec fn mirror_target(event: Event) -> Option<(Patchset, Change)> {
    match event {
        Event::ChangeMerged { patchset, change } => Some((patchset, change)),
        _ => None,
    }
}

/// Picks the merge events out of the event stream.
pub fn mirror_job(event: Event) -> (target: Option<(Patchset, Change)>)
    ensures
        target == mirror_target(event),
{
    match event {
        Event::ChangeMerged { patchset, change } => Some((patchset, change)),
        _ => None,
    }
}

/// Only the `master` branch is mirrored.
pub fn mirrors_branch(change: &Change) -> (r: bool)
    ensures
        r == (change.branch@ == "master"@),
{
    same_text(change.branch.as_str(), "master")
}

/// The review that reports how mirroring `branch` went.
pub open spec fn mirror_review_view(branch: Seq<char>, mirrored: bool) -> ReviewView {
    if mirrored {
        ReviewView {
            message: "Branch ("@ + branch + ") successfully mirrored in GitLab."@,
            verified: None,
        }
    } else {
        ReviewView {
            message: "Fatal: Error occured when trying to mirror the branch ("@ + branch
                + ") in GitLab. Check the logs."@,
            verified: None,
        }
    }
}

/// The review that reports how mirroring `branch` went.
pub fn mirror_review(branch: &str, mirrored: bool) -> (r: Review)
    ensures
        r@ == mirror_review_view(branch@, mirrored),
{
    let mut message = if mirrored {
        "Branch (".to_owned()
    } else {
        "Fatal: Error occured when trying to mirror the branch (".to_owned()
    };
    message.append(branch);
    if mirrored {
        message.append(") successfully mirrored in GitLab.");
    } else {
        message.append(") in GitLab. Check the logs.");
    }
    Review { message, verified: None }
}

} // verus!
