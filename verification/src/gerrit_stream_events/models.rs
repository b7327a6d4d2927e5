//! The parts of Gerrit events that the bridge reads.
//!
//! Gerrit documents that any field of an event may be missing; the bridge
//! reads only the event kinds below, and of them only these fields.
use vstd::prelude::*;

verus! {

/// A Gerrit event.
#[derive(Clone, Debug)]
pub enum Event {
    PatchsetCreated { patchset: Patchset, change: Change },
    ChangeAbandoned { patchset: Patchset, change: Change },
    ChangeDeleted { patchset: Patchset, change: Change },
    ChangeMerged { patchset: Patchset, change: Change },
    ChangeRestored { patchset: Patchset, change: Change },
    CommentAdded { comment: String, patchset: Patchset, change: Change },
    WipStateChanged { patchset: Patchset, change: Change },
    PrivateStateChanged { patchset: Patchset, change: Change },
}

/// A patchset of a change.
#[derive(Clone, Debug)]
pub struct Patchset {
    /// The ref under which Gerrit stores the patchset (`refs/changes/..`).
    pub reference: String,
    pub kind: PatchsetKind,
    /// The commit sha of the patchset.
    pub revision: String,
    pub number: u64,
}

/// How a patchset differs from its predecessor.
#[derive(Clone, Copy, Debug, PartialEq, Eq, Structural)]
pub enum PatchsetKind {
    NoCodeChange,
    NoChange,
    /// All other patchset kinds: these kinds all imply a change that
    /// requires a CI rerun.
    Other,
}

/// A Gerrit change.
#[derive(Clone, Debug)]
pub struct Change {
    pub project: String,
    pub branch: String,
    pub id: String,
    pub number: u64,
    pub status: ChangeStatus,
    pub wip: bool,
    pub private: bool,
}

#[derive(Clone, Copy, Debug, PartialEq, Eq, Structural)]
pub enum ChangeStatus {
    New,
    Merged,
    Abandoned,
}

} // verus!
