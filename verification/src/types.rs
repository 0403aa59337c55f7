//! Request and response shapes of the service, and its error taxonomy.

use vstd::prelude::*;

verus! {

/// Row identifiers are store-generated integers.
pub type Id = i32;

/// The closed set of failure kinds a service operation can report.
///
/// Absence of a read target is not an error: reads return `Option` instead.
#[derive(Clone, Copy, Debug, PartialEq, Eq, Structural)]
pub enum BeError {
    /// Malformed input (empty title, unparseable URL); caller-fixable.
    ValidationError,
    /// A foreign-key target does not exist; caller-fixable.
    ReferenceError,
    /// A storage-layer fault (here: the id space is exhausted).
    StorageUnavailable,
}

/// Input shape of a poll creation request.
#[derive(Debug, PartialEq, Eq)]
pub struct PollPost {
    pub title: String,
}

/// Output shape of poll creation and poll reads.
#[derive(Debug, PartialEq, Eq)]
pub struct PollResponse {
    pub id: Id,
    pub title: String,
    pub creation_time: String,
    pub candidate_ids: Vec<Id>,
}

/// Input shape of a candidate creation request. The `url` is kept as plain
/// text here; the service validates that it parses as an absolute URL.
#[derive(Debug, PartialEq, Eq)]
pub struct CandidatePost {
    pub url: String,
    pub poll_id: Id,
}

/// Output shape of candidate creation and candidate reads; `num_votes`
/// carries the tally on reads and is zero for a just-created candidate.
#[derive(Debug, PartialEq, Eq)]
pub struct CandidateResponse {
    pub id: Id,
    pub url: String,
    pub poll_id: Id,
    pub num_votes: i32,
}

/// Output shape of a cast vote.
#[derive(Debug, PartialEq, Eq)]
pub struct VoteResponse {
    pub id: Id,
    pub candidate_id: Id,
    pub creation_time: String,
}

} // verus!
