//! The service facade: the five operations the transport layer calls, each a
//! single repository step against the entity store, with the error taxonomy
//! of the service (validation, missing reference, storage fault; absence on a
//! read is a `None`, not an error).

use vstd::prelude::*;

use crate::clock::now_rfc3339;
use crate::store::{CandidateRow, PollRow, Store, StoreError, VoteRow};
use crate::tally::{lemma_vote_count_le_len, lemma_vote_count_push, lemma_vote_count_zero, vote_count};
use crate::types::{BeError, CandidatePost, CandidateResponse, Id, PollPost, PollResponse, VoteResponse};
use crate::urlcheck::{parse_absolute_url, parsed_url};

verus! {

/// The service: one entity store and the operations over it.
pub struct PollService {
    pub store: Store,
}

impl PollService {
    pub open spec fn wf(&self) -> bool {
        self.store.wf()
    }

    /// A fresh service over an empty store.
    pub fn new() -> (s: PollService)
        ensures
            s.wf(),
            s.store.polls@.len() == 0,
            s.store.candidates@.len() == 0,
            s.store.votes@.len() == 0,
    {
        PollService { store: Store::new() }
    }

    /// Create a poll. Rejects an empty title; otherwise stores a new poll row
    /// stamped with the current time and returns it. The returned id is fresh:
    /// no previously created poll carries it.
    pub fn create_poll(&mut self, poll: PollPost) -> (r: Result<PollResponse, BeError>)
        requires
            old(self).wf(),
        ensures
            final(self).wf(),
            final(self).store.candidates@ == old(self).store.candidates@,
            final(self).store.votes@ == old(self).store.votes@,
            match r {
                Ok(resp) => {
                    &&& poll.title@.len() > 0
                    &&& old(self).store.polls@.len() < i32::MAX as int
                    &&& resp.id == old(self).store.polls@.len() + 1
                    &&& resp.title@ == poll.title@
                    &&& resp.candidate_ids@.len() == 0
                    &&& final(self).store.polls@ == old(self).store.polls@.push(
                        (PollRow { id: resp.id, title: resp.title, creation_time: resp.creation_time }),
                    )
                    &&& forall|i: int|
                        0 <= i < old(self).store.polls@.len() ==> (#[trigger] old(
                            self,
                        ).store.polls@[i]).id != resp.id
                },
                Err(e) => {
                    &&& final(self).store.polls@ == old(self).store.polls@
                    &&& (e == BeError::ValidationError <==> poll.title@.len() == 0)
                    &&& (e == BeError::StorageUnavailable <==> poll.title@.len() > 0 && old(
                        self,
                    ).store.polls@.len() == i32::MAX as int)
                    &&& e != BeError::ReferenceError
                },
            },
    {
        let empty = String::new();
        let is_empty = poll.title == empty;
        proof {
            if poll.title@.len() == 0 {
                assert(poll.title@ =~= Seq::<char>::empty());
            }
        }
        if is_empty {
            return Err(BeError::ValidationError);
        }
        let ts = now_rfc3339();
        match self.store.insert_poll(poll.title, ts) {
            Ok(row) => Ok(
                PollResponse {
                    id: row.id,
                    title: row.title,
                    creation_time: row.creation_time,
                    candidate_ids: Vec::new(),
                },
            ),
            Err(_) => Err(BeError::StorageUnavailable),
        }
    }

    /// Create a candidate under a poll. Rejects a `url` that does not parse
    /// as an absolute URL; the store rejects a missing poll (the foreign
    /// key). What is stored and returned is the parser's normalized rendering
    /// of the URL, and a just-created candidate has a tally of zero.
    pub fn create_candidate(&mut self, candidate: CandidatePost) -> (r: Result<
        CandidateResponse,
        BeError,
    >)
        requires
            old(self).wf(),
        ensures
            final(self).wf(),
            final(self).store.polls@ == old(self).store.polls@,
            final(self).store.votes@ == old(self).store.votes@,
            match r {
                Ok(resp) => {
                    &&& parsed_url(candidate.url@) matches Some(p) && resp.url@ == p
                    &&& old(self).store.has_poll(candidate.poll_id)
                    &&& old(self).store.candidates@.len() < i32::MAX as int
                    &&& resp.id == old(self).store.candidates@.len() + 1
                    &&& resp.poll_id == candidate.poll_id
                    &&& resp.num_votes == 0
                    &&& vote_count(final(self).store.votes@, resp.id) == 0
                    &&& final(self).store.candidates@ == old(self).store.candidates@.push(
                        (CandidateRow { id: resp.id, poll_id: resp.poll_id, url: resp.url }),
                    )
                },
                Err(e) => {
                    &&& final(self).store.candidates@ == old(self).store.candidates@
                    &&& (e == BeError::ValidationError <==> parsed_url(candidate.url@) is None)
                    &&& (e == BeError::ReferenceError <==> parsed_url(candidate.url@) is Some
                        && !old(self).store.has_poll(candidate.poll_id))
                    &&& (e == BeError::StorageUnavailable <==> parsed_url(candidate.url@) is Some
                        && old(self).store.has_poll(candidate.poll_id) && old(
                        self,
                    ).store.candidates@.len() == i32::MAX as int)
                },
            },
    {
        let parsed = parse_absolute_url(candidate.url.as_str());
        match parsed {
            None => Err(BeError::ValidationError),
            Some(normalized) => match self.store.insert_candidate(candidate.poll_id, normalized) {
                Ok(row) => {
                    proof {
                        lemma_vote_count_zero(self.store.votes@, row.id);
                    }
                    Ok(
                        CandidateResponse {
                            id: row.id,
                            url: row.url,
                            poll_id: row.poll_id,
                            num_votes: 0,
                        },
                    )
                },
                Err(StoreError::ConstraintViolation) => Err(BeError::ReferenceError),
                Err(StoreError::StorageUnavailable) => Err(BeError::StorageUnavailable),
            },
        }
    }

    /// Cast a vote for a candidate, recording the caller's network origin and
    /// the current time. The store rejects a missing candidate (the foreign
    /// key). A successful cast appends exactly one vote row: the candidate's
    /// tally grows by one and every other tally is untouched — casting twice
    /// with identical arguments records two distinct rows, by design.
    pub fn cast_vote(&mut self, candidate_id: Id, source_address: String) -> (r: Result<
        VoteResponse,
        BeError,
    >)
        requires
            old(self).wf(),
        ensures
            final(self).wf(),
            final(self).store.polls@ == old(self).store.polls@,
            final(self).store.candidates@ == old(self).store.candidates@,
            match r {
                Ok(resp) => {
                    &&& old(self).store.has_candidate(candidate_id)
                    &&& old(self).store.votes@.len() < i32::MAX as int
                    &&& resp.id == old(self).store.votes@.len() + 1
                    &&& resp.candidate_id == candidate_id
                    &&& final(self).store.votes@ == old(self).store.votes@.push(
                        (VoteRow {
                            id: resp.id,
                            candidate_id,
                            source_ip: source_address,
                            creation_time: resp.creation_time,
                        }),
                    )
                    &&& vote_count(final(self).store.votes@, candidate_id) == vote_count(
                        old(self).store.votes@,
                        candidate_id,
                    ) + 1
                    &&& forall|c: Id|
                        c != candidate_id ==> #[trigger] vote_count(final(self).store.votes@, c)
                            == vote_count(old(self).store.votes@, c)
                },
                Err(e) => {
                    &&& final(self).store.votes@ == old(self).store.votes@
                    &&& (e == BeError::ReferenceError <==> !old(self).store.has_candidate(
                        candidate_id,
                    ))
                    &&& (e == BeError::StorageUnavailable <==> old(self).store.has_candidate(
                        candidate_id,
                    ) && old(self).store.votes@.len() == i32::MAX as int)
                    &&& e != BeError::ValidationError
                },
            },
    {
        let ts = now_rfc3339();
        match self.store.insert_vote(candidate_id, source_address, ts) {
            Ok(row) => {
                proof {
                    lemma_vote_count_push(old(self).store.votes@, row, candidate_id);
                    assert forall|c: Id|
                        c != candidate_id implies #[trigger] vote_count(self.store.votes@, c)
                        == vote_count(old(self).store.votes@, c) by {
                        lemma_vote_count_push(old(self).store.votes@, row, c);
                    }
                }
                Ok(
                    VoteResponse {
                        id: row.id,
                        candidate_id: row.candidate_id,
                        creation_time: row.creation_time,
                    },
                )
            },
            Err(StoreError::ConstraintViolation) => Err(BeError::ReferenceError),
            Err(StoreError::StorageUnavailable) => Err(BeError::StorageUnavailable),
        }
    }

    /// Read a poll. A never-created id is a `None`, never a fault. The
    /// response's `candidate_ids` list is always empty (the transport shape
    /// carries the field; this service does not populate it).
    pub fn get_poll(&self, poll_id: Id) -> (r: Option<PollResponse>)
        requires
            self.wf(),
        ensures
            r is Some <==> self.store.has_poll(poll_id),
            r matches Some(resp) ==> {
                &&& resp.id == poll_id
                &&& resp.title@ == self.store.polls@[poll_id - 1].title@
                &&& resp.creation_time@ == self.store.polls@[poll_id - 1].creation_time@
                &&& resp.candidate_ids@.len() == 0
            },
    {
        match self.store.find_poll(poll_id) {
            Some(row) => Some(
                PollResponse {
                    id: row.id,
                    title: row.title.clone(),
                    creation_time: row.creation_time.clone(),
                    candidate_ids: Vec::new(),
                },
            ),
            None => None,
        }
    }

    /// Read a candidate together with its tally: `num_votes` is the count,
    /// over the whole vote table as stored now, of the votes that reference
    /// this candidate. A never-created id is a `None`, never a fault.
    pub fn get_candidate_with_tally(&self, candidate_id: Id) -> (r: Option<CandidateResponse>)
        requires
            self.wf(),
        ensures
            r is Some <==> self.store.has_candidate(candidate_id),
            r matches Some(resp) ==> {
                &&& resp.id == candidate_id
                &&& resp.poll_id == self.store.candidates@[candidate_id - 1].poll_id
                &&& resp.url@ == self.store.candidates@[candidate_id - 1].url@
                &&& resp.num_votes == vote_count(self.store.votes@, candidate_id)
            },
    {
        match self.store.find_candidate(candidate_id) {
            Some(row) => {
                let n = self.store.count_votes_for(candidate_id);
                proof {
                    lemma_vote_count_le_len(self.store.votes@, candidate_id);
                }
                Some(
                    CandidateResponse {
                        id: row.id,
                        url: row.url.clone(),
                        poll_id: row.poll_id,
                        num_votes: n as i32,
                    },
                )
            },
            None => None,
        }
    }
}

} // verus!
