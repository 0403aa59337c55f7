//! The entity store: append-only tables for polls, candidates and votes.
//!
//! The store generates row identifiers (dense, starting at 1, in insertion
//! order, as an auto-increment column would) and enforces the two foreign
//! keys: a candidate references an existing poll, a vote references an
//! existing candidate. No row is ever updated or deleted.

use vstd::prelude::*;

use crate::types::Id;

verus! {

/// A stored poll row.
#[derive(Debug, PartialEq, Eq)]
pub struct PollRow {
    pub id: Id,
    pub title: String,
    pub creation_time: String,
}

/// A stored candidate row; `poll_id` is a foreign key into the poll table.
#[derive(Debug, PartialEq, Eq)]
pub struct CandidateRow {
    pub id: Id,
    pub poll_id: Id,
    pub url: String,
}

/// A stored vote row; `candidate_id` is a foreign key into the candidate
/// table. `source_ip` records the network origin, purely informationally.
#[derive(Debug, PartialEq, Eq)]
pub struct VoteRow {
    pub id: Id,
    pub candidate_id: Id,
    pub source_ip: String,
    pub creation_time: String,
}

impl Clone for PollRow {
    fn clone(&self) -> (r: Self)
        ensures
            r == *self,
    {
        PollRow { id: self.id, title: self.title.clone(), creation_time: self.creation_time.clone() }
    }
}

impl Clone for CandidateRow {
    fn clone(&self) -> (r: Self)
        ensures
            r == *self,
    {
        CandidateRow { id: self.id, poll_id: self.poll_id, url: self.url.clone() }
    }
}

impl Clone for VoteRow {
    fn clone(&self) -> (r: Self)
        ensures
            r == *self,
    {
        VoteRow {
            id: self.id,
            candidate_id: self.candidate_id,
            source_ip: self.source_ip.clone(),
            creation_time: self.creation_time.clone(),
        }
    }
}

/// The closed set of faults an insert can report.
#[derive(Clone, Copy, Debug, PartialEq, Eq, Structural)]
pub enum StoreError {
    /// The referenced parent row does not exist.
    ConstraintViolation,
    /// The id space of the table is exhausted.
    StorageUnavailable,
}

/// The three tables. Rows are only ever appended.
pub struct Store {
    pub polls: Vec<PollRow>,
    pub candidates: Vec<CandidateRow>,
    pub votes: Vec<VoteRow>,
}

impl Store {
    /// Well-formedness: ids are dense (row at index `i` has id `i + 1`, so
    /// every table fits the id type), and both foreign keys point at rows
    /// that exist.
    pub open spec fn wf(&self) -> bool {
        &&& self.polls@.len() <= i32::MAX as int
        &&& self.candidates@.len() <= i32::MAX as int
        &&& self.votes@.len() <= i32::MAX as int
        &&& forall|i: int|
            0 <= i < self.polls@.len() ==> (#[trigger] self.polls@[i]).id == i + 1
        &&& forall|i: int|
            0 <= i < self.candidates@.len() ==> (#[trigger] self.candidates@[i]).id == i + 1
        &&& forall|i: int|
            0 <= i < self.votes@.len() ==> (#[trigger] self.votes@[i]).id == i + 1
        &&& forall|i: int|
            0 <= i < self.candidates@.len() ==> 1 <= (#[trigger] self.candidates@[i]).poll_id
                <= self.polls@.len()
        &&& forall|i: int|
            0 <= i < self.votes@.len() ==> 1 <= (#[trigger] self.votes@[i]).candidate_id
                <= self.candidates@.len()
    }

    /// A poll with this id exists (ids are dense, so existence is a range
    /// check).
    pub open spec fn has_poll(&self, id: Id) -> bool {
        1 <= id <= self.polls@.len()
    }

    /// A candidate with this id exists.
    pub open spec fn has_candidate(&self, id: Id) -> bool {
        1 <= id <= self.candidates@.len()
    }

    /// An empty store: the state right after the schema is set up.
    pub fn new() -> (s: Store)
        ensures
            s.wf(),
            s.polls@.len() == 0,
            s.candidates@.len() == 0,
            s.votes@.len() == 0,
    {
        Store { polls: Vec::new(), candidates: Vec::new(), votes: Vec::new() }
    }

    /// Insert a poll row; the store assigns the next id. Returns the stored
    /// row, or reports the id space exhausted.
    pub fn insert_poll(&mut self, title: String, creation_time: String) -> (r: Result<
        PollRow,
        StoreError,
    >)
        requires
            old(self).wf(),
        ensures
            final(self).wf(),
            final(self).candidates@ == old(self).candidates@,
            final(self).votes@ == old(self).votes@,
            match r {
                Ok(row) => {
                    &&& old(self).polls@.len() < i32::MAX as int
                    &&& row.id == old(self).polls@.len() + 1
                    &&& row.title == title
                    &&& row.creation_time == creation_time
                    &&& final(self).polls@ == old(self).polls@.push(row)
                },
                Err(e) => {
                    &&& e == StoreError::StorageUnavailable
                    &&& old(self).polls@.len() == i32::MAX as int
                    &&& final(self).polls@ == old(self).polls@
                },
            },
    {
        let len = self.polls.len();
        if len >= i32::MAX as usize {
            return Err(StoreError::StorageUnavailable);
        }
        let id: Id = (len + 1) as i32;
        let row = PollRow { id, title, creation_time };
        let returned = row.clone();
        self.polls.push(row);
        Ok(returned)
    }

    /// Insert a candidate row referencing `poll_id`; rejects a missing poll
    /// (foreign-key enforcement), as a relational store would.
    pub fn insert_candidate(&mut self, poll_id: Id, url: String) -> (r: Result<
        CandidateRow,
        StoreError,
    >)
        requires
            old(self).wf(),
        ensures
            final(self).wf(),
            final(self).polls@ == old(self).polls@,
            final(self).votes@ == old(self).votes@,
            match r {
                Ok(row) => {
                    &&& old(self).has_poll(poll_id)
                    &&& old(self).candidates@.len() < i32::MAX as int
                    &&& row.id == old(self).candidates@.len() + 1
                    &&& row.poll_id == poll_id
                    &&& row.url == url
                    &&& final(self).candidates@ == old(self).candidates@.push(row)
                },
                Err(e) => {
                    &&& final(self).candidates@ == old(self).candidates@
                    &&& (e == StoreError::ConstraintViolation <==> !old(self).has_poll(poll_id))
                    &&& (e == StoreError::StorageUnavailable <==> old(self).has_poll(poll_id)
                        && old(self).candidates@.len() == i32::MAX as int)
                },
            },
    {
        if !(poll_id >= 1 && poll_id as usize <= self.polls.len()) {
            return Err(StoreError::ConstraintViolation);
        }
        let len = self.candidates.len();
        if len >= i32::MAX as usize {
            return Err(StoreError::StorageUnavailable);
        }
        let id: Id = (len + 1) as i32;
        let row = CandidateRow { id, poll_id, url };
        let returned = row.clone();
        self.candidates.push(row);
        Ok(returned)
    }

    /// Insert a vote row referencing `candidate_id`; rejects a missing
    /// candidate (foreign-key enforcement).
    pub fn insert_vote(&mut self, candidate_id: Id, source_ip: String, creation_time: String) -> (r:
        Result<VoteRow, StoreError>)
        requires
            old(self).wf(),
        ensures
            final(self).wf(),
            final(self).polls@ == old(self).polls@,
            final(self).candidates@ == old(self).candidates@,
            match r {
                Ok(row) => {
                    &&& old(self).has_candidate(candidate_id)
                    &&& old(self).votes@.len() < i32::MAX as int
                    &&& row.id == old(self).votes@.len() + 1
                    &&& row.candidate_id == candidate_id
                    &&& row.source_ip == source_ip
                    &&& row.creation_time == creation_time
                    &&& final(self).votes@ == old(self).votes@.push(row)
                },
                Err(e) => {
                    &&& final(self).votes@ == old(self).votes@
                    &&& (e == StoreError::ConstraintViolation <==> !old(self).has_candidate(
                        candidate_id,
                    ))
                    &&& (e == StoreError::StorageUnavailable <==> old(self).has_candidate(
                        candidate_id,
                    ) && old(self).votes@.len() == i32::MAX as int)
                },
            },
    {
        if !(candidate_id >= 1 && candidate_id as usize <= self.candidates.len()) {
            return Err(StoreError::ConstraintViolation);
        }
        let len = self.votes.len();
        if len >= i32::MAX as usize {
            return Err(StoreError::StorageUnavailable);
        }
        let id: Id = (len + 1) as i32;
        let row = VoteRow { id, candidate_id, source_ip, creation_time };
        let returned = row.clone();
        self.votes.push(row);
        Ok(returned)
    }

    /// Look a poll up by id. Absence is a `None`, never a fault.
    pub fn find_poll(&self, id: Id) -> (r: Option<&PollRow>)
        requires
            self.wf(),
        ensures
            r is Some <==> self.has_poll(id),
            r matches Some(row) ==> *row == self.polls@[id - 1],
    {
        if id >= 1 && id as usize <= self.polls.len() {
            Some(&self.polls[(id - 1) as usize])
        } else {
            None
        }
    }

    /// Look a candidate up by id. Absence is a `None`, never a fault.
    pub fn find_candidate(&self, id: Id) -> (r: Option<&CandidateRow>)
        requires
            self.wf(),
        ensures
            r is Some <==> self.has_candidate(id),
            r matches Some(row) ==> *row == self.candidates@[id - 1],
    {
        if id >= 1 && id as usize <= self.candidates.len() {
            Some(&self.candidates[(id - 1) as usize])
        } else {
            None
        }
    }
}

} // verus!
