//! The tally engine: a candidate's vote count is derived, at read time, from
//! the full vote table — there is no stored counter to keep in sync.

use vstd::prelude::*;

use crate::store::{Store, VoteRow};
use crate::types::Id;

verus! {

/// The number of votes in `votes` that reference `candidate_id`: the
/// cardinality of `{ v in votes : v.candidate_id == candidate_id }`.
pub open spec fn vote_count(votes: Seq<VoteRow>, candidate_id: Id) -> nat
    decreases votes.len(),
{
    if votes.len() == 0 {
        0
    } else {
        vote_count(votes.drop_last(), candidate_id) + if votes.last().candidate_id == candidate_id {
            1nat
        } else {
            0nat
        }
    }
}

/// Appending one vote raises the tally of the candidate it references by
/// exactly one and leaves every other tally unchanged.
pub proof fn lemma_vote_count_push(votes: Seq<VoteRow>, v: VoteRow, candidate_id: Id)
    ensures
        vote_count(votes.push(v), candidate_id) == vote_count(votes, candidate_id) + if v.candidate_id
            == candidate_id {
            1nat
        } else {
            0nat
        },
{
    assert(votes.push(v).drop_last() =~= votes);
    assert(votes.push(v).last() == v);
}

/// A tally never exceeds the number of recorded votes.
pub proof fn lemma_vote_count_le_len(votes: Seq<VoteRow>, candidate_id: Id)
    ensures
        vote_count(votes, candidate_id) <= votes.len(),
    decreases votes.len(),
{
    if votes.len() > 0 {
        lemma_vote_count_le_len(votes.drop_last(), candidate_id);
    }
}

/// Tallies add up: the tally over two vote batches laid end to end is the sum
/// of the two tallies. With every successful cast appending one row, a batch
/// of N successful casts for one candidate raises its tally by exactly N,
/// however the casts were interleaved with votes for other candidates.
pub proof fn lemma_vote_count_concat(a: Seq<VoteRow>, b: Seq<VoteRow>, candidate_id: Id)
    ensures
        vote_count(a + b, candidate_id) == vote_count(a, candidate_id) + vote_count(b, candidate_id),
    decreases b.len(),
{
    if b.len() == 0 {
        assert(a + b =~= a);
    } else {
        assert((a + b).drop_last() =~= a + b.drop_last());
        assert((a + b).last() == b.last());
        lemma_vote_count_concat(a, b.drop_last(), candidate_id);
    }
}

/// A candidate that no recorded vote references has a tally of zero.
pub proof fn lemma_vote_count_zero(votes: Seq<VoteRow>, candidate_id: Id)
    requires
        forall|i: int| 0 <= i < votes.len() ==> (#[trigger] votes[i]).candidate_id != candidate_id,
    ensures
        vote_count(votes, candidate_id) == 0,
    decreases votes.len(),
{
    if votes.len() > 0 {
        assert(votes.last() == votes[votes.len() - 1]);
        lemma_vote_count_zero(votes.drop_last(), candidate_id);
    }
}

/// When every vote in the batch references the candidate, the tally over the
/// batch is the batch's full length.
pub proof fn lemma_vote_count_all(votes: Seq<VoteRow>, candidate_id: Id)
    requires
        forall|i: int| 0 <= i < votes.len() ==> (#[trigger] votes[i]).candidate_id == candidate_id,
    ensures
        vote_count(votes, candidate_id) == votes.len(),
    decreases votes.len(),
{
    if votes.len() > 0 {
        assert(votes.last() == votes[votes.len() - 1]);
        lemma_vote_count_all(votes.drop_last(), candidate_id);
    }
}

/// Casting twice with identical arguments is not idempotent: two appended
/// votes for the same candidate raise its tally by exactly two.
pub proof fn lemma_vote_count_twice(votes: Seq<VoteRow>, v1: VoteRow, v2: VoteRow, candidate_id: Id)
    requires
        v1.candidate_id == candidate_id,
        v2.candidate_id == candidate_id,
    ensures
        vote_count(votes.push(v1).push(v2), candidate_id) == vote_count(votes, candidate_id) + 2,
{
    lemma_vote_count_push(votes, v1, candidate_id);
    lemma_vote_count_push(votes.push(v1), v2, candidate_id);
}

impl Store {
    /// Count the votes that reference `candidate_id`, by scanning the vote
    /// table: the `countRelated` read the tally engine issues.
    pub fn count_votes_for(&self, candidate_id: Id) -> (n: usize)
        requires
            self.wf(),
        ensures
            n == vote_count(self.votes@, candidate_id),
    {
        let mut n: usize = 0;
        let mut i: usize = 0;
        while i < self.votes.len()
            invariant
                i <= self.votes@.len(),
                n <= i,
                n == vote_count(self.votes@.take(i as int), candidate_id),
            decreases self.votes@.len() - i,
        {
            proof {
                assert(self.votes@.take(i as int + 1).drop_last() =~= self.votes@.take(i as int));
                assert(self.votes@.take(i as int + 1).last() == self.votes@[i as int]);
            }
            if self.votes[i].candidate_id == candidate_id {
                n = n + 1;
            }
            i = i + 1;
        }
        proof {
            assert(self.votes@.take(self.votes@.len() as int) =~= self.votes@);
        }
        n
    }
}

} // verus!
