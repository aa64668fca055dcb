use vstd::prelude::*;

use crate::errors::ResearchError;
use crate::events::PaperVotedEvent;
use crate::platform::has_vote;
use crate::platform::lemma_ledgers_ok_after_vote;
use crate::platform::lemma_paper_entries_ok;
use crate::platform::PlatformView;
use crate::platform::ResearchPlatform;
use crate::records::AccountId;
use crate::records::PaperView;
use crate::records::Vote;
use crate::records::MAX_VOTE_WEIGHT;
use crate::records::VOTE_WEIGHT_DIVISOR;
use crate::status::PaperStatus;

verus! {

/// The weight of a vote cast with token balance `balance`: one weight
/// unit per `VOTE_WEIGHT_DIVISOR` of balance, capped at
/// `MAX_VOTE_WEIGHT`; a voter with no balance at all still votes with
/// weight one (a deliberate floor).
pub open spec fn vote_weight_of(balance: u64) -> u64 {
    if balance > 0 {
        if balance / VOTE_WEIGHT_DIVISOR < MAX_VOTE_WEIGHT {
            (balance / VOTE_WEIGHT_DIVISOR) as u64
        } else {
            MAX_VOTE_WEIGHT
        }
    } else {
        1
    }
}

/// Computes a vote's weight from the voter's token balance.
pub fn vote_weight(balance: u64) -> (weight: u64)
    ensures
        weight == vote_weight_of(balance),
        weight <= MAX_VOTE_WEIGHT,
        balance == 0 ==> weight == 1,
        balance >= MAX_VOTE_WEIGHT * VOTE_WEIGHT_DIVISOR ==> weight == MAX_VOTE_WEIGHT,
{
    if balance > 0 {
        let units = balance / VOTE_WEIGHT_DIVISOR;
        if units < MAX_VOTE_WEIGHT {
            units
        } else {
            MAX_VOTE_WEIGHT
        }
    } else {
        1
    }
}

/// Why `vote_paper` rejects, or `None` if it succeeds: the pause flag,
/// publication, the status (exactly `Published`), a duplicate vote from
/// the same voter, and the checked addition of the weight to the tally
/// the vote falls on.
pub open spec fn vote_check(
    pre: PlatformView,
    voter: AccountId,
    paper_id: int,
    is_upvote: bool,
    voter_balance: u64,
) -> Option<ResearchError> {
    let p = pre.papers[paper_id];
    let weight = vote_weight_of(voter_balance);
    if pre.state.is_paused {
        Some(ResearchError::ProgramPaused)
    } else if !p.is_published {
        Some(ResearchError::PaperNotPublished)
    } else if p.status != PaperStatus::Published {
        Some(ResearchError::InvalidPaperStatus)
    } else if has_vote(pre.votes, paper_id as u64, voter) {
        Some(ResearchError::DuplicateRecord)
    } else if (if is_upvote {
        p.upvotes
    } else {
        p.downvotes
    }) + weight > u64::MAX {
        Some(ResearchError::ArithmeticOverflow)
    } else {
        None
    }
}

/// The state after a successful `vote_paper`: the vote record is
/// appended, the matching weighted tally grows by the vote's weight, and
/// the paper's update timestamp advances.
pub open spec fn vote_apply(
    pre: PlatformView,
    voter: AccountId,
    paper_id: int,
    is_upvote: bool,
    voter_balance: u64,
    now: i64,
) -> PlatformView {
    let p = pre.papers[paper_id];
    let weight = vote_weight_of(voter_balance);
    PlatformView {
        papers: pre.papers.update(
            paper_id,
            PaperView {
                upvotes: if is_upvote {
                    (p.upvotes + weight) as u64
                } else {
                    p.upvotes
                },
                downvotes: if is_upvote {
                    p.downvotes
                } else {
                    (p.downvotes + weight) as u64
                },
                updated_at: now,
                ..p
            },
        ),
        votes: pre.votes.push(
            Vote { paper_id: paper_id as u64, voter, is_upvote, weight, timestamp: now },
        ),
        ..pre
    }
}

impl ResearchPlatform {
    /// Records a weighted vote on a published paper.
    ///
    /// `voter_balance` is the voter's token balance as read from the
    /// external ledger; the vote's weight derives from it alone. Only a
    /// paper whose status is exactly `Published` accepts votes: once
    /// funding closes the paper, its tallies are frozen. Exactly one vote
    /// record per (paper, voter) is ever created: a second vote by the
    /// same voter is rejected and changes nothing.
    pub fn vote_paper(
        &mut self,
        voter: AccountId,
        paper_id: u64,
        is_upvote: bool,
        voter_balance: u64,
        now: i64,
    ) -> (res: Result<PaperVotedEvent, ResearchError>)
        requires
            old(self).wf(),
            paper_id < old(self)@.papers.len(),
        ensures
            final(self).wf(),
            (match vote_check(old(self)@, voter, paper_id as int, is_upvote, voter_balance) {
                Some(e) => res == Err::<PaperVotedEvent, ResearchError>(e) && final(self)@
                    == old(self)@,
                None => res == Ok::<PaperVotedEvent, ResearchError>(
                    (PaperVotedEvent {
                        paper_id,
                        voter,
                        is_upvote,
                        weight: vote_weight_of(voter_balance),
                        timestamp: now,
                    }),
                ) && final(self)@ == vote_apply(
                    old(self)@,
                    voter,
                    paper_id as int,
                    is_upvote,
                    voter_balance,
                    now,
                ),
            }),
            final(self)@.papers[paper_id as int].status == old(
                self,
            )@.papers[paper_id as int].status,
            old(self)@.state.total_funding <= final(self)@.state.total_funding,
            forall|i: int|
                0 <= i < old(self)@.papers.len() ==> old(self)@.papers[i].funding_current <= (
                #[trigger] final(self)@.papers[i]).funding_current,
    {
        let paper_count: usize = self.papers.len();
        let idx = paper_id as usize;
        proof {
            assert(idx < paper_count);
        }
        if self.state.is_paused {
            return Err(ResearchError::ProgramPaused);
        }
        if !self.papers[idx].is_published {
            return Err(ResearchError::PaperNotPublished);
        }
        if self.papers[idx].status != PaperStatus::Published {
            return Err(ResearchError::InvalidPaperStatus);
        }
        if self.has_vote_record(paper_id, voter) {
            return Err(ResearchError::DuplicateRecord);
        }
        let weight = vote_weight(voter_balance);
        if is_upvote {
            if weight > u64::MAX - self.papers[idx].upvotes {
                return Err(ResearchError::ArithmeticOverflow);
            }
        } else {
            if weight > u64::MAX - self.papers[idx].downvotes {
                return Err(ResearchError::ArithmeticOverflow);
            }
        }
        {
            let paper = &mut self.papers[idx];
            if is_upvote {
                paper.upvotes = paper.upvotes + weight;
            } else {
                paper.downvotes = paper.downvotes + weight;
            }
            paper.updated_at = now;
        }
        self.votes.push(Vote { paper_id, voter, is_upvote, weight, timestamp: now });
        let event = PaperVotedEvent { paper_id, voter, is_upvote, weight, timestamp: now };
        proof {
            let pre = old(self)@;
            let post = self@;
            assert(pre.paper_entry_ok(paper_id as int));
            assert(post =~~= vote_apply(pre, voter, paper_id as int, is_upvote, voter_balance, now));
            assert(post.paper_entry_ok(paper_id as int));
            lemma_paper_entries_ok(pre, post, paper_id as int);
            lemma_ledgers_ok_after_vote(
                pre,
                post,
                Vote { paper_id, voter, is_upvote, weight, timestamp: now },
            );
        }
        Ok(event)
    }
}

} // verus!
