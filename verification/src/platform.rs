use vstd::prelude::*;

use crate::errors::ResearchError;
use crate::events::PauseToggledEvent;
use crate::records::paper_fields_wf;
use crate::records::AccountId;
use crate::records::Funding;
use crate::records::PaperView;
use crate::records::ProgramState;
use crate::records::ResearchPaper;
use crate::records::Vote;
use crate::records::INITIAL_FEE_RATE_BPS;
use crate::records::INITIAL_MAX_FUNDING_PERIOD;
use crate::records::INITIAL_MIN_FUNDING_GOAL;
use crate::records::MAX_FEE_RATE_BPS;
use crate::status::PaperStatus;

verus! {

/// The engine's whole state: the configuration registry, the paper
/// registry, the append-only funding and vote ledgers, and the escrow
/// balances the engine controls.
///
/// A paper's id is its index in `papers`, and `escrow_balances[id]` is the
/// token balance held under that paper's programmatic authority. The
/// external account store, clock, and transfer primitive stay outside:
/// operations take the current time (and, for voting, the voter's token
/// balance) as plain arguments, and a returned event describes the
/// transfers the caller must apply.
pub struct ResearchPlatform {
    pub state: ProgramState,
    pub papers: Vec<ResearchPaper>,
    pub fundings: Vec<Funding>,
    pub votes: Vec<Vote>,
    pub escrow_balances: Vec<u64>,
}

/// Mathematical image of the whole engine state.
#[verifier::ext_equal]
pub ghost struct PlatformView {
    pub state: ProgramState,
    pub papers: Seq<PaperView>,
    pub fundings: Seq<Funding>,
    pub votes: Seq<Vote>,
    pub escrow_balances: Seq<u64>,
}

impl View for ResearchPlatform {
    type V = PlatformView;

    open spec fn view(&self) -> PlatformView {
        PlatformView {
            state: self.state,
            papers: self.papers@.map_values(|p: ResearchPaper| p@),
            fundings: self.fundings@,
            votes: self.votes@,
            escrow_balances: self.escrow_balances@,
        }
    }
}

/// Some funding record carries this (paper, funder) pair.
pub open spec fn has_funding(fundings: Seq<Funding>, paper_id: u64, funder: AccountId) -> bool {
    exists|k: int|
        0 <= k < fundings.len() && (#[trigger] fundings[k]).paper_id == paper_id
            && fundings[k].funder == funder
}

/// Some vote record carries this (paper, voter) pair.
pub open spec fn has_vote(votes: Seq<Vote>, paper_id: u64, voter: AccountId) -> bool {
    exists|k: int|
        0 <= k < votes.len() && (#[trigger] votes[k]).paper_id == paper_id
            && votes[k].voter == voter
}

impl PlatformView {
    /// Per-paper well-formedness: the id is the index, the fields respect
    /// their bounds, the escrow balance equals the net raised until the
    /// claim empties it, and a funded status certifies the goal was met.
    pub open spec fn paper_entry_ok(self, i: int) -> bool {
        let p = self.papers[i];
        &&& p.id == i
        &&& paper_fields_wf(p)
        &&& (if p.status == PaperStatus::Completed {
            self.escrow_balances[i] == 0
        } else {
            self.escrow_balances[i] == p.funding_current
        })
        &&& ((p.status == PaperStatus::FullyFunded || p.status == PaperStatus::Completed)
            ==> p.funding_current >= p.funding_goal)
    }

    /// Funding records `j` and `k` are for different (paper, funder) pairs.
    pub open spec fn funding_keys_distinct(self, j: int, k: int) -> bool {
        self.fundings[j].paper_id != self.fundings[k].paper_id
            || self.fundings[j].funder != self.fundings[k].funder
    }

    /// Vote records `j` and `k` are for different (paper, voter) pairs.
    pub open spec fn vote_keys_distinct(self, j: int, k: int) -> bool {
        self.votes[j].paper_id != self.votes[k].paper_id
            || self.votes[j].voter != self.votes[k].voter
    }

    /// The engine's invariant. Every operation preserves it.
    pub open spec fn wf(self) -> bool {
        &&& self.state.platform_fee_rate <= MAX_FEE_RATE_BPS
        &&& self.state.paper_count == self.papers.len()
        &&& self.escrow_balances.len() == self.papers.len()
        &&& forall|i: int| 0 <= i < self.papers.len() ==> #[trigger] self.paper_entry_ok(i)
        &&& forall|k: int|
            0 <= k < self.fundings.len() ==> (#[trigger] self.fundings[k]).paper_id
                < self.papers.len()
        &&& forall|k: int|
            0 <= k < self.votes.len() ==> (#[trigger] self.votes[k]).paper_id < self.papers.len()
        &&& forall|j: int, k: int|
            0 <= j < self.fundings.len() && 0 <= k < self.fundings.len() && j != k
                ==> #[trigger] self.funding_keys_distinct(j, k)
        &&& forall|j: int, k: int|
            0 <= j < self.votes.len() && 0 <= k < self.votes.len() && j != k
                ==> #[trigger] self.vote_keys_distinct(j, k)
    }
}

/// The state `initialize` installs: given admin, counters at zero, the
/// initial fee rate, minimum goal and maximum period, and the pause
/// switch off.
pub open spec fn initial_platform(admin: AccountId) -> PlatformView {
    PlatformView {
        state: ProgramState {
            admin,
            paper_count: 0,
            total_funding: 0,
            platform_fee_rate: INITIAL_FEE_RATE_BPS,
            min_funding_goal: INITIAL_MIN_FUNDING_GOAL,
            max_funding_period: INITIAL_MAX_FUNDING_PERIOD,
            is_paused: false,
        },
        papers: Seq::empty(),
        fundings: Seq::empty(),
        votes: Seq::empty(),
        escrow_balances: Seq::empty(),
    }
}

/// Why `toggle_pause` rejects, or `None` if it succeeds.
pub open spec fn toggle_pause_check(pre: PlatformView, caller: AccountId) -> Option<
    ResearchError,
> {
    if caller != pre.state.admin {
        Some(ResearchError::Unauthorized)
    } else {
        None
    }
}

/// The state after a successful `toggle_pause`: the flag flips.
pub open spec fn toggle_pause_apply(pre: PlatformView) -> PlatformView {
    PlatformView { state: ProgramState { is_paused: !pre.state.is_paused, ..pre.state }, ..pre }
}

/// Why `update_settings` rejects, or `None` if it succeeds.
pub open spec fn update_settings_check(
    pre: PlatformView,
    caller: AccountId,
    platform_fee_rate: Option<u16>,
    min_funding_goal: Option<u64>,
) -> Option<ResearchError> {
    if caller != pre.state.admin {
        Some(ResearchError::Unauthorized)
    } else {
        match platform_fee_rate {
            Some(rate) => if rate > MAX_FEE_RATE_BPS {
                Some(ResearchError::FeeTooHigh)
            } else {
                None
            },
            None => None,
        }
    }
}

/// The state after a successful `update_settings`: each supplied field is
/// installed, each omitted field keeps its value.
pub open spec fn update_settings_apply(
    pre: PlatformView,
    platform_fee_rate: Option<u16>,
    min_funding_goal: Option<u64>,
) -> PlatformView {
    let rate = match platform_fee_rate {
        Some(rate) => rate,
        None => pre.state.platform_fee_rate,
    };
    let goal = match min_funding_goal {
        Some(goal) => goal,
        None => pre.state.min_funding_goal,
    };
    PlatformView {
        state: ProgramState { platform_fee_rate: rate, min_funding_goal: goal, ..pre.state },
        ..pre
    }
}

/// The invariant only reads the records and the fee rate and counter of
/// the configuration: a change confined to the other configuration fields
/// preserves it.
pub proof fn lemma_wf_same_records(pre: PlatformView, post: PlatformView)
    requires
        pre.wf(),
        post.papers == pre.papers,
        post.fundings == pre.fundings,
        post.votes == pre.votes,
        post.escrow_balances == pre.escrow_balances,
        post.state.platform_fee_rate <= MAX_FEE_RATE_BPS,
        post.state.paper_count == pre.state.paper_count,
    ensures
        post.wf(),
{
    assert forall|i: int| 0 <= i < post.papers.len() implies #[trigger] post.paper_entry_ok(i) by {
        assert(pre.paper_entry_ok(i));
    }
    assert forall|j: int, k: int|
        0 <= j < post.fundings.len() && 0 <= k < post.fundings.len() && j != k implies #[trigger] post.funding_keys_distinct(
        j,
        k,
    ) by {
        assert(pre.funding_keys_distinct(j, k));
    }
    assert forall|j: int, k: int|
        0 <= j < post.votes.len() && 0 <= k < post.votes.len() && j != k implies #[trigger] post.vote_keys_distinct(
        j,
        k,
    ) by {
        assert(pre.vote_keys_distinct(j, k));
    }
}

/// After an operation that touches at most paper `i` and its escrow
/// balance — an update in place or an append at the end — the per-paper
/// invariant holds everywhere once it holds at `i`.
pub(crate) proof fn lemma_paper_entries_ok(pre: PlatformView, post: PlatformView, i: int)
    requires
        pre.wf(),
        0 <= i < post.papers.len(),
        post.escrow_balances.len() == post.papers.len(),
        forall|j: int|
            0 <= j < post.papers.len() && j != i ==> 0 <= j < pre.papers.len() && (
            #[trigger] post.papers[j]) == pre.papers[j] && post.escrow_balances[j]
                == pre.escrow_balances[j],
        post.paper_entry_ok(i),
    ensures
        forall|j: int| 0 <= j < post.papers.len() ==> #[trigger] post.paper_entry_ok(j),
{
    assert forall|j: int| 0 <= j < post.papers.len() implies #[trigger] post.paper_entry_ok(j) by {
        if j != i {
            assert(post.papers[j] == pre.papers[j] && post.escrow_balances[j]
                == pre.escrow_balances[j]);
            assert(pre.paper_entry_ok(j));
        }
    }
}

/// The record ledgers' invariants carry over when an operation appends
/// no record and removes no paper.
pub(crate) proof fn lemma_ledgers_ok_unchanged(pre: PlatformView, post: PlatformView)
    requires
        pre.wf(),
        post.fundings == pre.fundings,
        post.votes == pre.votes,
        post.papers.len() >= pre.papers.len(),
    ensures
        forall|k: int|
            0 <= k < post.fundings.len() ==> (#[trigger] post.fundings[k]).paper_id
                < post.papers.len(),
        forall|k: int|
            0 <= k < post.votes.len() ==> (#[trigger] post.votes[k]).paper_id
                < post.papers.len(),
        forall|j: int, k: int|
            0 <= j < post.fundings.len() && 0 <= k < post.fundings.len() && j != k
                ==> #[trigger] post.funding_keys_distinct(j, k),
        forall|j: int, k: int|
            0 <= j < post.votes.len() && 0 <= k < post.votes.len() && j != k
                ==> #[trigger] post.vote_keys_distinct(j, k),
{
    assert forall|j: int, k: int|
        0 <= j < post.fundings.len() && 0 <= k < post.fundings.len() && j
            != k implies #[trigger] post.funding_keys_distinct(j, k) by {
        assert(pre.funding_keys_distinct(j, k));
    }
    assert forall|j: int, k: int|
        0 <= j < post.votes.len() && 0 <= k < post.votes.len() && j
            != k implies #[trigger] post.vote_keys_distinct(j, k) by {
        assert(pre.vote_keys_distinct(j, k));
    }
}

/// Appending a funding record for a (paper, funder) pair not yet in the
/// ledger keeps the ledgers' invariants; the vote ledger is untouched.
pub(crate) proof fn lemma_ledgers_ok_after_funding(
    pre: PlatformView,
    post: PlatformView,
    record: Funding,
)
    requires
        pre.wf(),
        post.fundings == pre.fundings.push(record),
        post.votes == pre.votes,
        post.papers.len() >= pre.papers.len(),
        record.paper_id < post.papers.len(),
        !has_funding(pre.fundings, record.paper_id, record.funder),
    ensures
        forall|k: int|
            0 <= k < post.fundings.len() ==> (#[trigger] post.fundings[k]).paper_id
                < post.papers.len(),
        forall|k: int|
            0 <= k < post.votes.len() ==> (#[trigger] post.votes[k]).paper_id
                < post.papers.len(),
        forall|j: int, k: int|
            0 <= j < post.fundings.len() && 0 <= k < post.fundings.len() && j != k
                ==> #[trigger] post.funding_keys_distinct(j, k),
        forall|j: int, k: int|
            0 <= j < post.votes.len() && 0 <= k < post.votes.len() && j != k
                ==> #[trigger] post.vote_keys_distinct(j, k),
{
    let m = pre.fundings.len() as int;
    assert forall|j: int, k: int|
        0 <= j < post.fundings.len() && 0 <= k < post.fundings.len() && j
            != k implies #[trigger] post.funding_keys_distinct(j, k) by {
        if j < m && k < m {
            assert(pre.funding_keys_distinct(j, k));
        } else if j < m && k == m {
            if post.fundings[j].paper_id == record.paper_id && post.fundings[j].funder
                == record.funder {
                assert(pre.fundings[j].paper_id == record.paper_id && pre.fundings[j].funder
                    == record.funder);
                assert(has_funding(pre.fundings, record.paper_id, record.funder));
            }
        } else if k < m && j == m {
            if post.fundings[k].paper_id == record.paper_id && post.fundings[k].funder
                == record.funder {
                assert(pre.fundings[k].paper_id == record.paper_id && pre.fundings[k].funder
                    == record.funder);
                assert(has_funding(pre.fundings, record.paper_id, record.funder));
            }
        }
    }
    assert forall|j: int, k: int|
        0 <= j < post.votes.len() && 0 <= k < post.votes.len() && j
            != k implies #[trigger] post.vote_keys_distinct(j, k) by {
        assert(pre.vote_keys_distinct(j, k));
    }
}

/// Appending a vote record for a (paper, voter) pair not yet in the
/// ledger keeps the ledgers' invariants; the funding ledger is untouched.
pub(crate) proof fn lemma_ledgers_ok_after_vote(
    pre: PlatformView,
    post: PlatformView,
    record: Vote,
)
    requires
        pre.wf(),
        post.votes == pre.votes.push(record),
        post.fundings == pre.fundings,
        post.papers.len() >= pre.papers.len(),
        record.paper_id < post.papers.len(),
        !has_vote(pre.votes, record.paper_id, record.voter),
    ensures
        forall|k: int|
            0 <= k < post.fundings.len() ==> (#[trigger] post.fundings[k]).paper_id
                < post.papers.len(),
        forall|k: int|
            0 <= k < post.votes.len() ==> (#[trigger] post.votes[k]).paper_id
                < post.papers.len(),
        forall|j: int, k: int|
            0 <= j < post.fundings.len() && 0 <= k < post.fundings.len() && j != k
                ==> #[trigger] post.funding_keys_distinct(j, k),
        forall|j: int, k: int|
            0 <= j < post.votes.len() && 0 <= k < post.votes.len() && j != k
                ==> #[trigger] post.vote_keys_distinct(j, k),
{
    let m = pre.votes.len() as int;
    assert forall|j: int, k: int|
        0 <= j < post.votes.len() && 0 <= k < post.votes.len() && j
            != k implies #[trigger] post.vote_keys_distinct(j, k) by {
        if j < m && k < m {
            assert(pre.vote_keys_distinct(j, k));
        } else if j < m && k == m {
            if post.votes[j].paper_id == record.paper_id && post.votes[j].voter == record.voter {
                assert(pre.votes[j].paper_id == record.paper_id && pre.votes[j].voter
                    == record.voter);
                assert(has_vote(pre.votes, record.paper_id, record.voter));
            }
        } else if k < m && j == m {
            if post.votes[k].paper_id == record.paper_id && post.votes[k].voter == record.voter {
                assert(pre.votes[k].paper_id == record.paper_id && pre.votes[k].voter
                    == record.voter);
                assert(has_vote(pre.votes, record.paper_id, record.voter));
            }
        }
    }
    assert forall|j: int, k: int|
        0 <= j < post.fundings.len() && 0 <= k < post.fundings.len() && j
            != k implies #[trigger] post.funding_keys_distinct(j, k) by {
        assert(pre.funding_keys_distinct(j, k));
    }
}

impl ResearchPlatform {
    /// The invariant, spoken of the executable value.
    pub open spec fn wf(&self) -> bool {
        self@.wf()
    }

    /// Creates the configuration registry singleton with its initial
    /// settings and no records. The external store's create-once semantics
    /// keep this from running twice; within the engine it is a constructor.
    pub fn initialize(admin: AccountId) -> (platform: ResearchPlatform)
        ensures
            platform@ == initial_platform(admin),
            platform.wf(),
    {
        let platform = ResearchPlatform {
            state: ProgramState {
                admin,
                paper_count: 0,
                total_funding: 0,
                platform_fee_rate: INITIAL_FEE_RATE_BPS,
                min_funding_goal: INITIAL_MIN_FUNDING_GOAL,
                max_funding_period: INITIAL_MAX_FUNDING_PERIOD,
                is_paused: false,
            },
            papers: Vec::new(),
            fundings: Vec::new(),
            votes: Vec::new(),
            escrow_balances: Vec::new(),
        };
        proof {
            assert(platform@ =~~= initial_platform(admin));
        }
        platform
    }

    /// Some funding record already carries this (paper, funder) pair.
    pub fn has_funding_record(&self, paper_id: u64, funder: AccountId) -> (found: bool)
        ensures
            found == has_funding(self@.fundings, paper_id, funder),
    {
        let mut k: usize = 0;
        while k < self.fundings.len()
            invariant
                k <= self.fundings@.len(),
                forall|j: int|
                    0 <= j < k ==> !((#[trigger] self.fundings@[j]).paper_id == paper_id
                        && self.fundings@[j].funder == funder),
            decreases self.fundings@.len() - k,
        {
            let record = &self.fundings[k];
            if record.paper_id == paper_id && record.funder == funder {
                return true;
            }
            k = k + 1;
        }
        false
    }

    /// Some vote record already carries this (paper, voter) pair.
    pub fn has_vote_record(&self, paper_id: u64, voter: AccountId) -> (found: bool)
        ensures
            found == has_vote(self@.votes, paper_id, voter),
    {
        let mut k: usize = 0;
        while k < self.votes.len()
            invariant
                k <= self.votes@.len(),
                forall|j: int|
                    0 <= j < k ==> !((#[trigger] self.votes@[j]).paper_id == paper_id
                        && self.votes@[j].voter == voter),
            decreases self.votes@.len() - k,
        {
            let record = &self.votes[k];
            if record.paper_id == paper_id && record.voter == voter {
                return true;
            }
            k = k + 1;
        }
        false
    }

    /// Flips the global kill switch. Admin only; works while paused, so
    /// the switch can always be turned back off.
    pub fn toggle_pause(&mut self, caller: AccountId, now: i64) -> (res: Result<
        PauseToggledEvent,
        ResearchError,
    >)
        requires
            old(self).wf(),
        ensures
            final(self).wf(),
            (match toggle_pause_check(old(self)@, caller) {
                Some(e) => res == Err::<PauseToggledEvent, ResearchError>(e) && final(self)@
                    == old(self)@,
                None => res == Ok::<PauseToggledEvent, ResearchError>(
                    (PauseToggledEvent { is_paused: !old(self)@.state.is_paused, timestamp: now }),
                ) && final(self)@ == toggle_pause_apply(old(self)@),
            }),
            final(self)@.papers == old(self)@.papers,
            final(self)@.state.total_funding == old(self)@.state.total_funding,
    {
        if self.state.admin != caller {
            return Err(ResearchError::Unauthorized);
        }
        self.state.is_paused = !self.state.is_paused;
        proof {
            assert(self@ =~~= toggle_pause_apply(old(self)@));
            lemma_wf_same_records(old(self)@, self@);
        }
        Ok(PauseToggledEvent { is_paused: self.state.is_paused, timestamp: now })
    }

    /// Updates the platform settings. Admin only; each parameter is
    /// independently optional and only supplied fields change. A supplied
    /// fee rate above `MAX_FEE_RATE_BPS` rejects the whole call.
    pub fn update_settings(
        &mut self,
        caller: AccountId,
        platform_fee_rate: Option<u16>,
        min_funding_goal: Option<u64>,
    ) -> (res: Result<(), ResearchError>)
        requires
            old(self).wf(),
        ensures
            final(self).wf(),
            (match update_settings_check(
                old(self)@,
                caller,
                platform_fee_rate,
                min_funding_goal,
            ) {
                Some(e) => res == Err::<(), ResearchError>(e) && final(self)@ == old(self)@,
                None => res == Ok::<(), ResearchError>(()) && final(self)@
                    == update_settings_apply(
                    old(self)@,
                    platform_fee_rate,
                    min_funding_goal,
                ),
            }),
            final(self)@.papers == old(self)@.papers,
            final(self)@.state.total_funding == old(self)@.state.total_funding,
    {
        if self.state.admin != caller {
            return Err(ResearchError::Unauthorized);
        }
        if let Some(rate) = platform_fee_rate {
            if rate > MAX_FEE_RATE_BPS {
                return Err(ResearchError::FeeTooHigh);
            }
            self.state.platform_fee_rate = rate;
        }
        if let Some(goal) = min_funding_goal {
            self.state.min_funding_goal = goal;
        }
        proof {
            assert(self@ =~~= update_settings_apply(
                old(self)@,
                platform_fee_rate,
                min_funding_goal,
            ));
            lemma_wf_same_records(old(self)@, self@);
        }
        Ok(())
    }
}

} // verus!
