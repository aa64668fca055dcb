use vstd::prelude::*;

use vstd::arithmetic::div_mod::lemma_div_is_ordered;
use vstd::arithmetic::div_mod::lemma_div_multiples_vanish;
use vstd::arithmetic::div_mod::lemma_div_pos_is_pos;
use vstd::arithmetic::mul::lemma_mul_inequality;
use vstd::arithmetic::mul::lemma_mul_nonnegative;

use crate::errors::ResearchError;
use crate::events::FundsClaimedEvent;
use crate::events::PaperFundedEvent;
use crate::platform::has_funding;
use crate::platform::lemma_ledgers_ok_after_funding;
use crate::platform::lemma_ledgers_ok_unchanged;
use crate::platform::lemma_paper_entries_ok;
use crate::platform::PlatformView;
use crate::platform::ResearchPlatform;
use crate::records::AccountId;
use crate::records::Funding;
use crate::records::PaperView;
use crate::records::ProgramState;
use crate::records::FEE_DENOMINATOR;
use crate::records::MAX_FEE_RATE_BPS;
use crate::status::status_transition_allowed;
use crate::status::PaperStatus;

verus! {

/// The platform fee retained from `amount` at `rate` basis points:
/// `floor(amount * rate / 10000)`, computed exactly.
pub open spec fn fee_of(amount: u64, rate: u16) -> int {
    (amount as int) * (rate as int) / (FEE_DENOMINATOR as int)
}

/// The net part of `amount` credited to a paper's escrow.
pub open spec fn net_of(amount: u64, rate: u16) -> int {
    amount - fee_of(amount, rate)
}

/// The fee split is exact for every amount and every admissible rate:
/// fee and net are nonnegative and sum back to the amount.
pub proof fn lemma_fee_split(amount: u64, rate: u16)
    requires
        rate <= MAX_FEE_RATE_BPS,
    ensures
        0 <= fee_of(amount, rate) <= amount,
        0 <= net_of(amount, rate) <= amount,
        fee_of(amount, rate) + net_of(amount, rate) == amount,
{
    let a = amount as int;
    let r = rate as int;
    let d = FEE_DENOMINATOR as int;
    lemma_mul_nonnegative(a, r);
    lemma_div_pos_is_pos(a * r, d);
    lemma_mul_inequality(r, d, a);
    lemma_div_is_ordered(a * r, d * a, d);
    lemma_div_multiples_vanish(a, d);
}

/// Computes the platform fee on `amount` at `rate` basis points, exactly,
/// for every representable amount.
pub fn compute_fee(amount: u64, rate: u16) -> (fee: u64)
    requires
        rate <= MAX_FEE_RATE_BPS,
    ensures
        fee == fee_of(amount, rate),
        fee <= amount,
{
    proof {
        lemma_fee_split(amount, rate);
        lemma_mul_inequality(rate as int, MAX_FEE_RATE_BPS as int, amount as int);
        lemma_mul_inequality(amount as int, u64::MAX as int, MAX_FEE_RATE_BPS as int);
    }
    let wide: u128 = (amount as u128) * (rate as u128) / (FEE_DENOMINATOR as u128);
    wide as u64
}

/// Why `fund_paper` rejects, or `None` if it succeeds: the pause flag,
/// the amount, publication, the status (exactly `Published`), the
/// deadline, a duplicate contribution from the same funder, and finally
/// the checked additions of the net amount to the paper's and the
/// registry's totals.
pub open spec fn fund_check(
    pre: PlatformView,
    funder: AccountId,
    paper_id: int,
    amount: u64,
    now: i64,
) -> Option<ResearchError> {
    let p = pre.papers[paper_id];
    let net = net_of(amount, pre.state.platform_fee_rate);
    if pre.state.is_paused {
        Some(ResearchError::ProgramPaused)
    } else if amount == 0 {
        Some(ResearchError::InvalidAmount)
    } else if !p.is_published {
        Some(ResearchError::PaperNotPublished)
    } else if p.status != PaperStatus::Published {
        Some(ResearchError::InvalidPaperStatus)
    } else if now > p.funding_deadline {
        Some(ResearchError::FundingDeadlinePassed)
    } else if has_funding(pre.fundings, paper_id as u64, funder) {
        Some(ResearchError::DuplicateRecord)
    } else if p.funding_current + net > u64::MAX {
        Some(ResearchError::ArithmeticOverflow)
    } else if pre.state.total_funding + net > u64::MAX {
        Some(ResearchError::ArithmeticOverflow)
    } else {
        None
    }
}

/// The state after a successful `fund_paper`: the net amount is credited
/// to the paper's total, the registry's total, and the paper's escrow
/// balance; the contribution record is appended; and the paper moves to
/// `FullyFunded` exactly when its new total reaches its goal.
pub open spec fn fund_apply(
    pre: PlatformView,
    funder: AccountId,
    paper_id: int,
    amount: u64,
    now: i64,
) -> PlatformView {
    let p = pre.papers[paper_id];
    let fee = fee_of(amount, pre.state.platform_fee_rate) as u64;
    let net = net_of(amount, pre.state.platform_fee_rate) as u64;
    let new_current = (p.funding_current + net) as u64;
    PlatformView {
        state: ProgramState { total_funding: (pre.state.total_funding + net) as u64, ..pre.state },
        papers: pre.papers.update(
            paper_id,
            PaperView {
                funding_current: new_current,
                status: if new_current >= p.funding_goal {
                    PaperStatus::FullyFunded
                } else {
                    p.status
                },
                ..p
            },
        ),
        fundings: pre.fundings.push(
            Funding { paper_id: paper_id as u64, funder, amount: net, platform_fee: fee, timestamp: now },
        ),
        escrow_balances: pre.escrow_balances.update(
            paper_id,
            (pre.escrow_balances[paper_id] + net) as u64,
        ),
        ..pre
    }
}

/// Why `claim_funds` rejects, or `None` if it succeeds: the pause flag,
/// authorization (the author alone), the status (exactly `FullyFunded`),
/// and an empty escrow balance.
pub open spec fn claim_check(pre: PlatformView, caller: AccountId, paper_id: int) -> Option<
    ResearchError,
> {
    let p = pre.papers[paper_id];
    if pre.state.is_paused {
        Some(ResearchError::ProgramPaused)
    } else if p.author != caller {
        Some(ResearchError::Unauthorized)
    } else if p.status != PaperStatus::FullyFunded {
        Some(ResearchError::NotFullyFunded)
    } else if pre.escrow_balances[paper_id] == 0 {
        Some(ResearchError::NoFundsToClaim)
    } else {
        None
    }
}

/// The state after a successful `claim_funds`: the escrow balance is
/// disbursed to zero and the paper completes. The paper's `funding_current`
/// and the registry's `total_funding` are untouched.
pub open spec fn claim_apply(pre: PlatformView, paper_id: int, now: i64) -> PlatformView {
    let p = pre.papers[paper_id];
    PlatformView {
        papers: pre.papers.update(
            paper_id,
            PaperView { status: PaperStatus::Completed, updated_at: now, ..p },
        ),
        escrow_balances: pre.escrow_balances.update(paper_id, 0),
        ..pre
    }
}

impl ResearchPlatform {
    /// Funds a published paper.
    ///
    /// On success the fee is split off the amount, the net is credited to
    /// the paper's escrow and both funding totals, a contribution record
    /// for (paper, funder) is created, and the paper moves to
    /// `FullyFunded` exactly when the goal is reached. The caller applies
    /// the two transfers the event describes: `amount` (net) to the
    /// paper's escrow account and `platform_fee` to the platform's.
    pub fn fund_paper(&mut self, funder: AccountId, paper_id: u64, amount: u64, now: i64) -> (res:
        Result<PaperFundedEvent, ResearchError>)
        requires
            old(self).wf(),
            paper_id < old(self)@.papers.len(),
        ensures
            final(self).wf(),
            (match fund_check(old(self)@, funder, paper_id as int, amount, now) {
                Some(e) => res == Err::<PaperFundedEvent, ResearchError>(e) && final(self)@
                    == old(self)@,
                None => ({
                    let fee = fee_of(amount, old(self)@.state.platform_fee_rate) as u64;
                    let net = net_of(amount, old(self)@.state.platform_fee_rate) as u64;
                    &&& final(self)@ == fund_apply(old(self)@, funder, paper_id as int, amount, now)
                    &&& res == Ok::<PaperFundedEvent, ResearchError>(
                        (PaperFundedEvent {
                            paper_id,
                            funder,
                            amount: net,
                            platform_fee: fee,
                            total_funding: final(self)@.papers[paper_id as int].funding_current,
                            timestamp: now,
                        }),
                    )
                    &&& net + fee == amount
                }),
            }),
            res is Ok ==> final(self)@.papers[paper_id as int].status == old(
                self,
            )@.papers[paper_id as int].status || status_transition_allowed(
                old(self)@.papers[paper_id as int].status,
                final(self)@.papers[paper_id as int].status,
            ),
            old(self)@.state.total_funding <= final(self)@.state.total_funding,
            forall|i: int|
                0 <= i < old(self)@.papers.len() ==> old(self)@.papers[i].funding_current <= (
                #[trigger] final(self)@.papers[i]).funding_current,
    {
        let paper_count: usize = self.papers.len();
        let idx = paper_id as usize;
        proof {
            assert(idx < paper_count);
        }
        if self.state.is_paused {
            return Err(ResearchError::ProgramPaused);
        }
        if amount == 0 {
            return Err(ResearchError::InvalidAmount);
        }
        if !self.papers[idx].is_published {
            return Err(ResearchError::PaperNotPublished);
        }
        if self.papers[idx].status != PaperStatus::Published {
            return Err(ResearchError::InvalidPaperStatus);
        }
        if now > self.papers[idx].funding_deadline {
            return Err(ResearchError::FundingDeadlinePassed);
        }
        if self.has_funding_record(paper_id, funder) {
            return Err(ResearchError::DuplicateRecord);
        }
        let fee = compute_fee(amount, self.state.platform_fee_rate);
        let net = amount - fee;
        if net > u64::MAX - self.papers[idx].funding_current {
            return Err(ResearchError::ArithmeticOverflow);
        }
        if net > u64::MAX - self.state.total_funding {
            return Err(ResearchError::ArithmeticOverflow);
        }
        proof {
            assert(old(self)@.paper_entry_ok(paper_id as int));
        }
        let new_current = self.papers[idx].funding_current + net;
        let goal = self.papers[idx].funding_goal;
        {
            let paper = &mut self.papers[idx];
            paper.funding_current = new_current;
            if new_current >= goal {
                paper.status = PaperStatus::FullyFunded;
            }
        }
        self.fundings.push(
            Funding { paper_id, funder, amount: net, platform_fee: fee, timestamp: now },
        );
        {
            let escrow = &mut self.escrow_balances[idx];
            *escrow = new_current;
        }
        self.state.total_funding = self.state.total_funding + net;
        let event = PaperFundedEvent {
            paper_id,
            funder,
            amount: net,
            platform_fee: fee,
            total_funding: new_current,
            timestamp: now,
        };
        proof {
            let pre = old(self)@;
            let post = self@;
            assert(post =~~= fund_apply(pre, funder, paper_id as int, amount, now));
            assert(post.paper_entry_ok(paper_id as int));
            lemma_paper_entries_ok(pre, post, paper_id as int);
            lemma_ledgers_ok_after_funding(
                pre,
                post,
                Funding { paper_id, funder, amount: net, platform_fee: fee, timestamp: now },
            );
        }
        Ok(event)
    }

    /// Disburses a fully funded paper's entire escrow balance to its
    /// author and completes the paper. Author only; one-shot: the status
    /// leaves `FullyFunded`, so a second claim is a status conflict. The
    /// caller applies the transfer the event describes, exercised by the
    /// escrow's own programmatic authority.
    pub fn claim_funds(&mut self, caller: AccountId, paper_id: u64, now: i64) -> (res: Result<
        FundsClaimedEvent,
        ResearchError,
    >)
        requires
            old(self).wf(),
            paper_id < old(self)@.papers.len(),
        ensures
            final(self).wf(),
            (match claim_check(old(self)@, caller, paper_id as int) {
                Some(e) => res == Err::<FundsClaimedEvent, ResearchError>(e) && final(self)@
                    == old(self)@,
                None => res == Ok::<FundsClaimedEvent, ResearchError>(
                    (FundsClaimedEvent {
                        paper_id,
                        author: old(self)@.papers[paper_id as int].author,
                        amount: old(self)@.escrow_balances[paper_id as int],
                        timestamp: now,
                    }),
                ) && final(self)@ == claim_apply(old(self)@, paper_id as int, now),
            }),
            res is Ok ==> status_transition_allowed(
                old(self)@.papers[paper_id as int].status,
                final(self)@.papers[paper_id as int].status,
            ),
            old(self)@.state.total_funding <= final(self)@.state.total_funding,
            forall|i: int|
                0 <= i < old(self)@.papers.len() ==> old(self)@.papers[i].funding_current <= (
                #[trigger] final(self)@.papers[i]).funding_current,
    {
        let paper_count: usize = self.papers.len();
        let idx = paper_id as usize;
        proof {
            assert(idx < paper_count);
        }
        if self.state.is_paused {
            return Err(ResearchError::ProgramPaused);
        }
        if self.papers[idx].author != caller {
            return Err(ResearchError::Unauthorized);
        }
        if self.papers[idx].status != PaperStatus::FullyFunded {
            return Err(ResearchError::NotFullyFunded);
        }
        let author = self.papers[idx].author;
        let balance = self.escrow_balances[idx];
        if balance == 0 {
            return Err(ResearchError::NoFundsToClaim);
        }
        {
            let escrow = &mut self.escrow_balances[idx];
            *escrow = 0;
        }
        {
            let paper = &mut self.papers[idx];
            paper.status = PaperStatus::Completed;
            paper.updated_at = now;
        }
        let event = FundsClaimedEvent { paper_id, author, amount: balance, timestamp: now };
        proof {
            let pre = old(self)@;
            let post = self@;
            assert(pre.paper_entry_ok(paper_id as int));
            assert(post =~~= claim_apply(pre, paper_id as int, now));
            assert(post.paper_entry_ok(paper_id as int));
            lemma_paper_entries_ok(pre, post, paper_id as int);
            lemma_ledgers_ok_unchanged(pre, post);
        }
        Ok(event)
    }
}

} // verus!
