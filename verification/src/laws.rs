use vstd::prelude::*;

use crate::errors::ResearchError;
use crate::escrow::claim_apply;
use crate::escrow::claim_check;
use crate::escrow::fund_apply;
use crate::escrow::fund_check;
use crate::papers::publish_apply;
use crate::papers::publish_check;
use crate::papers::submit_check;
use crate::platform::has_funding;
use crate::platform::has_vote;
use crate::platform::toggle_pause_check;
use crate::platform::PlatformView;
use crate::records::AccountId;
use crate::records::MAX_VOTE_WEIGHT;
use crate::records::VOTE_WEIGHT_DIVISOR;
use crate::status::PaperStatus;
use crate::voting::vote_apply;
use crate::voting::vote_check;
use crate::voting::vote_weight_of;

verus! {

/// Publication is one-shot: after a successful `publish_paper`, a second
/// attempt on the same paper — by any caller the first call would have
/// admitted — is rejected as a status conflict. A rejected call leaves
/// the platform unchanged, by the contract of `publish_paper` itself.
pub proof fn lemma_publish_is_one_shot(
    pre: PlatformView,
    caller: AccountId,
    second_caller: AccountId,
    paper_id: int,
    now: i64,
)
    requires
        pre.wf(),
        0 <= paper_id < pre.papers.len(),
        publish_check(pre, caller, paper_id) == None::<ResearchError>,
        second_caller == pre.papers[paper_id].author || second_caller == pre.state.admin,
    ensures
        publish_apply(pre, paper_id, now).papers[paper_id].status == PaperStatus::Published,
        publish_check(publish_apply(pre, paper_id, now), second_caller, paper_id) == Some(
            ResearchError::InvalidPaperStatus,
        ),
{
}

/// A funder contributes to a paper at most once: after a successful
/// `fund_paper`, every later `fund_paper` by the same funder on the same
/// paper is rejected, whatever amount it offers and whenever it arrives.
/// A rejected call leaves the platform unchanged, by the contract of
/// `fund_paper` itself.
pub proof fn lemma_second_funding_rejected(
    pre: PlatformView,
    funder: AccountId,
    paper_id: int,
    amount: u64,
    now: i64,
    second_amount: u64,
    second_now: i64,
)
    requires
        pre.wf(),
        0 <= paper_id < pre.papers.len(),
        fund_check(pre, funder, paper_id, amount, now) == None::<ResearchError>,
    ensures
        fund_check(
            fund_apply(pre, funder, paper_id, amount, now),
            funder,
            paper_id,
            second_amount,
            second_now,
        ) != None::<ResearchError>,
{
    let post = fund_apply(pre, funder, paper_id, amount, now);
    let m = pre.fundings.len() as int;
    assert(post.fundings[m].paper_id == paper_id as u64 && post.fundings[m].funder == funder);
    assert(has_funding(post.fundings, paper_id as u64, funder));
}

/// A voter votes on a paper at most once: after a successful
/// `vote_paper`, every later `vote_paper` by the same voter on the same
/// paper is rejected, whatever direction or balance it carries. A
/// rejected call leaves the platform unchanged, by the contract of
/// `vote_paper` itself.
pub proof fn lemma_second_vote_rejected(
    pre: PlatformView,
    voter: AccountId,
    paper_id: int,
    is_upvote: bool,
    voter_balance: u64,
    now: i64,
    second_is_upvote: bool,
    second_balance: u64,
)
    requires
        pre.wf(),
        0 <= paper_id < pre.papers.len(),
        vote_check(pre, voter, paper_id, is_upvote, voter_balance) == None::<ResearchError>,
    ensures
        vote_check(
            vote_apply(pre, voter, paper_id, is_upvote, voter_balance, now),
            voter,
            paper_id,
            second_is_upvote,
            second_balance,
        ) != None::<ResearchError>,
{
    let post = vote_apply(pre, voter, paper_id, is_upvote, voter_balance, now);
    let m = pre.votes.len() as int;
    assert(post.votes[m].paper_id == paper_id as u64 && post.votes[m].voter == voter);
    assert(has_vote(post.votes, paper_id as u64, voter));
}

/// Claiming pays out the escrow balance without reducing the funding
/// totals: `claim_funds` zeroes the paper's escrow balance and completes
/// the paper, while `funding_current` and `total_funding` keep their
/// values. Together with the contracts of the operations — none of which
/// ever decreases `funding_current` or `total_funding` — the funding
/// totals are monotone for the life of the platform.
pub proof fn lemma_claim_preserves_funding_totals(
    pre: PlatformView,
    caller: AccountId,
    paper_id: int,
    now: i64,
)
    requires
        pre.wf(),
        0 <= paper_id < pre.papers.len(),
        claim_check(pre, caller, paper_id) == None::<ResearchError>,
    ensures
        claim_apply(pre, paper_id, now).escrow_balances[paper_id] == 0,
        claim_apply(pre, paper_id, now).papers[paper_id].funding_current
            == pre.papers[paper_id].funding_current,
        claim_apply(pre, paper_id, now).state.total_funding == pre.state.total_funding,
        claim_apply(pre, paper_id, now).papers[paper_id].status == PaperStatus::Completed,
{
}

/// The kill switch is universal and recoverable: while the registry is
/// paused, every mutating paper operation — submission, publication,
/// funding, voting, claiming — is rejected with `ProgramPaused`,
/// whatever arguments it carries, and a rejected call leaves the
/// platform unchanged by that operation's own contract. The switch
/// itself is not pause-gated, so the admin can always toggle it back
/// off.
pub proof fn lemma_pause_blocks_every_paper_operation(
    pre: PlatformView,
    caller: AccountId,
    paper_id: int,
    title: Seq<u8>,
    abstract_text: Seq<u8>,
    ipfs_hash: Seq<u8>,
    authors: Seq<Seq<u8>>,
    funding_goal: u64,
    funding_period_days: u64,
    amount: u64,
    is_upvote: bool,
    voter_balance: u64,
    now: i64,
)
    requires
        pre.state.is_paused,
    ensures
        submit_check(
            pre,
            title,
            abstract_text,
            ipfs_hash,
            authors,
            funding_goal,
            funding_period_days,
        ) == Some(ResearchError::ProgramPaused),
        publish_check(pre, caller, paper_id) == Some(ResearchError::ProgramPaused),
        fund_check(pre, caller, paper_id, amount, now) == Some(ResearchError::ProgramPaused),
        vote_check(pre, caller, paper_id, is_upvote, voter_balance) == Some(
            ResearchError::ProgramPaused,
        ),
        claim_check(pre, caller, paper_id) == Some(ResearchError::ProgramPaused),
        toggle_pause_check(pre, pre.state.admin) == None::<ResearchError>,
{
}

/// The vote weight has a floor and a cap: a voter holding nothing still
/// votes with weight one, and no balance buys more than
/// `MAX_VOTE_WEIGHT`; between them the weight is proportional, one unit
/// per `VOTE_WEIGHT_DIVISOR` of balance.
pub proof fn lemma_vote_weight_floor_and_cap(balance: u64)
    ensures
        balance == 0 ==> vote_weight_of(balance) == 1,
        balance >= MAX_VOTE_WEIGHT * VOTE_WEIGHT_DIVISOR ==> vote_weight_of(balance)
            == MAX_VOTE_WEIGHT,
        vote_weight_of(balance) <= MAX_VOTE_WEIGHT,
{
}

} // verus!
