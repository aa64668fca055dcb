use vstd::prelude::*;

use crate::records::AccountId;

verus! {

/// Emitted by a successful `submit_paper`.
#[derive(Debug)]
pub struct PaperSubmittedEvent {
    pub paper_id: u64,
    pub author: AccountId,
    pub title: Vec<u8>,
    pub timestamp: i64,
}

/// Emitted by a successful `publish_paper`.
#[derive(Clone, Copy, Debug, PartialEq, Eq, Structural)]
pub struct PaperPublishedEvent {
    pub paper_id: u64,
    pub author: AccountId,
    pub timestamp: i64,
}

/// Emitted by a successful `fund_paper`. `amount` is the net credited to
/// escrow, `platform_fee` the part retained, and `total_funding` the
/// paper's new net total.
#[derive(Clone, Copy, Debug, PartialEq, Eq, Structural)]
pub struct PaperFundedEvent {
    pub paper_id: u64,
    pub funder: AccountId,
    pub amount: u64,
    pub platform_fee: u64,
    pub total_funding: u64,
    pub timestamp: i64,
}

/// Emitted by a successful `vote_paper`.
#[derive(Clone, Copy, Debug, PartialEq, Eq, Structural)]
pub struct PaperVotedEvent {
    pub paper_id: u64,
    pub voter: AccountId,
    pub is_upvote: bool,
    pub weight: u64,
    pub timestamp: i64,
}

/// Emitted by a successful `claim_funds`. `amount` is the entire escrow
/// balance moved to the author.
#[derive(Clone, Copy, Debug, PartialEq, Eq, Structural)]
pub struct FundsClaimedEvent {
    pub paper_id: u64,
    pub author: AccountId,
    pub amount: u64,
    pub timestamp: i64,
}

/// Emitted by a successful `toggle_pause`, carrying the new flag.
#[derive(Clone, Copy, Debug, PartialEq, Eq, Structural)]
pub struct PauseToggledEvent {
    pub is_paused: bool,
    pub timestamp: i64,
}

} // verus!
