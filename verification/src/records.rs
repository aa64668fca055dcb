use vstd::prelude::*;

use crate::status::PaperStatus;

verus! {

/// Highest admissible platform fee rate, in basis points (10000 = 100%).
pub const MAX_FEE_RATE_BPS: u16 = 1000;

/// Denominator of the fee rate: basis points per whole.
pub const FEE_DENOMINATOR: u64 = 10000;

/// Fee rate installed at initialization: 2.5% in basis points.
pub const INITIAL_FEE_RATE_BPS: u16 = 250;

/// Minimum funding goal installed at initialization: one whole token.
pub const INITIAL_MIN_FUNDING_GOAL: u64 = 1_000_000;

/// Maximum funding period installed at initialization: 90 days in seconds.
pub const INITIAL_MAX_FUNDING_PERIOD: i64 = 90 * 24 * 60 * 60;

/// Seconds per funding-period day.
pub const SECONDS_PER_DAY: u64 = 86_400;

/// Longest admissible funding period, in days.
pub const MAX_FUNDING_PERIOD_DAYS: u64 = 365;

/// Longest admissible title, in bytes.
pub const MAX_TITLE_LEN: usize = 100;

/// Longest admissible abstract, in bytes.
pub const MAX_ABSTRACT_LEN: usize = 1000;

/// Longest admissible content reference hash, in bytes.
pub const MAX_IPFS_HASH_LEN: usize = 100;

/// Most entries admissible in a paper's author list.
pub const MAX_AUTHORS: usize = 10;

/// Token balance that buys one unit of vote weight.
pub const VOTE_WEIGHT_DIVISOR: u64 = 1_000_000;

/// Cap on the weight of a single vote.
pub const MAX_VOTE_WEIGHT: u64 = 10;

/// An account identity on the external ledger.
///
/// The engine never inspects an identity; it only compares identities for
/// equality, so a plain numeric stand-in for the ledger's address suffices.
#[derive(Clone, Copy, Debug, PartialEq, Eq, Structural)]
pub struct AccountId(pub u64);

/// The global configuration registry: a singleton created once.
///
/// Mutated only by admin-authorized operations; read by every operation
/// for the pause flag and the fee parameters.
#[derive(Clone, Copy, Debug, PartialEq, Eq, Structural)]
pub struct ProgramState {
    /// Identity entitled to `toggle_pause` and `update_settings`.
    pub admin: AccountId,
    /// Monotonic counter; the next paper id.
    pub paper_count: u64,
    /// Cumulative net funding across all papers.
    pub total_funding: u64,
    /// Platform fee rate in basis points, at most `MAX_FEE_RATE_BPS`.
    pub platform_fee_rate: u16,
    /// Least funding goal a submitted paper may declare.
    pub min_funding_goal: u64,
    /// Reserved bound on funding periods, in seconds.
    pub max_funding_period: i64,
    /// Global kill switch: while set, every mutating paper operation fails.
    pub is_paused: bool,
}

/// A research proposal record. One per submission; its id is the registry
/// counter value at creation time and never changes.
///
/// The review aggregate fields are reserved: no operation sets or reads them.
#[derive(Debug)]
pub struct ResearchPaper {
    pub id: u64,
    pub author: AccountId,
    /// Title, 1 to `MAX_TITLE_LEN` bytes.
    pub title: Vec<u8>,
    /// Abstract, 1 to `MAX_ABSTRACT_LEN` bytes.
    pub abstract_text: Vec<u8>,
    /// Content reference hash, 1 to `MAX_IPFS_HASH_LEN` bytes.
    pub ipfs_hash: Vec<u8>,
    /// Author list, 1 to `MAX_AUTHORS` entries.
    pub authors: Vec<Vec<u8>>,
    pub created_at: i64,
    pub updated_at: i64,
    /// Set exactly when the status has left `Draft`.
    pub is_published: bool,
    pub funding_goal: u64,
    /// Net tokens raised; non-decreasing for the life of the record.
    pub funding_current: u64,
    /// Absolute timestamp after which funding is rejected.
    pub funding_deadline: i64,
    /// Weighted upvote tally; non-decreasing.
    pub upvotes: u64,
    /// Weighted downvote tally; non-decreasing.
    pub downvotes: u64,
    pub status: PaperStatus,
    /// Reserved.
    pub review_score: u32,
    /// Reserved.
    pub review_count: u32,
}

/// Mathematical image of a `ResearchPaper`: byte vectors become sequences.
#[verifier::ext_equal]
pub ghost struct PaperView {
    pub id: u64,
    pub author: AccountId,
    pub title: Seq<u8>,
    pub abstract_text: Seq<u8>,
    pub ipfs_hash: Seq<u8>,
    pub authors: Seq<Seq<u8>>,
    pub created_at: i64,
    pub updated_at: i64,
    pub is_published: bool,
    pub funding_goal: u64,
    pub funding_current: u64,
    pub funding_deadline: i64,
    pub upvotes: u64,
    pub downvotes: u64,
    pub status: PaperStatus,
    pub review_score: u32,
    pub review_count: u32,
}

/// The views of a sequence of byte vectors.
pub open spec fn views_of(s: Seq<Vec<u8>>) -> Seq<Seq<u8>> {
    s.map_values(|a: Vec<u8>| a@)
}

impl View for ResearchPaper {
    type V = PaperView;

    open spec fn view(&self) -> PaperView {
        PaperView {
            id: self.id,
            author: self.author,
            title: self.title@,
            abstract_text: self.abstract_text@,
            ipfs_hash: self.ipfs_hash@,
            authors: views_of(self.authors@),
            created_at: self.created_at,
            updated_at: self.updated_at,
            is_published: self.is_published,
            funding_goal: self.funding_goal,
            funding_current: self.funding_current,
            funding_deadline: self.funding_deadline,
            upvotes: self.upvotes,
            downvotes: self.downvotes,
            status: self.status,
            review_score: self.review_score,
            review_count: self.review_count,
        }
    }
}

/// Field bounds of a paper record, as `submit_paper` establishes them,
/// together with the coupling of the publication flag to the status.
pub open spec fn paper_fields_wf(p: PaperView) -> bool {
    &&& 1 <= p.title.len() <= MAX_TITLE_LEN
    &&& 1 <= p.abstract_text.len() <= MAX_ABSTRACT_LEN
    &&& 1 <= p.ipfs_hash.len() <= MAX_IPFS_HASH_LEN
    &&& 1 <= p.authors.len() <= MAX_AUTHORS
    &&& p.is_published == (p.status != PaperStatus::Draft)
}

/// A contribution record: one per (paper, funder) pair, immutable after
/// creation. `amount` is the net credited to the paper's escrow and
/// `platform_fee` the part retained by the platform.
#[derive(Clone, Copy, Debug, PartialEq, Eq, Structural)]
pub struct Funding {
    pub paper_id: u64,
    pub funder: AccountId,
    pub amount: u64,
    pub platform_fee: u64,
    pub timestamp: i64,
}

/// A vote record: one per (paper, voter) pair, immutable after creation.
#[derive(Clone, Copy, Debug, PartialEq, Eq, Structural)]
pub struct Vote {
    pub paper_id: u64,
    pub voter: AccountId,
    pub is_upvote: bool,
    pub weight: u64,
    pub timestamp: i64,
}

} // verus!
