use biox_research::errors::ResearchError;
use biox_research::escrow::compute_fee;
use biox_research::platform::ResearchPlatform;
use biox_research::records::AccountId;
use biox_research::status::PaperStatus;
use biox_research::token_account::token_account_balance;
use biox_research::voting::vote_weight;

const ADMIN: AccountId = AccountId(1);
const AUTHOR: AccountId = AccountId(2);
const FUNDER: AccountId = AccountId(3);
const STRANGER: AccountId = AccountId(8);

fn bytes(s: &str) -> Vec<u8> {
    s.as_bytes().to_vec()
}

fn fresh_platform() -> ResearchPlatform {
    ResearchPlatform::initialize(ADMIN)
}

fn submit(
    platform: &mut ResearchPlatform,
    title: &str,
    abstract_text: &str,
    hash: &str,
    authors: Vec<Vec<u8>>,
    goal: u64,
    days: u64,
) -> Result<u64, ResearchError> {
    platform
        .submit_paper(AUTHOR, bytes(title), bytes(abstract_text), bytes(hash), authors, goal, days, 10_000)
        .map(|event| event.paper_id)
}

fn published_paper(platform: &mut ResearchPlatform) -> u64 {
    let id = submit(
        platform,
        "Paper",
        "Abstract.",
        "QmHash",
        vec![bytes("A. Author")],
        1_000_000,
        30,
    )
    .unwrap();
    platform.publish_paper(AUTHOR, id, 10_500).unwrap();
    id
}

#[test]
fn initialize_installs_defaults() {
    let platform = fresh_platform();
    assert_eq!(platform.state.admin, ADMIN);
    assert_eq!(platform.state.paper_count, 0);
    assert_eq!(platform.state.total_funding, 0);
    assert_eq!(platform.state.platform_fee_rate, 250);
    assert_eq!(platform.state.min_funding_goal, 1_000_000);
    assert_eq!(platform.state.max_funding_period, 7_776_000);
    assert!(!platform.state.is_paused);
    assert!(platform.papers.is_empty());
    assert!(platform.fundings.is_empty());
    assert!(platform.votes.is_empty());
}

#[test]
fn submit_rejects_bad_title() {
    let mut platform = fresh_platform();
    let empty = submit(&mut platform, "", "Abstract.", "QmHash", vec![bytes("A")], 1_000_000, 30);
    assert_eq!(empty.unwrap_err(), ResearchError::InvalidTitle);
    let long = "x".repeat(101);
    let too_long =
        submit(&mut platform, &long, "Abstract.", "QmHash", vec![bytes("A")], 1_000_000, 30);
    assert_eq!(too_long.unwrap_err(), ResearchError::InvalidTitle);
    assert_eq!(platform.state.paper_count, 0);
}

#[test]
fn submit_rejects_bad_abstract() {
    let mut platform = fresh_platform();
    let empty = submit(&mut platform, "Paper", "", "QmHash", vec![bytes("A")], 1_000_000, 30);
    assert_eq!(empty.unwrap_err(), ResearchError::InvalidAbstract);
    let long = "y".repeat(1001);
    let too_long = submit(&mut platform, "Paper", &long, "QmHash", vec![bytes("A")], 1_000_000, 30);
    assert_eq!(too_long.unwrap_err(), ResearchError::InvalidAbstract);
}

#[test]
fn submit_rejects_bad_hash() {
    let mut platform = fresh_platform();
    let empty = submit(&mut platform, "Paper", "Abstract.", "", vec![bytes("A")], 1_000_000, 30);
    assert_eq!(empty.unwrap_err(), ResearchError::InvalidIPFSHash);
    let long = "z".repeat(101);
    let too_long =
        submit(&mut platform, "Paper", "Abstract.", &long, vec![bytes("A")], 1_000_000, 30);
    assert_eq!(too_long.unwrap_err(), ResearchError::InvalidIPFSHash);
}

#[test]
fn submit_rejects_bad_author_list() {
    let mut platform = fresh_platform();
    let none = submit(&mut platform, "Paper", "Abstract.", "QmHash", vec![], 1_000_000, 30);
    assert_eq!(none.unwrap_err(), ResearchError::InvalidAuthors);
    let eleven: Vec<Vec<u8>> = (0..11).map(|k| vec![b'a' + k as u8]).collect();
    let too_many = submit(&mut platform, "Paper", "Abstract.", "QmHash", eleven, 1_000_000, 30);
    assert_eq!(too_many.unwrap_err(), ResearchError::InvalidAuthors);
}

#[test]
fn submit_rejects_low_goal_and_bad_period() {
    let mut platform = fresh_platform();
    let low =
        submit(&mut platform, "Paper", "Abstract.", "QmHash", vec![bytes("A")], 999_999, 30);
    assert_eq!(low.unwrap_err(), ResearchError::FundingGoalTooLow);
    let zero_days =
        submit(&mut platform, "Paper", "Abstract.", "QmHash", vec![bytes("A")], 1_000_000, 0);
    assert_eq!(zero_days.unwrap_err(), ResearchError::InvalidFundingPeriod);
    let long_period =
        submit(&mut platform, "Paper", "Abstract.", "QmHash", vec![bytes("A")], 1_000_000, 366);
    assert_eq!(long_period.unwrap_err(), ResearchError::InvalidFundingPeriod);
}

#[test]
fn publish_rejects_stranger_but_admits_admin() {
    let mut platform = fresh_platform();
    let id = submit(
        &mut platform,
        "Paper",
        "Abstract.",
        "QmHash",
        vec![bytes("A. Author")],
        1_000_000,
        30,
    )
    .unwrap();
    let denied = platform.publish_paper(STRANGER, id, 11_000);
    assert_eq!(denied.unwrap_err(), ResearchError::Unauthorized);
    assert_eq!(platform.papers[0].status, PaperStatus::Draft);
    let by_admin = platform.publish_paper(ADMIN, id, 11_000);
    assert!(by_admin.is_ok());
    assert_eq!(platform.papers[0].status, PaperStatus::Published);
}

#[test]
fn fund_rejects_zero_amount() {
    let mut platform = fresh_platform();
    let id = published_paper(&mut platform);
    let res = platform.fund_paper(FUNDER, id, 0, 11_000);
    assert_eq!(res.unwrap_err(), ResearchError::InvalidAmount);
}

#[test]
fn fund_rejects_unpublished_paper() {
    let mut platform = fresh_platform();
    let id = submit(
        &mut platform,
        "Paper",
        "Abstract.",
        "QmHash",
        vec![bytes("A. Author")],
        1_000_000,
        30,
    )
    .unwrap();
    let res = platform.fund_paper(FUNDER, id, 500_000, 11_000);
    assert_eq!(res.unwrap_err(), ResearchError::PaperNotPublished);
}

#[test]
fn fund_rejects_after_deadline() {
    let mut platform = fresh_platform();
    let id = published_paper(&mut platform);
    // The deadline is 10,000 + 30 days; one second later is too late.
    let deadline = platform.papers[0].funding_deadline;
    let at_deadline = platform.fund_paper(FUNDER, id, 500_000, deadline);
    assert!(at_deadline.is_ok());
    let late = platform.fund_paper(AccountId(9), id, 500_000, deadline + 1);
    assert_eq!(late.unwrap_err(), ResearchError::FundingDeadlinePassed);
}

#[test]
fn fund_rejects_fully_funded_paper() {
    let mut platform = fresh_platform();
    let id = published_paper(&mut platform);
    platform.fund_paper(FUNDER, id, 2_000_000, 11_000).unwrap();
    assert_eq!(platform.papers[0].status, PaperStatus::FullyFunded);
    let more = platform.fund_paper(AccountId(9), id, 500_000, 11_500);
    assert_eq!(more.unwrap_err(), ResearchError::InvalidPaperStatus);
}

#[test]
fn fund_rejects_overflowing_total() {
    let mut platform = fresh_platform();
    let id = submit(
        &mut platform,
        "Paper",
        "Abstract.",
        "QmHash",
        vec![bytes("A. Author")],
        u64::MAX,
        30,
    )
    .unwrap();
    platform.publish_paper(AUTHOR, id, 10_500).unwrap();
    platform.fund_paper(FUNDER, id, u64::MAX, 11_000).unwrap();
    assert_eq!(platform.papers[0].status, PaperStatus::Published);
    let overflow = platform.fund_paper(AccountId(9), id, u64::MAX, 11_500);
    assert_eq!(overflow.unwrap_err(), ResearchError::ArithmeticOverflow);
    assert_eq!(platform.fundings.len(), 1);
}

#[test]
fn claim_rejects_non_author_and_unfunded_paper() {
    let mut platform = fresh_platform();
    let id = published_paper(&mut platform);
    let early = platform.claim_funds(AUTHOR, id, 11_000);
    assert_eq!(early.unwrap_err(), ResearchError::NotFullyFunded);
    platform.fund_paper(FUNDER, id, 2_000_000, 11_000).unwrap();
    let stranger = platform.claim_funds(STRANGER, id, 12_000);
    assert_eq!(stranger.unwrap_err(), ResearchError::Unauthorized);
    assert_eq!(platform.papers[0].status, PaperStatus::FullyFunded);
}

#[test]
fn vote_rejects_unpublished_paper() {
    let mut platform = fresh_platform();
    let id = submit(
        &mut platform,
        "Paper",
        "Abstract.",
        "QmHash",
        vec![bytes("A. Author")],
        1_000_000,
        30,
    )
    .unwrap();
    let res = platform.vote_paper(STRANGER, id, true, 0, 11_000);
    assert_eq!(res.unwrap_err(), ResearchError::PaperNotPublished);
}

#[test]
fn vote_rejected_after_funding_closes() {
    let mut platform = fresh_platform();
    let id = published_paper(&mut platform);
    platform.fund_paper(FUNDER, id, 2_000_000, 11_000).unwrap();
    assert_eq!(platform.papers[0].status, PaperStatus::FullyFunded);
    // Funding closed the paper: its tallies are frozen.
    let res = platform.vote_paper(STRANGER, id, true, 0, 12_000);
    assert_eq!(res.unwrap_err(), ResearchError::InvalidPaperStatus);
    assert_eq!(platform.papers[0].upvotes, 0);
    assert!(platform.votes.is_empty());
}

#[test]
fn vote_weight_follows_balance_exactly() {
    assert_eq!(vote_weight(0), 1);
    // A positive balance below one weight unit rounds down to zero.
    assert_eq!(vote_weight(999_999), 0);
    assert_eq!(vote_weight(1_000_000), 1);
    assert_eq!(vote_weight(9_999_999), 9);
    assert_eq!(vote_weight(10_000_000), 10);
    assert_eq!(vote_weight(u64::MAX), 10);
}

#[test]
fn compute_fee_is_exact() {
    assert_eq!(compute_fee(1_000_000, 250), 25_000);
    assert_eq!(compute_fee(100_000, 250), 2_500);
    assert_eq!(compute_fee(0, 1000), 0);
    assert_eq!(compute_fee(1, 250), 0);
    assert_eq!(compute_fee(39, 250), 0);
    assert_eq!(compute_fee(40, 250), 1);
    assert_eq!(compute_fee(u64::MAX, 1000), u64::MAX / 10);
    assert_eq!(compute_fee(123_456_789, 0), 0);
}

#[test]
fn update_settings_rejects_and_applies_fields_independently() {
    let mut platform = fresh_platform();
    let denied = platform.update_settings(STRANGER, Some(100), None);
    assert_eq!(denied.unwrap_err(), ResearchError::Unauthorized);
    let too_high = platform.update_settings(ADMIN, Some(1001), Some(5));
    assert_eq!(too_high.unwrap_err(), ResearchError::FeeTooHigh);
    // The rejected call changed neither field.
    assert_eq!(platform.state.platform_fee_rate, 250);
    assert_eq!(platform.state.min_funding_goal, 1_000_000);
    platform.update_settings(ADMIN, Some(1000), None).unwrap();
    assert_eq!(platform.state.platform_fee_rate, 1000);
    assert_eq!(platform.state.min_funding_goal, 1_000_000);
    platform.update_settings(ADMIN, None, Some(10)).unwrap();
    assert_eq!(platform.state.platform_fee_rate, 1000);
    assert_eq!(platform.state.min_funding_goal, 10);
}

#[test]
fn updated_fee_rate_governs_later_funding() {
    let mut platform = fresh_platform();
    let id = published_paper(&mut platform);
    platform.update_settings(ADMIN, Some(1000), None).unwrap();
    let event = platform.fund_paper(FUNDER, id, 100_000, 11_000).unwrap();
    assert_eq!(event.platform_fee, 10_000);
    assert_eq!(event.amount, 90_000);
}

#[test]
fn token_account_balance_reads_little_endian_field() {
    // Too short: reads as zero.
    assert_eq!(token_account_balance(&vec![0xff; 71]), 0);
    // Exactly 72 bytes: the last eight are the balance, little-endian.
    let mut data = vec![0u8; 72];
    data[64] = 0x01;
    data[65] = 0x02;
    assert_eq!(token_account_balance(&data), 0x0201);
    // Extra bytes beyond the field do not matter.
    let mut data = vec![0u8; 100];
    for (k, byte) in (64..72).zip([0x11, 0x22, 0x33, 0x44, 0x55, 0x66, 0x77, 0x88]) {
        data[k] = byte;
    }
    assert_eq!(token_account_balance(&data), 0x8877665544332211);
    // A maximal field decodes to the maximal balance.
    let mut data = vec![0u8; 72];
    for k in 64..72 {
        data[k] = 0xff;
    }
    assert_eq!(token_account_balance(&data), u64::MAX);
}
