use biox_research::errors::ResearchError;
use biox_research::platform::ResearchPlatform;
use biox_research::records::AccountId;
use biox_research::status::PaperStatus;

const ADMIN: AccountId = AccountId(1);
const AUTHOR: AccountId = AccountId(2);
const FUNDER_A: AccountId = AccountId(3);
const FUNDER_B: AccountId = AccountId(4);
const VOTER: AccountId = AccountId(5);

fn bytes(s: &str) -> Vec<u8> {
    s.as_bytes().to_vec()
}

fn submit_default(platform: &mut ResearchPlatform, now: i64) -> u64 {
    let event = platform
        .submit_paper(
            AUTHOR,
            bytes("Deep-sea microbiome atlas"),
            bytes("A survey of hydrothermal vent communities."),
            bytes("QmVentAtlas"),
            vec![bytes("R. Ortega")],
            1_000_000,
            30,
            now,
        )
        .unwrap();
    event.paper_id
}

#[test]
fn scenario_submit_creates_draft_with_deadline() {
    let mut platform = ResearchPlatform::initialize(ADMIN);
    let now: i64 = 10_000;
    let id = submit_default(&mut platform, now);
    assert_eq!(id, 0);
    let paper = &platform.papers[0];
    assert_eq!(paper.status, PaperStatus::Draft);
    assert!(!paper.is_published);
    assert_eq!(paper.funding_current, 0);
    assert_eq!(paper.funding_goal, 1_000_000);
    assert_eq!(paper.funding_deadline, now + 2_592_000);
    assert_eq!(paper.created_at, now);
    assert_eq!(platform.state.paper_count, 1);
}

#[test]
fn scenario_publish_by_author_sets_published() {
    let mut platform = ResearchPlatform::initialize(ADMIN);
    let id = submit_default(&mut platform, 10_000);
    let event = platform.publish_paper(AUTHOR, id, 11_000).unwrap();
    assert_eq!(event.paper_id, id);
    assert_eq!(event.author, AUTHOR);
    assert_eq!(platform.papers[0].status, PaperStatus::Published);
    assert!(platform.papers[0].is_published);
    assert_eq!(platform.papers[0].updated_at, 11_000);
}

#[test]
fn scenario_first_funding_splits_fee_and_stays_published() {
    let mut platform = ResearchPlatform::initialize(ADMIN);
    let id = submit_default(&mut platform, 10_000);
    platform.publish_paper(AUTHOR, id, 11_000).unwrap();
    let event = platform.fund_paper(FUNDER_A, id, 1_000_000, 12_000).unwrap();
    assert_eq!(event.platform_fee, 25_000);
    assert_eq!(event.amount, 975_000);
    assert_eq!(event.total_funding, 975_000);
    assert_eq!(platform.papers[0].funding_current, 975_000);
    assert_eq!(platform.state.total_funding, 975_000);
    assert_eq!(platform.escrow_balances[0], 975_000);
    // 975,000 < the 1,000,000 goal: not yet fully funded.
    assert_eq!(platform.papers[0].status, PaperStatus::Published);
    assert_eq!(platform.fundings.len(), 1);
    assert_eq!(platform.fundings[0].funder, FUNDER_A);
    assert_eq!(platform.fundings[0].amount, 975_000);
    assert_eq!(platform.fundings[0].platform_fee, 25_000);
}

#[test]
fn scenario_second_funding_reaches_goal() {
    let mut platform = ResearchPlatform::initialize(ADMIN);
    let id = submit_default(&mut platform, 10_000);
    platform.publish_paper(AUTHOR, id, 11_000).unwrap();
    platform.fund_paper(FUNDER_A, id, 1_000_000, 12_000).unwrap();
    let event = platform.fund_paper(FUNDER_B, id, 100_000, 13_000).unwrap();
    assert_eq!(event.platform_fee, 2_500);
    assert_eq!(event.amount, 97_500);
    assert_eq!(event.total_funding, 1_072_500);
    assert_eq!(platform.papers[0].funding_current, 1_072_500);
    assert_eq!(platform.state.total_funding, 1_072_500);
    assert_eq!(platform.papers[0].status, PaperStatus::FullyFunded);
}

#[test]
fn scenario_claim_pays_out_escrow_and_completes() {
    let mut platform = ResearchPlatform::initialize(ADMIN);
    let id = submit_default(&mut platform, 10_000);
    platform.publish_paper(AUTHOR, id, 11_000).unwrap();
    platform.fund_paper(FUNDER_A, id, 1_000_000, 12_000).unwrap();
    platform.fund_paper(FUNDER_B, id, 100_000, 13_000).unwrap();
    let event = platform.claim_funds(AUTHOR, id, 14_000).unwrap();
    assert_eq!(event.author, AUTHOR);
    assert_eq!(event.amount, 1_072_500);
    assert_eq!(platform.papers[0].status, PaperStatus::Completed);
    assert_eq!(platform.escrow_balances[0], 0);
    // The funding totals survive the payout.
    assert_eq!(platform.papers[0].funding_current, 1_072_500);
    assert_eq!(platform.state.total_funding, 1_072_500);
    // The claim is one-shot: a repeat is a status conflict.
    let repeat = platform.claim_funds(AUTHOR, id, 15_000);
    assert_eq!(repeat.unwrap_err(), ResearchError::NotFullyFunded);
    assert_eq!(platform.papers[0].status, PaperStatus::Completed);
}

#[test]
fn scenario_pause_blocks_every_mutating_operation() {
    let mut platform = ResearchPlatform::initialize(ADMIN);
    let id = submit_default(&mut platform, 10_000);
    platform.publish_paper(AUTHOR, id, 11_000).unwrap();
    // A non-admin cannot touch the switch.
    let denied = platform.toggle_pause(FUNDER_A, 12_000);
    assert_eq!(denied.unwrap_err(), ResearchError::Unauthorized);
    assert!(!platform.state.is_paused);
    // The admin can.
    let event = platform.toggle_pause(ADMIN, 12_000).unwrap();
    assert!(event.is_paused);
    assert!(platform.state.is_paused);
    // Every mutating paper operation now fails with the pause error.
    let submit = platform.submit_paper(
        AUTHOR,
        bytes("Another paper"),
        bytes("Another abstract."),
        bytes("QmOther"),
        vec![bytes("R. Ortega")],
        1_000_000,
        30,
        13_000,
    );
    assert_eq!(submit.unwrap_err(), ResearchError::ProgramPaused);
    let publish = platform.publish_paper(AUTHOR, id, 13_000);
    assert_eq!(publish.unwrap_err(), ResearchError::ProgramPaused);
    let fund = platform.fund_paper(FUNDER_A, id, 1_000_000, 13_000);
    assert_eq!(fund.unwrap_err(), ResearchError::ProgramPaused);
    let vote = platform.vote_paper(VOTER, id, true, 0, 13_000);
    assert_eq!(vote.unwrap_err(), ResearchError::ProgramPaused);
    let claim = platform.claim_funds(AUTHOR, id, 13_000);
    assert_eq!(claim.unwrap_err(), ResearchError::ProgramPaused);
    // Toggling again lifts the pause.
    let event = platform.toggle_pause(ADMIN, 14_000).unwrap();
    assert!(!event.is_paused);
    let fund = platform.fund_paper(FUNDER_A, id, 1_000_000, 14_000);
    assert!(fund.is_ok());
}

#[test]
fn scenario_weighted_votes_accumulate() {
    let mut platform = ResearchPlatform::initialize(ADMIN);
    let id = submit_default(&mut platform, 10_000);
    platform.publish_paper(AUTHOR, id, 11_000).unwrap();
    // Balance 0 still counts with the weight-one floor.
    let event = platform.vote_paper(VOTER, id, true, 0, 12_000).unwrap();
    assert_eq!(event.weight, 1);
    assert!(event.is_upvote);
    // Five million of balance weigh five.
    let event = platform.vote_paper(FUNDER_A, id, true, 5_000_000, 12_500).unwrap();
    assert_eq!(event.weight, 5);
    // Any balance past ten million is capped at ten.
    let event = platform.vote_paper(FUNDER_B, id, false, 123_000_000, 13_000).unwrap();
    assert_eq!(event.weight, 10);
    assert_eq!(platform.papers[0].upvotes, 6);
    assert_eq!(platform.papers[0].downvotes, 10);
    assert_eq!(platform.votes.len(), 3);
    assert_eq!(platform.papers[0].updated_at, 13_000);
}

#[test]
fn scenario_publish_is_one_shot() {
    let mut platform = ResearchPlatform::initialize(ADMIN);
    let id = submit_default(&mut platform, 10_000);
    platform.publish_paper(AUTHOR, id, 11_000).unwrap();
    let repeat = platform.publish_paper(AUTHOR, id, 12_000);
    assert_eq!(repeat.unwrap_err(), ResearchError::InvalidPaperStatus);
    // The failed call changed nothing.
    assert_eq!(platform.papers[0].status, PaperStatus::Published);
    assert_eq!(platform.papers[0].updated_at, 11_000);
}

#[test]
fn scenario_duplicate_funding_and_vote_are_rejected() {
    let mut platform = ResearchPlatform::initialize(ADMIN);
    let id = submit_default(&mut platform, 10_000);
    platform.publish_paper(AUTHOR, id, 11_000).unwrap();
    platform.fund_paper(FUNDER_A, id, 400_000, 12_000).unwrap();
    platform.vote_paper(VOTER, id, true, 0, 12_000).unwrap();
    let fund_again = platform.fund_paper(FUNDER_A, id, 500_000, 13_000);
    assert_eq!(fund_again.unwrap_err(), ResearchError::DuplicateRecord);
    let vote_again = platform.vote_paper(VOTER, id, false, 9_999_999, 13_000);
    assert_eq!(vote_again.unwrap_err(), ResearchError::DuplicateRecord);
    // Neither failed call mutated a record.
    assert_eq!(platform.fundings.len(), 1);
    assert_eq!(platform.votes.len(), 1);
    assert_eq!(platform.papers[0].funding_current, 390_000);
    assert_eq!(platform.papers[0].upvotes, 1);
    assert_eq!(platform.papers[0].downvotes, 0);
}

#[test]
fn scenario_two_papers_get_distinct_ids() {
    let mut platform = ResearchPlatform::initialize(ADMIN);
    let first = submit_default(&mut platform, 10_000);
    let event = platform
        .submit_paper(
            AccountId(9),
            bytes("Second study"),
            bytes("A second abstract."),
            bytes("QmSecond"),
            vec![bytes("L. Chen"), bytes("M. Diaz")],
            2_000_000,
            365,
            20_000,
        )
        .unwrap();
    assert_eq!(first, 0);
    assert_eq!(event.paper_id, 1);
    assert_eq!(platform.state.paper_count, 2);
    assert_eq!(platform.papers[1].funding_deadline, 20_000 + 365 * 86_400);
    assert_eq!(platform.papers[1].authors.len(), 2);
}
