//! Milestone updates, fund distribution, and refunds.

use crowdfunding_collective::engine::LifecycleEngine;
use crowdfunding_collective::types::{Error, Milestone, ProductStatus, RewardTier};

const ADMIN: u64 = 10;
const CREATOR: u64 = 11;
const CONTRIBUTOR1: u64 = 12;
const CONTRIBUTOR2: u64 = 13;
const NON_CREATOR: u64 = 14;

const NOW: u64 = 1000;

fn setup() -> LifecycleEngine {
    LifecycleEngine::initialize(ADMIN)
}

fn create_test_product(engine: &mut LifecycleEngine, funding_goal: u64, deadline_offset: u64) -> u32 {
    let deadline = NOW + deadline_offset;
    engine
        .create_product(
            CREATOR,
            String::from("Test Product"),
            String::from("A great product for testing"),
            funding_goal,
            deadline,
            NOW,
            vec![RewardTier {
                id: 1,
                min_contribution: 50,
                description: String::from("Basic Reward"),
                discount: 5,
            }],
            vec![Milestone {
                id: 0,
                description: String::from("Phase 1"),
                target_date: deadline + 100,
                completed: false,
            }],
        )
        .unwrap()
}

#[test]
fn test_update_milestone_successful() {
    let mut engine = setup();
    let product_id = create_test_product(&mut engine, 100, 3600);
    engine.contribute(CONTRIBUTOR1, product_id, 100, NOW).unwrap();
    assert_eq!(engine.get_product(product_id).unwrap().status, ProductStatus::Funded);

    let milestone_id = 0;
    engine.update_milestone(CREATOR, product_id, milestone_id).unwrap();

    let milestones = engine.get_milestones(product_id);
    assert!(milestones[milestone_id as usize].completed);
}

#[test]
fn test_update_milestone_unauthorized_user_fails() {
    let mut engine = setup();
    let product_id = create_test_product(&mut engine, 100, 3600);
    engine.contribute(CONTRIBUTOR1, product_id, 100, NOW).unwrap();

    let r = engine.update_milestone(NON_CREATOR, product_id, 0);
    assert_eq!(r, Err(Error::NotCreator));
    assert_eq!(Error::NotCreator.message(), "Only the creator can update milestones");
}

#[test]
fn test_update_milestone_product_not_funded_fails() {
    let mut engine = setup();
    let product_id = create_test_product(&mut engine, 100, 3600);
    let r = engine.update_milestone(CREATOR, product_id, 0);
    assert_eq!(r, Err(Error::ProductNotFunded));
    assert_eq!(Error::ProductNotFunded.message(), "Product is not funded");
}

#[test]
fn test_update_milestone_already_completed_fails() {
    let mut engine = setup();
    let product_id = create_test_product(&mut engine, 100, 3600);
    engine.contribute(CONTRIBUTOR1, product_id, 100, NOW).unwrap();
    engine.update_milestone(CREATOR, product_id, 0).unwrap();

    let r = engine.update_milestone(CREATOR, product_id, 0);
    assert_eq!(r, Err(Error::MilestoneAlreadyCompleted));
    assert_eq!(Error::MilestoneAlreadyCompleted.message(), "Milestone already completed");
}

#[test]
fn test_update_milestone_missing_index_fails() {
    let mut engine = setup();
    let product_id = create_test_product(&mut engine, 100, 3600);
    engine.contribute(CONTRIBUTOR1, product_id, 100, NOW).unwrap();
    let r = engine.update_milestone(CREATOR, product_id, 5);
    assert_eq!(r, Err(Error::MilestoneNotFound));
}

#[test]
fn test_distribute_funds_successful() {
    let mut engine = setup();
    let total_funded_amount = 100;
    let product_id = create_test_product(&mut engine, total_funded_amount, 3600);
    engine
        .contribute(CONTRIBUTOR1, product_id, total_funded_amount, NOW)
        .unwrap();
    engine.update_milestone(CREATOR, product_id, 0).unwrap();

    engine.distribute_funds(product_id).unwrap();

    let product_data = engine.get_product(product_id).unwrap();
    assert_eq!(product_data.status, ProductStatus::Completed);
}

#[test]
fn test_distribute_funds_not_funded_fails() {
    let mut engine = setup();
    let product_id = create_test_product(&mut engine, 100, 3600);
    let r = engine.distribute_funds(product_id);
    assert_eq!(r, Err(Error::ProductNotFunded));
}

#[test]
fn test_distribute_funds_milestones_not_completed_fails() {
    let mut engine = setup();
    let product_id = create_test_product(&mut engine, 100, 3600);
    engine.contribute(CONTRIBUTOR1, product_id, 100, NOW).unwrap();

    let r = engine.distribute_funds(product_id);
    assert_eq!(r, Err(Error::MilestonesIncomplete));
    assert_eq!(Error::MilestonesIncomplete.message(), "Not all milestones are completed");
    assert_eq!(engine.get_product(product_id).unwrap().status, ProductStatus::Funded);
}

#[test]
fn test_distribute_funds_no_milestones_vacuously_allowed() {
    let mut engine = setup();
    let deadline = NOW + 3600;
    let product_id = engine
        .create_product(
            CREATOR,
            String::from("No Milestones"),
            String::from("Nothing gates the release"),
            100,
            deadline,
            NOW,
            vec![],
            vec![],
        )
        .unwrap();
    engine.contribute(CONTRIBUTOR1, product_id, 100, NOW).unwrap();
    engine.distribute_funds(product_id).unwrap();
    assert_eq!(engine.get_product(product_id).unwrap().status, ProductStatus::Completed);
}

#[test]
fn test_refund_contributors_successful() {
    let mut engine = setup();
    let product_id = create_test_product(&mut engine, 1000, 100);

    engine.contribute(CONTRIBUTOR1, product_id, 100, NOW).unwrap();
    engine.contribute(CONTRIBUTOR2, product_id, 200, NOW).unwrap();

    engine.refund_contributors(product_id, NOW + 101).unwrap();

    let product_data = engine.get_product(product_id).unwrap();
    assert_eq!(product_data.status, ProductStatus::Failed);

    let contributions_after_refund = engine.get_contributions(product_id);
    assert_eq!(contributions_after_refund.len(), 0);
}

#[test]
fn test_refund_contributors_product_funded_fails() {
    let mut engine = setup();
    let product_id = create_test_product(&mut engine, 100, 1000);
    engine.contribute(CONTRIBUTOR1, product_id, 100, NOW).unwrap();
    assert_eq!(engine.get_product(product_id).unwrap().status, ProductStatus::Funded);

    let r = engine.refund_contributors(product_id, NOW + 1001);
    assert_eq!(r, Err(Error::ProductNotActive));
}

#[test]
fn test_refund_contributors_before_deadline_fails() {
    let mut engine = setup();
    let product_id = create_test_product(&mut engine, 1000, 1000);
    engine.contribute(CONTRIBUTOR1, product_id, 100, NOW).unwrap();
    let r = engine.refund_contributors(product_id, NOW + 999);
    assert_eq!(r, Err(Error::FundingPeriodNotEnded));
    assert_eq!(Error::FundingPeriodNotEnded.message(), "Funding period has not ended");
}

#[test]
fn test_refund_exactly_at_deadline_allowed() {
    let mut engine = setup();
    let product_id = create_test_product(&mut engine, 1000, 100);
    engine.contribute(CONTRIBUTOR1, product_id, 100, NOW).unwrap();
    engine.refund_contributors(product_id, NOW + 100).unwrap();
    assert_eq!(engine.get_product(product_id).unwrap().status, ProductStatus::Failed);
}

#[test]
fn test_refund_with_no_contributions() {
    let mut engine = setup();
    let product_id = create_test_product(&mut engine, 100, 3600);
    engine.refund_contributors(product_id, NOW + 3601).unwrap();
    assert_eq!(engine.get_product(product_id).unwrap().status, ProductStatus::Failed);
    assert_eq!(engine.get_contributions(product_id).len(), 0);
}

#[test]
fn test_terminal_states_reject_everything() {
    let mut engine = setup();
    let failed_id = create_test_product(&mut engine, 1000, 100);
    engine.contribute(CONTRIBUTOR1, failed_id, 100, NOW).unwrap();
    engine.refund_contributors(failed_id, NOW + 100).unwrap();

    assert_eq!(engine.contribute(CONTRIBUTOR2, failed_id, 10, NOW + 50), Err(Error::ProductNotActive));
    assert_eq!(engine.update_milestone(CREATOR, failed_id, 0), Err(Error::ProductNotFunded));
    assert_eq!(engine.distribute_funds(failed_id), Err(Error::ProductNotFunded));
    assert_eq!(engine.refund_contributors(failed_id, NOW + 200), Err(Error::ProductNotActive));

    let completed_id = create_test_product(&mut engine, 100, 3600);
    engine.contribute(CONTRIBUTOR1, completed_id, 100, NOW).unwrap();
    engine.update_milestone(CREATOR, completed_id, 0).unwrap();
    engine.distribute_funds(completed_id).unwrap();

    assert_eq!(engine.contribute(CONTRIBUTOR2, completed_id, 10, NOW), Err(Error::ProductNotActive));
    assert_eq!(engine.update_milestone(CREATOR, completed_id, 0), Err(Error::ProductNotFunded));
    assert_eq!(engine.distribute_funds(completed_id), Err(Error::ProductNotFunded));
    assert_eq!(engine.refund_contributors(completed_id, NOW + 9999), Err(Error::ProductNotActive));
}
