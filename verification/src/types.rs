//! Entities of the crowdfunding data model and the spec functions that
//! describe their aggregate behaviour.

use vstd::prelude::*;

verus! {

/// Lifecycle state of a product. `Completed` and `Failed` are terminal.
#[derive(Clone, Copy, PartialEq, Eq, Structural, Debug)]
pub enum ProductStatus {
    Active,
    Funded,
    Completed,
    Failed,
}

/// A recorded pledge of funds from one backer to one product.
#[derive(Clone, Copy, PartialEq, Eq, Structural, Debug)]
pub struct Contribution {
    pub contributor: u64,
    pub amount: u64,
}

/// A creator-defined deliverable gating fund release. The `completed` flag
/// starts false and only ever moves false to true.
#[derive(Debug)]
pub struct Milestone {
    pub id: u32,
    pub description: String,
    pub target_date: u64,
    pub completed: bool,
}

/// A contribution threshold mapped to a backer perk. Immutable after
/// product creation.
#[derive(Debug)]
pub struct RewardTier {
    pub id: u32,
    pub min_contribution: u64,
    pub description: String,
    pub discount: u32,
}

/// A single crowdfunding campaign with a goal, deadline, and status.
#[derive(Debug)]
pub struct Product {
    pub id: u32,
    pub creator: u64,
    pub name: String,
    pub description: String,
    pub funding_goal: u64,
    pub deadline: u64,
    pub total_funded: u64,
    pub status: ProductStatus,
}

/// Every way an engine call can be rejected. Failures are fatal to the call:
/// no state is changed when one is returned.
#[derive(Clone, Copy, PartialEq, Eq, Structural, Debug)]
pub enum Error {
    ProductNotFound,
    InvalidFundingGoal,
    DeadlineNotInFuture,
    ProductNotActive,
    FundingPeriodEnded,
    ZeroContribution,
    ExceedsFundingGoal,
    NotCreator,
    ProductNotFunded,
    MilestoneNotFound,
    MilestoneAlreadyCompleted,
    MilestonesIncomplete,
    FundingPeriodNotEnded,
    ProductNotCompleted,
    NoContributions,
    NoEligibleTier,
}

impl Clone for Milestone {
    fn clone(&self) -> (r: Self)
        ensures
            r == *self,
    {
        Milestone {
            id: self.id,
            description: self.description.clone(),
            target_date: self.target_date,
            completed: self.completed,
        }
    }
}

impl Clone for RewardTier {
    fn clone(&self) -> (r: Self)
        ensures
            r == *self,
    {
        RewardTier {
            id: self.id,
            min_contribution: self.min_contribution,
            description: self.description.clone(),
            discount: self.discount,
        }
    }
}

impl Clone for Product {
    fn clone(&self) -> (r: Self)
        ensures
            r == *self,
    {
        Product {
            id: self.id,
            creator: self.creator,
            name: self.name.clone(),
            description: self.description.clone(),
            funding_goal: self.funding_goal,
            deadline: self.deadline,
            total_funded: self.total_funded,
            status: self.status,
        }
    }
}

impl Error {
    /// The human-readable message the platform reports for each rejection.
    pub fn message(&self) -> (r: &'static str)
        ensures
            *self is ProductNotFound ==> r@ == "Product not found"@,
            *self is InvalidFundingGoal ==> r@ == "Funding goal must be greater than zero"@,
            *self is DeadlineNotInFuture ==> r@ == "Deadline must be in the future"@,
            *self is ProductNotActive ==> r@ == "Product is not active"@,
            *self is FundingPeriodEnded ==> r@ == "Funding period has ended"@,
            *self is ZeroContribution ==> r@ == "Contribution must be greater than zero"@,
            *self is ExceedsFundingGoal ==> r@ == "Contribution would exceed funding goal"@,
            *self is NotCreator ==> r@ == "Only the creator can update milestones"@,
            *self is ProductNotFunded ==> r@ == "Product is not funded"@,
            *self is MilestoneNotFound ==> r@ == "Milestone not found"@,
            *self is MilestoneAlreadyCompleted ==> r@ == "Milestone already completed"@,
            *self is MilestonesIncomplete ==> r@ == "Not all milestones are completed"@,
            *self is FundingPeriodNotEnded ==> r@ == "Funding period has not ended"@,
            *self is ProductNotCompleted ==> r@ == "Product is not completed"@,
            *self is NoContributions ==> r@ == "No contributions found for this contributor"@,
            *self is NoEligibleTier ==> r@ == "No eligible reward tier found"@,
    {
        match self {
            Error::ProductNotFound => "Product not found",
            Error::InvalidFundingGoal => "Funding goal must be greater than zero",
            Error::DeadlineNotInFuture => "Deadline must be in the future",
            Error::ProductNotActive => "Product is not active",
            Error::FundingPeriodEnded => "Funding period has ended",
            Error::ZeroContribution => "Contribution must be greater than zero",
            Error::ExceedsFundingGoal => "Contribution would exceed funding goal",
            Error::NotCreator => "Only the creator can update milestones",
            Error::MilestoneNotFound => "Milestone not found",
            Error::ProductNotFunded => "Product is not funded",
            Error::MilestoneAlreadyCompleted => "Milestone already completed",
            Error::MilestonesIncomplete => "Not all milestones are completed",
            Error::FundingPeriodNotEnded => "Funding period has not ended",
            Error::ProductNotCompleted => "Product is not completed",
            Error::NoContributions => "No contributions found for this contributor",
            Error::NoEligibleTier => "No eligible reward tier found",
        }
    }
}

/// Sum of the amounts of a sequence of contributions.
pub open spec fn sum_amounts(s: Seq<Contribution>) -> int
    decreases s.len(),
{
    if s.len() == 0 {
        0
    } else {
        sum_amounts(s.drop_last()) + s.last().amount
    }
}

/// Sum of the amounts contributed by one backer within a sequence of
/// contributions.
pub open spec fn contributor_total(s: Seq<Contribution>, who: u64) -> int
    decreases s.len(),
{
    if s.len() == 0 {
        0
    } else {
        contributor_total(s.drop_last(), who) + if s.last().contributor == who {
            s.last().amount as int
        } else {
            0
        }
    }
}

/// Whether some contribution in the sequence was made by `who`.
pub open spec fn has_contribution_from(s: Seq<Contribution>, who: u64) -> bool {
    exists|j: int| 0 <= j < s.len() && s[j].contributor == who
}

/// Index of the reward tier a cumulative contribution of `total` is entitled
/// to: the tier with the highest `min_contribution` not exceeding `total`,
/// the earliest such tier when several share that threshold; -1 when no tier
/// qualifies.
pub open spec fn best_tier_index(tiers: Seq<RewardTier>, total: u64) -> int
    decreases tiers.len(),
{
    if tiers.len() == 0 {
        -1
    } else {
        let prev = best_tier_index(tiers.drop_last(), total);
        let k = tiers.len() - 1;
        if tiers[k].min_contribution <= total && (prev == -1 || tiers[k].min_contribution
            > tiers[prev].min_contribution) {
            k
        } else {
            prev
        }
    }
}

/// Appending one contribution adds exactly its amount to the sum.
pub proof fn lemma_sum_push(s: Seq<Contribution>, c: Contribution)
    ensures
        sum_amounts(s.push(c)) == sum_amounts(s) + c.amount,
{
    assert(s.push(c).drop_last() =~= s);
}

/// Appending one contribution adds its amount to its maker's total and
/// leaves every other backer's total unchanged.
pub proof fn lemma_contributor_total_push(s: Seq<Contribution>, c: Contribution, who: u64)
    ensures
        contributor_total(s.push(c), who) == contributor_total(s, who) + if c.contributor == who {
            c.amount as int
        } else {
            0
        },
{
    assert(s.push(c).drop_last() =~= s);
}

/// One backer's total never exceeds the sum over all contributions.
pub proof fn lemma_contributor_total_le_sum(s: Seq<Contribution>, who: u64)
    ensures
        0 <= contributor_total(s, who) <= sum_amounts(s),
    decreases s.len(),
{
    if s.len() > 0 {
        lemma_contributor_total_le_sum(s.drop_last(), who);
    }
}

/// Extending a prefix by one contribution extends the backer's running total
/// by that contribution's amount when it is theirs.
pub proof fn lemma_contributor_total_prefix(s: Seq<Contribution>, who: u64, j: int)
    requires
        0 <= j < s.len(),
    ensures
        contributor_total(s.subrange(0, j + 1), who) == contributor_total(s.subrange(0, j), who)
            + if s[j].contributor == who {
            s[j].amount as int
        } else {
            0
        },
{
    assert(s.subrange(0, j + 1).drop_last() =~= s.subrange(0, j));
    assert(s.subrange(0, j + 1).last() == s[j]);
}

/// The sum over a prefix never exceeds the sum over the whole sequence.
pub proof fn lemma_sum_prefix_le(s: Seq<Contribution>, j: int)
    requires
        0 <= j <= s.len(),
    ensures
        sum_amounts(s.subrange(0, j)) <= sum_amounts(s),
    decreases s.len() - j,
{
    if j == s.len() {
        assert(s.subrange(0, j) =~= s);
    } else {
        assert(s.subrange(0, j + 1).drop_last() =~= s.subrange(0, j));
        lemma_sum_prefix_le(s, j + 1);
    }
}

/// What `best_tier_index` selects: -1 exactly when no tier's threshold is
/// within `total`; otherwise an in-range tier whose threshold is within
/// `total`, at least as high as every other qualifying tier's, and strictly
/// higher than any earlier qualifying tier's.
pub proof fn lemma_best_tier_index_props(tiers: Seq<RewardTier>, total: u64)
    ensures
        -1 <= best_tier_index(tiers, total) < tiers.len(),
        best_tier_index(tiers, total) == -1 <==> (forall|j: int| 0 <= j < tiers.len()
            ==> (#[trigger] tiers[j]).min_contribution > total),
        best_tier_index(tiers, total) != -1 ==> {
            let b = best_tier_index(tiers, total);
            &&& tiers[b].min_contribution <= total
            &&& (forall|j: int| 0 <= j < tiers.len() && (#[trigger] tiers[j]).min_contribution
                <= total ==> tiers[j].min_contribution <= tiers[b].min_contribution)
            &&& (forall|j: int| 0 <= j < b && (#[trigger] tiers[j]).min_contribution <= total
                ==> tiers[j].min_contribution < tiers[b].min_contribution)
        },
    decreases tiers.len(),
{
    if tiers.len() > 0 {
        lemma_best_tier_index_props(tiers.drop_last(), total);
        assert forall|j: int| 0 <= j < tiers.len() - 1 implies tiers.drop_last()[j] == tiers[j]
            by {}
    }
}

} // verus!
