//! The lifecycle engine: per-product state plus the entry points that
//! validate and apply every state transition.

use vstd::prelude::*;

use crate::types::{
    best_tier_index, contributor_total, has_contribution_from, sum_amounts, Contribution, Error,
    Milestone, Product, ProductStatus, RewardTier,
};

verus! {

/// Everything the engine stores for one product: the product itself and its
/// contribution, milestone, and reward-tier lists.
pub struct ProductRecord {
    pub product: Product,
    pub contributions: Vec<Contribution>,
    pub milestones: Vec<Milestone>,
    pub reward_tiers: Vec<RewardTier>,
}

/// The lifecycle engine. Products are stored in creation order: the product
/// with id `i` lives at index `i - 1`.
pub struct LifecycleEngine {
    pub admin: u64,
    pub next_product_id: u32,
    pub products: Vec<ProductRecord>,
}

impl ProductRecord {
    /// Internal consistency of one stored record, at its position `i` in the
    /// engine's product list.
    pub open spec fn wf_at(self, i: int) -> bool {
        &&& self.product.id == i + 1
        &&& self.product.funding_goal > 0
        &&& self.product.total_funded <= self.product.funding_goal
        &&& (self.product.status is Active ==> self.product.total_funded
            < self.product.funding_goal)
        &&& (self.product.status is Funded ==> self.product.total_funded
            == self.product.funding_goal)
        &&& (self.product.status is Completed ==> self.product.total_funded
            == self.product.funding_goal)
        &&& (self.product.status is Failed ==> self.contributions@.len() == 0
            && self.product.total_funded < self.product.funding_goal)
        &&& (!(self.product.status is Failed) ==> sum_amounts(self.contributions@)
            == self.product.total_funded)
        &&& (forall|j: int| 0 <= j < self.contributions@.len()
            ==> (#[trigger] self.contributions@[j]).amount > 0)
    }
}

impl LifecycleEngine {
    /// Well-formedness: ids are dense starting at 1, the id counter matches
    /// the number of stored products, and every record is consistent.
    pub open spec fn wf(self) -> bool {
        &&& self.next_product_id == self.products@.len() + 1
        &&& self.products@.len() < u32::MAX
        &&& (forall|i: int| 0 <= i < self.products@.len()
            ==> (#[trigger] self.products@[i]).wf_at(i))
    }

    /// Whether a product with this id has been created.
    pub open spec fn has_product(self, product_id: u32) -> bool {
        1 <= product_id <= self.products@.len()
    }

    /// The stored record of product `product_id`; meaningful only when
    /// `has_product(product_id)`.
    pub open spec fn record_of(self, product_id: u32) -> ProductRecord {
        self.products@[product_id - 1]
    }

    /// Sets up a fresh engine for the given platform admin. No products
    /// exist yet and the first product created will get id 1.
    pub fn initialize(admin: u64) -> (e: LifecycleEngine)
        ensures
            e.wf(),
            e.admin == admin,
            e.next_product_id == 1,
            e.products@.len() == 0,
    {
        LifecycleEngine { admin, next_product_id: 1, products: Vec::new() }
    }

    /// Registers a new product. Succeeds exactly when the funding goal is
    /// positive and the deadline lies strictly in the future; the new product
    /// then gets the next sequential id, starts `Active` with nothing funded,
    /// and stores the reward tier and milestone lists verbatim. A rejected
    /// call changes nothing, and in particular consumes no id.
    pub fn create_product(
        &mut self,
        creator: u64,
        name: String,
        description: String,
        funding_goal: u64,
        deadline: u64,
        now: u64,
        reward_tiers: Vec<RewardTier>,
        milestones: Vec<Milestone>,
    ) -> (r: Result<u32, Error>)
        requires
            old(self).wf(),
            old(self).products@.len() + 1 < u32::MAX,
        ensures
            final(self).wf(),
            r is Ok <==> funding_goal > 0 && deadline > now,
            funding_goal == 0 ==> r == Err::<u32, Error>(Error::InvalidFundingGoal),
            funding_goal > 0 && deadline <= now ==> r == Err::<u32, Error>(
                Error::DeadlineNotInFuture,
            ),
            r is Err ==> *final(self) == *old(self),
            r is Ok ==> {
                let n = old(self).products@.len() as int;
                &&& r->Ok_0 == old(self).next_product_id
                &&& final(self).next_product_id == old(self).next_product_id + 1
                &&& final(self).admin == old(self).admin
                &&& final(self).products@.len() == n + 1
                &&& final(self).products@.subrange(0, n) == old(self).products@
                &&& final(self).products@[n].product == (Product {
                    id: old(self).next_product_id,
                    creator,
                    name,
                    description,
                    funding_goal,
                    deadline,
                    total_funded: 0,
                    status: ProductStatus::Active,
                })
                &&& final(self).products@[n].contributions@ == Seq::<Contribution>::empty()
                &&& final(self).products@[n].milestones == milestones
                &&& final(self).products@[n].reward_tiers == reward_tiers
            },
    {
        if funding_goal == 0 {
            return Err(Error::InvalidFundingGoal);
        }
        if deadline <= now {
            return Err(Error::DeadlineNotInFuture);
        }
        let id = self.next_product_id;
        let product = Product {
            id,
            creator,
            name,
            description,
            funding_goal,
            deadline,
            total_funded: 0,
            status: ProductStatus::Active,
        };
        let record = ProductRecord {
            product,
            contributions: Vec::new(),
            milestones,
            reward_tiers,
        };
        self.products.push(record);
        self.next_product_id = id + 1;
        proof {
            let n = old(self).products@.len() as int;
            assert(self.products@.subrange(0, n) =~= old(self).products@);
        }
        Ok(id)
    }

    /// Records a contribution. Succeeds exactly when the product exists, is
    /// `Active`, the deadline has not passed, the amount is positive, and the
    /// new total would not exceed the funding goal (overfill is rejected, not
    /// clamped). On success the contribution is appended to the product's
    /// list, `total_funded` grows by the amount, and the product becomes
    /// `Funded` exactly when the goal is now met. A rejected call changes
    /// nothing.
    pub fn contribute(
        &mut self,
        contributor: u64,
        product_id: u32,
        amount: u64,
        now: u64,
    ) -> (r: Result<(), Error>)
        requires
            old(self).wf(),
        ensures
            final(self).wf(),
            r is Ok <==> {
                let p = old(self).record_of(product_id).product;
                &&& old(self).has_product(product_id)
                &&& p.status is Active
                &&& now < p.deadline
                &&& amount > 0
                &&& p.total_funded + amount <= p.funding_goal
            },
            !old(self).has_product(product_id) ==> r == Err::<(), Error>(Error::ProductNotFound),
            ({
                let p = old(self).record_of(product_id).product;
                &&& old(self).has_product(product_id) ==> {
                    &&& !(p.status is Active) ==> r == Err::<(), Error>(Error::ProductNotActive)
                    &&& p.status is Active && now >= p.deadline ==> r == Err::<(), Error>(
                        Error::FundingPeriodEnded,
                    )
                    &&& p.status is Active && now < p.deadline && amount == 0 ==> r == Err::<
                        (),
                        Error,
                    >(Error::ZeroContribution)
                    &&& p.status is Active && now < p.deadline && amount > 0 && p.total_funded
                        + amount > p.funding_goal ==> r == Err::<(), Error>(
                        Error::ExceedsFundingGoal,
                    )
                }
            }),
            r is Err ==> *final(self) == *old(self),
            r is Ok ==> {
                let i = product_id - 1;
                let old_rec = old(self).record_of(product_id);
                let new_total = old_rec.product.total_funded + amount;
                &&& final(self).admin == old(self).admin
                &&& final(self).next_product_id == old(self).next_product_id
                &&& final(self).products@.len() == old(self).products@.len()
                &&& (forall|k: int| 0 <= k < old(self).products@.len() && k != i
                    ==> final(self).products@[k] == old(self).products@[k])
                &&& final(self).products@[i].product == (Product {
                    total_funded: new_total as u64,
                    status: if new_total == old_rec.product.funding_goal {
                        ProductStatus::Funded
                    } else {
                        ProductStatus::Active
                    },
                    ..old_rec.product
                })
                &&& final(self).products@[i].contributions@ == old_rec.contributions@.push(
                    (Contribution { contributor, amount }),
                )
                &&& final(self).products@[i].milestones == old_rec.milestones
                &&& final(self).products@[i].reward_tiers == old_rec.reward_tiers
                &&& (forall|who: u64| contributor_total(
                    final(self).products@[i].contributions@,
                    who,
                ) == contributor_total(old_rec.contributions@, who) + if who == contributor {
                    amount as int
                } else {
                    0
                })
            },
    {
        if product_id < 1 || product_id as usize > self.products.len() {
            return Err(Error::ProductNotFound);
        }
        let idx = (product_id - 1) as usize;
        proof {
            assert(self.products@[idx as int].wf_at(idx as int));
        }
        if self.products[idx].product.status != ProductStatus::Active {
            return Err(Error::ProductNotActive);
        }
        if now >= self.products[idx].product.deadline {
            return Err(Error::FundingPeriodEnded);
        }
        if amount == 0 {
            return Err(Error::ZeroContribution);
        }
        let goal = self.products[idx].product.funding_goal;
        let total = self.products[idx].product.total_funded;
        if amount > goal - total {
            return Err(Error::ExceedsFundingGoal);
        }
        let new_total = total + amount;
        let rec = &mut self.products[idx];
        rec.product.total_funded = new_total;
        if new_total == goal {
            rec.product.status = ProductStatus::Funded;
        }
        rec.contributions.push(Contribution { contributor, amount });
        proof {
            let i = idx as int;
            let old_contribs = old(self).products@[i].contributions@;
            crate::types::lemma_sum_push(old_contribs, Contribution { contributor, amount });
            assert forall|who: u64| contributor_total(self.products@[i].contributions@, who)
                == contributor_total(old_contribs, who) + if who == contributor {
                amount as int
            } else {
                0
            } by {
                crate::types::lemma_contributor_total_push(
                    old_contribs,
                    Contribution { contributor, amount },
                    who,
                );
            }
            assert forall|k: int| 0 <= k < self.products@.len() implies (
                #[trigger] self.products@[k]).wf_at(k) by {
                assert(old(self).products@[k].wf_at(k));
                if k == i {
                    assert forall|j: int| 0 <= j < self.products@[i].contributions@.len()
                        implies (#[trigger] self.products@[i].contributions@[j]).amount > 0 by {
                        if j < old_contribs.len() {
                            assert(old_contribs[j].amount > 0);
                        }
                    }
                }
            }
        }
        Ok(())
    }

    /// Marks one milestone of a funded product as completed. Succeeds exactly
    /// when the product exists, the caller is its creator, the product is
    /// `Funded`, the milestone index is in range, and that milestone is not
    /// yet completed. Completing the last milestone does not release funds by
    /// itself: `distribute_funds` is a separate, required call. A rejected
    /// call changes nothing.
    pub fn update_milestone(
        &mut self,
        caller: u64,
        product_id: u32,
        milestone_id: u32,
    ) -> (r: Result<(), Error>)
        requires
            old(self).wf(),
        ensures
            final(self).wf(),
            r is Ok <==> {
                let rec = old(self).record_of(product_id);
                &&& old(self).has_product(product_id)
                &&& caller == rec.product.creator
                &&& rec.product.status is Funded
                &&& milestone_id < rec.milestones@.len()
                &&& !rec.milestones@[milestone_id as int].completed
            },
            !old(self).has_product(product_id) ==> r == Err::<(), Error>(Error::ProductNotFound),
            ({
                let rec = old(self).record_of(product_id);
                &&& old(self).has_product(product_id) ==> {
                    &&& caller != rec.product.creator ==> r == Err::<(), Error>(Error::NotCreator)
                    &&& caller == rec.product.creator && !(rec.product.status is Funded) ==> r
                        == Err::<(), Error>(Error::ProductNotFunded)
                    &&& caller == rec.product.creator && rec.product.status is Funded
                        && milestone_id >= rec.milestones@.len() ==> r == Err::<(), Error>(
                        Error::MilestoneNotFound,
                    )
                    &&& caller == rec.product.creator && rec.product.status is Funded
                        && milestone_id < rec.milestones@.len()
                        && rec.milestones@[milestone_id as int].completed ==> r == Err::<
                        (),
                        Error,
                    >(Error::MilestoneAlreadyCompleted)
                }
            }),
            r is Err ==> *final(self) == *old(self),
            r is Ok ==> {
                let i = product_id - 1;
                let rec = old(self).record_of(product_id);
                &&& final(self).admin == old(self).admin
                &&& final(self).next_product_id == old(self).next_product_id
                &&& final(self).products@.len() == old(self).products@.len()
                &&& (forall|k: int| 0 <= k < old(self).products@.len() && k != i
                    ==> final(self).products@[k] == old(self).products@[k])
                &&& final(self).products@[i].product == rec.product
                &&& final(self).products@[i].contributions == rec.contributions
                &&& final(self).products@[i].reward_tiers == rec.reward_tiers
                &&& final(self).products@[i].milestones@ == rec.milestones@.update(
                    milestone_id as int,
                    (Milestone { completed: true, ..rec.milestones@[milestone_id as int] }),
                )
            },
    {
        if product_id < 1 || product_id as usize > self.products.len() {
            return Err(Error::ProductNotFound);
        }
        let idx = (product_id - 1) as usize;
        if caller != self.products[idx].product.creator {
            return Err(Error::NotCreator);
        }
        if self.products[idx].product.status != ProductStatus::Funded {
            return Err(Error::ProductNotFunded);
        }
        if milestone_id as usize >= self.products[idx].milestones.len() {
            return Err(Error::MilestoneNotFound);
        }
        let mid = milestone_id as usize;
        if self.products[idx].milestones[mid].completed {
            return Err(Error::MilestoneAlreadyCompleted);
        }
        let rec = &mut self.products[idx];
        let m = &mut rec.milestones[mid];
        m.completed = true;
        proof {
            assert forall|k: int| 0 <= k < self.products@.len() implies (
                #[trigger] self.products@[k]).wf_at(k) by {
                assert(old(self).products@[k].wf_at(k));
            }
        }
        Ok(())
    }

    /// Releases funds on a fully funded product whose every milestone is
    /// completed; a product with no milestones qualifies vacuously. The
    /// product moves to the terminal `Completed` state. Any caller may
    /// trigger distribution once the product is ready. A rejected call
    /// changes nothing. The token transfer itself is the payment
    /// collaborator's job; this call only authorizes it.
    #[verifier::loop_isolation(false)]
    pub fn distribute_funds(&mut self, product_id: u32) -> (r: Result<(), Error>)
        requires
            old(self).wf(),
        ensures
            final(self).wf(),
            r is Ok <==> {
                let rec = old(self).record_of(product_id);
                &&& old(self).has_product(product_id)
                &&& rec.product.status is Funded
                &&& (forall|j: int| 0 <= j < rec.milestones@.len()
                    ==> (#[trigger] rec.milestones@[j]).completed)
            },
            !old(self).has_product(product_id) ==> r == Err::<(), Error>(Error::ProductNotFound),
            ({
                let rec = old(self).record_of(product_id);
                &&& old(self).has_product(product_id) ==> {
                    &&& !(rec.product.status is Funded) ==> r == Err::<(), Error>(
                        Error::ProductNotFunded,
                    )
                    &&& rec.product.status is Funded && (exists|j: int| 0 <= j
                        < rec.milestones@.len() && !(#[trigger] rec.milestones@[j]).completed)
                        ==> r == Err::<(), Error>(Error::MilestonesIncomplete)
                }
            }),
            r is Err ==> *final(self) == *old(self),
            r is Ok ==> {
                let i = product_id - 1;
                let rec = old(self).record_of(product_id);
                &&& final(self).admin == old(self).admin
                &&& final(self).next_product_id == old(self).next_product_id
                &&& final(self).products@.len() == old(self).products@.len()
                &&& (forall|k: int| 0 <= k < old(self).products@.len() && k != i
                    ==> final(self).products@[k] == old(self).products@[k])
                &&& final(self).products@[i].product == (Product {
                    status: ProductStatus::Completed,
                    ..rec.product
                })
                &&& final(self).products@[i].contributions == rec.contributions
                &&& final(self).products@[i].milestones == rec.milestones
                &&& final(self).products@[i].reward_tiers == rec.reward_tiers
            },
    {
        if product_id < 1 || product_id as usize > self.products.len() {
            return Err(Error::ProductNotFound);
        }
        let idx = (product_id - 1) as usize;
        if self.products[idx].product.status != ProductStatus::Funded {
            return Err(Error::ProductNotFunded);
        }
        let n = self.products[idx].milestones.len();
        for j in 0..n
            invariant
                forall|k: int| 0 <= k < j
                    ==> (#[trigger] self.products@[idx as int].milestones@[k]).completed,
        {
            if !self.products[idx].milestones[j].completed {
                return Err(Error::MilestonesIncomplete);
            }
        }
        let rec = &mut self.products[idx];
        rec.product.status = ProductStatus::Completed;
        proof {
            assert forall|k: int| 0 <= k < self.products@.len() implies (
                #[trigger] self.products@[k]).wf_at(k) by {
                assert(old(self).products@[k].wf_at(k));
            }
        }
        Ok(())
    }

    /// Fails a product whose deadline passed without the goal being reached,
    /// moving it from `Active` to the terminal `Failed` state and discarding
    /// its contribution list (each backer's funds are returned by the payment
    /// collaborator). A rejected call changes nothing.
    pub fn refund_contributors(&mut self, product_id: u32, now: u64) -> (r: Result<(), Error>)
        requires
            old(self).wf(),
        ensures
            final(self).wf(),
            r is Ok <==> {
                let p = old(self).record_of(product_id).product;
                &&& old(self).has_product(product_id)
                &&& p.status is Active
                &&& now >= p.deadline
            },
            !old(self).has_product(product_id) ==> r == Err::<(), Error>(Error::ProductNotFound),
            ({
                let p = old(self).record_of(product_id).product;
                &&& old(self).has_product(product_id) ==> {
                    &&& !(p.status is Active) ==> r == Err::<(), Error>(Error::ProductNotActive)
                    &&& p.status is Active && now < p.deadline ==> r == Err::<(), Error>(
                        Error::FundingPeriodNotEnded,
                    )
                }
            }),
            r is Err ==> *final(self) == *old(self),
            r is Ok ==> {
                let i = product_id - 1;
                let rec = old(self).record_of(product_id);
                &&& final(self).admin == old(self).admin
                &&& final(self).next_product_id == old(self).next_product_id
                &&& final(self).products@.len() == old(self).products@.len()
                &&& (forall|k: int| 0 <= k < old(self).products@.len() && k != i
                    ==> final(self).products@[k] == old(self).products@[k])
                &&& final(self).products@[i].product == (Product {
                    status: ProductStatus::Failed,
                    ..rec.product
                })
                &&& final(self).products@[i].contributions@ == Seq::<Contribution>::empty()
                &&& final(self).products@[i].milestones == rec.milestones
                &&& final(self).products@[i].reward_tiers == rec.reward_tiers
            },
    {
        if product_id < 1 || product_id as usize > self.products.len() {
            return Err(Error::ProductNotFound);
        }
        let idx = (product_id - 1) as usize;
        proof {
            assert(self.products@[idx as int].wf_at(idx as int));
        }
        if self.products[idx].product.status != ProductStatus::Active {
            return Err(Error::ProductNotActive);
        }
        if now < self.products[idx].product.deadline {
            return Err(Error::FundingPeriodNotEnded);
        }
        let rec = &mut self.products[idx];
        rec.product.status = ProductStatus::Failed;
        rec.contributions.clear();
        proof {
            assert forall|k: int| 0 <= k < self.products@.len() implies (
                #[trigger] self.products@[k]).wf_at(k) by {
                assert(old(self).products@[k].wf_at(k));
            }
        }
        Ok(())
    }

    /// The reward a backer of a completed product is entitled to: the tier
    /// with the highest `min_contribution` not exceeding the backer's
    /// cumulative contribution (the earliest such tier when several share
    /// that threshold). Succeeds exactly when the product exists, is
    /// `Completed`, the claimant made at least one contribution, and some
    /// tier qualifies; no tier is ever handed out by default. Reads only:
    /// recording the handed-out credential is the payment collaborator's
    /// job, and a repeated claim returns the same tier again.
    #[verifier::loop_isolation(false)]
    pub fn claim_reward(&self, claimant: u64, product_id: u32) -> (r: Result<RewardTier, Error>)
        requires
            self.wf(),
        ensures
            r is Ok <==> {
                let rec = self.record_of(product_id);
                let total = contributor_total(rec.contributions@, claimant) as u64;
                &&& self.has_product(product_id)
                &&& rec.product.status is Completed
                &&& has_contribution_from(rec.contributions@, claimant)
                &&& best_tier_index(rec.reward_tiers@, total) != -1
            },
            !self.has_product(product_id) ==> r == Err::<RewardTier, Error>(
                Error::ProductNotFound,
            ),
            ({
                let rec = self.record_of(product_id);
                let total = contributor_total(rec.contributions@, claimant) as u64;
                &&& self.has_product(product_id) ==> {
                    &&& !(rec.product.status is Completed) ==> r == Err::<RewardTier, Error>(
                        Error::ProductNotCompleted,
                    )
                    &&& rec.product.status is Completed && !has_contribution_from(
                        rec.contributions@,
                        claimant,
                    ) ==> r == Err::<RewardTier, Error>(Error::NoContributions)
                    &&& rec.product.status is Completed && has_contribution_from(
                        rec.contributions@,
                        claimant,
                    ) && best_tier_index(rec.reward_tiers@, total) == -1 ==> r == Err::<
                        RewardTier,
                        Error,
                    >(Error::NoEligibleTier)
                }
            }),
            r is Ok ==> {
                let rec = self.record_of(product_id);
                let total = contributor_total(rec.contributions@, claimant) as u64;
                r->Ok_0 == rec.reward_tiers@[best_tier_index(rec.reward_tiers@, total)]
            },
    {
        if product_id < 1 || product_id as usize > self.products.len() {
            return Err(Error::ProductNotFound);
        }
        let idx = (product_id - 1) as usize;
        proof {
            assert(self.products@[idx as int].wf_at(idx as int));
        }
        if self.products[idx].product.status != ProductStatus::Completed {
            return Err(Error::ProductNotCompleted);
        }
        let contribs = &self.products[idx].contributions;
        let n = contribs.len();
        let mut total: u64 = 0;
        let mut found = false;
        for j in 0..n
            invariant
                total == contributor_total(contribs@.subrange(0, j as int), claimant),
                found == has_contribution_from(contribs@.subrange(0, j as int), claimant),
        {
            proof {
                crate::types::lemma_contributor_total_prefix(contribs@, claimant, j as int);
                crate::types::lemma_contributor_total_le_sum(
                    contribs@.subrange(0, j as int + 1),
                    claimant,
                );
                crate::types::lemma_sum_prefix_le(contribs@, j as int + 1);
                assert(has_contribution_from(contribs@.subrange(0, j as int + 1), claimant)
                    == (found || contribs@[j as int].contributor == claimant)) by {
                    let t = contribs@.subrange(0, j as int + 1);
                    if found || contribs@[j as int].contributor == claimant {
                        if contribs@[j as int].contributor == claimant {
                            assert(t[j as int].contributor == claimant);
                        } else {
                            let w = choose|k: int| 0 <= k < j
                                && contribs@.subrange(0, j as int)[k].contributor == claimant;
                            assert(t[w].contributor == claimant);
                        }
                    } else {
                        assert forall|k: int| 0 <= k < t.len() implies t[k].contributor
                            != claimant by {
                            if k < j {
                                assert(contribs@.subrange(0, j as int)[k] == t[k]);
                            }
                        }
                    }
                }
            }
            if contribs[j].contributor == claimant {
                total = total + contribs[j].amount;
                found = true;
            }
        }
        proof {
            assert(contribs@.subrange(0, n as int) =~= contribs@);
        }
        if !found {
            return Err(Error::NoContributions);
        }
        let tiers = &self.products[idx].reward_tiers;
        let m = tiers.len();
        let mut best: usize = 0;
        let mut have_best = false;
        for j in 0..m
            invariant
                have_best ==> best < j,
                have_best ==> best as int == best_tier_index(
                    tiers@.subrange(0, j as int),
                    total,
                ),
                !have_best ==> best_tier_index(tiers@.subrange(0, j as int), total) == -1,
        {
            proof {
                assert(tiers@.subrange(0, j as int + 1).drop_last() =~= tiers@.subrange(
                    0,
                    j as int,
                ));
                assert(tiers@.subrange(0, j as int + 1).last() == tiers@[j as int]);
            }
            if tiers[j].min_contribution <= total && (!have_best || tiers[j].min_contribution
                > tiers[best].min_contribution) {
                best = j;
                have_best = true;
            }
        }
        proof {
            assert(tiers@.subrange(0, m as int) =~= tiers@);
        }
        if !have_best {
            return Err(Error::NoEligibleTier);
        }
        Ok(tiers[best].clone())
    }

    /// The product with this id, or `ProductNotFound` if none was ever
    /// created. Unlike the list accessors below, a missing product is an
    /// error here.
    pub fn get_product(&self, product_id: u32) -> (r: Result<Product, Error>)
        ensures
            r is Ok <==> self.has_product(product_id),
            r is Ok ==> r->Ok_0 == self.record_of(product_id).product,
            !self.has_product(product_id) ==> r == Err::<Product, Error>(Error::ProductNotFound),
    {
        if product_id < 1 || product_id as usize > self.products.len() {
            return Err(Error::ProductNotFound);
        }
        let idx = (product_id - 1) as usize;
        Ok(self.products[idx].product.clone())
    }

    /// The product's contributions in call order; empty when the product
    /// does not exist or nothing was contributed (or the product failed and
    /// its list was discarded).
    #[verifier::loop_isolation(false)]
    pub fn get_contributions(&self, product_id: u32) -> (r: Vec<Contribution>)
        ensures
            self.has_product(product_id) ==> r@ == self.record_of(product_id).contributions@,
            !self.has_product(product_id) ==> r@ == Seq::<Contribution>::empty(),
    {
        let mut out: Vec<Contribution> = Vec::new();
        if product_id >= 1 && product_id as usize <= self.products.len() {
            let idx = (product_id - 1) as usize;
            let list = &self.products[idx].contributions;
            let n = list.len();
            for j in 0..n
                invariant
                    out@ == list@.subrange(0, j as int),
            {
                proof {
                    assert(list@.subrange(0, j as int + 1) =~= list@.subrange(0, j as int).push(
                        list@[j as int],
                    ));
                }
                out.push(list[j]);
            }
            proof {
                assert(list@.subrange(0, n as int) =~= list@);
            }
        }
        out
    }

    /// The product's milestones in creation order; empty when the product
    /// does not exist.
    #[verifier::loop_isolation(false)]
    pub fn get_milestones(&self, product_id: u32) -> (r: Vec<Milestone>)
        ensures
            self.has_product(product_id) ==> r@ == self.record_of(product_id).milestones@,
            !self.has_product(product_id) ==> r@ == Seq::<Milestone>::empty(),
    {
        let mut out: Vec<Milestone> = Vec::new();
        if product_id >= 1 && product_id as usize <= self.products.len() {
            let idx = (product_id - 1) as usize;
            let list = &self.products[idx].milestones;
            let n = list.len();
            for j in 0..n
                invariant
                    out@ == list@.subrange(0, j as int),
            {
                proof {
                    assert(list@.subrange(0, j as int + 1) =~= list@.subrange(0, j as int).push(
                        list@[j as int],
                    ));
                }
                out.push(list[j].clone());
            }
            proof {
                assert(list@.subrange(0, n as int) =~= list@);
            }
        }
        out
    }

    /// The product's reward tiers in creation order; empty when the product
    /// does not exist.
    #[verifier::loop_isolation(false)]
    pub fn get_reward_tiers(&self, product_id: u32) -> (r: Vec<RewardTier>)
        ensures
            self.has_product(product_id) ==> r@ == self.record_of(product_id).reward_tiers@,
            !self.has_product(product_id) ==> r@ == Seq::<RewardTier>::empty(),
    {
        let mut out: Vec<RewardTier> = Vec::new();
        if product_id >= 1 && product_id as usize <= self.products.len() {
            let idx = (product_id - 1) as usize;
            let list = &self.products[idx].reward_tiers;
            let n = list.len();
            for j in 0..n
                invariant
                    out@ == list@.subrange(0, j as int),
            {
                proof {
                    assert(list@.subrange(0, j as int + 1) =~= list@.subrange(0, j as int).push(
                        list@[j as int],
                    ));
                }
                out.push(list[j].clone());
            }
            proof {
                assert(list@.subrange(0, n as int) =~= list@);
            }
        }
        out
    }
}

} // verus!
