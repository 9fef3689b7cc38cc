//! Laws of the lifecycle engine: properties that relate several entry points
//! or hold of every reachable state, proved from the engine's invariant.

use vstd::prelude::*;

use crate::engine::LifecycleEngine;
use crate::types::{best_tier_index, contributor_total, lemma_best_tier_index_props, sum_amounts};

verus! {

/// Law: product ids are assigned densely starting at 1 and strictly increase
/// with the order of creation.
pub proof fn lemma_product_ids_dense(e: LifecycleEngine)
    requires
        e.wf(),
    ensures
        forall|i: int| 0 <= i < e.products@.len()
            ==> (#[trigger] e.products@[i]).product.id == i + 1,
        forall|i: int, j: int| 0 <= i < j < e.products@.len()
            ==> e.products@[i].product.id < e.products@[j].product.id,
{
}

/// Law: as long as a product has not been refunded, its `total_funded` is
/// exactly the sum of all contributions successfully recorded for it, and
/// never exceeds its funding goal.
pub proof fn lemma_total_funded_is_sum(e: LifecycleEngine, product_id: u32)
    requires
        e.wf(),
        e.has_product(product_id),
        !(e.record_of(product_id).product.status is Failed),
    ensures
        e.record_of(product_id).product.total_funded == sum_amounts(
            e.record_of(product_id).contributions@,
        ),
        e.record_of(product_id).product.total_funded <= e.record_of(
            product_id,
        ).product.funding_goal,
{
    assert(e.products@[product_id - 1].wf_at(product_id - 1));
}

/// Law: a product has reached the `Funded` state (or moved on to
/// `Completed`) exactly when its total funding equals its goal. A product
/// can never stand at its goal while still `Active`, nor beyond it in any
/// state: the contribution that would overfill is rejected, not clamped.
pub proof fn lemma_funded_iff_goal_met(e: LifecycleEngine, product_id: u32)
    requires
        e.wf(),
        e.has_product(product_id),
    ensures
        (e.record_of(product_id).product.status is Funded || e.record_of(
            product_id,
        ).product.status is Completed) <==> e.record_of(product_id).product.total_funded
            == e.record_of(product_id).product.funding_goal,
        e.record_of(product_id).product.total_funded <= e.record_of(
            product_id,
        ).product.funding_goal,
{
    assert(e.products@[product_id - 1].wf_at(product_id - 1));
}

/// Law: reward selection picks the highest-threshold tier not exceeding the
/// backer's cumulative contribution — never a lower tier while a higher one
/// qualifies, and never any tier when none qualifies. Among tiers sharing
/// the winning threshold, the earliest wins. `claim_reward`'s contract hands
/// out exactly the tier at `best_tier_index`.
pub proof fn lemma_reward_selection(e: LifecycleEngine, product_id: u32, claimant: u64)
    requires
        e.wf(),
        e.has_product(product_id),
    ensures
        ({
            let tiers = e.record_of(product_id).reward_tiers@;
            let total = contributor_total(e.record_of(product_id).contributions@, claimant) as u64;
            let b = best_tier_index(tiers, total);
            &&& -1 <= b < tiers.len()
            &&& b == -1 <==> (forall|j: int| 0 <= j < tiers.len()
                ==> (#[trigger] tiers[j]).min_contribution > total)
            &&& b != -1 ==> {
                &&& tiers[b].min_contribution <= total
                &&& (forall|j: int| 0 <= j < tiers.len() && (#[trigger] tiers[j]).min_contribution
                    <= total ==> tiers[j].min_contribution <= tiers[b].min_contribution)
                &&& (forall|j: int| 0 <= j < b && (#[trigger] tiers[j]).min_contribution <= total
                    ==> tiers[j].min_contribution < tiers[b].min_contribution)
            }
        }),
{
    let tiers = e.record_of(product_id).reward_tiers@;
    let total = contributor_total(e.record_of(product_id).contributions@, claimant) as u64;
    lemma_best_tier_index_props(tiers, total);
}

} // verus!
