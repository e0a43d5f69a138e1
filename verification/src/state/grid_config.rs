use vstd::prelude::*;
use crate::identity::Identity;

verus! {

/// Largest reward share that leaves something to burn: all of the payment,
/// in basis points.
pub const MAX_SHARE_BPS: u16 = 10_000;

/// Largest number of ring thresholds that a configuration is meant to hold.
pub const MAX_RING_THRESHOLDS: usize = 10;

/// Grid-wide parameters and running totals.
#[derive(Clone, Debug, PartialEq, Eq)]
pub struct GridConfig {
    /// Who may administer the grid.
    pub authority: Identity,
    /// The token that purchases are paid in.
    pub token_mint: Identity,
    /// Address of the grid's ownership table.
    pub block_map: Identity,
    /// Collection that parcel assets are minted into; unset until configured.
    pub collection: Identity,
    /// Price of one cell.
    pub price_per_block: u64,
    /// Everything burned by purchases so far.
    pub total_burned: u64,
    /// Burn totals at which rings unlock: ring `i + 1` at `ring_thresholds[i]`.
    pub ring_thresholds: Vec<u64>,
    /// Identifier that the next parcel will get; 0 stands for "unclaimed".
    pub next_parcel_id: u16,
    /// Prefix of every parcel's metadata address.
    pub uri_base: String,
    /// Whether the authority may still hand out parcels for free.
    pub seeding_enabled: bool,
    /// Bump seed of the configuration's address.
    pub bump: u8,
    /// Global accumulator of land buy rewards per block, scaled by 10^9.
    pub land_buy_rewards_per_block: u128,
    /// Sum of all blocks in claimed parcels.
    pub total_claimed_blocks: u32,
    /// Basis points of every payment that go to land owners (2000 = 20%).
    pub land_owners_reward_share_bps: u16,
    /// Token account holding claimable land buy rewards.
    pub land_buy_reward_pool: Identity,
}

/// Whether a list of thresholds never decreases.
pub open spec fn ascending(thresholds: Seq<u64>) -> bool {
    forall|i: int, j: int| 0 <= i <= j < thresholds.len() ==> thresholds[i] <= thresholds[j]
}

/// Whether a reward share and a list of thresholds may be configured: the
/// share is at most the whole, the thresholds are at most ten and never
/// decrease.
pub open spec fn parameters_in_order(share_bps: u16, thresholds: Seq<u64>) -> bool {
    &&& share_bps <= MAX_SHARE_BPS
    &&& thresholds.len() <= MAX_RING_THRESHOLDS
    &&& ascending(thresholds)
}

/// Checks that a reward share is at most the whole.
pub fn share_in_order(share_bps: u16) -> (ok: bool)
    ensures
        ok == (share_bps <= MAX_SHARE_BPS),
{
    share_bps <= MAX_SHARE_BPS
}

/// Checks that thresholds are at most ten and never decrease.
pub fn thresholds_in_order(thresholds: &[u64]) -> (ok: bool)
    ensures
        ok == (thresholds@.len() <= MAX_RING_THRESHOLDS && ascending(thresholds@)),
{
    if thresholds.len() > MAX_RING_THRESHOLDS {
        return false;
    }
    if thresholds.len() <= 1 {
        return true;
    }
    let mut i: usize = 1;
    while i < thresholds.len()
        invariant
            1 <= i <= thresholds@.len(),
            forall|a: int, b: int| 0 <= a <= b < i ==> thresholds@[a] <= thresholds@[b],
        decreases thresholds@.len() - i,
    {
        if thresholds[i - 1] > thresholds[i] {
            return false;
        }
        assert forall|a: int, b: int| 0 <= a <= b < i + 1 implies thresholds@[a]
            <= thresholds@[b] by {
            if b == i && a < i {
                assert(thresholds@[a] <= thresholds@[i - 1]);
            }
        }
        i += 1;
    }
    true
}

impl GridConfig {
    /// What every configuration satisfies that was set up and changed by the
    /// operations of this crate: a reward share of at most all of a payment,
    /// at most ten thresholds that never decrease, and a next parcel
    /// identifier that is not the "unclaimed" mark.
    ///
    /// Setting up a grid establishes it, and changing the configuration,
    /// buying and handing out keep it. The fields are open, so the
    /// operations that read a configuration do not take it for granted:
    /// each states what it does with any configuration.
    pub open spec fn well_formed(&self) -> bool {
        &&& parameters_in_order(self.land_owners_reward_share_bps, self.ring_thresholds@)
        &&& self.next_parcel_id >= 1
    }

    /// Whether an asset collection has been configured.
    pub open spec fn collection_is_set(&self) -> bool {
        !self.collection.is_unset()
    }
}

} // verus!
