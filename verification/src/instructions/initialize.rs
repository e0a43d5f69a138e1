use vstd::prelude::*;
use crate::identity::Identity;
use crate::errors::BillionError;
use crate::state::grid_config::{
    parameters_in_order, share_in_order, thresholds_in_order, GridConfig,
};

verus! {

/// What a grid is set up with: who will administer it, and the addresses of
/// the state that belongs to it.
#[derive(Clone, Copy, Debug, PartialEq, Eq)]
pub struct Initialize {
    /// Who sets the grid up, and administers it from then on.
    pub authority: Identity,
    /// The token that purchases will be paid in.
    pub token_mint: Identity,
    /// Address of the grid's ownership table.
    pub block_map: Identity,
    /// Address of the pool that will hold the land owners' rewards.
    pub land_buy_reward_pool: Identity,
    /// Bump seed of the configuration's address.
    pub grid_config_bump: u8,
}

/// Sets up the configuration of a new grid.
///
/// Fails with `InvalidConfig`, and only then, where the reward share is
/// above 10000 or the thresholds are more than ten or decrease. Otherwise
/// the configuration holds the price, thresholds, address prefix and share
/// that were given: nothing has been burned or claimed, the accumulator
/// stands at zero, the first parcel will get identifier 1, seeding is
/// enabled and no collection is configured.
pub fn handler(
    accounts: &Initialize,
    price_per_block: u64,
    ring_thresholds: Vec<u64>,
    uri_base: String,
    land_owners_reward_share_bps: u16,
) -> (result: Result<GridConfig, BillionError>)
    ensures
        match result {
            Err(e) => e == BillionError::InvalidConfig && !parameters_in_order(
                land_owners_reward_share_bps,
                ring_thresholds@,
            ),
            Ok(config) => {
                &&& parameters_in_order(land_owners_reward_share_bps, ring_thresholds@)
                &&& config.authority == accounts.authority
                &&& config.token_mint == accounts.token_mint
                &&& config.block_map == accounts.block_map
                &&& !config.collection_is_set()
                &&& config.price_per_block == price_per_block
                &&& config.total_burned == 0
                &&& config.ring_thresholds == ring_thresholds
                &&& config.next_parcel_id == 1
                &&& config.uri_base == uri_base
                &&& config.seeding_enabled
                &&& config.bump == accounts.grid_config_bump
                &&& config.land_buy_rewards_per_block == 0
                &&& config.total_claimed_blocks == 0
                &&& config.land_owners_reward_share_bps == land_owners_reward_share_bps
                &&& config.land_buy_reward_pool == accounts.land_buy_reward_pool
                &&& config.well_formed()
            },
        },
{
    if !share_in_order(land_owners_reward_share_bps) {
        return Err(BillionError::InvalidConfig);
    }
    if !thresholds_in_order(ring_thresholds.as_slice()) {
        return Err(BillionError::InvalidConfig);
    }
    Ok(
        GridConfig {
            authority: accounts.authority,
            token_mint: accounts.token_mint,
            block_map: accounts.block_map,
            collection: Identity::default(),
            price_per_block,
            total_burned: 0,
            ring_thresholds,
            next_parcel_id: 1,
            uri_base,
            seeding_enabled: true,
            bump: accounts.grid_config_bump,
            land_buy_rewards_per_block: 0,
            total_claimed_blocks: 0,
            land_owners_reward_share_bps,
            land_buy_reward_pool: accounts.land_buy_reward_pool,
        },
    )
}

} // verus!
