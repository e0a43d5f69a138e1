use vstd::prelude::*;
use crate::errors::BillionError;
use crate::identity::Identity;
use crate::state::grid_config::{
    ascending, share_in_order, thresholds_in_order, GridConfig, MAX_RING_THRESHOLDS, MAX_SHARE_BPS,
};

verus! {

/// Who asks for a change of the configuration.
#[derive(Clone, Copy, Debug, PartialEq, Eq)]
pub struct UpdateConfig {
    /// Who asks.
    pub authority: Identity,
}

impl UpdateConfig {
    /// `Unauthorized` where the caller is not the grid's authority.
    pub open spec fn mismatch(&self, grid_config: &GridConfig) -> Option<BillionError> {
        if self.authority@ != grid_config.authority@ {
            Some(BillionError::Unauthorized)
        } else {
            None
        }
    }

    /// Checks that the caller is the grid's authority.
    pub fn check(&self, grid_config: &GridConfig) -> (result: Result<(), BillionError>)
        ensures
            match result {
                Ok(()) => self.mismatch(grid_config) is None,
                Err(e) => self.mismatch(grid_config) == Some(e),
            },
    {
        if self.authority != grid_config.authority {
            return Err(BillionError::Unauthorized);
        }
        Ok(())
    }
}

/// The new value where one is given, the old one where none is.
pub open spec fn replaced<T>(old_value: T, new_value: Option<T>) -> T {
    match new_value {
        Some(value) => value,
        None => old_value,
    }
}

/// The configuration after a change: each parameter that is given takes
/// its new value, everything else stays.
pub open spec fn config_after_update(
    grid_config: GridConfig,
    price_per_block: Option<u64>,
    ring_thresholds: Option<Vec<u64>>,
    uri_base: Option<String>,
    seeding_enabled: Option<bool>,
    collection: Option<Identity>,
    land_owners_reward_share_bps: Option<u16>,
    total_burned: Option<u64>,
) -> GridConfig {
    GridConfig {
        price_per_block: replaced(grid_config.price_per_block, price_per_block),
        ring_thresholds: replaced(grid_config.ring_thresholds, ring_thresholds),
        uri_base: replaced(grid_config.uri_base, uri_base),
        seeding_enabled: replaced(grid_config.seeding_enabled, seeding_enabled),
        collection: replaced(grid_config.collection, collection),
        land_owners_reward_share_bps: replaced(
            grid_config.land_owners_reward_share_bps,
            land_owners_reward_share_bps,
        ),
        total_burned: replaced(grid_config.total_burned, total_burned),
        ..grid_config
    }
}

/// Why a change is refused, or `None` where it is made: a share that is
/// given has to be at most the whole, and thresholds that are given have to
/// be at most ten and never decrease.
pub open spec fn update_refusal(
    ring_thresholds: Option<Vec<u64>>,
    land_owners_reward_share_bps: Option<u16>,
) -> Option<BillionError> {
    if land_owners_reward_share_bps matches Some(share) && share > MAX_SHARE_BPS {
        Some(BillionError::InvalidConfig)
    } else if ring_thresholds matches Some(thresholds) && !(thresholds@.len()
        <= MAX_RING_THRESHOLDS && ascending(thresholds@)) {
        Some(BillionError::InvalidConfig)
    } else {
        None
    }
}

/// Changes the parameters that are given and leaves the others alone.
///
/// Fails with `InvalidConfig`, and changes nothing, where a share above
/// 10000 is given, or thresholds that are more than ten or that decrease.
/// Whether the caller is the authority is [`UpdateConfig::check`].
pub fn handler(
    grid_config: &mut GridConfig,
    price_per_block: Option<u64>,
    ring_thresholds: Option<Vec<u64>>,
    uri_base: Option<String>,
    seeding_enabled: Option<bool>,
    collection: Option<Identity>,
    land_owners_reward_share_bps: Option<u16>,
    total_burned: Option<u64>,
) -> (result: Result<(), BillionError>)
    ensures
        match update_refusal(ring_thresholds, land_owners_reward_share_bps) {
            Some(e) => result == Err::<(), BillionError>(e) && *final(grid_config) == *old(
                grid_config,
            ),
            None => result is Ok && *final(grid_config) == config_after_update(
                *old(grid_config),
                price_per_block,
                ring_thresholds,
                uri_base,
                seeding_enabled,
                collection,
                land_owners_reward_share_bps,
                total_burned,
            ),
        },
{
    if let Some(share) = land_owners_reward_share_bps {
        if !share_in_order(share) {
            return Err(BillionError::InvalidConfig);
        }
    }
    if let Some(thresholds) = &ring_thresholds {
        if !thresholds_in_order(thresholds.as_slice()) {
            return Err(BillionError::InvalidConfig);
        }
    }
    if let Some(price) = price_per_block {
        grid_config.price_per_block = price;
    }
    if let Some(thresholds) = ring_thresholds {
        grid_config.ring_thresholds = thresholds;
    }
    if let Some(uri) = uri_base {
        grid_config.uri_base = uri;
    }
    if let Some(enabled) = seeding_enabled {
        grid_config.seeding_enabled = enabled;
    }
    if let Some(coll) = collection {
        grid_config.collection = coll;
    }
    if let Some(bps) = land_owners_reward_share_bps {
        grid_config.land_owners_reward_share_bps = bps;
    }
    if let Some(burned) = total_burned {
        grid_config.total_burned = burned;
    }
    Ok(())
}

/// A change that is made keeps a well-formed configuration well formed.
pub proof fn lemma_update_keeps_config_well_formed(
    grid_config: GridConfig,
    price_per_block: Option<u64>,
    ring_thresholds: Option<Vec<u64>>,
    uri_base: Option<String>,
    seeding_enabled: Option<bool>,
    collection: Option<Identity>,
    land_owners_reward_share_bps: Option<u16>,
    total_burned: Option<u64>,
)
    requires
        grid_config.well_formed(),
        update_refusal(ring_thresholds, land_owners_reward_share_bps) is None,
    ensures
        config_after_update(
            grid_config,
            price_per_block,
            ring_thresholds,
            uri_base,
            seeding_enabled,
            collection,
            land_owners_reward_share_bps,
            total_burned,
        ).well_formed(),
{
}

} // verus!
