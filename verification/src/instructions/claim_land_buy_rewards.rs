use vstd::prelude::*;
use crate::errors::BillionError;
use crate::identity::Identity;
use crate::rewards::{settle, settled, settlement};
use crate::state::grid_config::GridConfig;
use crate::state::parcel_info::ParcelInfo;

verus! {

/// Number of bytes of asset data that have to be there for an owner to be
/// read: one byte of kind, then the owner's thirty-two.
pub const OWNER_END: usize = 33;

/// What a reward claim is made with: the claimant, the asset the claim
/// rests on, and the addresses that came with the request.
#[derive(Clone, Debug, PartialEq, Eq)]
pub struct ClaimLandBuyRewards {
    /// Who claims.
    pub claimer: Identity,
    /// Address of the asset that was presented.
    pub asset: Identity,
    /// The data stored for that asset.
    pub asset_data: Vec<u8>,
    /// Address of the reward pool that was presented.
    pub land_buy_reward_pool: Identity,
    /// The token that was presented.
    pub token_mint: Identity,
}

impl ClaimLandBuyRewards {
    /// Why the presented state does not belong to the parcel or the grid,
    /// or `None` where it does. The asset is looked at first, then the
    /// reward pool, then the token.
    pub open spec fn mismatch(&self, grid_config: &GridConfig, parcel_info: &ParcelInfo) -> Option<
        BillionError,
    > {
        if self.asset@ != parcel_info.asset@ {
            Some(BillionError::AssetMismatch)
        } else if self.land_buy_reward_pool@ != grid_config.land_buy_reward_pool@ {
            Some(BillionError::InvalidRewardPool)
        } else if self.token_mint@ != grid_config.token_mint@ {
            Some(BillionError::Unauthorized)
        } else {
            None
        }
    }

    /// Checks that the presented state belongs to the parcel and the grid.
    pub fn check(&self, grid_config: &GridConfig, parcel_info: &ParcelInfo) -> (result: Result<
        (),
        BillionError,
    >)
        ensures
            match result {
                Ok(()) => self.mismatch(grid_config, parcel_info) is None,
                Err(e) => self.mismatch(grid_config, parcel_info) == Some(e),
            },
    {
        if self.asset != parcel_info.asset {
            return Err(BillionError::AssetMismatch);
        }
        if self.land_buy_reward_pool != grid_config.land_buy_reward_pool {
            return Err(BillionError::InvalidRewardPool);
        }
        if self.token_mint != grid_config.token_mint {
            return Err(BillionError::Unauthorized);
        }
        Ok(())
    }
}

/// The owner that an asset's data names: the thirty-two bytes after the
/// first. Data of fewer than thirty-three bytes names none.
pub open spec fn core_asset_owner(asset_data: Seq<u8>) -> Option<Seq<u8>> {
    if asset_data.len() < 33 {
        None
    } else {
        Some(asset_data.subrange(1, 33))
    }
}

/// Reads the owner out of an asset's data.
///
/// The data begins with one byte that tells the kind of record; the owner's
/// thirty-two bytes follow it. Whatever comes after them is not looked at.
pub fn get_core_asset_owner(asset_data: &[u8]) -> (result: Result<Identity, BillionError>)
    ensures
        match result {
            Ok(owner) => core_asset_owner(asset_data@) == Some(owner@),
            Err(e) => e == BillionError::InvalidCoreAsset && core_asset_owner(asset_data@) is None,
        },
{
    if asset_data.len() < OWNER_END {
        return Err(BillionError::InvalidCoreAsset);
    }
    let mut owner_bytes: [u8; 32] = [0u8;32];
    let mut i: usize = 0;
    while i < 32
        invariant
            i <= 32,
            asset_data@.len() >= 33,
            forall|k: int| 0 <= k < i ==> owner_bytes[k] == asset_data@[k + 1],
        decreases 32 - i,
    {
        owner_bytes[i] = asset_data[i + 1];
        i += 1;
    }
    let owner = Identity::new_from_array(owner_bytes);
    assert(owner@ =~= asset_data@.subrange(1, 33));
    Ok(owner)
}

/// The outcome of a reward claim: the amount to pay out of the pool, or why
/// nothing is paid.
///
/// The asset's data has to name an owner, and the owner has to be the
/// claimant; then the parcel settles against the accumulator as
/// [`settlement`] says.
pub open spec fn reward_claim(
    accounts: ClaimLandBuyRewards,
    grid_config: GridConfig,
    parcel_info: ParcelInfo,
) -> Result<u64, BillionError> {
    match core_asset_owner(accounts.asset_data@) {
        None => Err(BillionError::InvalidCoreAsset),
        Some(owner) => if owner != accounts.claimer@ {
            Err(BillionError::NotOwner)
        } else {
            settlement(grid_config.land_buy_rewards_per_block, parcel_info)
        },
    }
}

/// Pays a parcel's owner what the parcel has earned since it last settled.
///
/// On success the amount to transfer from the pool to the claimant is
/// returned and the record's checkpoint has moved up to the accumulator; on
/// failure the record is as it was.
pub fn handler(
    accounts: &ClaimLandBuyRewards,
    grid_config: &GridConfig,
    parcel_info: &mut ParcelInfo,
) -> (result: Result<u64, BillionError>)
    ensures
        result == reward_claim(*accounts, *grid_config, *old(parcel_info)),
        result is Ok ==> *final(parcel_info) == settled(
            grid_config.land_buy_rewards_per_block,
            *old(parcel_info),
        ),
        result is Err ==> *final(parcel_info) == *old(parcel_info),
{
    let owner = get_core_asset_owner(accounts.asset_data.as_slice())?;
    if !(owner == accounts.claimer) {
        return Err(BillionError::NotOwner);
    }
    settle(grid_config.land_buy_rewards_per_block, parcel_info)
}

} // verus!
