//! A grid of one hundred by one hundred cells that are sold in rectangles.
//!
//! Which cells can be bought depends on how much has been burned so far;
//! part of every price goes to those who already own cells, in proportion
//! to what they own. The operations below are the whole surface: each is
//! one transaction, which either goes through as a whole or changes
//! nothing. An operation takes the state that it changes by exclusive
//! reference: whoever calls it holds that state for the length of the
//! transaction, and nobody sees it half changed. The operations decide and
//! keep the books. Moving tokens, minting assets and storing state is up to
//! the caller; what is to be moved and minted is in what the operations
//! return.

use vstd::prelude::*;

pub mod errors;
pub mod identity;
pub mod instructions;
pub mod ledger;
pub mod metadata;
pub mod registry;
pub mod rewards;
pub mod state;
pub mod utils;

use crate::errors::BillionError;
use crate::identity::Identity;
use crate::instructions::admin_close_parcel_info::AdminCloseParcelInfo;
use crate::instructions::admin_mint::{seeding_made, AdminMint, AdminMintReceipt};
use crate::instructions::admin_purge::{lamports_after_purge, purge_plan, AdminPurge, PurgeStep};
use crate::instructions::admin_transfer_nft_collection_authority::{
    AdminTransferNftCollectionAuthority, AuthorityTransfer,
};
use crate::instructions::claim_land_buy_rewards::{reward_claim, ClaimLandBuyRewards};
use crate::instructions::claim_parcel::{purchase_made, ClaimParcel, ClaimReceipt};
use crate::instructions::initialize::Initialize;
use crate::instructions::update_config::{config_after_update, update_refusal, UpdateConfig};
use crate::instructions::update_parcel_metadata::{MetadataUpdate, UpdateParcelMetadata};
use crate::rewards::settled;
use crate::state::block_map::{BlockMap, TOTAL_BLOCKS};
use crate::state::grid_config::{parameters_in_order, GridConfig};
use crate::state::parcel_info::ParcelInfo;

verus! {

/// Sets up the grid's ownership table: every cell unclaimed.
pub fn create_block_map() -> (block_map: BlockMap)
    ensures
        forall|i: int| 0 <= i < TOTAL_BLOCKS ==> block_map@[i] == 0,
{
    instructions::create_block_map::handler()
}

/// Sets up the configuration of a new grid.
///
/// Fails with `InvalidConfig`, and only then, where the reward share is
/// above 10000 or the thresholds are more than ten or decrease. Otherwise
/// the configuration is the one that [`instructions::initialize::handler`]
/// describes, and it is well formed.
pub fn initialize(
    accounts: &Initialize,
    price_per_block: u64,
    ring_thresholds: Vec<u64>,
    uri_base: String,
    land_owners_reward_share_bps: u16,
) -> (result: Result<GridConfig, BillionError>)
    ensures
        match result {
            Err(e) => e == BillionError::InvalidConfig && !parameters_in_order(
                land_owners_reward_share_bps,
                ring_thresholds@,
            ),
            Ok(config) => {
                &&& parameters_in_order(land_owners_reward_share_bps, ring_thresholds@)
                &&& config.authority == accounts.authority
                &&& config.token_mint == accounts.token_mint
                &&& config.block_map == accounts.block_map
                &&& !config.collection_is_set()
                &&& config.price_per_block == price_per_block
                &&& config.total_burned == 0
                &&& config.ring_thresholds == ring_thresholds
                &&& config.next_parcel_id == 1
                &&& config.uri_base == uri_base
                &&& config.seeding_enabled
                &&& config.bump == accounts.grid_config_bump
                &&& config.land_buy_rewards_per_block == 0
                &&& config.total_claimed_blocks == 0
                &&& config.land_owners_reward_share_bps == land_owners_reward_share_bps
                &&& config.land_buy_reward_pool == accounts.land_buy_reward_pool
                &&& config.well_formed()
            },
        },
{
    instructions::initialize::handler(
        accounts,
        price_per_block,
        ring_thresholds,
        uri_base,
        land_owners_reward_share_bps,
    )
}

/// Changes the configuration, for the authority and for nobody else.
///
/// Fails with `Unauthorized` where the caller is not the authority, and
/// with `InvalidConfig` where a share above 10000 is given, or thresholds
/// that are more than ten or that decrease; nothing has changed then.
/// Otherwise each parameter that is given takes its new value.
pub fn update_config(
    accounts: &UpdateConfig,
    grid_config: &mut GridConfig,
    price_per_block: Option<u64>,
    ring_thresholds: Option<Vec<u64>>,
    uri_base: Option<String>,
    seeding_enabled: Option<bool>,
    collection: Option<Identity>,
    land_owners_reward_share_bps: Option<u16>,
    total_burned: Option<u64>,
) -> (result: Result<(), BillionError>)
    ensures
        match accounts.mismatch(old(grid_config)) {
            Some(e) => result == Err::<(), BillionError>(e) && *final(grid_config) == *old(
                grid_config,
            ),
            None => match update_refusal(ring_thresholds, land_owners_reward_share_bps) {
                Some(e) => result == Err::<(), BillionError>(e) && *final(grid_config) == *old(
                    grid_config,
                ),
                None => result is Ok && *final(grid_config) == config_after_update(
                    *old(grid_config),
                    price_per_block,
                    ring_thresholds,
                    uri_base,
                    seeding_enabled,
                    collection,
                    land_owners_reward_share_bps,
                    total_burned,
                ),
            },
        },
{
    accounts.check(grid_config)?;
    instructions::update_config::handler(
        grid_config,
        price_per_block,
        ring_thresholds,
        uri_base,
        seeding_enabled,
        collection,
        land_owners_reward_share_bps,
        total_burned,
    )
}

/// Buys a rectangle of cells.
///
/// Where the presented state does not belong to the grid the purchase fails
/// as [`ClaimParcel::mismatch`] says and changes nothing. Otherwise it is
/// made or refused as [`purchase_made`] says.
pub fn claim_parcel(
    accounts: &ClaimParcel,
    grid_config: &mut GridConfig,
    block_map: &mut BlockMap,
    x: u8,
    y: u8,
    width: u8,
    height: u8,
) -> (result: Result<ClaimReceipt, BillionError>)
    ensures
        match accounts.mismatch(old(grid_config)) {
            Some(e) => {
                &&& result matches Err(refusal)
                &&& refusal == e
                &&& *final(grid_config) == *old(grid_config)
                &&& *final(block_map) == *old(block_map)
            },
            None => purchase_made(
                *accounts,
                *old(grid_config),
                *old(block_map),
                x,
                y,
                width,
                height,
                result,
                *final(grid_config),
                *final(block_map),
            ),
        },
{
    accounts.check(grid_config)?;
    instructions::claim_parcel::handler(accounts, grid_config, block_map, x, y, width, height)
}

/// Hands a rectangle of cells to a recipient, for the authority and for
/// nobody else.
///
/// Where the request is not the authority's or does not belong to the grid
/// it fails as [`AdminMint::mismatch`] says and changes nothing. Otherwise
/// the hand-out is made or refused as [`seeding_made`] says.
pub fn admin_mint(
    accounts: &AdminMint,
    grid_config: &mut GridConfig,
    block_map: &mut BlockMap,
    x: u8,
    y: u8,
    width: u8,
    height: u8,
) -> (result: Result<AdminMintReceipt, BillionError>)
    ensures
        match accounts.mismatch(old(grid_config)) {
            Some(e) => {
                &&& result matches Err(refusal)
                &&& refusal == e
                &&& *final(grid_config) == *old(grid_config)
                &&& *final(block_map) == *old(block_map)
            },
            None => seeding_made(
                *accounts,
                *old(grid_config),
                *old(block_map),
                x,
                y,
                width,
                height,
                result,
                *final(grid_config),
                *final(block_map),
            ),
        },
{
    accounts.check(grid_config)?;
    instructions::admin_mint::handler(accounts, grid_config, block_map, x, y, width, height)
}

/// Puts together a change of a parcel's metadata, for the authority and for
/// nobody else.
///
/// Fails as [`UpdateParcelMetadata::mismatch`] says; otherwise the change
/// names the presented asset and collection and carries the name and the
/// address that were given.
pub fn update_parcel_metadata(
    accounts: &UpdateParcelMetadata,
    grid_config: &GridConfig,
    new_name: Option<String>,
    new_uri: Option<String>,
) -> (result: Result<MetadataUpdate, BillionError>)
    ensures
        match accounts.mismatch(grid_config) {
            Some(e) => result matches Err(refusal) && refusal == e,
            None => {
                &&& result matches Ok(update)
                &&& update.asset == accounts.asset
                &&& update.collection == accounts.collection
                &&& update.new_name == new_name
                &&& update.new_uri == new_uri
            },
        },
{
    accounts.check(grid_config)?;
    Ok(instructions::update_parcel_metadata::handler(accounts, new_name, new_uri))
}

/// Pays a parcel's owner what the parcel has earned since it last settled.
///
/// Where the presented state does not belong to the parcel or the grid the
/// claim fails as [`ClaimLandBuyRewards::mismatch`] says. Otherwise its
/// outcome is what [`reward_claim`] says. The record's checkpoint moves up
/// to the accumulator where an amount is returned, and the record is as it
/// was where none is.
pub fn claim_land_buy_rewards(
    accounts: &ClaimLandBuyRewards,
    grid_config: &GridConfig,
    parcel_info: &mut ParcelInfo,
) -> (result: Result<u64, BillionError>)
    ensures
        result == (match accounts.mismatch(grid_config, old(parcel_info)) {
            Some(e) => Err(e),
            None => reward_claim(*accounts, *grid_config, *old(parcel_info)),
        }),
        result is Ok ==> *final(parcel_info) == settled(
            grid_config.land_buy_rewards_per_block,
            *old(parcel_info),
        ),
        result is Err ==> *final(parcel_info) == *old(parcel_info),
{
    accounts.check(grid_config, parcel_info)?;
    instructions::claim_land_buy_rewards::handler(accounts, grid_config, parcel_info)
}

/// Decides whether a parcel record may be closed: the authority may close
/// any, nobody else may close one.
pub fn admin_close_parcel_info(accounts: &AdminCloseParcelInfo, grid_config: &GridConfig) -> (result:
    Result<(), BillionError>)
    ensures
        match result {
            Ok(()) => accounts.mismatch(grid_config) is None,
            Err(e) => accounts.mismatch(grid_config) == Some(e),
        },
{
    accounts.check(grid_config)
}

/// Plans the teardown of the grid, for the authority and for nobody else.
///
/// Fails with `Unauthorized` where the caller is not the authority or the
/// table is not the grid's, and with `Overflow` where the authority cannot
/// hold the pool's rent and the table's on top of its own. Otherwise the
/// steps to take are
/// returned in order; the grid is zeroed when the step that releases it is
/// reached.
pub fn admin_purge(accounts: &AdminPurge, grid_config: &GridConfig) -> (result: Result<
    Vec<PurgeStep>,
    BillionError,
>)
    ensures
        match result {
            Err(e) => match accounts.mismatch(grid_config) {
                Some(refusal) => e == refusal,
                None => e == BillionError::Overflow && lamports_after_purge(*accounts)
                    > u64::MAX,
            },
            Ok(steps) => {
                &&& accounts.mismatch(grid_config) is None
                &&& lamports_after_purge(*accounts) <= u64::MAX
                &&& steps@ == purge_plan(*accounts)
            },
        },
{
    accounts.check(grid_config)?;
    instructions::admin_purge::handler(accounts)
}

/// Hands the grid's collection over to a new authority, for the authority
/// and for nobody else.
///
/// Fails as [`AdminTransferNftCollectionAuthority::mismatch`] says, and
/// with `CollectionNotSet` where the grid has no collection. Otherwise the
/// hand-over names the presented collection and the new authority.
pub fn admin_transfer_nft_collection_authority(
    accounts: &AdminTransferNftCollectionAuthority,
    grid_config: &GridConfig,
) -> (result: Result<AuthorityTransfer, BillionError>)
    ensures
        match result {
            Err(e) => match accounts.mismatch(grid_config) {
                Some(refusal) => e == refusal,
                None => e == BillionError::CollectionNotSet && !grid_config.collection_is_set(),
            },
            Ok(transfer) => {
                &&& accounts.mismatch(grid_config) is None
                &&& grid_config.collection_is_set()
                &&& transfer.collection == accounts.collection
                &&& transfer.new_update_authority == accounts.new_collection_authority
            },
        },
{
    accounts.check(grid_config)?;
    instructions::admin_transfer_nft_collection_authority::handler(accounts, grid_config)
}

} // verus!
