use vstd::prelude::*;
use crate::errors::BillionError;
use crate::identity::Identity;
use crate::instructions::claim_parcel::ParcelMint;
use crate::metadata::{parcel_name, parcel_name_text, parcel_uri, parcel_uri_text};
use crate::state::block_map::{
    BlockMap, cell_index, check_rectangle, in_rectangle, rectangle_free, rectangle_refusal,
    with_rectangle,
};
use crate::state::grid_config::GridConfig;
use crate::state::parcel_info::ParcelInfo;

verus! {

/// What the authority hands out a parcel with: who asks, who is to own the
/// parcel, and the addresses of the grid state that came with the request.
#[derive(Clone, Copy, Debug, PartialEq, Eq)]
pub struct AdminMint {
    /// Who asks.
    pub authority: Identity,
    /// Who will own the parcel's asset.
    pub recipient: Identity,
    /// Address of the ownership table that was presented.
    pub block_map: Identity,
    /// Bump seed of the address of the parcel record to be created.
    pub parcel_info_bump: u8,
    /// Address of the asset to be minted for the parcel.
    pub asset: Identity,
    /// The collection that was presented.
    pub collection: Identity,
}

/// What a hand-out has decided: the asset to mint and the record of the new
/// parcel. Nothing is paid and nothing is burned.
#[derive(Clone, Debug, PartialEq, Eq)]
pub struct AdminMintReceipt {
    /// The asset to mint.
    pub mint: ParcelMint,
    /// The record of the new parcel.
    pub parcel_info: ParcelInfo,
}

impl AdminMint {
    /// Why the request is not the authority's, or does not belong to the
    /// grid; `None` where all is in order. The caller is looked at first,
    /// then the table, then the collection.
    pub open spec fn mismatch(&self, grid_config: &GridConfig) -> Option<BillionError> {
        if self.authority@ != grid_config.authority@ {
            Some(BillionError::Unauthorized)
        } else if self.block_map@ != grid_config.block_map@ {
            Some(BillionError::Unauthorized)
        } else if self.collection@ != grid_config.collection@ {
            Some(BillionError::InvalidCollection)
        } else {
            None
        }
    }

    /// Checks that the request is the authority's and belongs to the grid.
    pub fn check(&self, grid_config: &GridConfig) -> (result: Result<(), BillionError>)
        ensures
            match result {
                Ok(()) => self.mismatch(grid_config) is None,
                Err(e) => self.mismatch(grid_config) == Some(e),
            },
    {
        if self.authority != grid_config.authority {
            return Err(BillionError::Unauthorized);
        }
        if self.block_map != grid_config.block_map {
            return Err(BillionError::Unauthorized);
        }
        if self.collection != grid_config.collection {
            return Err(BillionError::InvalidCollection);
        }
        Ok(())
    }
}

/// Why a rectangle cannot be handed out, or `None` where it can: it has to
/// be a parcel shape, and none of its cells may be claimed. Rings play no
/// part.
pub open spec fn admin_mint_refusal(cells: Seq<u16>, x: int, y: int, width: int, height: int) -> Option<
    BillionError,
> {
    if rectangle_refusal(x, y, width, height) is Some {
        rectangle_refusal(x, y, width, height)
    } else if !rectangle_free(cells, x, y, width, height) {
        Some(BillionError::BlockAlreadyClaimed)
    } else {
        None
    }
}

/// Validates that the admin mint is valid (no ring check, just bounds and
/// unclaimed).
pub fn validate_admin_mint(x: u8, y: u8, width: u8, height: u8, block_map: &BlockMap) -> (result:
    Result<(), BillionError>)
    ensures
        match result {
            Ok(()) => admin_mint_refusal(
                block_map@,
                x as int,
                y as int,
                width as int,
                height as int,
            ) is None,
            Err(e) => admin_mint_refusal(
                block_map@,
                x as int,
                y as int,
                width as int,
                height as int,
            ) == Some(e),
        },
{
    check_rectangle(x, y, width, height)?;
    if !block_map.rectangle_is_free(x, y, width, height) {
        return Err(BillionError::BlockAlreadyClaimed);
    }
    Ok(())
}

/// Why a hand-out is refused, or `None` where it goes through.
///
/// In this order: whether a collection is configured; whether seeding is
/// still enabled; the rectangle, as [`admin_mint_refusal`] judges it;
/// whether the cell total and the next identifier stay in range.
pub open spec fn seeding_refusal(
    grid_config: GridConfig,
    cells: Seq<u16>,
    x: int,
    y: int,
    width: int,
    height: int,
) -> Option<BillionError> {
    if !grid_config.collection_is_set() {
        Some(BillionError::CollectionNotSet)
    } else if !grid_config.seeding_enabled {
        Some(BillionError::SeedingDisabled)
    } else if admin_mint_refusal(cells, x, y, width, height) is Some {
        admin_mint_refusal(cells, x, y, width, height)
    } else if grid_config.total_claimed_blocks + width * height > u32::MAX {
        Some(BillionError::Overflow)
    } else if grid_config.next_parcel_id + 1 > u16::MAX {
        Some(BillionError::Overflow)
    } else {
        None
    }
}

/// The configuration after a hand-out: the new cells added to the total of
/// claimed cells, the next identifier moved on. The accumulator and the
/// burn total are untouched.
pub open spec fn config_after_seeding(grid_config: GridConfig, width: int, height: int) -> GridConfig {
    GridConfig {
        total_claimed_blocks: (grid_config.total_claimed_blocks + width * height) as u32,
        next_parcel_id: (grid_config.next_parcel_id + 1) as u16,
        ..grid_config
    }
}

/// What a hand-out leaves behind, told of the state before it, its result
/// and the state after it.
///
/// Either the hand-out is refused, for the reason that [`seeding_refusal`]
/// gives, and neither the configuration nor the grid has changed; or the
/// rectangle belongs to the parcel with the identifier that was next, and
/// the receipt says what to mint and what to record. The new record's
/// checkpoint is the accumulator as it stands.
pub open spec fn seeding_made(
    accounts: AdminMint,
    config_before: GridConfig,
    grid_before: BlockMap,
    x: u8,
    y: u8,
    width: u8,
    height: u8,
    result: Result<AdminMintReceipt, BillionError>,
    config_after: GridConfig,
    grid_after: BlockMap,
) -> bool {
    let refusal = seeding_refusal(
        config_before,
        grid_before@,
        x as int,
        y as int,
        width as int,
        height as int,
    );
    let parcel_id = config_before.next_parcel_id;
    match result {
        Err(e) => {
            &&& refusal == Some(e)
            &&& config_after == config_before
            &&& grid_after == grid_before
        },
        Ok(receipt) => {
            &&& refusal is None
            &&& config_after == config_after_seeding(config_before, width as int, height as int)
            &&& grid_after@ == with_rectangle(
                grid_before@,
                x as int,
                y as int,
                width as int,
                height as int,
                parcel_id,
            )
            &&& receipt.mint.parcel_id == parcel_id
            &&& receipt.mint.asset == accounts.asset
            &&& receipt.mint.owner == accounts.recipient
            &&& receipt.mint.name@ == parcel_name_text(parcel_id)
            &&& receipt.mint.uri@ == parcel_uri_text(config_before.uri_base@, parcel_id)
            &&& receipt.parcel_info == (ParcelInfo {
                asset: accounts.asset,
                x,
                y,
                width,
                height,
                bump: accounts.parcel_info_bump,
                last_claimed_land_buy_rewards_per_block: config_before.land_buy_rewards_per_block,
            })
        },
    }
}

/// Hands a rectangle of cells to a recipient, free of charge: all of the
/// hand-out or nothing of it, as [`seeding_made`] says.
///
/// Whether the request is the authority's is not looked at here: that is
/// [`AdminMint::check`].
pub fn handler(
    accounts: &AdminMint,
    grid_config: &mut GridConfig,
    block_map: &mut BlockMap,
    x: u8,
    y: u8,
    width: u8,
    height: u8,
) -> (result: Result<AdminMintReceipt, BillionError>)
    ensures
        seeding_made(
            *accounts,
            *old(grid_config),
            *old(block_map),
            x,
            y,
            width,
            height,
            result,
            *final(grid_config),
            *final(block_map),
        ),
{
    if grid_config.collection.is_default() {
        return Err(BillionError::CollectionNotSet);
    }
    if !grid_config.seeding_enabled {
        return Err(BillionError::SeedingDisabled);
    }
    validate_admin_mint(x, y, width, height, block_map)?;

    assert(width * height <= 255 * 255) by (nonlinear_arith)
        requires
            width <= 255,
            height <= 255,
    ;
    let num_blocks: u32 = (width as u32) * (height as u32);
    let parcel_id: u16 = grid_config.next_parcel_id;
    let total_claimed_blocks: u32 = match grid_config.total_claimed_blocks.checked_add(
        num_blocks,
    ) {
        Some(total) => total,
        None => {
            return Err(BillionError::Overflow);
        },
    };
    let next_parcel_id: u16 = match parcel_id.checked_add(1) {
        Some(next) => next,
        None => {
            return Err(BillionError::Overflow);
        },
    };

    grid_config.total_claimed_blocks = total_claimed_blocks;
    grid_config.next_parcel_id = next_parcel_id;

    block_map.assign_rectangle(x, y, width, height, parcel_id);

    let name = parcel_name(parcel_id);
    let uri = parcel_uri(&grid_config.uri_base, parcel_id);
    Ok(
        AdminMintReceipt {
            mint: ParcelMint {
                parcel_id,
                asset: accounts.asset,
                owner: accounts.recipient,
                name,
                uri,
            },
            parcel_info: ParcelInfo {
                asset: accounts.asset,
                x,
                y,
                width,
                height,
                bump: accounts.parcel_info_bump,
                last_claimed_land_buy_rewards_per_block: grid_config.land_buy_rewards_per_block,
            },
        },
    )
}

/// A rectangle with a cell that is already claimed cannot be handed out:
/// with a collection configured, seeding enabled and a parcel shape, the
/// hand-out fails with `BlockAlreadyClaimed`, and [`handler`] leaves
/// configuration and grid as they were.
pub proof fn lemma_claimed_cell_refuses_seeding(
    grid_config: GridConfig,
    cells: Seq<u16>,
    x: int,
    y: int,
    width: int,
    height: int,
    cx: int,
    cy: int,
)
    requires
        grid_config.collection_is_set(),
        grid_config.seeding_enabled,
        rectangle_refusal(x, y, width, height) is None,
        in_rectangle(cx, cy, x, y, width, height),
        cells[cell_index(cx, cy)] != 0,
    ensures
        seeding_refusal(grid_config, cells, x, y, width, height) == Some(
            BillionError::BlockAlreadyClaimed,
        ),
{
}

/// A hand-out keeps a well-formed configuration well formed.
pub proof fn lemma_seeding_keeps_config_well_formed(
    grid_config: GridConfig,
    cells: Seq<u16>,
    x: int,
    y: int,
    width: int,
    height: int,
)
    requires
        grid_config.well_formed(),
        seeding_refusal(grid_config, cells, x, y, width, height) is None,
    ensures
        config_after_seeding(grid_config, width, height).well_formed(),
{
}

} // verus!
