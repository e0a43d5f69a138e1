use vstd::prelude::*;
use crate::errors::BillionError;
use crate::identity::Identity;
use crate::state::block_map::{
    BlockMap, cell_index, check_rectangle, in_rectangle, rectangle_free, rectangle_refusal,
    with_rectangle,
};
use crate::metadata::{parcel_name, parcel_name_text, parcel_uri, parcel_uri_text};
use crate::rewards::{record_contribution, reward_increase};
use crate::state::grid_config::GridConfig;
use crate::state::parcel_info::ParcelInfo;
use crate::utils::{get_ring, get_unlocked_ring, ring_of, unlocked_ring_byte};

verus! {

/// What a purchase is made with: the purchaser, what the purchaser holds,
/// and the addresses of the grid state that came with the request.
#[derive(Clone, Copy, Debug, PartialEq, Eq)]
pub struct ClaimParcel {
    /// Who buys, pays, and will own the parcel's asset.
    pub claimer: Identity,
    /// Address of the ownership table that was presented.
    pub block_map: Identity,
    /// The token that was presented as payment.
    pub token_mint: Identity,
    /// How much of that token the purchaser holds.
    pub claimer_balance: u64,
    /// Address of the reward pool that was presented.
    pub land_buy_reward_pool: Identity,
    /// Bump seed of the address of the parcel record to be created.
    pub parcel_info_bump: u8,
    /// Address of the asset to be minted for the parcel.
    pub asset: Identity,
    /// The collection that was presented.
    pub collection: Identity,
}

/// The asset that the registry is to mint for a new parcel.
#[derive(Clone, Debug, PartialEq, Eq)]
pub struct ParcelMint {
    /// Identifier of the parcel.
    pub parcel_id: u16,
    /// Address of the asset.
    pub asset: Identity,
    /// Who will own it.
    pub owner: Identity,
    /// Its name.
    pub name: String,
    /// Its metadata address.
    pub uri: String,
}

/// What a purchase has decided, for the ledger and the asset registry to
/// carry out: the two parts of the payment, the asset to mint, and the
/// record of the new parcel.
#[derive(Clone, Debug, PartialEq, Eq)]
pub struct ClaimReceipt {
    /// Part of the payment that goes to the reward pool; nothing moves where it is 0.
    pub reward_amount: u64,
    /// Part of the payment that is burned; nothing is burned where it is 0.
    pub burn_amount: u64,
    /// The asset to mint.
    pub mint: ParcelMint,
    /// The record of the new parcel.
    pub parcel_info: ParcelInfo,
}

impl ClaimParcel {
    /// Why the presented state does not belong to the grid, or `None` where
    /// it does. Table and token are looked at first, then the reward pool,
    /// then the collection.
    pub open spec fn mismatch(&self, grid_config: &GridConfig) -> Option<BillionError> {
        if self.block_map@ != grid_config.block_map@ {
            Some(BillionError::Unauthorized)
        } else if self.token_mint@ != grid_config.token_mint@ {
            Some(BillionError::Unauthorized)
        } else if self.land_buy_reward_pool@ != grid_config.land_buy_reward_pool@ {
            Some(BillionError::InvalidRewardPool)
        } else if self.collection@ != grid_config.collection@ {
            Some(BillionError::InvalidCollection)
        } else {
            None
        }
    }

    /// Checks that the presented state belongs to the grid.
    pub fn check(&self, grid_config: &GridConfig) -> (result: Result<(), BillionError>)
        ensures
            match result {
                Ok(()) => self.mismatch(grid_config) is None,
                Err(e) => self.mismatch(grid_config) == Some(e),
            },
    {
        if self.block_map != grid_config.block_map {
            return Err(BillionError::Unauthorized);
        }
        if self.token_mint != grid_config.token_mint {
            return Err(BillionError::Unauthorized);
        }
        if self.land_buy_reward_pool != grid_config.land_buy_reward_pool {
            return Err(BillionError::InvalidRewardPool);
        }
        if self.collection != grid_config.collection {
            return Err(BillionError::InvalidCollection);
        }
        Ok(())
    }
}

/// Whether a cell may be bought: its ring is unlocked and nobody owns it.
pub open spec fn cell_open(cells: Seq<u16>, unlocked: u8, cx: int, cy: int) -> bool {
    ring_of(cx, cy) <= unlocked && cells[cell_index(cx, cy)] == 0
}

/// Whether cell `(ax, ay)` is visited before `(bx, by)` when a rectangle is
/// walked row by row.
pub open spec fn visited_before(ax: int, ay: int, bx: int, by: int) -> bool {
    ay < by || (ay == by && ax < bx)
}

/// Whether the walk over a rectangle meets a locked cell before it meets
/// any claimed one: some cell of the rectangle lies in a locked ring, and
/// every cell visited before it may be bought.
pub open spec fn locked_cell_comes_first(
    cells: Seq<u16>,
    unlocked: u8,
    x: int,
    y: int,
    width: int,
    height: int,
) -> bool {
    exists|cx: int, cy: int|
        {
            &&& in_rectangle(cx, cy, x, y, width, height)
            &&& ring_of(cx, cy) > unlocked
            &&& forall|ax: int, ay: int|
                in_rectangle(ax, ay, x, y, width, height) && visited_before(ax, ay, cx, cy)
                    ==> #[trigger] cell_open(cells, unlocked, ax, ay)
        }
}

/// Why a rectangle cannot be bought, or `None` where it can.
///
/// The shape is judged first, then the cells in the order they are walked:
/// the first cell that may not be bought decides between `RingLocked` and
/// `BlockAlreadyClaimed`.
pub open spec fn claim_refusal(
    cells: Seq<u16>,
    unlocked: u8,
    x: int,
    y: int,
    width: int,
    height: int,
) -> Option<BillionError> {
    if rectangle_refusal(x, y, width, height) is Some {
        rectangle_refusal(x, y, width, height)
    } else if locked_cell_comes_first(cells, unlocked, x, y, width, height) {
        Some(BillionError::RingLocked)
    } else if !rectangle_free(cells, x, y, width, height) {
        Some(BillionError::BlockAlreadyClaimed)
    } else {
        None
    }
}

/// Validates that the claim is valid: a non-empty rectangle on the grid
/// whose cells all lie in unlocked rings and are unclaimed.
pub fn validate_claim(
    x: u8,
    y: u8,
    width: u8,
    height: u8,
    block_map: &BlockMap,
    grid_config: &GridConfig,
) -> (result: Result<(), BillionError>)
    ensures
        match result {
            Ok(()) => claim_refusal(
                block_map@,
                unlocked_ring_byte(grid_config.total_burned, grid_config.ring_thresholds@),
                x as int,
                y as int,
                width as int,
                height as int,
            ) is None,
            Err(e) => claim_refusal(
                block_map@,
                unlocked_ring_byte(grid_config.total_burned, grid_config.ring_thresholds@),
                x as int,
                y as int,
                width as int,
                height as int,
            ) == Some(e),
        },
{
    check_rectangle(x, y, width, height)?;
    let unlocked_ring = get_unlocked_ring(
        grid_config.total_burned,
        grid_config.ring_thresholds.as_slice(),
    );
    let ghost cells = block_map@;
    let ghost (gx, gy, gw, gh) = (x as int, y as int, width as int, height as int);

    let mut dy: u8 = 0;
    while dy < height
        invariant
            dy <= height,
            width > 0,
            height > 0,
            unlocked_ring == unlocked_ring_byte(
                grid_config.total_burned,
                grid_config.ring_thresholds@,
            ),
            x + width <= 100,
            y + height <= 100,
            cells == block_map@,
            (gx, gy, gw, gh) == (x as int, y as int, width as int, height as int),
            forall|ax: int, ay: int|
                in_rectangle(ax, ay, gx, gy, gw, dy as int) ==> #[trigger] cell_open(
                    cells,
                    unlocked_ring,
                    ax,
                    ay,
                ),
        decreases height - dy,
    {
        let mut dx: u8 = 0;
        while dx < width
            invariant
                dx <= width,
                dy < height,
                width > 0,
                unlocked_ring == unlocked_ring_byte(
                    grid_config.total_burned,
                    grid_config.ring_thresholds@,
                ),
                x + width <= 100,
                y + height <= 100,
                cells == block_map@,
                (gx, gy, gw, gh) == (x as int, y as int, width as int, height as int),
                forall|ax: int, ay: int|
                    in_rectangle(ax, ay, gx, gy, gw, dy as int) ==> #[trigger] cell_open(
                        cells,
                        unlocked_ring,
                        ax,
                        ay,
                    ),
                forall|ax: int, ay: int|
                    in_rectangle(ax, ay, gx, gy + dy, dx as int, 1) ==> #[trigger] cell_open(
                        cells,
                        unlocked_ring,
                        ax,
                        ay,
                    ),
            decreases width - dx,
        {
            let block_x = x + dx;
            let block_y = y + dy;

            let block_ring = get_ring(block_x, block_y);
            if !(block_ring <= unlocked_ring) {
                proof {
                    assert forall|ax: int, ay: int|
                        in_rectangle(ax, ay, gx, gy, gw, gh) && visited_before(
                            ax,
                            ay,
                            block_x as int,
                            block_y as int,
                        ) implies #[trigger] cell_open(cells, unlocked_ring, ax, ay) by {
                        if ay < block_y {
                            assert(in_rectangle(ax, ay, gx, gy, gw, dy as int));
                        } else {
                            assert(in_rectangle(ax, ay, gx, gy + dy, dx as int, 1));
                        }
                    }
                    assert(in_rectangle(block_x as int, block_y as int, gx, gy, gw, gh));
                    assert(locked_cell_comes_first(cells, unlocked_ring, gx, gy, gw, gh));
                }
                return Err(BillionError::RingLocked);
            }
            let block_value = block_map.get_block(block_x, block_y);
            if !(block_value == 0) {
                proof {
                    let (bx, by) = (block_x as int, block_y as int);
                    assert(in_rectangle(bx, by, gx, gy, gw, gh));
                    assert(!cell_open(cells, unlocked_ring, bx, by));
                    assert(!rectangle_free(cells, gx, gy, gw, gh));
                    if locked_cell_comes_first(cells, unlocked_ring, gx, gy, gw, gh) {
                        let (cx, cy) = lemma_locked_cell_met_first(
                            cells,
                            unlocked_ring,
                            gx,
                            gy,
                            gw,
                            gh,
                        );
                        if visited_before(bx, by, cx, cy) {
                            assert(cell_open(cells, unlocked_ring, bx, by));
                        } else if visited_before(cx, cy, bx, by) {
                            if cy < by {
                                assert(in_rectangle(cx, cy, gx, gy, gw, dy as int));
                            } else {
                                assert(in_rectangle(cx, cy, gx, gy + dy, dx as int, 1));
                            }
                            assert(cell_open(cells, unlocked_ring, cx, cy));
                        }
                        assert(false);
                    }
                }
                return Err(BillionError::BlockAlreadyClaimed);
            }
            dx += 1;
        }
        dy += 1;
    }
    proof {
        lemma_claim_needs_every_cell_open(cells, unlocked_ring, gx, gy, gw, gh);
    }
    Ok(())
}

/// Where the walk over a rectangle meets a locked cell before any claimed
/// one, this is that cell: it lies in the rectangle and in a locked ring,
/// and every cell visited before it may be bought.
proof fn lemma_locked_cell_met_first(
    cells: Seq<u16>,
    unlocked: u8,
    x: int,
    y: int,
    width: int,
    height: int,
) -> (met: (int, int))
    requires
        locked_cell_comes_first(cells, unlocked, x, y, width, height),
    ensures
        in_rectangle(met.0, met.1, x, y, width, height),
        ring_of(met.0, met.1) > unlocked,
        forall|ax: int, ay: int|
            in_rectangle(ax, ay, x, y, width, height) && visited_before(ax, ay, met.0, met.1)
                ==> #[trigger] cell_open(cells, unlocked, ax, ay),
{
    choose|cx: int, cy: int|
        {
            &&& in_rectangle(cx, cy, x, y, width, height)
            &&& ring_of(cx, cy) > unlocked
            &&& forall|ax: int, ay: int|
                in_rectangle(ax, ay, x, y, width, height) && visited_before(ax, ay, cx, cy)
                    ==> #[trigger] cell_open(cells, unlocked, ax, ay)
        }
}

/// Price of a rectangle: its cells times the price of one.
pub open spec fn purchase_cost(grid_config: GridConfig, width: int, height: int) -> int {
    width * height * grid_config.price_per_block
}

/// The land owners' part of what a rectangle costs: the configured share of
/// the price, in basis points, rounded down.
pub open spec fn purchase_reward(grid_config: GridConfig, width: int, height: int) -> int {
    purchase_cost(grid_config, width, height) * grid_config.land_owners_reward_share_bps / 10_000
}

/// The part of the price that is burned: all that does not go to land owners.
pub open spec fn purchase_burn(grid_config: GridConfig, width: int, height: int) -> int {
    purchase_cost(grid_config, width, height) - purchase_reward(grid_config, width, height)
}

/// The reward accumulator after a purchase: raised by the purchase's reward
/// part, shared among the cells claimed before the purchase.
pub open spec fn accumulator_after_purchase(
    grid_config: GridConfig,
    width: int,
    height: int,
) -> int {
    grid_config.land_buy_rewards_per_block + reward_increase(
        purchase_reward(grid_config, width, height),
        grid_config.total_claimed_blocks as int,
    )
}

/// Whether booking a purchase that the purchaser can pay would take some
/// amount or total out of the range of its type.
pub open spec fn purchase_overflows(grid_config: GridConfig, width: int, height: int) -> bool {
    ||| purchase_cost(grid_config, width, height) * grid_config.land_owners_reward_share_bps
        > u64::MAX
    ||| purchase_reward(grid_config, width, height) > purchase_cost(grid_config, width, height)
    ||| accumulator_after_purchase(grid_config, width, height) > u128::MAX
    ||| grid_config.total_claimed_blocks + width * height > u32::MAX
    ||| grid_config.total_burned + purchase_burn(grid_config, width, height) > u64::MAX
    ||| grid_config.next_parcel_id + 1 > u16::MAX
}

/// Why a purchase is refused, or `None` where it goes through.
///
/// In this order: the shape of the rectangle; whether a collection is
/// configured; the cells, as [`claim_refusal`] judges them; whether the
/// price fits in 64 bits; whether the purchaser can pay it; whether the
/// books can take it.
pub open spec fn purchase_refusal(
    grid_config: GridConfig,
    cells: Seq<u16>,
    balance: u64,
    x: int,
    y: int,
    width: int,
    height: int,
) -> Option<BillionError> {
    let unlocked = unlocked_ring_byte(grid_config.total_burned, grid_config.ring_thresholds@);
    if rectangle_refusal(x, y, width, height) is Some {
        rectangle_refusal(x, y, width, height)
    } else if !grid_config.collection_is_set() {
        Some(BillionError::CollectionNotSet)
    } else if claim_refusal(cells, unlocked, x, y, width, height) is Some {
        claim_refusal(cells, unlocked, x, y, width, height)
    } else if purchase_cost(grid_config, width, height) > u64::MAX {
        Some(BillionError::Overflow)
    } else if balance < purchase_cost(grid_config, width, height) {
        Some(BillionError::InsufficientBalance)
    } else if purchase_overflows(grid_config, width, height) {
        Some(BillionError::Overflow)
    } else {
        None
    }
}

/// The configuration after a purchase: accumulator raised, the new cells
/// and the burned amount added to the totals, the next identifier moved on.
/// Everything else is as before.
pub open spec fn config_after_purchase(grid_config: GridConfig, width: int, height: int) -> GridConfig {
    GridConfig {
        land_buy_rewards_per_block: accumulator_after_purchase(grid_config, width, height) as u128,
        total_claimed_blocks: (grid_config.total_claimed_blocks + width * height) as u32,
        total_burned: (grid_config.total_burned + purchase_burn(grid_config, width, height)) as u64,
        next_parcel_id: (grid_config.next_parcel_id + 1) as u16,
        ..grid_config
    }
}

/// What a purchase leaves behind, told of the state before it, its result
/// and the state after it.
///
/// Either the purchase is refused, for the reason that [`purchase_refusal`]
/// gives, and neither the configuration nor the grid has changed; or it goes
/// through as a whole: the rectangle belongs to the parcel with the
/// identifier that was next, the totals and the accumulator are brought up
/// to date, and the receipt says what to pay, what to burn, what to mint and
/// what to record. The new record's checkpoint is the accumulator after the
/// purchase, so a parcel earns nothing from its own price.
pub open spec fn purchase_made(
    accounts: ClaimParcel,
    config_before: GridConfig,
    grid_before: BlockMap,
    x: u8,
    y: u8,
    width: u8,
    height: u8,
    result: Result<ClaimReceipt, BillionError>,
    config_after: GridConfig,
    grid_after: BlockMap,
) -> bool {
    let refusal = purchase_refusal(
        config_before,
        grid_before@,
        accounts.claimer_balance,
        x as int,
        y as int,
        width as int,
        height as int,
    );
    let parcel_id = config_before.next_parcel_id;
    match result {
        Err(e) => {
            &&& refusal == Some(e)
            &&& config_after == config_before
            &&& grid_after == grid_before
        },
        Ok(receipt) => {
            &&& refusal is None
            &&& config_after == config_after_purchase(config_before, width as int, height as int)
            &&& grid_after@ == with_rectangle(
                grid_before@,
                x as int,
                y as int,
                width as int,
                height as int,
                parcel_id,
            )
            &&& receipt.reward_amount == purchase_reward(config_before, width as int, height as int)
            &&& receipt.burn_amount == purchase_burn(config_before, width as int, height as int)
            &&& receipt.mint.parcel_id == parcel_id
            &&& receipt.mint.asset == accounts.asset
            &&& receipt.mint.owner == accounts.claimer
            &&& receipt.mint.name@ == parcel_name_text(parcel_id)
            &&& receipt.mint.uri@ == parcel_uri_text(config_before.uri_base@, parcel_id)
            &&& receipt.parcel_info == (ParcelInfo {
                asset: accounts.asset,
                x,
                y,
                width,
                height,
                bump: accounts.parcel_info_bump,
                last_claimed_land_buy_rewards_per_block: accumulator_after_purchase(
                    config_before,
                    width as int,
                    height as int,
                ) as u128,
            })
        },
    }
}

/// Buys a rectangle of cells: all of the purchase or nothing of it, as
/// [`purchase_made`] says.
///
/// Whether the presented state belongs to the grid is not looked at here:
/// that is [`ClaimParcel::check`].
pub fn handler(
    accounts: &ClaimParcel,
    grid_config: &mut GridConfig,
    block_map: &mut BlockMap,
    x: u8,
    y: u8,
    width: u8,
    height: u8,
) -> (result: Result<ClaimReceipt, BillionError>)
    ensures
        purchase_made(
            *accounts,
            *old(grid_config),
            *old(block_map),
            x,
            y,
            width,
            height,
            result,
            *final(grid_config),
            *final(block_map),
        ),
{
    check_rectangle(x, y, width, height)?;
    if grid_config.collection.is_default() {
        return Err(BillionError::CollectionNotSet);
    }
    validate_claim(x, y, width, height, block_map, grid_config)?;

    assert(width * height <= 255 * 255) by (nonlinear_arith)
        requires
            width <= 255,
            height <= 255,
    ;
    let num_blocks: u32 = (width as u32) * (height as u32);
    let total_cost: u64 = match (num_blocks as u64).checked_mul(grid_config.price_per_block) {
        Some(cost) => cost,
        None => {
            return Err(BillionError::Overflow);
        },
    };
    if !(accounts.claimer_balance >= total_cost) {
        return Err(BillionError::InsufficientBalance);
    }
    let reward_amount: u64 = match total_cost.checked_mul(
        grid_config.land_owners_reward_share_bps as u64,
    ) {
        Some(scaled) => scaled / 10_000,
        None => {
            return Err(BillionError::Overflow);
        },
    };
    let burn_amount: u64 = match total_cost.checked_sub(reward_amount) {
        Some(rest) => rest,
        None => {
            return Err(BillionError::Overflow);
        },
    };
    let rewards_per_block: u128 = record_contribution(
        grid_config.land_buy_rewards_per_block,
        reward_amount,
        grid_config.total_claimed_blocks,
    )?;
    let total_claimed_blocks: u32 = match grid_config.total_claimed_blocks.checked_add(
        num_blocks,
    ) {
        Some(total) => total,
        None => {
            return Err(BillionError::Overflow);
        },
    };
    let total_burned: u64 = match grid_config.total_burned.checked_add(burn_amount) {
        Some(total) => total,
        None => {
            return Err(BillionError::Overflow);
        },
    };
    let parcel_id: u16 = grid_config.next_parcel_id;
    let next_parcel_id: u16 = match parcel_id.checked_add(1) {
        Some(next) => next,
        None => {
            return Err(BillionError::Overflow);
        },
    };

    grid_config.land_buy_rewards_per_block = rewards_per_block;
    grid_config.total_claimed_blocks = total_claimed_blocks;
    grid_config.total_burned = total_burned;
    grid_config.next_parcel_id = next_parcel_id;

    block_map.assign_rectangle(x, y, width, height, parcel_id);

    let name = parcel_name(parcel_id);
    let uri = parcel_uri(&grid_config.uri_base, parcel_id);
    Ok(
        ClaimReceipt {
            reward_amount,
            burn_amount,
            mint: ParcelMint {
                parcel_id,
                asset: accounts.asset,
                owner: accounts.claimer,
                name,
                uri,
            },
            parcel_info: ParcelInfo {
                asset: accounts.asset,
                x,
                y,
                width,
                height,
                bump: accounts.parcel_info_bump,
                last_claimed_land_buy_rewards_per_block: rewards_per_block,
            },
        },
    )
}

/// Among the cells of a rectangle that lie in locked rings there is one
/// that the walk meets first.
proof fn lemma_first_locked_cell(
    unlocked: u8,
    x: int,
    y: int,
    width: int,
    height: int,
    cx: int,
    cy: int,
) -> (first: (int, int))
    requires
        in_rectangle(cx, cy, x, y, width, height),
        ring_of(cx, cy) > unlocked,
    ensures
        in_rectangle(first.0, first.1, x, y, width, height),
        ring_of(first.0, first.1) > unlocked,
        forall|ax: int, ay: int|
            in_rectangle(ax, ay, x, y, width, height) && visited_before(ax, ay, first.0, first.1)
                ==> #[trigger] ring_of(ax, ay) <= unlocked,
    decreases cy - y, cx - x,
{
    if exists|ax: int, ay: int|
        in_rectangle(ax, ay, x, y, width, height) && visited_before(ax, ay, cx, cy)
            && #[trigger] ring_of(ax, ay) > unlocked {
        let (ax, ay) = choose|ax: int, ay: int|
            in_rectangle(ax, ay, x, y, width, height) && visited_before(ax, ay, cx, cy)
                && #[trigger] ring_of(ax, ay) > unlocked;
        lemma_first_locked_cell(unlocked, x, y, width, height, ax, ay)
    } else {
        (cx, cy)
    }
}

/// A rectangle can be bought exactly when it is a parcel shape and each of
/// its cells may be bought: unclaimed, and in a ring that is unlocked.
pub proof fn lemma_claim_needs_every_cell_open(
    cells: Seq<u16>,
    unlocked: u8,
    x: int,
    y: int,
    width: int,
    height: int,
)
    ensures
        claim_refusal(cells, unlocked, x, y, width, height) is None <==> {
            &&& rectangle_refusal(x, y, width, height) is None
            &&& forall|cx: int, cy: int|
                in_rectangle(cx, cy, x, y, width, height) ==> #[trigger] cell_open(
                    cells,
                    unlocked,
                    cx,
                    cy,
                )
        },
{
    if claim_refusal(cells, unlocked, x, y, width, height) is None {
        assert forall|cx: int, cy: int|
            in_rectangle(cx, cy, x, y, width, height) implies #[trigger] cell_open(
            cells,
            unlocked,
            cx,
            cy,
        ) by {
            assert(cells[cell_index(cx, cy)] == 0);
            if ring_of(cx, cy) > unlocked {
                let first = lemma_first_locked_cell(unlocked, x, y, width, height, cx, cy);
                assert forall|ax: int, ay: int|
                    in_rectangle(ax, ay, x, y, width, height) && visited_before(
                        ax,
                        ay,
                        first.0,
                        first.1,
                    ) implies #[trigger] cell_open(cells, unlocked, ax, ay) by {
                    assert(ring_of(ax, ay) <= unlocked);
                    assert(cells[cell_index(ax, ay)] == 0);
                }
                assert(locked_cell_comes_first(cells, unlocked, x, y, width, height));
            }
        }
    }
    if rectangle_refusal(x, y, width, height) is None && (forall|cx: int, cy: int|
        in_rectangle(cx, cy, x, y, width, height) ==> #[trigger] cell_open(
            cells,
            unlocked,
            cx,
            cy,
        )) {
        assert forall|cx: int, cy: int|
            in_rectangle(cx, cy, x, y, width, height) implies #[trigger] cells[cell_index(
            cx,
            cy,
        )] == 0 by {
            assert(cell_open(cells, unlocked, cx, cy));
        }
        if locked_cell_comes_first(cells, unlocked, x, y, width, height) {
            let (cx, cy) = lemma_locked_cell_met_first(cells, unlocked, x, y, width, height);
            assert(cell_open(cells, unlocked, cx, cy));
        }
    }
}

/// A rectangle with a cell that is already claimed cannot be bought. With a
/// parcel shape and a collection configured, the purchase fails with
/// `BlockAlreadyClaimed`, unless the walk over the rectangle meets a cell in
/// a locked ring first: then it fails with `RingLocked`. Either way
/// [`handler`] leaves configuration and grid as they were.
pub proof fn lemma_claimed_cell_refuses_purchase(
    grid_config: GridConfig,
    cells: Seq<u16>,
    balance: u64,
    x: int,
    y: int,
    width: int,
    height: int,
    cx: int,
    cy: int,
)
    requires
        rectangle_refusal(x, y, width, height) is None,
        grid_config.collection_is_set(),
        in_rectangle(cx, cy, x, y, width, height),
        cells[cell_index(cx, cy)] != 0,
    ensures
        purchase_refusal(grid_config, cells, balance, x, y, width, height) == Some(
            if locked_cell_comes_first(
                cells,
                unlocked_ring_byte(grid_config.total_burned, grid_config.ring_thresholds@),
                x,
                y,
                width,
                height,
            ) {
                BillionError::RingLocked
            } else {
                BillionError::BlockAlreadyClaimed
            },
        ),
        (forall|ax: int, ay: int|
            in_rectangle(ax, ay, x, y, width, height) ==> #[trigger] ring_of(ax, ay)
                <= unlocked_ring_byte(grid_config.total_burned, grid_config.ring_thresholds@))
            ==> purchase_refusal(grid_config, cells, balance, x, y, width, height) == Some(
            BillionError::BlockAlreadyClaimed,
        ),
{
}

/// A rectangle without width or without height is never bought, whatever
/// else holds: the purchase fails with `InvalidDimensions`. A rectangle with
/// both that reaches past the grid's edge fails with `OutOfBounds`.
pub proof fn lemma_shape_is_judged_first(
    grid_config: GridConfig,
    cells: Seq<u16>,
    balance: u64,
    x: int,
    y: int,
    width: int,
    height: int,
)
    ensures
        width == 0 || height == 0 ==> purchase_refusal(
            grid_config,
            cells,
            balance,
            x,
            y,
            width,
            height,
        ) == Some(BillionError::InvalidDimensions),
        width != 0 && height != 0 && (x + width > 100 || y + height > 100) ==> purchase_refusal(
            grid_config,
            cells,
            balance,
            x,
            y,
            width,
            height,
        ) == Some(BillionError::OutOfBounds),
{
}

/// With a reward share of at most the whole, the land owners' part of a
/// price is at most the price: something, or nothing, is left to burn, and
/// the two parts add up to the price.
pub proof fn lemma_share_within_price(grid_config: GridConfig, width: int, height: int)
    requires
        0 <= width,
        0 <= height,
        grid_config.land_owners_reward_share_bps <= 10_000,
    ensures
        0 <= purchase_reward(grid_config, width, height) <= purchase_cost(
            grid_config,
            width,
            height,
        ),
        purchase_reward(grid_config, width, height) + purchase_burn(grid_config, width, height)
            == purchase_cost(grid_config, width, height),
{
    let cost = purchase_cost(grid_config, width, height);
    let share = grid_config.land_owners_reward_share_bps as int;
    assert(0 <= cost * share <= cost * 10_000) by (nonlinear_arith)
        requires
            cost == width * height * grid_config.price_per_block,
            0 <= width,
            0 <= height,
            0 <= share <= 10_000,
    ;
}

/// A purchase keeps a well-formed configuration well formed.
pub proof fn lemma_purchase_keeps_config_well_formed(
    grid_config: GridConfig,
    cells: Seq<u16>,
    balance: u64,
    x: int,
    y: int,
    width: int,
    height: int,
)
    requires
        grid_config.well_formed(),
        purchase_refusal(grid_config, cells, balance, x, y, width, height) is None,
    ensures
        config_after_purchase(grid_config, width, height).well_formed(),
{
}

} // verus!
