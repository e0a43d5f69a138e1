//! The books of the reward pool, and why the pool can always pay.
//!
//! Purchases pay into the pool and settlements pay out of it. No operation
//! ever looks at more than one parcel, so that nothing here is computed
//! when the grid runs: this module is the argument that the sum over all
//! parcels comes out right all the same.

use vstd::prelude::*;
use crate::instructions::admin_mint::{config_after_seeding, seeding_refusal};
use crate::instructions::claim_parcel::{
    accumulator_after_purchase, config_after_purchase, purchase_cost, purchase_refusal,
    purchase_reward,
};
use crate::rewards::{owed_reward, reward_increase, settled, settlement};
use crate::state::grid_config::GridConfig;
use crate::state::parcel_info::ParcelInfo;

verus! {

/// A parcel as the reward accounting sees it: how many cells it has, and
/// where the accumulator stood when it last settled.
pub struct Stake {
    pub cells: nat,
    pub checkpoint: nat,
}

/// The books of the reward pool: the accumulator, the number of claimed
/// cells, the parcels that can still settle, and the two running sums that
/// the pool is judged by.
pub struct PoolLedger {
    /// The reward accumulator, scaled by 10^9.
    pub accumulator: nat,
    /// Number of claimed cells.
    pub total_claimed: nat,
    /// The parcels whose records exist.
    pub stakes: Seq<Stake>,
    /// Everything that purchases have paid into the pool.
    pub contributed: nat,
    /// Everything that settlements have paid out of it.
    pub paid: nat,
}

/// Something that changed the books.
pub enum PoolEvent {
    /// A purchase went through: `reward` was paid into the pool, and a
    /// parcel of `cells` cells was recorded.
    Purchase { reward: nat, cells: nat },
    /// The authority handed out a parcel of `cells` cells; nothing was paid.
    Seeding { cells: nat },
    /// The parcel at this position settled and was paid what it was owed.
    Settlement { parcel: int },
    /// The record of the parcel at this position was closed.
    Closure { parcel: int },
}

/// How a parcel record enters the books.
pub open spec fn stake_of(record: ParcelInfo) -> Stake {
    Stake {
        cells: record.cells() as nat,
        checkpoint: record.last_claimed_land_buy_rewards_per_block as nat,
    }
}

/// The books of a grid whose configuration is `grid_config`.
pub open spec fn ledger_of(
    grid_config: GridConfig,
    stakes: Seq<Stake>,
    contributed: nat,
    paid: nat,
) -> PoolLedger {
    PoolLedger {
        accumulator: grid_config.land_buy_rewards_per_block as nat,
        total_claimed: grid_config.total_claimed_blocks as nat,
        stakes,
        contributed,
        paid,
    }
}

/// The books of a grid on which nothing has happened yet.
pub open spec fn opening_ledger() -> PoolLedger {
    PoolLedger { accumulator: 0, total_claimed: 0, stakes: Seq::empty(), contributed: 0, paid: 0 }
}

/// The books after an event.
///
/// A purchase raises the accumulator by its reward, shared among the cells
/// claimed before it, and records the new parcel with its checkpoint at the
/// raised accumulator. A settlement pays the parcel what it is owed, rounded
/// down to whole units, and moves its checkpoint up to the accumulator. A
/// settlement or closure of a parcel that is not there changes nothing.
pub open spec fn after_event(ledger: PoolLedger, event: PoolEvent) -> PoolLedger {
    match event {
        PoolEvent::Purchase { reward, cells } => {
            let raised = (ledger.accumulator + reward_increase(
                reward as int,
                ledger.total_claimed as int,
            )) as nat;
            PoolLedger {
                accumulator: raised,
                total_claimed: ledger.total_claimed + cells,
                stakes: ledger.stakes.push(Stake { cells, checkpoint: raised }),
                contributed: ledger.contributed + reward,
                paid: ledger.paid,
            }
        },
        PoolEvent::Seeding { cells } => PoolLedger {
            total_claimed: ledger.total_claimed + cells,
            stakes: ledger.stakes.push(Stake { cells, checkpoint: ledger.accumulator }),
            ..ledger
        },
        PoolEvent::Settlement { parcel } => if 0 <= parcel < ledger.stakes.len() {
            let stake = ledger.stakes[parcel];
            PoolLedger {
                stakes: ledger.stakes.update(
                    parcel,
                    Stake { cells: stake.cells, checkpoint: ledger.accumulator },
                ),
                paid: (ledger.paid + owed_reward(
                    stake.cells as int,
                    ledger.accumulator as int,
                    stake.checkpoint as int,
                )) as nat,
                ..ledger
            }
        } else {
            ledger
        },
        PoolEvent::Closure { parcel } => if 0 <= parcel < ledger.stakes.len() {
            PoolLedger { stakes: ledger.stakes.remove(parcel), ..ledger }
        } else {
            ledger
        },
    }
}

/// The books after a series of events, starting from the opening books.
pub open spec fn after_events(events: Seq<PoolEvent>) -> PoolLedger
    decreases events.len(),
{
    if events.len() == 0 {
        opening_ledger()
    } else {
        after_event(after_events(events.drop_last()), events.last())
    }
}

/// What a parcel has earned and not yet been paid, in scaled units.
pub open spec fn stake_due(stake: Stake, accumulator: int) -> int {
    stake.cells * (accumulator - stake.checkpoint)
}

/// What all parcels together have earned and not yet been paid, in scaled
/// units.
pub open spec fn outstanding(stakes: Seq<Stake>, accumulator: int) -> int
    decreases stakes.len(),
{
    if stakes.len() == 0 {
        0
    } else {
        outstanding(stakes.drop_last(), accumulator) + stake_due(stakes.last(), accumulator)
    }
}

/// Number of cells of all parcels together.
pub open spec fn staked_cells(stakes: Seq<Stake>) -> int
    decreases stakes.len(),
{
    if stakes.len() == 0 {
        0
    } else {
        staked_cells(stakes.drop_last()) + stakes.last().cells
    }
}

/// The pool can pay what it owes: no parcel's checkpoint is ahead of the
/// accumulator, the parcels have no more cells than are claimed, and what
/// was paid out together with what is still owed is covered by what was
/// paid in.
pub open spec fn solvent(ledger: PoolLedger) -> bool {
    &&& forall|i: int|
        0 <= i < ledger.stakes.len() ==> (#[trigger] ledger.stakes[i]).checkpoint
            <= ledger.accumulator
    &&& staked_cells(ledger.stakes) <= ledger.total_claimed
    &&& ledger.paid * 1_000_000_000 + outstanding(ledger.stakes, ledger.accumulator as int)
        <= ledger.contributed * 1_000_000_000
}

/// A parcel whose checkpoint is not ahead of the accumulator is owed no
/// negative amount.
proof fn lemma_due_not_negative(stake: Stake, accumulator: int)
    requires
        stake.checkpoint <= accumulator,
    ensures
        stake_due(stake, accumulator) >= 0,
{
    assert(stake.cells * (accumulator - stake.checkpoint) >= 0) by (nonlinear_arith)
        requires
            stake.cells >= 0,
            accumulator - stake.checkpoint >= 0,
    ;
}

/// Where no checkpoint is ahead of the accumulator, what is owed in all is
/// not negative.
proof fn lemma_outstanding_not_negative(stakes: Seq<Stake>, accumulator: int)
    requires
        forall|i: int| 0 <= i < stakes.len() ==> (#[trigger] stakes[i]).checkpoint <= accumulator,
    ensures
        outstanding(stakes, accumulator) >= 0,
    decreases stakes.len(),
{
    if stakes.len() > 0 {
        let shorter = stakes.drop_last();
        assert forall|i: int| 0 <= i < shorter.len() implies (#[trigger] shorter[i]).checkpoint
            <= accumulator by {
            assert(shorter[i] == stakes[i]);
        }
        lemma_outstanding_not_negative(shorter, accumulator);
        lemma_due_not_negative(stakes.last(), accumulator);
    }
}

/// Parcels have no negative number of cells between them.
proof fn lemma_cells_not_negative(stakes: Seq<Stake>)
    ensures
        staked_cells(stakes) >= 0,
    decreases stakes.len(),
{
    if stakes.len() > 0 {
        lemma_cells_not_negative(stakes.drop_last());
    }
}

/// A new parcel adds what it is owed, and its cells, to the sums.
proof fn lemma_push(stakes: Seq<Stake>, stake: Stake, accumulator: int)
    ensures
        outstanding(stakes.push(stake), accumulator) == outstanding(stakes, accumulator)
            + stake_due(stake, accumulator),
        staked_cells(stakes.push(stake)) == staked_cells(stakes) + stake.cells,
{
    assert(stakes.push(stake).drop_last() =~= stakes);
}

/// Raising the accumulator raises what is owed by the raise times the
/// cells that share it.
proof fn lemma_raise(stakes: Seq<Stake>, accumulator: int, increase: int)
    ensures
        outstanding(stakes, accumulator + increase) == outstanding(stakes, accumulator)
            + staked_cells(stakes) * increase,
    decreases stakes.len(),
{
    if stakes.len() > 0 {
        let shorter = stakes.drop_last();
        let last = stakes.last();
        lemma_raise(shorter, accumulator, increase);
        assert(last.cells * (accumulator + increase - last.checkpoint) == last.cells * (
        accumulator - last.checkpoint) + last.cells * increase) by (nonlinear_arith);
        assert((staked_cells(shorter) + last.cells) * increase == staked_cells(shorter) * increase
            + last.cells * increase) by (nonlinear_arith);
    } else {
        assert(0 * increase == 0);
    }
}

/// Replacing a parcel takes what it was owed, and its cells, out of the
/// sums and puts the replacement's in.
proof fn lemma_update(stakes: Seq<Stake>, position: int, stake: Stake, accumulator: int)
    requires
        0 <= position < stakes.len(),
    ensures
        outstanding(stakes.update(position, stake), accumulator) == outstanding(
            stakes,
            accumulator,
        ) - stake_due(stakes[position], accumulator) + stake_due(stake, accumulator),
        staked_cells(stakes.update(position, stake)) == staked_cells(stakes)
            - stakes[position].cells + stake.cells,
    decreases stakes.len(),
{
    let updated = stakes.update(position, stake);
    if position == stakes.len() - 1 {
        assert(updated.drop_last() =~= stakes.drop_last());
    } else {
        assert(updated.drop_last() =~= stakes.drop_last().update(position, stake));
        lemma_update(stakes.drop_last(), position, stake, accumulator);
    }
}

/// Removing a parcel takes what it was owed, and its cells, out of the sums.
proof fn lemma_remove(stakes: Seq<Stake>, position: int, accumulator: int)
    requires
        0 <= position < stakes.len(),
    ensures
        outstanding(stakes.remove(position), accumulator) == outstanding(stakes, accumulator)
            - stake_due(stakes[position], accumulator),
        staked_cells(stakes.remove(position)) == staked_cells(stakes) - stakes[position].cells,
    decreases stakes.len(),
{
    let removed = stakes.remove(position);
    if position == stakes.len() - 1 {
        assert(removed =~= stakes.drop_last());
    } else {
        assert(removed.drop_last() =~= stakes.drop_last().remove(position));
        assert(removed.last() == stakes.last());
        lemma_remove(stakes.drop_last(), position, accumulator);
    }
}

/// A contribution hands out no more than it brought in: the cells that
/// share it, times the amount by which it raises the accumulator, stay
/// within its scaled amount.
pub proof fn lemma_contribution_is_not_exceeded(reward: nat, total_claimed: nat, sharing: int)
    requires
        0 <= sharing <= total_claimed,
    ensures
        0 <= reward_increase(reward as int, total_claimed as int),
        sharing * reward_increase(reward as int, total_claimed as int) <= reward * 1_000_000_000,
{
    let increase = reward_increase(reward as int, total_claimed as int);
    if total_claimed == 0 {
        assert(sharing * increase == 0);
    } else {
        let scaled: int = (reward as int) * 1_000_000_000;
        let sharers: int = total_claimed as int;
        assert(increase == scaled / sharers);
        assert(0 <= increase && sharers * increase <= scaled) by (nonlinear_arith)
            requires
                sharers > 0,
                scaled >= 0,
                increase == scaled / sharers,
        ;
        assert(sharing * increase <= total_claimed * increase) by (nonlinear_arith)
            requires
                0 <= sharing <= total_claimed,
                0 <= increase,
        ;
    }
}

/// The opening books are solvent.
pub proof fn lemma_opening_ledger_solvent()
    ensures
        solvent(opening_ledger()),
{
}

/// No event makes a solvent pool insolvent.
pub proof fn lemma_event_keeps_pool_solvent(ledger: PoolLedger, event: PoolEvent)
    requires
        solvent(ledger),
    ensures
        solvent(after_event(ledger, event)),
{
    let next = after_event(ledger, event);
    let accumulator = ledger.accumulator as int;
    match event {
        PoolEvent::Purchase { reward, cells } => {
            let increase = reward_increase(reward as int, ledger.total_claimed as int);
            lemma_cells_not_negative(ledger.stakes);
            lemma_contribution_is_not_exceeded(
                reward,
                ledger.total_claimed,
                staked_cells(ledger.stakes),
            );
            let stake = Stake { cells, checkpoint: next.accumulator };
            lemma_raise(ledger.stakes, accumulator, increase);
            lemma_push(ledger.stakes, stake, next.accumulator as int);
            assert(stake_due(stake, next.accumulator as int) == 0) by (nonlinear_arith)
                requires
                    stake.checkpoint == next.accumulator,
            ;
            assert forall|i: int| 0 <= i < next.stakes.len() implies (
            #[trigger] next.stakes[i]).checkpoint <= next.accumulator by {
                if i < ledger.stakes.len() {
                    assert(next.stakes[i] == ledger.stakes[i]);
                }
            }
        },
        PoolEvent::Seeding { cells } => {
            let stake = Stake { cells, checkpoint: ledger.accumulator };
            lemma_push(ledger.stakes, stake, accumulator);
            assert(stake_due(stake, accumulator) == 0) by (nonlinear_arith)
                requires
                    stake.checkpoint == accumulator,
            ;
            assert forall|i: int| 0 <= i < next.stakes.len() implies (
            #[trigger] next.stakes[i]).checkpoint <= next.accumulator by {
                if i < ledger.stakes.len() {
                    assert(next.stakes[i] == ledger.stakes[i]);
                }
            }
        },
        PoolEvent::Settlement { parcel } => {
            if 0 <= parcel < ledger.stakes.len() {
                let stake = ledger.stakes[parcel];
                let settled_stake = Stake { cells: stake.cells, checkpoint: ledger.accumulator };
                lemma_update(ledger.stakes, parcel, settled_stake, accumulator);
                lemma_due_not_negative(stake, accumulator);
                assert(stake_due(settled_stake, accumulator) == 0) by (nonlinear_arith)
                    requires
                        settled_stake.checkpoint == accumulator,
                ;
                let due = stake_due(stake, accumulator);
                let owed = owed_reward(
                    stake.cells as int,
                    accumulator,
                    stake.checkpoint as int,
                );
                assert(owed == due / 1_000_000_000);
                assert(0 <= owed && owed * 1_000_000_000 <= due);
                assert forall|i: int| 0 <= i < next.stakes.len() implies (
                #[trigger] next.stakes[i]).checkpoint <= next.accumulator by {
                    if i != parcel {
                        assert(next.stakes[i] == ledger.stakes[i]);
                    }
                }
            }
        },
        PoolEvent::Closure { parcel } => {
            if 0 <= parcel < ledger.stakes.len() {
                lemma_remove(ledger.stakes, parcel, accumulator);
                lemma_due_not_negative(ledger.stakes[parcel], accumulator);
                assert forall|i: int| 0 <= i < next.stakes.len() implies (
                #[trigger] next.stakes[i]).checkpoint <= next.accumulator by {
                    if i < parcel {
                        assert(next.stakes[i] == ledger.stakes[i]);
                    } else {
                        assert(next.stakes[i] == ledger.stakes[i + 1]);
                    }
                }
            }
        },
    }
}

/// Whatever happens, the pool stays solvent.
pub proof fn lemma_pool_always_solvent(events: Seq<PoolEvent>)
    ensures
        solvent(after_events(events)),
    decreases events.len(),
{
    if events.len() > 0 {
        lemma_pool_always_solvent(events.drop_last());
        lemma_event_keeps_pool_solvent(after_events(events.drop_last()), events.last());
    }
}

/// Settlements never pay out more, over all parcels and all time, than
/// purchases have paid into the pool. Rounding can leave something in the
/// pool; it cannot take anything out of it.
pub proof fn lemma_payouts_covered_by_contributions(events: Seq<PoolEvent>)
    ensures
        after_events(events).paid <= after_events(events).contributed,
{
    lemma_pool_always_solvent(events);
    let ledger = after_events(events);
    lemma_outstanding_not_negative(ledger.stakes, ledger.accumulator as int);
}

/// A purchase that goes through is a `Purchase` event: the configuration
/// it leaves behind, with the new parcel's record added to the parcels, is
/// what the books say after the event that pays the purchase's reward part
/// and records the purchase's cells.
pub proof fn lemma_purchase_is_event(
    grid_config: GridConfig,
    cells: Seq<u16>,
    balance: u64,
    x: u8,
    y: u8,
    width: u8,
    height: u8,
    record: ParcelInfo,
    stakes: Seq<Stake>,
    contributed: nat,
    paid: nat,
)
    requires
        purchase_refusal(
            grid_config,
            cells,
            balance,
            x as int,
            y as int,
            width as int,
            height as int,
        ) is None,
        record.width == width,
        record.height == height,
        record.last_claimed_land_buy_rewards_per_block == accumulator_after_purchase(
            grid_config,
            width as int,
            height as int,
        ),
    ensures
        purchase_reward(grid_config, width as int, height as int) >= 0,
        ledger_of(
            config_after_purchase(grid_config, width as int, height as int),
            stakes.push(stake_of(record)),
            contributed + purchase_reward(grid_config, width as int, height as int) as nat,
            paid,
        ) == after_event(
            ledger_of(grid_config, stakes, contributed, paid),
            PoolEvent::Purchase {
                reward: purchase_reward(grid_config, width as int, height as int) as nat,
                cells: (width * height) as nat,
            },
        ),
{
    let cost = purchase_cost(grid_config, width as int, height as int);
    let share = grid_config.land_owners_reward_share_bps as int;
    assert(cost >= 0 && cost * share >= 0) by (nonlinear_arith)
        requires
            cost == width * height * grid_config.price_per_block,
            share >= 0,
    ;
    assert(width * height >= 0) by (nonlinear_arith);
}

/// A hand-out that goes through is a `Seeding` event.
pub proof fn lemma_seeding_is_event(
    grid_config: GridConfig,
    cells: Seq<u16>,
    x: u8,
    y: u8,
    width: u8,
    height: u8,
    record: ParcelInfo,
    stakes: Seq<Stake>,
    contributed: nat,
    paid: nat,
)
    requires
        seeding_refusal(grid_config, cells, x as int, y as int, width as int, height as int)
            is None,
        record.width == width,
        record.height == height,
        record.last_claimed_land_buy_rewards_per_block == grid_config.land_buy_rewards_per_block,
    ensures
        ledger_of(
            config_after_seeding(grid_config, width as int, height as int),
            stakes.push(stake_of(record)),
            contributed,
            paid,
        ) == after_event(
            ledger_of(grid_config, stakes, contributed, paid),
            PoolEvent::Seeding { cells: (width * height) as nat },
        ),
{
    assert(width * height >= 0) by (nonlinear_arith);
}

/// A settlement that pays out is a `Settlement` event: the books then show
/// the amount it returned as paid, and the settled record in the parcel's
/// place.
pub proof fn lemma_settlement_is_event(
    grid_config: GridConfig,
    record: ParcelInfo,
    stakes: Seq<Stake>,
    position: int,
    contributed: nat,
    paid: nat,
)
    requires
        settlement(grid_config.land_buy_rewards_per_block, record) is Ok,
        0 <= position < stakes.len(),
        stakes[position] == stake_of(record),
    ensures
        ledger_of(
            grid_config,
            stakes.update(
                position,
                stake_of(settled(grid_config.land_buy_rewards_per_block, record)),
            ),
            contributed,
            paid + settlement(grid_config.land_buy_rewards_per_block, record)->Ok_0 as nat,
        ) == after_event(
            ledger_of(grid_config, stakes, contributed, paid),
            PoolEvent::Settlement { parcel: position },
        ),
{
    assert(record.width * record.height >= 0) by (nonlinear_arith);
}

} // verus!
