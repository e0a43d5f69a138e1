use vstd::prelude::*;
use crate::errors::BillionError;
use crate::state::parcel_info::ParcelInfo;

verus! {

/// Fixed-point scale of the reward accumulator: one whole unit of reward per
/// cell is stored as 10^9.
pub const REWARD_SCALE: u128 = 1_000_000_000;

/// By how much a contribution raises the accumulator: its scaled amount
/// divided among the cells that were claimed before it arrived, rounded
/// down. With no cell claimed there is nobody to reward, and the
/// contribution raises nothing.
pub open spec fn reward_increase(reward_amount: int, total_claimed_before: int) -> int {
    if total_claimed_before == 0 {
        0
    } else {
        reward_amount * 1_000_000_000 / total_claimed_before
    }
}

/// What a holder of `cells` cells is owed once the accumulator has moved
/// from `checkpoint` to `accumulator`, in whole units, rounded down.
pub open spec fn owed_reward(cells: int, accumulator: int, checkpoint: int) -> int {
    cells * (accumulator - checkpoint) / 1_000_000_000
}

/// Adds a contribution to the accumulator.
///
/// `total_claimed_before` is the number of claimed cells before the purchase
/// that pays the contribution: the cells being bought take no share of it.
/// Fails with `Overflow`, and only then, where the raised accumulator would
/// not fit in 128 bits.
pub fn record_contribution(accumulator: u128, reward_amount: u64, total_claimed_before: u32) -> (result:
    Result<u128, BillionError>)
    ensures
        match result {
            Ok(raised) => raised == accumulator + reward_increase(
                reward_amount as int,
                total_claimed_before as int,
            ),
            Err(e) => e == BillionError::Overflow && accumulator + reward_increase(
                reward_amount as int,
                total_claimed_before as int,
            ) > u128::MAX,
        },
{
    if total_claimed_before > 0 && reward_amount > 0 {
        let scaled: u128 = (reward_amount as u128) * REWARD_SCALE;
        let increase: u128 = scaled / (total_claimed_before as u128);
        match accumulator.checked_add(increase) {
            Some(raised) => Ok(raised),
            None => Err(BillionError::Overflow),
        }
    } else {
        Ok(accumulator)
    }
}

/// The outcome of settling `record` against `accumulator`: the amount to pay
/// out, or why nothing is paid.
///
/// A checkpoint ahead of the accumulator, a product that does not fit in 128
/// bits and an amount that does not fit in 64 bits are `Overflow`; an amount
/// of zero is `NothingToClaim`.
pub open spec fn settlement(accumulator: u128, record: ParcelInfo) -> Result<u64, BillionError> {
    let checkpoint = record.last_claimed_land_buy_rewards_per_block;
    let owed = owed_reward(record.cells(), accumulator as int, checkpoint as int);
    if accumulator < checkpoint {
        Err(BillionError::Overflow)
    } else if record.cells() * (accumulator - checkpoint) > u128::MAX {
        Err(BillionError::Overflow)
    } else if owed > u64::MAX {
        Err(BillionError::Overflow)
    } else if owed == 0 {
        Err(BillionError::NothingToClaim)
    } else {
        Ok(owed as u64)
    }
}

/// The record after a settlement that paid out: its checkpoint has moved up
/// to the accumulator and nothing else has changed.
pub open spec fn settled(accumulator: u128, record: ParcelInfo) -> ParcelInfo {
    ParcelInfo { last_claimed_land_buy_rewards_per_block: accumulator, ..record }
}

/// Settles what `record` is owed.
///
/// On success the amount is returned and the record's checkpoint moves up to
/// the accumulator; on failure the record is left as it was.
pub fn settle(accumulator: u128, record: &mut ParcelInfo) -> (result: Result<u64, BillionError>)
    ensures
        result == settlement(accumulator, *old(record)),
        result is Ok ==> *final(record) == settled(accumulator, *old(record)),
        result is Err ==> *final(record) == *old(record),
{
    let checkpoint = record.last_claimed_land_buy_rewards_per_block;
    if accumulator < checkpoint {
        return Err(BillionError::Overflow);
    }
    let rewards_delta: u128 = accumulator - checkpoint;
    let owed_u128: u128 = match (record.block_count() as u128).checked_mul(rewards_delta) {
        Some(product) => product / REWARD_SCALE,
        None => {
            return Err(BillionError::Overflow);
        },
    };
    if owed_u128 > u64::MAX as u128 {
        return Err(BillionError::Overflow);
    }
    let owed: u64 = owed_u128 as u64;
    if owed == 0 {
        return Err(BillionError::NothingToClaim);
    }
    record.last_claimed_land_buy_rewards_per_block = accumulator;
    Ok(owed)
}

/// A record whose checkpoint stands at the accumulator is owed nothing.
pub proof fn lemma_nothing_owed_at_checkpoint(accumulator: u128, record: ParcelInfo)
    requires
        record.last_claimed_land_buy_rewards_per_block == accumulator,
    ensures
        settlement(accumulator, record) == Err::<u64, BillionError>(BillionError::NothingToClaim),
{
    assert(record.cells() * (accumulator - accumulator) == 0) by (nonlinear_arith);
}

/// Settling twice in a row pays once: right after a settlement that paid
/// out, with the accumulator where it was, a second settlement of the same
/// record fails with `NothingToClaim`.
pub proof fn lemma_second_settlement_pays_nothing(accumulator: u128, record: ParcelInfo)
    requires
        settlement(accumulator, record) is Ok,
    ensures
        settlement(accumulator, settled(accumulator, record)) == Err::<u64, BillionError>(
            BillionError::NothingToClaim,
        ),
{
    lemma_nothing_owed_at_checkpoint(accumulator, settled(accumulator, record));
}

/// A settlement never pays more than the scaled amount it is owed, and the
/// part it leaves unpaid is less than one whole unit.
pub proof fn lemma_settlement_rounds_down(accumulator: u128, record: ParcelInfo)
    requires
        settlement(accumulator, record) is Ok,
    ensures
        ({
            let paid = settlement(accumulator, record)->Ok_0;
            let due = record.cells() * (accumulator
                - record.last_claimed_land_buy_rewards_per_block);
            paid * 1_000_000_000 <= due < (paid + 1) * 1_000_000_000
        }),
{
}

} // verus!
