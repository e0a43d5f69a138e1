use billion::claim_parcel;
use billion::errors::BillionError;
use billion::identity::Identity;
use billion::instructions::claim_parcel::{handler, validate_claim, ClaimParcel};
use billion::instructions::initialize::{self, Initialize};
use billion::state::{BlockMap, GridConfig, ParcelInfo};

fn key(n: u8) -> Identity {
    Identity::new_from_array([n; 32])
}

fn claim_config(thresholds: Vec<u64>, price: u64, share_bps: u16) -> GridConfig {
    let accounts = Initialize {
        authority: key(1),
        token_mint: key(2),
        block_map: key(3),
        land_buy_reward_pool: key(4),
        grid_config_bump: 255,
    };
    let mut config = initialize::handler(
        &accounts,
        price,
        thresholds,
        String::from("https://example.org/p/"),
        share_bps,
    )
    .unwrap();
    config.collection = key(5);
    config
}

fn claim_accounts(balance: u64) -> ClaimParcel {
    ClaimParcel {
        claimer: key(10),
        block_map: key(3),
        token_mint: key(2),
        claimer_balance: balance,
        land_buy_reward_pool: key(4),
        parcel_info_bump: 250,
        asset: key(11),
        collection: key(5),
    }
}

fn open_thresholds() -> Vec<u64> {
    vec![0; 10]
}

#[test]
fn zero_width_or_height_is_invalid_dimensions() {
    let mut config = claim_config(open_thresholds(), 10, 2000);
    let mut map = BlockMap::new();
    let before = config.clone();
    for (w, h) in [(0u8, 1u8), (1, 0), (0, 0)] {
        let result = handler(&claim_accounts(1_000_000), &mut config, &mut map, 0, 0, w, h);
        assert_eq!(result, Err(BillionError::InvalidDimensions));
        assert_eq!(validate_claim(0, 0, w, h, &map, &config), Err(BillionError::InvalidDimensions));
    }
    assert_eq!(config, before);
    assert!(map.blocks.iter().all(|&b| b == 0));
}

#[test]
fn rectangle_past_the_edge_is_out_of_bounds() {
    let mut config = claim_config(open_thresholds(), 10, 2000);
    let mut map = BlockMap::new();
    let result = handler(&claim_accounts(1_000_000), &mut config, &mut map, 95, 0, 10, 1);
    assert_eq!(result, Err(BillionError::OutOfBounds));
    let result = handler(&claim_accounts(1_000_000), &mut config, &mut map, 0, 95, 1, 10);
    assert_eq!(result, Err(BillionError::OutOfBounds));
    assert_eq!(validate_claim(95, 0, 10, 1, &map, &config), Err(BillionError::OutOfBounds));
    assert_eq!(validate_claim(250, 0, 10, 1, &map, &config), Err(BillionError::OutOfBounds));
}

#[test]
fn shape_is_judged_before_the_collection() {
    let mut config = claim_config(open_thresholds(), 10, 2000);
    config.collection = Identity::default();
    let mut map = BlockMap::new();
    let accounts = claim_accounts(1_000_000);
    assert_eq!(
        handler(&accounts, &mut config, &mut map, 0, 0, 0, 1),
        Err(BillionError::InvalidDimensions)
    );
    assert_eq!(
        handler(&accounts, &mut config, &mut map, 95, 0, 10, 1),
        Err(BillionError::OutOfBounds)
    );
    assert_eq!(
        handler(&accounts, &mut config, &mut map, 0, 0, 1, 1),
        Err(BillionError::CollectionNotSet)
    );
}

#[test]
fn collection_is_judged_before_the_cells() {
    let mut config = claim_config(open_thresholds(), 10, 2000);
    config.collection = Identity::default();
    let mut map = BlockMap::new();
    map.set_block(0, 0, 9);
    assert_eq!(
        handler(&claim_accounts(1_000_000), &mut config, &mut map, 0, 0, 1, 1),
        Err(BillionError::CollectionNotSet)
    );
}

#[test]
fn claimed_cell_is_block_already_claimed_and_nothing_changes() {
    let mut config = claim_config(open_thresholds(), 10, 2000);
    config.total_claimed_blocks = 4;
    config.land_buy_rewards_per_block = 77;
    config.total_burned = 5;
    let mut map = BlockMap::new();
    map.set_block(12, 11, 3);
    let config_before = config.clone();
    let blocks_before = map.blocks;
    let result = handler(&claim_accounts(1_000_000), &mut config, &mut map, 10, 10, 3, 2);
    assert_eq!(result, Err(BillionError::BlockAlreadyClaimed));
    assert_eq!(config, config_before);
    assert_eq!(map.blocks, blocks_before);
    // The last cell of the rectangle is enough.
    assert_eq!(
        handler(&claim_accounts(1_000_000), &mut config, &mut map, 12, 11, 1, 1),
        Err(BillionError::BlockAlreadyClaimed)
    );
    assert_eq!(config, config_before);
    assert_eq!(map.blocks, blocks_before);
}

#[test]
fn locked_ring_is_ring_locked() {
    // Only ring 1 is unlocked.
    let mut config = claim_config(vec![0, 100, 200], 10, 2000);
    let mut map = BlockMap::new();
    let before = config.clone();
    assert_eq!(
        handler(&claim_accounts(1_000_000), &mut config, &mut map, 50, 50, 1, 1),
        Err(BillionError::RingLocked)
    );
    // (5, 5) is ring 1, (6, 6) is ring 2.
    assert_eq!(
        handler(&claim_accounts(1_000_000), &mut config, &mut map, 5, 5, 2, 2),
        Err(BillionError::RingLocked)
    );
    assert_eq!(config, before);
    assert!(map.blocks.iter().all(|&b| b == 0));
    assert!(handler(&claim_accounts(1_000_000), &mut config, &mut map, 4, 4, 2, 2).is_ok());
}

#[test]
fn first_cell_of_the_walk_decides_between_locked_and_claimed() {
    // Ring 1 only. In rows 50 and 51, column 5 is ring 1 and column 6 is ring 2.
    let config = claim_config(vec![0, 100, 200], 10, 2000);
    // Claimed cell first in the walk, locked cell after it.
    let mut map = BlockMap::new();
    map.set_block(5, 50, 7);
    assert_eq!(validate_claim(5, 50, 2, 1, &map, &config), Err(BillionError::BlockAlreadyClaimed));
    // Locked cell first in the walk (row 50), claimed cell in the row after.
    let mut map = BlockMap::new();
    map.set_block(5, 51, 7);
    assert_eq!(validate_claim(5, 50, 2, 2, &map, &config), Err(BillionError::RingLocked));
    // A cell both locked and claimed counts as locked.
    let mut map = BlockMap::new();
    map.set_block(50, 50, 7);
    assert_eq!(validate_claim(50, 50, 1, 1, &map, &config), Err(BillionError::RingLocked));
    // Neither.
    let map = BlockMap::new();
    assert_eq!(validate_claim(0, 0, 6, 100, &map, &config), Ok(()));
}

#[test]
fn rings_unlock_with_the_burn_total() {
    let mut config = claim_config(vec![0, 100, 200, 300, 400, 500, 600, 700, 800, 900], 10, 0);
    let map = BlockMap::new();
    assert_eq!(validate_claim(50, 50, 1, 1, &map, &config), Err(BillionError::RingLocked));
    config.total_burned = 899;
    assert_eq!(validate_claim(50, 50, 1, 1, &map, &config), Err(BillionError::RingLocked));
    assert_eq!(validate_claim(45, 45, 1, 1, &map, &config), Ok(()));
    config.total_burned = 900;
    assert_eq!(validate_claim(50, 50, 1, 1, &map, &config), Ok(()));
    assert_eq!(validate_claim(0, 0, 100, 100, &map, &config), Ok(()));
}

#[test]
fn purchase_books_everything() {
    let mut config = claim_config(open_thresholds(), 10, 2000);
    config.total_claimed_blocks = 100;
    config.land_buy_rewards_per_block = 5;
    config.total_burned = 1;
    config.next_parcel_id = 7;
    let before = config.clone();
    let mut map = BlockMap::new();
    let accounts = claim_accounts(60);
    let receipt = handler(&accounts, &mut config, &mut map, 10, 20, 3, 2).unwrap();

    // 6 cells at 10 = 60; 20% = 12 to the pool, 48 burned.
    assert_eq!(receipt.reward_amount, 12);
    assert_eq!(receipt.burn_amount, 48);
    assert_eq!(receipt.mint.parcel_id, 7);
    assert_eq!(receipt.mint.asset, key(11));
    assert_eq!(receipt.mint.owner, key(10));
    assert_eq!(receipt.mint.name, "Parcel #7");
    assert_eq!(receipt.mint.uri, "https://example.org/p/7");
    // 12 * 10^9 / 100 cells claimed before = 120_000_000 per cell.
    let raised = 5 + 120_000_000;
    assert_eq!(
        receipt.parcel_info,
        ParcelInfo {
            asset: key(11),
            x: 10,
            y: 20,
            width: 3,
            height: 2,
            bump: 250,
            last_claimed_land_buy_rewards_per_block: raised,
        }
    );

    let mut expected = before;
    expected.land_buy_rewards_per_block = raised;
    expected.total_claimed_blocks = 106;
    expected.total_burned = 49;
    expected.next_parcel_id = 8;
    assert_eq!(config, expected);

    for y in 0..100u8 {
        for x in 0..100u8 {
            let inside = (10..13).contains(&x) && (20..22).contains(&y);
            assert_eq!(map.get_block(x, y), if inside { 7 } else { 0 });
        }
    }
}

#[test]
fn first_purchase_is_absorbed_by_the_pool() {
    let mut config = claim_config(open_thresholds(), 100, 5000);
    let mut map = BlockMap::new();
    let receipt = handler(&claim_accounts(100), &mut config, &mut map, 0, 0, 1, 1).unwrap();
    assert_eq!(receipt.reward_amount, 50);
    assert_eq!(receipt.burn_amount, 50);
    assert_eq!(config.land_buy_rewards_per_block, 0);
    assert_eq!(receipt.parcel_info.last_claimed_land_buy_rewards_per_block, 0);
    assert_eq!(config.total_claimed_blocks, 1);
    assert_eq!(config.next_parcel_id, 2);
    assert_eq!(receipt.mint.parcel_id, 1);
}

#[test]
fn new_cells_take_no_share_of_their_own_price() {
    let mut config = claim_config(open_thresholds(), 100, 10_000);
    let mut map = BlockMap::new();
    handler(&claim_accounts(u64::MAX), &mut config, &mut map, 0, 0, 1, 1).unwrap();
    // Second purchase: 9 cells at 100, all of it reward, shared by the 1 cell before.
    let receipt = handler(&claim_accounts(u64::MAX), &mut config, &mut map, 1, 0, 3, 3).unwrap();
    assert_eq!(receipt.reward_amount, 900);
    assert_eq!(receipt.burn_amount, 0);
    assert_eq!(config.land_buy_rewards_per_block, 900_000_000_000);
    assert_eq!(
        receipt.parcel_info.last_claimed_land_buy_rewards_per_block,
        900_000_000_000
    );
    assert_eq!(config.total_claimed_blocks, 10);
}

#[test]
fn reward_share_rounds_down() {
    let mut config = claim_config(open_thresholds(), 7, 3333);
    let mut map = BlockMap::new();
    // 7 * 3333 / 10000 = 2.33 -> 2
    let receipt = handler(&claim_accounts(7), &mut config, &mut map, 0, 0, 1, 1).unwrap();
    assert_eq!(receipt.reward_amount, 2);
    assert_eq!(receipt.burn_amount, 5);
    assert_eq!(config.total_burned, 5);
}

#[test]
fn free_cells_cost_nothing() {
    let mut config = claim_config(open_thresholds(), 0, 2000);
    let mut map = BlockMap::new();
    let receipt = handler(&claim_accounts(0), &mut config, &mut map, 0, 0, 2, 2).unwrap();
    assert_eq!(receipt.reward_amount, 0);
    assert_eq!(receipt.burn_amount, 0);
    assert_eq!(config.total_claimed_blocks, 4);
}

#[test]
fn insufficient_balance() {
    let mut config = claim_config(open_thresholds(), 10, 2000);
    let mut map = BlockMap::new();
    let before = config.clone();
    assert_eq!(
        handler(&claim_accounts(59), &mut config, &mut map, 10, 20, 3, 2),
        Err(BillionError::InsufficientBalance)
    );
    assert_eq!(config, before);
    assert!(map.blocks.iter().all(|&b| b == 0));
    assert!(handler(&claim_accounts(60), &mut config, &mut map, 10, 20, 3, 2).is_ok());
}

#[test]
fn cost_overflow() {
    let mut config = claim_config(open_thresholds(), u64::MAX, 2000);
    let mut map = BlockMap::new();
    assert_eq!(
        handler(&claim_accounts(u64::MAX), &mut config, &mut map, 0, 0, 2, 1),
        Err(BillionError::Overflow)
    );
    assert!(map.blocks.iter().all(|&b| b == 0));
}

#[test]
fn balance_is_judged_before_the_split() {
    // The price fits, the price times the share does not: a purchaser who cannot pay
    // hears of the balance, one who can hears of the overflow.
    let mut config = claim_config(open_thresholds(), u64::MAX / 2, 10);
    let mut map = BlockMap::new();
    assert_eq!(
        handler(&claim_accounts(0), &mut config, &mut map, 0, 0, 1, 1),
        Err(BillionError::InsufficientBalance)
    );
    assert_eq!(
        handler(&claim_accounts(u64::MAX), &mut config, &mut map, 0, 0, 1, 1),
        Err(BillionError::Overflow)
    );
}

#[test]
fn share_above_the_whole_is_overflow() {
    // 10000 * 10001 / 10000 = 10001, more than the price: nothing is left to burn.
    // No grid is set up or changed into such a share; a configuration put together by
    // hand can hold one.
    let mut config = claim_config(open_thresholds(), 10_000, 10_000);
    config.land_owners_reward_share_bps = 10_001;
    let mut map = BlockMap::new();
    let before = config.clone();
    assert_eq!(
        handler(&claim_accounts(100_000), &mut config, &mut map, 0, 0, 1, 1),
        Err(BillionError::Overflow)
    );
    assert_eq!(config, before);
    assert!(map.blocks.iter().all(|&b| b == 0));
    // Where rounding down brings the share back to the price, the purchase goes through.
    let mut config = claim_config(open_thresholds(), 100, 10_000);
    config.land_owners_reward_share_bps = 10_001;
    let receipt = handler(&claim_accounts(1000), &mut config, &mut map, 0, 0, 1, 1).unwrap();
    assert_eq!(receipt.reward_amount, 100);
    assert_eq!(receipt.burn_amount, 0);
}

#[test]
fn totals_overflow() {
    let mut map = BlockMap::new();

    let mut config = claim_config(open_thresholds(), 10, 0);
    config.total_burned = u64::MAX - 9;
    assert_eq!(
        handler(&claim_accounts(1000), &mut config, &mut map, 0, 0, 1, 1),
        Err(BillionError::Overflow)
    );

    let mut config = claim_config(open_thresholds(), 10, 0);
    config.total_claimed_blocks = u32::MAX;
    assert_eq!(
        handler(&claim_accounts(1000), &mut config, &mut map, 0, 0, 1, 1),
        Err(BillionError::Overflow)
    );

    let mut config = claim_config(open_thresholds(), 10, 0);
    config.next_parcel_id = u16::MAX;
    let before = config.clone();
    assert_eq!(
        handler(&claim_accounts(1000), &mut config, &mut map, 0, 0, 1, 1),
        Err(BillionError::Overflow)
    );
    assert_eq!(config, before);

    let mut config = claim_config(open_thresholds(), 10, 10_000);
    config.total_claimed_blocks = 1;
    config.land_buy_rewards_per_block = u128::MAX;
    assert_eq!(
        handler(&claim_accounts(1000), &mut config, &mut map, 0, 0, 1, 1),
        Err(BillionError::Overflow)
    );
    assert!(map.blocks.iter().all(|&b| b == 0));
}

#[test]
fn presented_state_must_belong_to_the_grid() {
    let config = claim_config(open_thresholds(), 10, 2000);
    let good = claim_accounts(100);
    assert_eq!(good.check(&config), Ok(()));

    let mut bad = good;
    bad.block_map = key(99);
    assert_eq!(bad.check(&config), Err(BillionError::Unauthorized));

    let mut bad = good;
    bad.token_mint = key(99);
    assert_eq!(bad.check(&config), Err(BillionError::Unauthorized));

    let mut bad = good;
    bad.land_buy_reward_pool = key(99);
    assert_eq!(bad.check(&config), Err(BillionError::InvalidRewardPool));

    let mut bad = good;
    bad.collection = key(99);
    assert_eq!(bad.check(&config), Err(BillionError::InvalidCollection));

    // The table is looked at before the pool, the pool before the collection.
    let mut bad = good;
    bad.collection = key(99);
    bad.land_buy_reward_pool = key(99);
    assert_eq!(bad.check(&config), Err(BillionError::InvalidRewardPool));
    bad.token_mint = key(99);
    assert_eq!(bad.check(&config), Err(BillionError::Unauthorized));
}

#[test]
fn claim_parcel_checks_then_buys() {
    let mut config = claim_config(open_thresholds(), 10, 2000);
    let mut map = BlockMap::new();
    let before = config.clone();

    let mut bad = claim_accounts(100);
    bad.collection = key(99);
    assert_eq!(
        claim_parcel(&bad, &mut config, &mut map, 0, 0, 1, 1),
        Err(BillionError::InvalidCollection)
    );
    // Whether the state belongs to the grid comes before the shape.
    assert_eq!(
        claim_parcel(&bad, &mut config, &mut map, 0, 0, 0, 0),
        Err(BillionError::InvalidCollection)
    );
    assert_eq!(config, before);
    assert!(map.blocks.iter().all(|&b| b == 0));

    let receipt = claim_parcel(&claim_accounts(100), &mut config, &mut map, 0, 0, 2, 1).unwrap();
    assert_eq!(receipt.mint.parcel_id, 1);
    assert_eq!(receipt.reward_amount + receipt.burn_amount, 20);
    assert_eq!(map.get_block(1, 0), 1);
    assert_eq!(
        claim_parcel(&claim_accounts(100), &mut config, &mut map, 1, 0, 1, 1),
        Err(BillionError::BlockAlreadyClaimed)
    );
}
