use billion::errors::BillionError;
use billion::identity::Identity;
use billion::instructions::admin_close_parcel_info::AdminCloseParcelInfo;
use billion::instructions::admin_purge::{self, AdminPurge, PurgeStep};
use billion::instructions::admin_transfer_nft_collection_authority::{
    self as transfer_authority, AdminTransferNftCollectionAuthority, AuthorityTransfer,
};
use billion::instructions::initialize::{self, Initialize};
use billion::instructions::update_parcel_metadata::{self, MetadataUpdate, UpdateParcelMetadata};
use billion::state::{BlockMap, GridConfig};
use billion::{
    admin_close_parcel_info, admin_purge as admin_purge_checked,
    admin_transfer_nft_collection_authority, update_parcel_metadata as update_metadata_checked,
};

fn admin_key(n: u8) -> Identity {
    Identity::new_from_array([n; 32])
}

fn admin_config() -> GridConfig {
    let accounts = Initialize {
        authority: admin_key(1),
        token_mint: admin_key(2),
        block_map: admin_key(3),
        land_buy_reward_pool: admin_key(4),
        grid_config_bump: 255,
    };
    let mut config =
        initialize::handler(&accounts, 10, vec![0], String::new(), 2000).unwrap();
    config.collection = admin_key(5);
    config
}

fn purge_accounts(pool: u64, grid_rent: u64, authority_rent: u64) -> AdminPurge {
    AdminPurge {
        authority: admin_key(1),
        block_map: admin_key(3),
        reward_pool_amount: pool,
        reward_pool_lamports: 0,
        block_map_lamports: grid_rent,
        authority_lamports: authority_rent,
    }
}

#[test]
fn purge_drains_before_it_destroys() {
    let steps = admin_purge::handler(&purge_accounts(500, 70, 30)).unwrap();
    assert_eq!(
        steps,
        vec![
            PurgeStep::DrainPool { amount: 500 },
            PurgeStep::ClosePool,
            PurgeStep::ReleaseGrid { authority_lamports: 100 },
            PurgeStep::ReleaseConfig,
        ]
    );
}

#[test]
fn purge_of_an_empty_pool_skips_the_drain() {
    let steps = admin_purge::handler(&purge_accounts(0, 0, u64::MAX)).unwrap();
    assert_eq!(
        steps,
        vec![
            PurgeStep::ClosePool,
            PurgeStep::ReleaseGrid { authority_lamports: u64::MAX },
            PurgeStep::ReleaseConfig,
        ]
    );
}

#[test]
fn purge_counts_the_rent_of_the_pool() {
    // Closing the pool hands its rent to the authority before the table's rent follows.
    let mut accounts = purge_accounts(500, 70, 30);
    accounts.reward_pool_lamports = 2000;
    let steps = admin_purge::handler(&accounts).unwrap();
    assert_eq!(
        steps,
        vec![
            PurgeStep::DrainPool { amount: 500 },
            PurgeStep::ClosePool,
            PurgeStep::ReleaseGrid { authority_lamports: 2100 },
            PurgeStep::ReleaseConfig,
        ]
    );
    accounts.reward_pool_amount = 0;
    assert_eq!(
        admin_purge::handler(&accounts).unwrap()[1],
        PurgeStep::ReleaseGrid { authority_lamports: 2100 }
    );
}

#[test]
fn purge_overflow_with_the_rent_of_the_pool() {
    let mut accounts = purge_accounts(0, 1, u64::MAX - 2);
    accounts.reward_pool_lamports = 1;
    assert_eq!(
        admin_purge::handler(&accounts).unwrap()[1],
        PurgeStep::ReleaseGrid { authority_lamports: u64::MAX }
    );
    accounts.reward_pool_lamports = 2;
    assert_eq!(admin_purge::handler(&accounts), Err(BillionError::Overflow));
    let mut accounts = purge_accounts(0, 0, u64::MAX);
    accounts.reward_pool_lamports = 1;
    assert_eq!(admin_purge::handler(&accounts), Err(BillionError::Overflow));
}

#[test]
fn purge_overflow_plans_nothing() {
    assert_eq!(
        admin_purge::handler(&purge_accounts(500, 1, u64::MAX)),
        Err(BillionError::Overflow)
    );
    assert_eq!(
        admin_purge::handler(&purge_accounts(0, u64::MAX, u64::MAX)),
        Err(BillionError::Overflow)
    );
}

#[test]
fn purge_is_for_the_authority() {
    let config = admin_config();

    let mut bad = purge_accounts(5, 5, 5);
    bad.authority = admin_key(9);
    assert_eq!(bad.check(&config), Err(BillionError::Unauthorized));
    assert_eq!(admin_purge_checked(&bad, &config), Err(BillionError::Unauthorized));

    let mut bad = purge_accounts(5, 5, 5);
    bad.block_map = admin_key(9);
    assert_eq!(admin_purge_checked(&bad, &config), Err(BillionError::Unauthorized));

    // Who may not ask hears so, whatever the balances.
    let mut bad = purge_accounts(5, u64::MAX, u64::MAX);
    bad.authority = admin_key(9);
    assert_eq!(admin_purge_checked(&bad, &config), Err(BillionError::Unauthorized));

    let steps = admin_purge_checked(&purge_accounts(5, 5, 5), &config).unwrap();
    assert_eq!(steps.len(), 4);
    assert_eq!(steps[0], PurgeStep::DrainPool { amount: 5 });
    assert_eq!(steps[2], PurgeStep::ReleaseGrid { authority_lamports: 10 });
}

#[test]
fn purge_steps_carried_out_leave_an_empty_grid() {
    let mut map = BlockMap::new();
    map.assign_rectangle(0, 0, 10, 10, 4);
    let mut released = false;
    for step in admin_purge::handler(&purge_accounts(1, 2, 3)).unwrap() {
        match step {
            PurgeStep::DrainPool { amount } => {
                assert_eq!(amount, 1);
                assert!(!released);
            }
            PurgeStep::ClosePool => assert!(!released),
            PurgeStep::ReleaseGrid { authority_lamports } => {
                assert_eq!(authority_lamports, 5);
                map.clear();
                released = true;
            }
            PurgeStep::ReleaseConfig => assert!(released),
        }
    }
    assert!(released);
    assert!(map.blocks.iter().all(|&b| b == 0));
}

#[test]
fn closing_a_record_is_for_the_authority() {
    let config = admin_config();
    let authority = AdminCloseParcelInfo { authority: admin_key(1) };
    let stranger = AdminCloseParcelInfo { authority: admin_key(2) };
    assert_eq!(authority.check(&config), Ok(()));
    assert_eq!(stranger.check(&config), Err(BillionError::Unauthorized));
    assert_eq!(admin_close_parcel_info(&authority, &config), Ok(()));
    assert_eq!(admin_close_parcel_info(&stranger, &config), Err(BillionError::Unauthorized));
}

#[test]
fn metadata_update_carries_what_is_given() {
    let accounts = UpdateParcelMetadata {
        authority: admin_key(1),
        asset: admin_key(50),
        collection: admin_key(5),
    };
    assert_eq!(
        update_parcel_metadata::handler(&accounts, Some(String::from("Home")), None),
        MetadataUpdate {
            asset: admin_key(50),
            collection: admin_key(5),
            new_name: Some(String::from("Home")),
            new_uri: None,
        }
    );
    assert_eq!(
        update_parcel_metadata::handler(&accounts, None, Some(String::from("u"))),
        MetadataUpdate {
            asset: admin_key(50),
            collection: admin_key(5),
            new_name: None,
            new_uri: Some(String::from("u")),
        }
    );
}

#[test]
fn metadata_update_is_for_the_authority() {
    let config = admin_config();
    let good = UpdateParcelMetadata {
        authority: admin_key(1),
        asset: admin_key(50),
        collection: admin_key(5),
    };
    let update = update_metadata_checked(&good, &config, None, None).unwrap();
    assert_eq!(update.asset, admin_key(50));
    assert_eq!(update.new_name, None);
    assert_eq!(update.new_uri, None);

    let mut bad = good;
    bad.authority = admin_key(9);
    assert_eq!(
        update_metadata_checked(&bad, &config, None, None),
        Err(BillionError::Unauthorized)
    );
    let mut bad = good;
    bad.collection = admin_key(9);
    assert_eq!(
        update_metadata_checked(&bad, &config, None, None),
        Err(BillionError::InvalidCollection)
    );
    bad.authority = admin_key(9);
    assert_eq!(bad.check(&config), Err(BillionError::Unauthorized));
}

#[test]
fn collection_hand_over() {
    let mut config = admin_config();
    let good = AdminTransferNftCollectionAuthority {
        authority: admin_key(1),
        collection: admin_key(5),
        new_collection_authority: admin_key(60),
    };
    assert_eq!(
        transfer_authority::handler(&good, &config),
        Ok(AuthorityTransfer { collection: admin_key(5), new_update_authority: admin_key(60) })
    );
    assert_eq!(
        admin_transfer_nft_collection_authority(&good, &config),
        Ok(AuthorityTransfer { collection: admin_key(5), new_update_authority: admin_key(60) })
    );

    let mut bad = good;
    bad.authority = admin_key(9);
    assert_eq!(
        admin_transfer_nft_collection_authority(&bad, &config),
        Err(BillionError::Unauthorized)
    );
    let mut bad = good;
    bad.collection = admin_key(9);
    assert_eq!(
        admin_transfer_nft_collection_authority(&bad, &config),
        Err(BillionError::InvalidCollection)
    );

    config.collection = Identity::default();
    assert_eq!(
        transfer_authority::handler(&good, &config),
        Err(BillionError::CollectionNotSet)
    );
    let mut unset = good;
    unset.collection = Identity::default();
    assert_eq!(
        admin_transfer_nft_collection_authority(&unset, &config),
        Err(BillionError::CollectionNotSet)
    );
}
