pub mod admin_close_parcel_info;
pub mod admin_mint;
pub mod admin_purge;
pub mod admin_transfer_nft_collection_authority;
pub mod claim_land_buy_rewards;
pub mod claim_parcel;
pub mod create_block_map;
pub mod initialize;
pub mod update_config;
pub mod update_parcel_metadata;
