pub mod block_map;
pub mod grid_config;
pub mod parcel_info;

pub use block_map::{BlockMap, GRID_SIZE, TOTAL_BLOCKS};
pub use grid_config::GridConfig;
pub use parcel_info::ParcelInfo;
