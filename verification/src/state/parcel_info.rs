use vstd::prelude::*;
use crate::identity::Identity;
use crate::state::block_map::in_rectangle;

verus! {

/// The record of one claimed rectangle.
#[derive(Clone, Copy, Debug, PartialEq, Eq)]
pub struct ParcelInfo {
    /// The asset that stands for ownership of the parcel.
    pub asset: Identity,
    /// Top-left X coordinate.
    pub x: u8,
    /// Top-left Y coordinate.
    pub y: u8,
    /// Width in blocks.
    pub width: u8,
    /// Height in blocks.
    pub height: u8,
    /// Bump seed of the record's address.
    pub bump: u8,
    /// Value of the reward accumulator when the parcel last settled.
    pub last_claimed_land_buy_rewards_per_block: u128,
}

impl ParcelInfo {
    /// A record describes a non-empty rectangle that lies on the grid.
    pub open spec fn well_formed(&self) -> bool {
        &&& self.width > 0
        &&& self.height > 0
        &&& self.x + self.width <= 100
        &&& self.y + self.height <= 100
    }

    /// Number of cells of the parcel.
    pub open spec fn cells(&self) -> int {
        self.width * self.height
    }

    /// Whether cell `(cx, cy)` belongs to the parcel's rectangle.
    pub open spec fn covers(&self, cx: int, cy: int) -> bool {
        in_rectangle(cx, cy, self.x as int, self.y as int, self.width as int, self.height as int)
    }

    /// Calculate the number of blocks in this parcel.
    pub fn block_count(&self) -> (count: u32)
        ensures
            count == self.cells(),
    {
        assert(self.width * self.height <= 255 * 255) by (nonlinear_arith)
            requires
                self.width <= 255,
                self.height <= 255,
        ;
        (self.width as u32) * (self.height as u32)
    }
}

} // verus!
