use vstd::prelude::*;
use crate::state::block_map::{BlockMap, TOTAL_BLOCKS};

verus! {

/// Sets up the grid's ownership table: every cell unclaimed.
pub fn handler() -> (block_map: BlockMap)
    ensures
        forall|i: int| 0 <= i < TOTAL_BLOCKS ==> block_map@[i] == 0,
{
    BlockMap::new()
}

} // verus!
