use vstd::prelude::*;

verus! {

/// The coordinate of the grid's center, on both axes.
pub const GRID_CENTER: u8 = 50;

/// How far a coordinate lies from the center line of its axis.
pub open spec fn axis_distance(c: int) -> int {
    if c >= 50 {
        c - 50
    } else {
        50 - c
    }
}

/// Chebyshev distance of a cell from the grid's center.
pub open spec fn center_distance(x: int, y: int) -> int {
    if axis_distance(x) >= axis_distance(y) {
        axis_distance(x)
    } else {
        axis_distance(y)
    }
}

/// The ring of a cell. Distances fall into bands of width five; the first
/// ten bands count down from ring 10 at the center, and everything farther
/// out is ring 1.
pub open spec fn ring_of(x: int, y: int) -> int {
    let band = center_distance(x, y) / 5 + 1;
    let capped = if band < 10 {
        band
    } else {
        10
    };
    if 11 - capped > 1 {
        11 - capped
    } else {
        1
    }
}

/// Calculate which ring a block belongs to (1-10).
/// Ring 1 is outermost (corners), ring 10 is the center.
/// Outer rings unlock first, the center unlocks last.
pub fn get_ring(x: u8, y: u8) -> (ring: u8)
    ensures
        ring == ring_of(x as int, y as int),
        1 <= ring <= 10,
{
    let dx: u8 = if x >= GRID_CENTER {
        x - GRID_CENTER
    } else {
        GRID_CENTER - x
    };
    let dy: u8 = if y >= GRID_CENTER {
        y - GRID_CENTER
    } else {
        GRID_CENTER - y
    };
    let distance: u8 = if dx >= dy {
        dx
    } else {
        dy
    };
    let raw_ring: u8 = distance / 5 + 1;
    let capped: u8 = if raw_ring < 10 {
        raw_ring
    } else {
        10
    };
    let ring: u8 = 11 - capped;
    if ring > 1 {
        ring
    } else {
        1
    }
}

/// Mirroring a cell across either center line, or across both, leaves its
/// ring unchanged, and so does swapping its two coordinates.
pub proof fn lemma_ring_symmetric(x: int, y: int)
    ensures
        ring_of(100 - x, y) == ring_of(x, y),
        ring_of(x, 100 - y) == ring_of(x, y),
        ring_of(100 - x, 100 - y) == ring_of(x, y),
        ring_of(y, x) == ring_of(x, y),
{
}

/// Every cell has a ring between 1 and 10.
pub proof fn lemma_ring_in_range(x: int, y: int)
    ensures
        1 <= ring_of(x, y) <= 10,
{
}

/// The ring that a burn total has unlocked: scanning the thresholds from the
/// last to the first, the position (counted from 1) of the first one that
/// the total has reached, and 1 where it has reached none.
pub open spec fn unlocked_ring(total_burned: u64, thresholds: Seq<u64>) -> int
    decreases thresholds.len(),
{
    if thresholds.len() == 0 {
        1
    } else if total_burned >= thresholds.last() {
        thresholds.len() as int
    } else {
        unlocked_ring(total_burned, thresholds.drop_last())
    }
}

/// The unlocked ring as the byte that gates purchases. It is the unlocked
/// ring itself for every list of at most 255 thresholds; for a longer list
/// the position is reduced modulo 256.
pub open spec fn unlocked_ring_byte(total_burned: u64, thresholds: Seq<u64>) -> u8 {
    (unlocked_ring(total_burned, thresholds) % 256) as u8
}

/// Calculate which ring is unlocked based on the total burned.
pub fn get_unlocked_ring(total_burned: u64, thresholds: &[u64]) -> (ring: u8)
    ensures
        ring == unlocked_ring_byte(total_burned, thresholds@),
        thresholds@.len() <= 255 ==> ring as int == unlocked_ring(total_burned, thresholds@),
{
    let mut i: usize = thresholds.len();
    proof {
        assert(thresholds@.take(i as int) =~= thresholds@);
    }
    while i > 0
        invariant
            i <= thresholds@.len(),
            unlocked_ring(total_burned, thresholds@) == unlocked_ring(
                total_burned,
                thresholds@.take(i as int),
            ),
        decreases i,
    {
        proof {
            let prefix = thresholds@.take(i as int);
            assert(prefix.last() == thresholds@[i - 1]);
            assert(prefix.drop_last() =~= thresholds@.take(i - 1));
        }
        if total_burned >= thresholds[i - 1] {
            proof {
                lemma_unlocked_ring_bounds(total_burned, thresholds@);
            }
            return (i % 256) as u8;
        }
        i -= 1;
    }
    proof {
        assert(thresholds@.take(0).len() == 0);
    }
    1
}

/// The unlocked ring is at least 1 and at most the number of thresholds
/// (or 1, for an empty list).
pub proof fn lemma_unlocked_ring_bounds(total_burned: u64, thresholds: Seq<u64>)
    ensures
        1 <= unlocked_ring(total_burned, thresholds),
        unlocked_ring(total_burned, thresholds) <= thresholds.len() || unlocked_ring(
            total_burned,
            thresholds,
        ) == 1,
    decreases thresholds.len(),
{
    if thresholds.len() > 0 && total_burned < thresholds.last() {
        lemma_unlocked_ring_bounds(total_burned, thresholds.drop_last());
    }
}

/// The unlocked ring names the last threshold that the total has reached:
/// that threshold is met, and none after it is. Where no threshold is met
/// the unlocked ring is 1.
pub proof fn lemma_unlocked_ring_highest_met(total_burned: u64, thresholds: Seq<u64>)
    ensures
        (forall|i: int| 0 <= i < thresholds.len() ==> total_burned < thresholds[i])
            ==> unlocked_ring(total_burned, thresholds) == 1,
        (exists|i: int| 0 <= i < thresholds.len() && total_burned >= thresholds[i]) ==> {
            let ring = unlocked_ring(total_burned, thresholds);
            &&& 1 <= ring <= thresholds.len()
            &&& total_burned >= thresholds[ring - 1]
            &&& forall|j: int| ring <= j < thresholds.len() ==> total_burned < thresholds[j]
        },
    decreases thresholds.len(),
{
    if thresholds.len() > 0 && total_burned < thresholds.last() {
        let shorter = thresholds.drop_last();
        lemma_unlocked_ring_highest_met(total_burned, shorter);
        if exists|i: int| 0 <= i < thresholds.len() && total_burned >= thresholds[i] {
            let i = choose|i: int| 0 <= i < thresholds.len() && total_burned >= thresholds[i];
            assert(0 <= i < shorter.len() && total_burned >= shorter[i]);
            let ring = unlocked_ring(total_burned, shorter);
            assert(total_burned >= thresholds[ring - 1]);
            assert forall|j: int| ring <= j < thresholds.len() implies total_burned
                < thresholds[j] by {
                if j < shorter.len() {
                    assert(total_burned < shorter[j]);
                }
            }
        } else {
            assert forall|i: int| 0 <= i < shorter.len() implies total_burned < shorter[i] by {
                assert(total_burned < thresholds[i]);
            }
        }
    }
}

/// Burning more never locks a ring again: for a fixed list of thresholds the
/// unlocked ring does not decrease as the burn total grows.
pub proof fn lemma_unlocked_ring_monotonic(lower: u64, higher: u64, thresholds: Seq<u64>)
    requires
        lower <= higher,
    ensures
        unlocked_ring(lower, thresholds) <= unlocked_ring(higher, thresholds),
    decreases thresholds.len(),
{
    if thresholds.len() > 0 {
        if higher >= thresholds.last() {
            lemma_unlocked_ring_bounds(lower, thresholds);
        } else {
            lemma_unlocked_ring_monotonic(lower, higher, thresholds.drop_last());
        }
    }
}

/// For a list of at most 255 thresholds the byte that gates purchases is
/// the unlocked ring itself, and so never decreases as the burn total grows.
/// (Beyond 255 thresholds the byte wraps around, and can fall back.)
pub proof fn lemma_unlocked_ring_byte_monotonic(lower: u64, higher: u64, thresholds: Seq<u64>)
    requires
        lower <= higher,
        thresholds.len() <= 255,
    ensures
        unlocked_ring_byte(lower, thresholds) == unlocked_ring(lower, thresholds),
        unlocked_ring_byte(higher, thresholds) == unlocked_ring(higher, thresholds),
        unlocked_ring_byte(lower, thresholds) <= unlocked_ring_byte(higher, thresholds),
{
    lemma_unlocked_ring_bounds(lower, thresholds);
    lemma_unlocked_ring_bounds(higher, thresholds);
    lemma_unlocked_ring_monotonic(lower, higher, thresholds);
}

} // verus!
