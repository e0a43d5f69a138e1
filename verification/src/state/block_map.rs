use vstd::prelude::*;
use crate::errors::BillionError;

verus! {

/// Side length of the square grid, in cells.
pub const GRID_SIZE: usize = 100;

/// Number of cells on the grid.
pub const TOTAL_BLOCKS: usize = GRID_SIZE * GRID_SIZE;

/// Position of cell `(x, y)` in the row-major table of cells.
pub open spec fn cell_index(x: int, y: int) -> int {
    y * 100 + x
}

/// Whether `(x, y)` is a cell of the grid.
pub open spec fn on_grid(x: int, y: int) -> bool {
    0 <= x < 100 && 0 <= y < 100
}

/// Whether cell `(cx, cy)` lies in the rectangle with corner `(x, y)`,
/// `width` cells wide and `height` cells high.
pub open spec fn in_rectangle(cx: int, cy: int, x: int, y: int, width: int, height: int) -> bool {
    x <= cx < x + width && y <= cy < y + height
}

/// Why a rectangle is no parcel shape, or `None` where it is one: it needs a
/// width and a height, and has to lie on the grid.
pub open spec fn rectangle_refusal(x: int, y: int, width: int, height: int) -> Option<
    BillionError,
> {
    if width == 0 || height == 0 {
        Some(BillionError::InvalidDimensions)
    } else if x + width > 100 || y + height > 100 {
        Some(BillionError::OutOfBounds)
    } else {
        None
    }
}

/// Checks that a rectangle has a width and a height and lies on the grid.
pub fn check_rectangle(x: u8, y: u8, width: u8, height: u8) -> (result: Result<(), BillionError>)
    ensures
        match result {
            Ok(()) => rectangle_refusal(x as int, y as int, width as int, height as int) is None,
            Err(e) => rectangle_refusal(x as int, y as int, width as int, height as int) == Some(
                e,
            ),
        },
{
    if !(width > 0 && height > 0) {
        return Err(BillionError::InvalidDimensions);
    }
    if !((x as usize) + (width as usize) <= GRID_SIZE) {
        return Err(BillionError::OutOfBounds);
    }
    if !((y as usize) + (height as usize) <= GRID_SIZE) {
        return Err(BillionError::OutOfBounds);
    }
    Ok(())
}

/// Whether every cell of a rectangle is unclaimed in a table of cells.
pub open spec fn rectangle_free(cells: Seq<u16>, x: int, y: int, width: int, height: int) -> bool {
    forall|cx: int, cy: int|
        in_rectangle(cx, cy, x, y, width, height) ==> #[trigger] cells[cell_index(cx, cy)] == 0
}

/// The table of cells after every cell of a rectangle has been given to
/// `parcel_id`; cells outside the rectangle keep their owner.
pub open spec fn with_rectangle(
    cells: Seq<u16>,
    x: int,
    y: int,
    width: int,
    height: int,
    parcel_id: u16,
) -> Seq<u16> {
    Seq::new(
        cells.len(),
        |i: int|
            if in_rectangle(i % 100, i / 100, x, y, width, height) {
                parcel_id
            } else {
                cells[i]
            },
    )
}

/// Dense ownership table of the grid: one parcel identifier per cell, in
/// row-major order, with 0 for a cell that nobody has claimed.
#[derive(Clone, Copy, Debug, PartialEq, Eq)]
pub struct BlockMap {
    pub blocks: [u16; TOTAL_BLOCKS],
}

impl View for BlockMap {
    type V = Seq<u16>;

    open spec fn view(&self) -> Seq<u16> {
        self.blocks@
    }
}

impl BlockMap {
    /// The owner recorded for cell `(x, y)`.
    pub open spec fn owner_of(&self, x: int, y: int) -> u16 {
        self@[cell_index(x, y)]
    }

    /// A grid on which no cell is claimed.
    pub fn new() -> (map: BlockMap)
        ensures
            forall|i: int| 0 <= i < TOTAL_BLOCKS ==> map@[i] == 0,
    {
        BlockMap { blocks: [0u16;TOTAL_BLOCKS] }
    }

    /// Reads the owner of cell `(x, y)`.
    pub fn get_block(&self, x: u8, y: u8) -> (parcel_id: u16)
        requires
            x < 100,
            y < 100,
        ensures
            parcel_id == self.owner_of(x as int, y as int),
    {
        let index = (y as usize) * GRID_SIZE + (x as usize);
        self.blocks[index]
    }

    /// Records `parcel_id` as the owner of cell `(x, y)`.
    pub fn set_block(&mut self, x: u8, y: u8, parcel_id: u16)
        requires
            x < 100,
            y < 100,
        ensures
            final(self)@ == old(self)@.update(cell_index(x as int, y as int), parcel_id),
    {
        let index = (y as usize) * GRID_SIZE + (x as usize);
        self.blocks[index] = parcel_id;
    }

    /// Whether no cell of the rectangle has an owner yet.
    pub fn rectangle_is_free(&self, x: u8, y: u8, width: u8, height: u8) -> (free: bool)
        requires
            x + width <= 100,
            y + height <= 100,
        ensures
            free == rectangle_free(self@, x as int, y as int, width as int, height as int),
    {
        let mut dy: u8 = 0;
        while dy < height
            invariant
                dy <= height,
                x + width <= 100,
                y + height <= 100,
                rectangle_free(self@, x as int, y as int, width as int, dy as int),
            decreases height - dy,
        {
            let mut dx: u8 = 0;
            while dx < width
                invariant
                    dx <= width,
                    dy < height,
                    x + width <= 100,
                    y + height <= 100,
                    rectangle_free(self@, x as int, y as int, width as int, dy as int),
                    rectangle_free(self@, x as int, y + dy, dx as int, 1),
                decreases width - dx,
            {
                if self.get_block(x + dx, y + dy) != 0 {
                    assert(in_rectangle(
                        x + dx,
                        y + dy,
                        x as int,
                        y as int,
                        width as int,
                        height as int,
                    ));
                    return false;
                }
                dx += 1;
            }
            dy += 1;
        }
        true
    }

    /// Gives every cell of the rectangle to `parcel_id`.
    ///
    /// Cells are overwritten whoever owned them: callers check with
    /// [`BlockMap::rectangle_is_free`] first.
    pub fn assign_rectangle(&mut self, x: u8, y: u8, width: u8, height: u8, parcel_id: u16)
        requires
            x + width <= 100,
            y + height <= 100,
        ensures
            final(self)@ == with_rectangle(
                old(self)@,
                x as int,
                y as int,
                width as int,
                height as int,
                parcel_id,
            ),
    {
        let mut dy: u8 = 0;
        while dy < height
            invariant
                dy <= height,
                x + width <= 100,
                y + height <= 100,
                self@ == with_rectangle(
                    old(self)@,
                    x as int,
                    y as int,
                    width as int,
                    dy as int,
                    parcel_id,
                ),
            decreases height - dy,
        {
            let mut dx: u8 = 0;
            while dx < width
                invariant
                    dx <= width,
                    dy < height,
                    x + width <= 100,
                    y + height <= 100,
                    self@ == with_rectangle(
                        with_rectangle(
                            old(self)@,
                            x as int,
                            y as int,
                            width as int,
                            dy as int,
                            parcel_id,
                        ),
                        x as int,
                        y + dy,
                        dx as int,
                        1,
                        parcel_id,
                    ),
                decreases width - dx,
            {
                self.set_block(x + dx, y + dy, parcel_id);
                dx += 1;
            }
            dy += 1;
        }
    }

    /// Releases every cell: afterwards nothing on the grid is claimed.
    pub fn clear(&mut self)
        ensures
            forall|i: int| 0 <= i < TOTAL_BLOCKS ==> final(self)@[i] == 0,
    {
        self.blocks = [0u16;TOTAL_BLOCKS];
    }
}

} // verus!
