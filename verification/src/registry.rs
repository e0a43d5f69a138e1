//! Why no cell ever belongs to two parcels.
//!
//! The grid knows an identifier per cell; each parcel's rectangle is on its
//! own record, and the records are kept wherever the caller keeps them. This
//! module states what ties the two together and shows that every operation
//! keeps it.

use vstd::prelude::*;
use crate::instructions::admin_mint::seeding_refusal;
use crate::instructions::claim_parcel::purchase_refusal;
use crate::state::block_map::{cell_index, in_rectangle, on_grid, rectangle_free, with_rectangle};
use crate::state::grid_config::GridConfig;
use crate::state::parcel_info::ParcelInfo;

verus! {

/// The grid agrees with the parcel records: the table has a place for every
/// cell, no record goes by the "unclaimed" mark, every record describes a
/// rectangle on the grid, and every cell of a record's rectangle is marked
/// with the record's identifier.
pub open spec fn grid_matches_records(cells: Seq<u16>, records: Map<u16, ParcelInfo>) -> bool {
    &&& cells.len() == 10_000
    &&& !records.contains_key(0)
    &&& forall|id: u16| records.contains_key(id) ==> (#[trigger] records[id]).well_formed()
    &&& forall|id: u16, cx: int, cy: int|
        records.contains_key(id) && #[trigger] records[id].covers(cx, cy) ==> cells[cell_index(
            cx,
            cy,
        )] == id
}

/// The record that a rectangle gets, whatever asset, bump seed and
/// checkpoint come with it.
pub open spec fn records_rectangle(record: ParcelInfo, x: int, y: int, width: int, height: int) -> bool {
    record.x == x && record.y == y && record.width == width && record.height == height
}

/// After a rectangle on the grid has been assigned, each of its cells
/// belongs to the new parcel and every other cell to whom it belonged.
pub proof fn lemma_assigned_cells(
    cells: Seq<u16>,
    x: int,
    y: int,
    width: int,
    height: int,
    parcel_id: u16,
    cx: int,
    cy: int,
)
    requires
        cells.len() == 10_000,
        on_grid(cx, cy),
    ensures
        with_rectangle(cells, x, y, width, height, parcel_id)[cell_index(cx, cy)] == (if in_rectangle(
            cx,
            cy,
            x,
            y,
            width,
            height,
        ) {
            parcel_id
        } else {
            cells[cell_index(cx, cy)]
        }),
{
}

/// An empty grid agrees with an empty set of records.
pub proof fn lemma_nothing_recorded(cells: Seq<u16>)
    requires
        cells.len() == 10_000,
    ensures
        grid_matches_records(cells, Map::empty()),
{
}

/// Where the grid agrees with the records, no cell belongs to two parcels.
pub proof fn lemma_parcels_never_overlap(
    cells: Seq<u16>,
    records: Map<u16, ParcelInfo>,
    first: u16,
    second: u16,
    cx: int,
    cy: int,
)
    requires
        grid_matches_records(cells, records),
        records.contains_key(first),
        records.contains_key(second),
        first != second,
    ensures
        !(records[first].covers(cx, cy) && records[second].covers(cx, cy)),
{
}

/// Recording a new parcel keeps grid and records in agreement: where a free
/// rectangle on the grid is assigned to an identifier other than 0 and a
/// record of that rectangle is filed under the identifier, every recorded
/// parcel still owns each of its cells.
pub proof fn lemma_new_parcel_keeps_agreement(
    cells: Seq<u16>,
    records: Map<u16, ParcelInfo>,
    parcel_id: u16,
    record: ParcelInfo,
)
    requires
        grid_matches_records(cells, records),
        parcel_id != 0,
        record.well_formed(),
        rectangle_free(
            cells,
            record.x as int,
            record.y as int,
            record.width as int,
            record.height as int,
        ),
    ensures
        grid_matches_records(
            with_rectangle(
                cells,
                record.x as int,
                record.y as int,
                record.width as int,
                record.height as int,
                parcel_id,
            ),
            records.insert(parcel_id, record),
        ),
{
    let (x, y, w, h) = (
        record.x as int,
        record.y as int,
        record.width as int,
        record.height as int,
    );
    let assigned = with_rectangle(cells, x, y, w, h, parcel_id);
    let filed = records.insert(parcel_id, record);
    assert forall|id: u16, cx: int, cy: int|
        filed.contains_key(id) && #[trigger] filed[id].covers(cx, cy) implies assigned[cell_index(
        cx,
        cy,
    )] == id by {
        if id == parcel_id {
            assert(in_rectangle(cx, cy, x, y, w, h));
            lemma_assigned_cells(cells, x, y, w, h, parcel_id, cx, cy);
        } else {
            assert(records[id].well_formed());
            assert(records[id].covers(cx, cy));
            assert(on_grid(cx, cy));
            assert(cells[cell_index(cx, cy)] == id);
            if in_rectangle(cx, cy, x, y, w, h) {
                assert(cells[cell_index(cx, cy)] == 0);
            }
            lemma_assigned_cells(cells, x, y, w, h, parcel_id, cx, cy);
        }
    }
    assert forall|id: u16| filed.contains_key(id) implies (#[trigger] filed[id]).well_formed() by {
        if id != parcel_id {
            assert(records[id].well_formed());
        }
    }
}

/// Closing a record keeps grid and records in agreement. The cells of the
/// closed parcel stay marked; no record speaks of them any more.
pub proof fn lemma_closing_keeps_agreement(
    cells: Seq<u16>,
    records: Map<u16, ParcelInfo>,
    parcel_id: u16,
)
    requires
        grid_matches_records(cells, records),
    ensures
        grid_matches_records(cells, records.remove(parcel_id)),
{
    let kept = records.remove(parcel_id);
    assert forall|id: u16, cx: int, cy: int|
        kept.contains_key(id) && #[trigger] kept[id].covers(cx, cy) implies cells[cell_index(
        cx,
        cy,
    )] == id by {
        assert(records[id].covers(cx, cy));
    }
    assert forall|id: u16| kept.contains_key(id) implies (#[trigger] kept[id]).well_formed() by {
        assert(records[id].well_formed());
    }
}

/// Replacing a record by one of the same rectangle, as a settlement does,
/// keeps grid and records in agreement.
pub proof fn lemma_settling_keeps_agreement(
    cells: Seq<u16>,
    records: Map<u16, ParcelInfo>,
    parcel_id: u16,
    record: ParcelInfo,
)
    requires
        grid_matches_records(cells, records),
        records.contains_key(parcel_id),
        records_rectangle(
            record,
            records[parcel_id].x as int,
            records[parcel_id].y as int,
            records[parcel_id].width as int,
            records[parcel_id].height as int,
        ),
    ensures
        grid_matches_records(cells, records.insert(parcel_id, record)),
{
    let filed = records.insert(parcel_id, record);
    assert(records[parcel_id].well_formed());
    assert forall|id: u16, cx: int, cy: int|
        filed.contains_key(id) && #[trigger] filed[id].covers(cx, cy) implies cells[cell_index(
        cx,
        cy,
    )] == id by {
        assert(records[id].covers(cx, cy));
    }
    assert forall|id: u16| filed.contains_key(id) implies (#[trigger] filed[id]).well_formed() by {
        if id != parcel_id {
            assert(records[id].well_formed());
        }
    }
}

/// A purchase that goes through keeps grid and records in agreement: with a
/// next identifier other than 0, the grid it leaves behind agrees with the
/// records once the new parcel's record is filed under that identifier.
pub proof fn lemma_purchase_keeps_agreement(
    grid_config: GridConfig,
    cells: Seq<u16>,
    balance: u64,
    x: u8,
    y: u8,
    width: u8,
    height: u8,
    records: Map<u16, ParcelInfo>,
    record: ParcelInfo,
)
    requires
        grid_matches_records(cells, records),
        grid_config.next_parcel_id != 0,
        purchase_refusal(
            grid_config,
            cells,
            balance,
            x as int,
            y as int,
            width as int,
            height as int,
        ) is None,
        records_rectangle(record, x as int, y as int, width as int, height as int),
    ensures
        grid_matches_records(
            with_rectangle(
                cells,
                x as int,
                y as int,
                width as int,
                height as int,
                grid_config.next_parcel_id,
            ),
            records.insert(grid_config.next_parcel_id, record),
        ),
{
    lemma_new_parcel_keeps_agreement(cells, records, grid_config.next_parcel_id, record);
}

/// A hand-out that goes through keeps grid and records in agreement, as a
/// purchase does.
pub proof fn lemma_seeding_keeps_agreement(
    grid_config: GridConfig,
    cells: Seq<u16>,
    x: u8,
    y: u8,
    width: u8,
    height: u8,
    records: Map<u16, ParcelInfo>,
    record: ParcelInfo,
)
    requires
        grid_matches_records(cells, records),
        grid_config.next_parcel_id != 0,
        seeding_refusal(grid_config, cells, x as int, y as int, width as int, height as int)
            is None,
        records_rectangle(record, x as int, y as int, width as int, height as int),
    ensures
        grid_matches_records(
            with_rectangle(
                cells,
                x as int,
                y as int,
                width as int,
                height as int,
                grid_config.next_parcel_id,
            ),
            records.insert(grid_config.next_parcel_id, record),
        ),
{
    lemma_new_parcel_keeps_agreement(cells, records, grid_config.next_parcel_id, record);
}

} // verus!
