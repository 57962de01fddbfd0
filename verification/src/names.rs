//! The names of cells and areas, as the solver's own crate writes them.

use vstd::prelude::*;
use crate::decimal::decimal;
use crate::model::{Area, Cell};

verus! {

/// The name of a cell: `R`, the row counted from one, `C`, the column
/// counted from one.
pub open spec fn cell_name(cell: Cell) -> Seq<char> {
    "R"@ + decimal((cell.row + 1) as nat) + "C"@ + decimal((cell.col + 1) as nat)
}

/// The name of an area: the kind of area, a space, its index counted from
/// one. An area without a name in prose has the empty name here.
pub open spec fn area_name(area: Area) -> Seq<char> {
    match area {
        Area::Row(index) => "row "@ + decimal((index + 1) as nat),
        Area::Column(index) => "column "@ + decimal((index + 1) as nat),
        Area::Region(index) => "box "@ + decimal((index + 1) as nat),
        Area::Unnamed => Seq::empty(),
    }
}

/// Calls `lisudoku_solver::types::CellPosition::to_string` on the cell.
///
/// Not proved: that the call returns `R`, the row plus one in decimal, `C`
/// and the column plus one in decimal. The additions are the crate's own, so
/// a row or column at the top of the machine's range is left out.
#[verifier::external_body]
pub(crate) fn cell_label(cell: Cell) -> (text: String)
    requires
        cell.is_nameable(),
    ensures
        text@ == cell_name(cell),
{
    lisudoku_solver::types::CellPosition { row: cell.row, col: cell.col }.to_string()
}

/// Calls `lisudoku_solver::types::Area::to_string` on the area.
///
/// Not proved: that for a row, a column and a box the call returns `row`,
/// `column` or `box`, a space, and the index plus one in decimal. The crate
/// names no other area and stops on one, so those are left out, as is an
/// index at the top of the machine's range. An area without a name would
/// go to the call as the whole grid, which the crate does not name either.
#[verifier::external_body]
pub(crate) fn area_label(area: Area) -> (text: String)
    requires
        area.is_nameable(),
    ensures
        text@ == area_name(area),
{
    match area {
        Area::Row(index) => lisudoku_solver::types::Area::Row(index).to_string(),
        Area::Column(index) => lisudoku_solver::types::Area::Column(index).to_string(),
        Area::Region(index) => lisudoku_solver::types::Area::Region(index).to_string(),
        Area::Unnamed => lisudoku_solver::types::Area::Grid.to_string(),
    }
}

} // verus!
