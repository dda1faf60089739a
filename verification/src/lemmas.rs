//! What holds of every board, proved over the model that the operations'
//! contracts are stated in.

use vstd::prelude::*;
use crate::board::LocationError;
use crate::grid::{Grid, Placement};
use crate::kilobot::Kilobot;

verus! {

/// Every coordinate pair within the extent has the position `x + y * width`,
/// which lies below `width * height`.
pub proof fn lemma_index_in_range(grid: Grid, x: nat, y: nat)
    requires
        grid.in_bounds(x, y),
    ensures
        grid.index_of(x, y) == x + y * grid.width,
        0 <= grid.index_of(x, y) < grid.width * grid.height,
{
    assert(x + y * grid.width < grid.width * grid.height) by (nonlinear_arith)
        requires
            x < grid.width,
            y < grid.height,
    ;
}

/// Two coordinate pairs within the extent that share a position are the same
/// pair.
pub proof fn lemma_index_injective(grid: Grid, x1: nat, y1: nat, x2: nat, y2: nat)
    requires
        grid.in_bounds(x1, y1),
        grid.in_bounds(x2, y2),
        grid.index_of(x1, y1) == grid.index_of(x2, y2),
    ensures
        x1 == x2,
        y1 == y2,
{
    let w = grid.width as int;
    if y1 < y2 {
        assert(y1 * w + w <= y2 * w) by (nonlinear_arith)
            requires
                y1 + 1 <= y2,
                w >= 0,
        ;
    } else if y2 < y1 {
        assert(y2 * w + w <= y1 * w) by (nonlinear_arith)
            requires
                y2 + 1 <= y1,
                w >= 0,
        ;
    }
}

/// Every position below `width * height` belongs to a coordinate pair within
/// the extent: the column is the remainder by the width, the row the
/// quotient.
pub proof fn lemma_index_surjective(grid: Grid, index: int)
    requires
        0 <= index < grid.width * grid.height,
    ensures
        grid.in_bounds(grid.coord_of(index).0, grid.coord_of(index).1),
        grid.index_of(grid.coord_of(index).0, grid.coord_of(index).1) == index,
{
    let w = grid.width as int;
    let h = grid.height as int;
    assert(w > 0) by (nonlinear_arith)
        requires
            0 <= index < w * h,
            w >= 0,
            h >= 0,
    ;
    vstd::arithmetic::div_mod::lemma_fundamental_div_mod(index, w);
    vstd::arithmetic::div_mod::lemma_mod_bound(index, w);
    vstd::arithmetic::div_mod::lemma_div_pos_is_pos(index, w);
    let q = index / w;
    let r = index % w;
    assert(q < h) by (nonlinear_arith)
        requires
            index == w * q + r,
            0 <= r,
            index < w * h,
            w > 0,
    ;
    assert(r + q * w == index) by (nonlinear_arith)
        requires
            index == w * q + r,
    ;
}

/// The row-major mapping is a bijection between the coordinate pairs within
/// the extent and the positions from zero up to `width * height`: it stays
/// within that range, it sends different pairs to different positions, and
/// every position of the range is that of the pair `coord_of` gives.
pub proof fn lemma_index_bijective(grid: Grid)
    ensures
        forall|x: nat, y: nat|
            grid.in_bounds(x, y) ==> 0 <= #[trigger] grid.index_of(x, y) < grid.width
                * grid.height,
        forall|x1: nat, y1: nat, x2: nat, y2: nat|
            grid.in_bounds(x1, y1) && grid.in_bounds(x2, y2) && #[trigger] grid.index_of(x1, y1)
                == #[trigger] grid.index_of(x2, y2) ==> x1 == x2 && y1 == y2,
        forall|index: int|
            0 <= index < grid.width * grid.height ==> ({
                let (x, y) = #[trigger] grid.coord_of(index);
                grid.in_bounds(x, y) && grid.index_of(x, y) == index
            }),
{
    assert forall|x: nat, y: nat| grid.in_bounds(x, y) implies 0 <= #[trigger] grid.index_of(
        x,
        y,
    ) < grid.width * grid.height by {
        lemma_index_in_range(grid, x, y);
    }
    assert forall|x1: nat, y1: nat, x2: nat, y2: nat|
        grid.in_bounds(x1, y1) && grid.in_bounds(x2, y2) && #[trigger] grid.index_of(x1, y1)
            == #[trigger] grid.index_of(x2, y2) implies x1 == x2 && y1 == y2 by {
        lemma_index_injective(grid, x1, y1, x2, y2);
    }
    assert forall|index: int| 0 <= index < grid.width * grid.height implies ({
        let (x, y) = #[trigger] grid.coord_of(index);
        grid.in_bounds(x, y) && grid.index_of(x, y) == index
    }) by {
        lemma_index_surjective(grid, index);
    }
}

/// A bot placed on an empty cell is the bot that a lookup of that cell then
/// finds, facing as it was placed.
pub proof fn lemma_place_then_get(grid: Grid, bot: Kilobot, x: nat, y: nat, facing: u16)
    requires
        grid.wf(),
        grid.place_error(x, y) is None,
    ensures
        grid.place(bot, x, y, facing).bot_at_coord(x, y) == Ok::<Kilobot, LocationError>(bot),
        grid.place(bot, x, y, facing).bot_at_index(grid.index_of(x, y)) == Ok::<
            Kilobot,
            LocationError,
        >(bot),
        grid.place(bot, x, y, facing).at_coord(x, y) == Ok::<Placement, LocationError>(
            Placement { bot, facing },
        ),
{
    lemma_index_in_range(grid, x, y);
}

/// Once a bot has been placed at a cell of the board, a second placement
/// there is refused because the cell is occupied, and the board, with the
/// bot that stands there, stays as the first placement left it.
pub proof fn lemma_place_twice(
    grid: Grid,
    first: Kilobot,
    second: Kilobot,
    x: nat,
    y: nat,
    first_facing: u16,
    second_facing: u16,
)
    requires
        grid.wf(),
        grid.in_bounds(x, y),
    ensures
        ({
            let placed = grid.place(first, x, y, first_facing);
            &&& placed.place_error(x, y) == Some(LocationError::AlreadyOccupied)
            &&& placed.place(second, x, y, second_facing) == placed
            &&& grid.place_error(x, y) is None ==> placed.at_coord(x, y) == Ok::<
                Placement,
                LocationError,
            >(Placement { bot: first, facing: first_facing })
        }),
{
    lemma_index_in_range(grid, x, y);
}

/// Removing from an empty cell of the board finds no bot and changes
/// nothing.
pub proof fn lemma_remove_from_empty(grid: Grid, index: int)
    requires
        0 <= index < grid.cells.len(),
        grid.cells[index] is None,
    ensures
        grid.at_index(index) == Err::<Placement, LocationError>(LocationError::NotOccupied),
        grid.bot_at_index(index) == Err::<Kilobot, LocationError>(LocationError::NotOccupied),
        grid.clear_index(index) == grid,
{
}

/// Removing from an occupied cell hands out the bot that stood there and
/// leaves that cell empty, so that a lookup then finds no bot; every other
/// cell keeps what it held.
pub proof fn lemma_remove_from_occupied(grid: Grid, index: int)
    requires
        grid.occupied(index),
    ensures
        grid.at_index(index) == Ok::<Placement, LocationError>(grid.cells[index].unwrap()),
        grid.clear_index(index).at_index(index) == Err::<Placement, LocationError>(
            LocationError::NotOccupied,
        ),
        grid.clear_index(index).bot_at_index(index) == Err::<Kilobot, LocationError>(
            LocationError::NotOccupied,
        ),
        grid.clear_index(index).width == grid.width,
        grid.clear_index(index).height == grid.height,
        grid.clear_index(index).cells.len() == grid.cells.len(),
        forall|other: int|
            0 <= other < grid.cells.len() && other != index ==> grid.clear_index(
                index,
            ).cells[other] == grid.cells[other],
{
}

/// On coordinates within the extent, every operation by coordinates does
/// what the operation by position does at the position of those coordinates.
pub proof fn lemma_coord_is_index(grid: Grid, x: nat, y: nat)
    requires
        grid.in_bounds(x, y),
    ensures
        grid.at_coord(x, y) == grid.at_index(grid.index_of(x, y)),
        grid.bot_at_coord(x, y) == grid.bot_at_index(grid.index_of(x, y)),
        grid.clear_coord(x, y) == grid.clear_index(grid.index_of(x, y)),
{
}

/// Coordinates outside the extent are refused as out of bounds by every
/// operation that takes coordinates, and the board stays as it was.
pub proof fn lemma_coord_out_of_bounds(grid: Grid, bot: Kilobot, x: nat, y: nat, facing: u16)
    requires
        x >= grid.width || y >= grid.height,
    ensures
        grid.locate(x, y) == Err::<int, LocationError>(LocationError::OutOfBounds),
        grid.place_error(x, y) == Some(LocationError::OutOfBounds),
        grid.place(bot, x, y, facing) == grid,
        grid.at_coord(x, y) == Err::<Placement, LocationError>(LocationError::OutOfBounds),
        grid.bot_at_coord(x, y) == Err::<Kilobot, LocationError>(LocationError::OutOfBounds),
        grid.clear_coord(x, y) == grid,
{
}

/// A position at or beyond `width * height` is refused as out of bounds by
/// every operation that takes a position, and the board stays as it was.
pub proof fn lemma_index_out_of_bounds(grid: Grid, index: int)
    requires
        grid.wf(),
        index >= grid.width * grid.height,
    ensures
        grid.at_index(index) == Err::<Placement, LocationError>(LocationError::OutOfBounds),
        grid.bot_at_index(index) == Err::<Kilobot, LocationError>(LocationError::OutOfBounds),
        grid.clear_index(index) == grid,
{
}

/// Placing a bot on an empty cell and removing it again hands back the same
/// bot with the facing it was placed with, and leaves the board as it was
/// before the placement.
pub proof fn lemma_place_then_remove(grid: Grid, bot: Kilobot, x: nat, y: nat, facing: u16)
    requires
        grid.wf(),
        grid.place_error(x, y) is None,
    ensures
        grid.place(bot, x, y, facing).at_coord(x, y) == Ok::<Placement, LocationError>(
            Placement { bot, facing },
        ),
        grid.place(bot, x, y, facing).clear_coord(x, y) == grid,
{
    lemma_index_in_range(grid, x, y);
    assert(grid.place(bot, x, y, facing).clear_coord(x, y).cells =~= grid.cells);
}

/// No operation changes the extent of a board or the number of its cells.
pub proof fn lemma_extent_is_fixed(
    grid: Grid,
    bot: Kilobot,
    x: nat,
    y: nat,
    facing: u16,
    index: int,
)
    requires
        grid.wf(),
    ensures
        grid.place(bot, x, y, facing).wf(),
        grid.place(bot, x, y, facing).width == grid.width,
        grid.place(bot, x, y, facing).height == grid.height,
        grid.clear_index(index).wf(),
        grid.clear_index(index).width == grid.width,
        grid.clear_index(index).height == grid.height,
        grid.clear_coord(x, y).wf(),
        grid.clear_coord(x, y).width == grid.width,
        grid.clear_coord(x, y).height == grid.height,
{
    if grid.in_bounds(x, y) {
        lemma_index_in_range(grid, x, y);
    }
}

/// A board that has just been made holds no bot: every lookup within it
/// finds the cell empty, and the count of bots is zero.
pub proof fn lemma_empty_board(width: nat, height: nat)
    ensures
        Grid::empty(width, height).wf(),
        Grid::empty(width, height).occupied_count() == 0,
        forall|index: int|
            0 <= index < width * height ==> #[trigger] Grid::empty(width, height).at_index(index)
                == Err::<Placement, LocationError>(LocationError::NotOccupied),
{
    let grid = Grid::empty(width, height);
    let occupied = |cell: Option<Placement>| cell is Some;
    grid.cells.lemma_all_neg_filter_empty(occupied);
}

} // verus!
