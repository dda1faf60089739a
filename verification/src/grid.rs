//! The mathematical model of a board: a row-major table of cells, each empty
//! or holding one placed bot, together with the outcome of every operation on
//! it. The executable board states its contracts over this model.

use vstd::prelude::*;
use crate::board::LocationError;
use crate::kilobot::Kilobot;

verus! {

/// What an occupied cell holds: a bot and the direction it faces, in degrees
/// clockwise from north.
pub struct Placement {
    pub bot: Kilobot,
    pub facing: u16,
}

/// A board as a mathematical value.
#[verifier::ext_equal]
pub struct Grid {
    pub width: nat,
    pub height: nat,
    pub cells: Seq<Option<Placement>>,
}

impl Grid {
    /// There is exactly one cell for each coordinate pair.
    pub open spec fn wf(self) -> bool {
        self.cells.len() == self.width * self.height
    }

    /// The board of the given size with every cell empty.
    pub open spec fn empty(width: nat, height: nat) -> Grid {
        Grid { width, height, cells: Seq::new(width * height, |i: int| None::<Placement>) }
    }

    /// Whether `(x, y)` names a cell of the board.
    pub open spec fn in_bounds(self, x: nat, y: nat) -> bool {
        x < self.width && y < self.height
    }

    /// The row-major position of the cell `(x, y)`.
    pub open spec fn index_of(self, x: nat, y: nat) -> int {
        (x + y * self.width) as int
    }

    /// The coordinate pair whose row-major position is `index`.
    pub open spec fn coord_of(self, index: int) -> (nat, nat)
        recommends
            0 <= index < self.width * self.height,
    {
        ((index % self.width as int) as nat, (index / self.width as int) as nat)
    }

    /// The position of `(x, y)`, or the reason it has none.
    pub open spec fn locate(self, x: nat, y: nat) -> Result<int, LocationError> {
        if self.in_bounds(x, y) {
            Ok(self.index_of(x, y))
        } else {
            Err(LocationError::OutOfBounds)
        }
    }

    /// Whether the cell at `index` exists and holds a bot.
    pub open spec fn occupied(self, index: int) -> bool {
        0 <= index < self.cells.len() && self.cells[index] is Some
    }

    /// Why a bot cannot be placed at `(x, y)`, or `None` if it can.
    pub open spec fn place_error(self, x: nat, y: nat) -> Option<LocationError> {
        if !self.in_bounds(x, y) {
            Some(LocationError::OutOfBounds)
        } else if self.occupied(self.index_of(x, y)) {
            Some(LocationError::AlreadyOccupied)
        } else {
            None
        }
    }

    /// The board after an attempt to place `bot` at `(x, y)`: the cell is
    /// filled if the placement is possible, and nothing changes otherwise.
    pub open spec fn place(self, bot: Kilobot, x: nat, y: nat, facing: u16) -> Grid {
        if self.place_error(x, y) is None {
            Grid {
                cells: self.cells.update(self.index_of(x, y), Some(Placement { bot, facing })),
                ..self
            }
        } else {
            self
        }
    }

    /// What a lookup of the cell at `index` finds.
    pub open spec fn at_index(self, index: int) -> Result<Placement, LocationError> {
        if !(0 <= index < self.cells.len()) {
            Err(LocationError::OutOfBounds)
        } else {
            match self.cells[index] {
                Some(placement) => Ok(placement),
                None => Err(LocationError::NotOccupied),
            }
        }
    }

    /// What a lookup of the cell `(x, y)` finds.
    pub open spec fn at_coord(self, x: nat, y: nat) -> Result<Placement, LocationError> {
        match self.locate(x, y) {
            Ok(index) => self.at_index(index),
            Err(e) => Err(e),
        }
    }

    /// The bot that a lookup of the cell at `index` finds.
    pub open spec fn bot_at_index(self, index: int) -> Result<Kilobot, LocationError> {
        match self.at_index(index) {
            Ok(placement) => Ok(placement.bot),
            Err(e) => Err(e),
        }
    }

    /// The bot that a lookup of the cell `(x, y)` finds.
    pub open spec fn bot_at_coord(self, x: nat, y: nat) -> Result<Kilobot, LocationError> {
        match self.at_coord(x, y) {
            Ok(placement) => Ok(placement.bot),
            Err(e) => Err(e),
        }
    }

    /// The board in which the bot at the occupied cell `index` has been
    /// replaced by `bot`, standing where it stood and facing as it faced.
    pub open spec fn with_bot(self, index: int, bot: Kilobot) -> Grid
        recommends
            self.occupied(index),
    {
        Grid {
            cells: self.cells.update(
                index,
                Some(Placement { bot, facing: self.cells[index].unwrap().facing }),
            ),
            ..self
        }
    }

    /// The board after an attempt to remove the bot at `index`: the cell is
    /// emptied if it held a bot, and nothing changes otherwise.
    pub open spec fn clear_index(self, index: int) -> Grid {
        if self.occupied(index) {
            Grid { cells: self.cells.update(index, None), ..self }
        } else {
            self
        }
    }

    /// The board after an attempt to remove the bot at `(x, y)`.
    pub open spec fn clear_coord(self, x: nat, y: nat) -> Grid {
        match self.locate(x, y) {
            Ok(index) => self.clear_index(index),
            Err(_) => self,
        }
    }

    /// The number of cells that hold a bot.
    pub open spec fn occupied_count(self) -> nat {
        self.cells.filter(|cell: Option<Placement>| cell is Some).len()
    }
}

} // verus!
