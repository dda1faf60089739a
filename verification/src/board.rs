//! The executable board and its operations.

use vstd::prelude::*;
use crate::grid::{Grid, Placement};
use crate::kilobot::Kilobot;
use crate::lemmas::lemma_index_in_range;
use crate::text::push_decimal;

verus! {

/// Facing north: zero degrees.
pub const NORTH: u16 = 0;

/// Facing east: a quarter turn clockwise from north.
pub const EAST: u16 = 90;

/// Facing south: half a turn from north.
pub const SOUTH: u16 = 180;

/// Facing west: three quarters of a turn clockwise from north.
pub const WEST: u16 = 270;

/// Why an operation on a board could not be carried out.
#[derive(Debug, Clone, Copy, PartialEq, Eq, Structural)]
pub enum LocationError {
    /// A bot was to be placed on a cell that already holds one.
    AlreadyOccupied,
    /// A bot was looked up or removed where none stands.
    NotOccupied,
    /// The coordinates or the index name no cell of the board.
    OutOfBounds,
}

/// A bot placed on the board, with the direction it faces.
pub struct BotLocation {
    bot: Kilobot,
    facing: u16,
}

impl View for BotLocation {
    type V = Placement;

    closed spec fn view(&self) -> Placement {
        Placement { bot: self.bot, facing: self.facing }
    }
}

impl BotLocation {
    /// Returns a shared reference to the bot in the location.
    pub fn bot(&self) -> (bot: &Kilobot)
        ensures
            *bot == self@.bot,
    {
        &self.bot
    }

    /// Returns a mutable reference to the bot in the location, through which
    /// the bot can be changed where it stands.
    pub fn bot_mut(&mut self) -> (bot: &mut Kilobot)
        ensures
            *bot == old(self)@.bot,
            final(self)@ == (Placement { bot: *final(bot), ..old(self)@ }),
    {
        &mut self.bot
    }

    /// Returns the facing of the bot in the location, in degrees clockwise
    /// from north.
    pub fn get_facing(&self) -> (facing: u16)
        ensures
            facing == self@.facing,
    {
        self.facing
    }

    /// Sets the facing of the bot in the location. Any angle is stored as
    /// given.
    pub fn set_facing(&mut self, new_facing: u16)
        ensures
            final(self)@ == (Placement { facing: new_facing, ..old(self)@ }),
    {
        self.facing = new_facing
    }

    /// Describes the placed bot in one line: its identifier and its facing.
    pub fn describe(&self) -> (text: String)
        ensures
            text@ == self@.describe(),
    {
        let mut text = String::new();
        text.append("[Bot: ");
        push_decimal(&mut text, self.bot.get_uid() as u32);
        text.append(", Facing: ");
        push_decimal(&mut text, self.facing as u32);
        text.append("]");
        text
    }
}

/// The model of one stored cell.
spec fn cell_view(cell: Option<BotLocation>) -> Option<Placement> {
    match cell {
        Some(location) => Some(location@),
        None => None,
    }
}

/// A board of `width` by `height` cells, stored row by row.
pub struct Board {
    width: u8,
    height: u8,
    bots: Vec<Option<BotLocation>>,
}

impl View for Board {
    type V = Grid;

    closed spec fn view(&self) -> Grid {
        Grid {
            width: self.width as nat,
            height: self.height as nat,
            cells: self.bots@.map_values(|cell: Option<BotLocation>| cell_view(cell)),
        }
    }
}

impl Board {
    /// The board holds one cell for each coordinate pair of its extent.
    #[verifier::type_invariant]
    spec fn well_formed(&self) -> bool {
        self.bots@.len() == self.width * self.height
    }

    /// Add a new bot to the board at `(x, y)`, facing `facing` degrees
    /// clockwise from north. Returns `None` when the bot was placed, and the
    /// reason when it was not; the board is then unchanged.
    pub fn add_bot_location(&mut self, bot: Kilobot, x: u8, y: u8, facing: u16) -> (r: Option<
        LocationError,
    >)
        ensures
            final(self)@.wf(),
            r == old(self)@.place_error(x as nat, y as nat),
            final(self)@ == old(self)@.place(bot, x as nat, y as nat, facing),
    {
        proof {
            use_type_invariant(&*self);
        }
        match self.get_index_from_coord(x, y) {
            Err(e) => Some(e),
            Ok(index) => {
                proof {
                    lemma_index_in_range(self@, x as nat, y as nat);
                }
                if self.bots[index].is_some() {
                    Some(LocationError::AlreadyOccupied)
                } else {
                    self.bots[index] = Some(BotLocation { bot, facing });
                    None
                }
            },
        }
    }

    /// Removes the bot at `(x, y)` and hands it to the caller, leaving the
    /// cell empty.
    pub fn remove_bot_location_at_coord(&mut self, x: u8, y: u8) -> (r: Result<
        Box<BotLocation>,
        LocationError,
    >)
        ensures
            final(self)@.wf(),
            final(self)@ == old(self)@.clear_coord(x as nat, y as nat),
            match r {
                Ok(location) => old(self)@.at_coord(x as nat, y as nat) == Ok::<Placement, LocationError>(location@),
                Err(e) => old(self)@.at_coord(x as nat, y as nat) == Err::<Placement, LocationError>(e),
            },
    {
        match self.get_index_from_coord(x, y) {
            Ok(index) => self.remove_bot_location_at_index(index),
            Err(e) => Err(e),
        }
    }

    /// Removes the bot at `index` and hands it to the caller, leaving the
    /// cell empty.
    pub fn remove_bot_location_at_index(&mut self, index: usize) -> (r: Result<
        Box<BotLocation>,
        LocationError,
    >)
        ensures
            final(self)@.wf(),
            final(self)@ == old(self)@.clear_index(index as int),
            match r {
                Ok(location) => old(self)@.at_index(index as int) == Ok::<Placement, LocationError>(location@),
                Err(e) => old(self)@.at_index(index as int) == Err::<Placement, LocationError>(e),
            },
    {
        proof {
            use_type_invariant(&*self);
        }
        if index < self.bots.len() {
            match self.bots[index].take() {
                Some(location) => Ok(Box::new(location)),
                None => Err(LocationError::NotOccupied),
            }
        } else {
            Err(LocationError::OutOfBounds)
        }
    }

    /// Returns a shared reference to the bot at `(x, y)`.
    pub fn get_bot_at_coord(&self, x: u8, y: u8) -> (r: Result<&Kilobot, LocationError>)
        ensures
            self@.wf(),
            match r {
                Ok(bot) => self@.bot_at_coord(x as nat, y as nat) == Ok::<Kilobot, LocationError>(*bot),
                Err(e) => self@.bot_at_coord(x as nat, y as nat) == Err::<Kilobot, LocationError>(e),
            },
    {
        match self.get_index_from_coord(x, y) {
            Ok(index) => self.get_bot_at_index(index),
            Err(e) => Err(e),
        }
    }

    /// Returns a shared reference to the bot at `index`.
    pub fn get_bot_at_index(&self, index: usize) -> (r: Result<&Kilobot, LocationError>)
        ensures
            self@.wf(),
            match r {
                Ok(bot) => self@.bot_at_index(index as int) == Ok::<Kilobot, LocationError>(*bot),
                Err(e) => self@.bot_at_index(index as int) == Err::<Kilobot, LocationError>(e),
            },
    {
        proof {
            use_type_invariant(self);
        }
        if index < self.bots.len() {
            match &self.bots[index] {
                Some(location) => Ok(location.bot()),
                None => Err(LocationError::NotOccupied),
            }
        } else {
            Err(LocationError::OutOfBounds)
        }
    }

    /// Returns a mutable reference to the bot at `(x, y)`, through which the
    /// bot can be changed without moving it on the board. What the caller
    /// leaves behind the reference is what the cell then holds.
    pub fn get_bot_mut_at_coord(&mut self, x: u8, y: u8) -> (r: Result<&mut Kilobot, LocationError>)
        ensures
            final(self)@.wf(),
            match r {
                Ok(bot) => {
                    &&& old(self)@.bot_at_coord(x as nat, y as nat) == Ok::<Kilobot, LocationError>(*bot)
                    &&& final(self)@ == old(self)@.with_bot(
                        old(self)@.index_of(x as nat, y as nat),
                        *final(bot),
                    )
                },
                Err(e) => {
                    &&& old(self)@.bot_at_coord(x as nat, y as nat) == Err::<Kilobot, LocationError>(e)
                    &&& final(self)@ == old(self)@
                },
            },
    {
        proof {
            use_type_invariant(&*self);
        }
        match self.get_index_from_coord(x, y) {
            Ok(index) => self.get_bot_mut_at_index(index),
            Err(e) => Err(e),
        }
    }

    /// Returns a mutable reference to the bot at `index`, through which the
    /// bot can be changed without moving it on the board. What the caller
    /// leaves behind the reference is what the cell then holds.
    pub fn get_bot_mut_at_index(&mut self, index: usize) -> (r: Result<&mut Kilobot, LocationError>)
        ensures
            final(self)@.wf(),
            match r {
                Ok(bot) => {
                    &&& old(self)@.bot_at_index(index as int) == Ok::<Kilobot, LocationError>(*bot)
                    &&& final(self)@ =~= old(self)@.with_bot(index as int, *final(bot))
                },
                Err(e) => {
                    &&& old(self)@.bot_at_index(index as int) == Err::<Kilobot, LocationError>(e)
                    &&& final(self)@ == old(self)@
                },
            },
    {
        proof {
            use_type_invariant(&*self);
        }
        if index < self.bots.len() {
            match &mut self.bots[index] {
                Some(location) => Ok(location.bot_mut()),
                None => Err(LocationError::NotOccupied),
            }
        } else {
            Err(LocationError::OutOfBounds)
        }
    }

    /// Get the array index from an x and y coordinate: the row-major position
    /// `x + y * width` of a cell within the extent.
    pub fn get_index_from_coord(&self, x: u8, y: u8) -> (r: Result<usize, LocationError>)
        ensures
            self@.wf(),
            match r {
                Ok(index) => self@.locate(x as nat, y as nat) == Ok::<int, LocationError>(index as int),
                Err(e) => self@.locate(x as nat, y as nat) == Err::<int, LocationError>(e),
            },
    {
        proof {
            use_type_invariant(self);
        }
        if x < self.width && y < self.height {
            assert(y * self.width <= 254 * 255) by (nonlinear_arith)
                requires
                    y <= 254,
                    self.width <= 255,
            ;
            Ok(x as usize + y as usize * self.width as usize)
        } else {
            Err(LocationError::OutOfBounds)
        }
    }

    /// Writes the board as text, top row first and left to right within a
    /// row: an occupied cell shows the identifier of its bot, an empty cell
    /// its own coordinates, and a blank line follows each row.
    pub fn render(&self) -> (text: String)
        ensures
            text@ == self@.render(),
    {
        let mut text = String::new();
        let mut y: u8 = 0;
        while y < self.height
            invariant
                y <= self.height,
                text@ == self@.rows_text(y as nat),
            decreases self.height - y,
        {
            let mut x: u8 = 0;
            while x < self.width
                invariant
                    y < self.height,
                    x <= self.width,
                    text@ == self@.rows_text(y as nat) + self@.row_start_text(y as nat, x as nat),
                decreases self.width - x,
            {
                if let Ok(index) = self.get_index_from_coord(x, y) {
                    proof {
                        lemma_index_in_range(self@, x as nat, y as nat);
                    }
                    match &self.bots[index] {
                        Some(location) => {
                            text.append("  ");
                            push_decimal(&mut text, location.bot.get_uid() as u32);
                            text.append("   ");
                        },
                        None => {
                            text.append("(");
                            push_decimal(&mut text, x as u32);
                            text.append(",");
                            push_decimal(&mut text, y as u32);
                            text.append(") ");
                        },
                    }
                }
                x += 1;
            }
            text.append("\n\n");
            y += 1;
        }
        text
    }

    /// Counts the cells that hold a bot by looking at each of them.
    fn count_bots(&self) -> (count: u16)
        ensures
            count == self@.occupied_count(),
    {
        proof {
            use_type_invariant(self);
            reveal(Seq::filter);
        }
        assert(self.width * self.height <= 255 * 255) by (nonlinear_arith)
            requires
                self.width <= 255,
                self.height <= 255,
        ;
        let ghost occupied = |cell: Option<Placement>| cell is Some;
        let mut count: u16 = 0;
        let mut index: usize = 0;
        while index < self.bots.len()
            invariant
                self.bots.len() <= 255 * 255,
                index <= self.bots.len(),
                count <= index,
                occupied == |cell: Option<Placement>| cell is Some,
                count == self@.cells.take(index as int).filter(occupied).len(),
            decreases self.bots.len() - index,
        {
            proof {
                reveal(Seq::filter);
                let longer = self@.cells.take(index + 1);
                assert(longer.drop_last() =~= self@.cells.take(index as int));
                assert(longer.last() == cell_view(self.bots[index as int]));
            }
            if self.bots[index].is_some() {
                count += 1;
            }
            index += 1;
        }
        assert(self@.cells.take(index as int) =~= self@.cells);
        count
    }

    /// Describes the board in one line: its width, its height and the number
    /// of bots that stand on it.
    pub fn summary(&self) -> (text: String)
        ensures
            text@ == self@.summary(),
    {
        let count = self.count_bots();
        let mut text = String::new();
        text.append("(width:");
        push_decimal(&mut text, self.width as u32);
        text.append(", height:");
        push_decimal(&mut text, self.height as u32);
        text.append(", number of bots:");
        push_decimal(&mut text, count as u32);
        text.append(")");
        text
    }
}

/// Creates a board of `width` by `height` cells, all of them empty. A width
/// or height of zero gives a board without cells.
pub fn new_board(width: u8, height: u8) -> (board: Board)
    ensures
        board@ == Grid::empty(width as nat, height as nat),
        board@.wf(),
{
    assert(width * height <= 255 * 255) by (nonlinear_arith)
        requires
            width <= 255,
            height <= 255,
    ;
    let count: usize = width as usize * height as usize;
    let mut bots: Vec<Option<BotLocation>> = Vec::with_capacity(count);
    while bots.len() < count
        invariant
            bots.len() <= count,
            forall|i: int| 0 <= i < bots.len() ==> bots[i] is None,
        decreases count - bots.len(),
    {
        bots.push(None);
    }
    Board { width, height, bots }
}

} // verus!
