//! Decimal numerals and the text forms of a board, as sequences of
//! characters.

use vstd::prelude::*;
use crate::grid::{Grid, Placement};

verus! {

/// The character that writes the digit `d`.
pub open spec fn digit(d: nat) -> char
    recommends
        d < 10,
{
    if d == 0 {
        '0'
    } else if d == 1 {
        '1'
    } else if d == 2 {
        '2'
    } else if d == 3 {
        '3'
    } else if d == 4 {
        '4'
    } else if d == 5 {
        '5'
    } else if d == 6 {
        '6'
    } else if d == 7 {
        '7'
    } else if d == 8 {
        '8'
    } else {
        '9'
    }
}

/// The decimal numeral of `n`, without leading zeros.
pub open spec fn decimal(n: nat) -> Seq<char>
    decreases n,
{
    if n < 10 {
        seq![digit(n)]
    } else {
        decimal(n / 10).push(digit(n % 10))
    }
}

impl Placement {
    /// The text form of a placed bot: its identifier and its facing.
    pub open spec fn describe(self) -> Seq<char> {
        "[Bot: "@ + decimal(self.bot.spec_uid() as nat) + ", Facing: "@ + decimal(
            self.facing as nat,
        ) + "]"@
    }
}

impl Grid {
    /// The text of the cell `(x, y)`: the identifier of the bot that stands
    /// there, or the coordinates of the cell if it is empty.
    pub open spec fn cell_text(self, x: nat, y: nat) -> Seq<char>
        recommends
            self.wf(),
            self.in_bounds(x, y),
    {
        match self.cells[self.index_of(x, y)] {
            Some(placement) => "  "@ + decimal(placement.bot.spec_uid() as nat) + "   "@,
            None => "("@ + decimal(x) + ","@ + decimal(y) + ") "@,
        }
    }

    /// The text of the first `count` cells of row `y`, from left to right.
    pub open spec fn row_start_text(self, y: nat, count: nat) -> Seq<char>
        decreases count,
    {
        if count == 0 {
            Seq::empty()
        } else {
            self.row_start_text(y, (count - 1) as nat) + self.cell_text((count - 1) as nat, y)
        }
    }

    /// The text of row `y`: its cells, then a blank line.
    pub open spec fn row_text(self, y: nat) -> Seq<char> {
        self.row_start_text(y, self.width) + "\n\n"@
    }

    /// The text of the first `count` rows, from the top.
    pub open spec fn rows_text(self, count: nat) -> Seq<char>
        decreases count,
    {
        if count == 0 {
            Seq::empty()
        } else {
            self.rows_text((count - 1) as nat) + self.row_text((count - 1) as nat)
        }
    }

    /// The snapshot of the whole board, top row first.
    pub open spec fn render(self) -> Seq<char> {
        self.rows_text(self.height)
    }

    /// The one-line description of the board: its extent and the number of
    /// bots on it.
    pub open spec fn summary(self) -> Seq<char> {
        "(width:"@ + decimal(self.width) + ", height:"@ + decimal(self.height)
            + ", number of bots:"@ + decimal(self.occupied_count()) + ")"@
    }
}

/// The one-character text of the digit `d`.
fn digit_text(d: u32) -> (text: &'static str)
    requires
        d < 10,
    ensures
        text@ == seq![digit(d as nat)],
{
    proof {
        reveal_strlit("0");
        reveal_strlit("1");
        reveal_strlit("2");
        reveal_strlit("3");
        reveal_strlit("4");
        reveal_strlit("5");
        reveal_strlit("6");
        reveal_strlit("7");
        reveal_strlit("8");
        reveal_strlit("9");
    }
    let text = if d == 0 {
        "0"
    } else if d == 1 {
        "1"
    } else if d == 2 {
        "2"
    } else if d == 3 {
        "3"
    } else if d == 4 {
        "4"
    } else if d == 5 {
        "5"
    } else if d == 6 {
        "6"
    } else if d == 7 {
        "7"
    } else if d == 8 {
        "8"
    } else {
        "9"
    };
    assert(text@ =~= seq![digit(d as nat)]);
    text
}

/// Appends the decimal numeral of `n` to `text`.
pub fn push_decimal(text: &mut String, n: u32)
    ensures
        final(text)@ == old(text)@ + decimal(n as nat),
    decreases n,
{
    if n >= 10 {
        push_decimal(text, n / 10);
    }
    text.append(digit_text(n % 10));
}

} // verus!
