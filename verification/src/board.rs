//! Geometry of the board: its size, cells, and the four headings.

use vstd::prelude::*;

verus! {

/// Number of columns of the board.
pub const BOARD_WIDTH: usize = 80;

/// Number of rows of the board.
pub const BOARD_HEIGHT: usize = 25;

/// A cell of the grid: column `x`, row `y`. Row 0 is the top row.
#[derive(Clone, Copy, Debug, PartialEq, Eq, Structural)]
pub struct Duple {
    pub x: usize,
    pub y: usize,
}

impl Duple {
    pub fn new(xt: usize, yt: usize) -> (d: Self)
        ensures
            d.x == xt,
            d.y == yt,
    {
        Self { x: xt, y: yt }
    }

    /// Whether this cell lies on the board.
    pub open spec fn on_board(self) -> bool {
        on_board(self.x as int, self.y as int)
    }

    /// Whether this cell lies on the board and not on its outermost ring.
    pub open spec fn interior(self) -> bool {
        0 < self.x < BOARD_WIDTH - 1 && 0 < self.y < BOARD_HEIGHT - 1
    }
}

impl Default for Duple {
    fn default() -> (d: Self)
        ensures
            d == (Duple { x: 0, y: 0 }),
    {
        Self { x: 0, y: 0 }
    }
}

/// Whether column `x`, row `y` names a cell of the board.
pub open spec fn on_board(x: int, y: int) -> bool {
    0 <= x < BOARD_WIDTH && 0 <= y < BOARD_HEIGHT
}

/// Tests whether `pos` lies on the board.
pub fn contains(pos: Duple) -> (inside: bool)
    ensures
        inside == pos.on_board(),
{
    pos.x < BOARD_WIDTH && pos.y < BOARD_HEIGHT
}

/// A direction of travel along one axis of the grid.
#[derive(Clone, Copy, Debug, PartialEq, Eq, Structural)]
pub enum Heading {
    Up,
    Down,
    Left,
    Right,
}

impl Heading {
    /// The heading that points the opposite way.
    pub open spec fn spec_reverse(self) -> Heading {
        match self {
            Heading::Up => Heading::Down,
            Heading::Down => Heading::Up,
            Heading::Left => Heading::Right,
            Heading::Right => Heading::Left,
        }
    }

    /// Change of column made by one step along this heading.
    pub open spec fn dx(self) -> int {
        match self {
            Heading::Left => -1,
            Heading::Right => 1,
            _ => 0,
        }
    }

    /// Change of row made by one step along this heading.
    pub open spec fn dy(self) -> int {
        match self {
            Heading::Up => -1,
            Heading::Down => 1,
            _ => 0,
        }
    }

    /// Whether the cell one step from `from` along this heading is on the board.
    pub open spec fn stays_on_board(self, from: Duple) -> bool {
        on_board(from.x + self.dx(), from.y + self.dy())
    }

    /// The cell one step from `from` along this heading.
    pub open spec fn target(self, from: Duple) -> Duple
        recommends
            self.stays_on_board(from),
    {
        Duple { x: (from.x + self.dx()) as usize, y: (from.y + self.dy()) as usize }
    }

    #[verifier::when_used_as_spec(spec_reverse)]
    pub fn reverse(self) -> (r: Heading)
        ensures
            r == self.spec_reverse(),
    {
        match self {
            Heading::Up => Heading::Down,
            Heading::Down => Heading::Up,
            Heading::Left => Heading::Right,
            Heading::Right => Heading::Left,
        }
    }

    /// The cell one step from `from` along this heading, or `None` where that
    /// step would leave the board.
    pub fn step_from(self, from: Duple) -> (next: Option<Duple>)
        ensures
            next.is_some() == self.stays_on_board(from),
            next.is_some() ==> next.unwrap() == self.target(from),
    {
        match self {
            Heading::Up => if from.x < BOARD_WIDTH && 0 < from.y && from.y <= BOARD_HEIGHT {
                Some(Duple { x: from.x, y: from.y - 1 })
            } else {
                None
            },
            Heading::Down => if from.x < BOARD_WIDTH && from.y < BOARD_HEIGHT - 1 {
                Some(Duple { x: from.x, y: from.y + 1 })
            } else {
                None
            },
            Heading::Left => if 0 < from.x && from.x <= BOARD_WIDTH && from.y < BOARD_HEIGHT {
                Some(Duple { x: from.x - 1, y: from.y })
            } else {
                None
            },
            Heading::Right => if from.x < BOARD_WIDTH - 1 && from.y < BOARD_HEIGHT {
                Some(Duple { x: from.x + 1, y: from.y })
            } else {
                None
            },
        }
    }
}

} // verus!
