//! What a tick puts on the screen, as a list of drawing commands for the
//! host to carry out.

use crate::board::{Duple, BOARD_HEIGHT, BOARD_WIDTH};
use vstd::prelude::*;

verus! {

/// The sixteen colors of a text-mode screen.
#[derive(Clone, Copy, Debug, PartialEq, Eq, Structural)]
pub enum Color {
    Black,
    Blue,
    Green,
    Cyan,
    Red,
    Magenta,
    Brown,
    LightGray,
    DarkGray,
    LightBlue,
    LightGreen,
    LightCyan,
    LightRed,
    Pink,
    Yellow,
    White,
}

/// A fixed text of the game.
#[derive(Clone, Copy, Debug, PartialEq, Eq, Structural)]
pub enum Message {
    /// Shown when the run ends.
    GameOver,
    /// Shown while the game waits for a restart.
    Restart,
    /// Shown in front of the score.
    ScoreLabel,
}

impl Message {
    /// The characters of this message.
    pub open spec fn spec_text(self) -> Seq<char> {
        match self {
            Message::GameOver => "GAME OVER:("@,
            Message::Restart => "PRESS R TO RESTART THE GAME"@,
            Message::ScoreLabel => "SCORE: "@,
        }
    }

    /// The cell of the first character of this message.
    pub open spec fn spec_anchor(self) -> Duple {
        match self {
            Message::GameOver => Duple { x: 27, y: 10 },
            Message::Restart => Duple { x: 22, y: 15 },
            Message::ScoreLabel => Duple { x: 28, y: 0 },
        }
    }

    /// The color of this message.
    pub open spec fn spec_color(self) -> Color {
        match self {
            Message::GameOver => Color::LightRed,
            Message::Restart => Color::LightRed,
            Message::ScoreLabel => Color::LightCyan,
        }
    }

    /// The command that draws this message in its place.
    pub open spec fn spec_draw(self) -> Draw {
        Draw::Text {
            message: self,
            col: self.spec_anchor().x,
            row: self.spec_anchor().y,
            foreground: self.spec_color(),
            background: Color::Black,
        }
    }

    pub fn text(self) -> (text: &'static str)
        ensures
            text@ == self.spec_text(),
    {
        match self {
            Message::GameOver => "GAME OVER:(",
            Message::Restart => "PRESS R TO RESTART THE GAME",
            Message::ScoreLabel => "SCORE: ",
        }
    }

    #[verifier::when_used_as_spec(spec_draw)]
    pub fn draw(self) -> (draw: Draw)
        ensures
            draw == self.spec_draw(),
    {
        let (col, row, foreground): (usize, usize, Color) = match self {
            Message::GameOver => (27, 10, Color::LightRed),
            Message::Restart => (22, 15, Color::LightRed),
            Message::ScoreLabel => (28, 0, Color::LightCyan),
        };
        Draw::Text { message: self, col, row, foreground, background: Color::Black }
    }
}

/// One drawing command: what to put on the screen, where, and in which
/// colors. `col` and `row` are those of the first character.
#[derive(Clone, Copy, Debug, PartialEq, Eq, Structural)]
pub enum Draw {
    /// One character in one cell.
    Symbol { symbol: char, col: usize, row: usize, foreground: Color, background: Color },
    /// A fixed text, left to right.
    Text { message: Message, col: usize, row: usize, foreground: Color, background: Color },
    /// A number in decimal, left to right.
    Number { value: usize, col: usize, row: usize, foreground: Color, background: Color },
}

/// The character that shows a segment of the player.
pub const SEGMENT_SYMBOL: char = '\u{25a7}';

/// The character that shows an item of food.
pub const FOOD_SYMBOL: char = '*';

/// The column in which the score starts, in the top row.
pub const SCORE_COLUMN: usize = 35;

/// The command that draws a segment of the player on `cell`.
pub open spec fn spec_segment_draw(cell: Duple) -> Draw {
    Draw::Symbol {
        symbol: SEGMENT_SYMBOL,
        col: cell.x,
        row: cell.y,
        foreground: Color::Green,
        background: Color::Black,
    }
}

#[verifier::when_used_as_spec(spec_segment_draw)]
pub fn segment_draw(cell: Duple) -> (draw: Draw)
    ensures
        draw == spec_segment_draw(cell),
{
    Draw::Symbol {
        symbol: SEGMENT_SYMBOL,
        col: cell.x,
        row: cell.y,
        foreground: Color::Green,
        background: Color::Black,
    }
}

/// The command that draws an item of food on `cell`.
pub open spec fn spec_food_draw(cell: Duple) -> Draw {
    Draw::Symbol {
        symbol: FOOD_SYMBOL,
        col: cell.x,
        row: cell.y,
        foreground: Color::White,
        background: Color::Black,
    }
}

#[verifier::when_used_as_spec(spec_food_draw)]
pub fn food_draw(cell: Duple) -> (draw: Draw)
    ensures
        draw == spec_food_draw(cell),
{
    Draw::Symbol {
        symbol: FOOD_SYMBOL,
        col: cell.x,
        row: cell.y,
        foreground: Color::White,
        background: Color::Black,
    }
}

/// The command that draws the score `score` behind its label.
pub open spec fn spec_score_draw(score: usize) -> Draw {
    Draw::Number {
        value: score,
        col: SCORE_COLUMN,
        row: 0,
        foreground: Color::LightGray,
        background: Color::Black,
    }
}

#[verifier::when_used_as_spec(spec_score_draw)]
pub fn score_draw(score: usize) -> (draw: Draw)
    ensures
        draw == spec_score_draw(score),
{
    Draw::Number {
        value: score,
        col: SCORE_COLUMN,
        row: 0,
        foreground: Color::LightGray,
        background: Color::Black,
    }
}

/// The commands that blank the whole board, row by row.
pub open spec fn blank_backdrop() -> Seq<Draw> {
    Seq::new(
        (BOARD_WIDTH * BOARD_HEIGHT) as nat,
        |index: int|
            Draw::Symbol {
                symbol: ' ',
                col: (index % BOARD_WIDTH as int) as usize,
                row: (index / BOARD_WIDTH as int) as usize,
                foreground: Color::Red,
                background: Color::Black,
            },
    )
}

/// The backdrop of the board: a grid of cells that are marked or blank.
pub struct Refresh {
    grid: [[bool; BOARD_WIDTH]; BOARD_HEIGHT],
}

impl Refresh {
    /// Whether the cell in row `row`, column `col` is marked.
    pub closed spec fn marked(&self, row: int, col: int) -> bool {
        0 <= row < BOARD_HEIGHT && 0 <= col < BOARD_WIDTH && self.grid@[row]@[col]
    }

    /// The character that shows the cell in row `row`, column `col`.
    pub open spec fn spec_char_at(&self, row: int, col: int) -> char {
        if self.marked(row, col) {
            '#'
        } else {
            ' '
        }
    }

    /// The command that draws the `index`-th cell of the backdrop, counted
    /// row by row.
    pub open spec fn cell_draw(&self, index: int) -> Draw {
        Draw::Symbol {
            symbol: self.spec_char_at(index / BOARD_WIDTH as int, index % BOARD_WIDTH as int),
            col: (index % BOARD_WIDTH as int) as usize,
            row: (index / BOARD_WIDTH as int) as usize,
            foreground: Color::Red,
            background: Color::Black,
        }
    }

    /// The commands that draw the whole backdrop, row by row.
    pub open spec fn spec_draw(&self) -> Seq<Draw> {
        Seq::new((BOARD_WIDTH * BOARD_HEIGHT) as nat, |index: int| self.cell_draw(index))
    }

    /// Whether no cell is marked.
    pub open spec fn blank(&self) -> bool {
        forall|row: int, col: int| !self.marked(row, col)
    }

    /// A backdrop without marks draws as blanks.
    pub proof fn lemma_blank_draws_blanks(&self)
        requires
            self.blank(),
        ensures
            self.spec_draw() == blank_backdrop(),
    {
        assert(self.spec_draw() =~= blank_backdrop());
    }

    /// A backdrop without marks.
    pub fn new() -> (grid: Self)
        ensures
            grid.blank(),
    {
        Self { grid: [[false; BOARD_WIDTH]; BOARD_HEIGHT] }
    }

    /// The character that shows the cell in row `row`, column `col`: `'#'`
    /// where it is marked, a blank where it is not or lies off the board.
    pub fn char_at(&self, row: usize, col: usize) -> (symbol: char)
        ensures
            symbol == self.spec_char_at(row as int, col as int),
    {
        if row < BOARD_HEIGHT && col < BOARD_WIDTH && self.grid[row][col] {
            '#'
        } else {
            ' '
        }
    }

    /// Lists the commands that draw the whole backdrop, row by row.
    pub fn draw(&self) -> (draws: Vec<Draw>)
        ensures
            draws@ == self.spec_draw(),
    {
        let mut draws: Vec<Draw> = Vec::new();
        let mut row: usize = 0;
        while row < BOARD_HEIGHT
            invariant
                row <= BOARD_HEIGHT,
                draws@.len() == row * BOARD_WIDTH,
                forall|index: int| 0 <= index < draws@.len() ==> draws@[index] == self.cell_draw(index),
            decreases BOARD_HEIGHT - row,
        {
            let mut col: usize = 0;
            while col < BOARD_WIDTH
                invariant
                    row < BOARD_HEIGHT,
                    col <= BOARD_WIDTH,
                    draws@.len() == row * BOARD_WIDTH + col,
                    forall|index: int| 0 <= index < draws@.len() ==> draws@[index] == self.cell_draw(index),
                decreases BOARD_WIDTH - col,
            {
                draws.push(
                    Draw::Symbol {
                        symbol: self.char_at(row, col),
                        col,
                        row,
                        foreground: Color::Red,
                        background: Color::Black,
                    },
                );
                col += 1;
            }
            row += 1;
        }
        assert(draws@ =~= self.spec_draw());
        draws
    }
}

} // verus!
