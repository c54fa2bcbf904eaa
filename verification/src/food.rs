//! The food on the board: which cells hold an item, and how new items are
//! spawned on free cells.

use crate::board::{Duple, BOARD_HEIGHT, BOARD_WIDTH};
use crate::random::{draw_u32, seeded};
use rand::rngs::SmallRng;
use vstd::prelude::*;

verus! {

/// How many cells `Food::add_food` draws before it gives up.
pub const SPAWN_ATTEMPTS: usize = BOARD_WIDTH * BOARD_HEIGHT * 4;

/// Seed of the generator that a new `Food` draws its cells from.
pub const FOOD_SEED: u64 = 1;

/// Why no food was spawned.
#[derive(Clone, Copy, Debug, PartialEq, Eq, Structural)]
pub enum SpawnError {
    /// Every cell drawn already held food.
    Saturated,
}

/// The food on the board.
pub struct Food {
    food_map: [[bool; BOARD_HEIGHT]; BOARD_WIDTH],
    total_food: usize,
    live_food: usize,
    max_food: usize,
    rng: SmallRng,
}

/// What a `Food` stands for.
pub ghost struct FoodView {
    /// The cells that hold food.
    pub cells: Set<Duple>,
    /// How many items were ever spawned.
    pub total_spawned: nat,
    /// How many items the board should hold at once.
    pub target: nat,
}

impl FoodView {
    /// The validity of the food: it lies on the board, and no more of it
    /// lies there than was spawned.
    pub open spec fn wf(self) -> bool {
        &&& self.cells.finite()
        &&& forall|c: Duple| self.cells.contains(c) ==> c.on_board()
        &&& self.cells.len() <= self.total_spawned
    }

    /// A board without food, to be kept at `target` items.
    pub open spec fn empty(target: nat) -> FoodView {
        FoodView { cells: Set::empty(), total_spawned: 0, target }
    }

    /// Number of cells that hold food now.
    pub open spec fn live(self) -> nat {
        self.cells.len()
    }

    /// How many items are missing to reach the target.
    pub open spec fn shortfall(self) -> nat {
        if self.live() < self.target {
            (self.target - self.live()) as nat
        } else {
            0
        }
    }

    /// Whether every interior cell holds food, so that none can be spawned.
    pub open spec fn saturated(self) -> bool {
        forall|c: Duple| c.interior() ==> self.cells.contains(c)
    }

    /// Whether no interior cell holds food, so that whatever cell is drawn
    /// is free.
    pub open spec fn interior_is_free(self) -> bool {
        forall|c: Duple| c.interior() ==> !self.cells.contains(c)
    }

    /// The food after one item was spawned on `cell`.
    pub open spec fn with_food(self, cell: Duple) -> FoodView {
        FoodView { cells: self.cells.insert(cell), total_spawned: self.total_spawned + 1, ..self }
    }

    /// The food after the item on `cell`, if any, was eaten. The count of
    /// items spawned stays: it is cumulative.
    pub open spec fn without_food(self, cell: Duple) -> FoodView {
        FoodView { cells: self.cells.remove(cell), ..self }
    }

    /// Whether `after` comes from this food by spawning alone: what was
    /// there stays, each new item lies on an interior cell and is counted,
    /// and the items do not come to exceed the target.
    pub open spec fn replenishes(self, after: FoodView) -> bool {
        &&& self.cells.subset_of(after.cells)
        &&& forall|c: Duple| after.cells.contains(c) && !self.cells.contains(c) ==> c.interior()
        &&& after.target == self.target
        &&& after.total_spawned - self.total_spawned == after.live() - self.live()
        &&& self.live() <= after.live() <= self.live() + self.shortfall()
    }
}

/// The interior cell that the draws `draw_col` and `draw_row` select.
pub open spec fn spec_interior_cell(draw_col: u32, draw_row: u32) -> Duple {
    Duple {
        x: (1 + draw_col % (BOARD_WIDTH - 2) as u32) as usize,
        y: (1 + draw_row % (BOARD_HEIGHT - 2) as u32) as usize,
    }
}

/// Maps two draws to a cell of the board that is not on its outermost ring.
#[verifier::when_used_as_spec(spec_interior_cell)]
pub fn interior_cell(draw_col: u32, draw_row: u32) -> (cell: Duple)
    ensures
        cell == spec_interior_cell(draw_col, draw_row),
        cell.interior(),
{
    let col: usize = 1 + (draw_col % (BOARD_WIDTH - 2) as u32) as usize;
    let row: usize = 1 + (draw_row % (BOARD_HEIGHT - 2) as u32) as usize;
    Duple { x: col, y: row }
}

/// After an item is eaten and another is spawned on a free cell, the board
/// holds as many items as before.
pub proof fn lemma_consume_then_spawn_restores_count(food: FoodView, eaten: Duple, spawned: Duple)
    requires
        food.wf(),
        food.cells.contains(eaten),
        !food.without_food(eaten).cells.contains(spawned),
    ensures
        food.without_food(eaten).with_food(spawned).live() == food.live(),
        food.without_food(eaten).with_food(spawned).total_spawned == food.total_spawned + 1,
{
}

/// A spawn marks one cell that was free and counts it: that cell holds food
/// afterwards, every other cell is as it was, and both the number of items
/// on the board and the number ever spawned grow by one.
pub proof fn lemma_spawn_marks_one_free_cell(food: FoodView, cell: Duple)
    requires
        food.wf(),
        !food.cells.contains(cell),
    ensures
        food.with_food(cell).cells.contains(cell),
        forall|c: Duple| c != cell ==> food.with_food(cell).cells.contains(c) == food.cells.contains(c),
        food.with_food(cell).live() == food.live() + 1,
        food.with_food(cell).total_spawned == food.total_spawned + 1,
        food.with_food(cell).target == food.target,
{
}

/// Spawning keeps what is valid valid, as long as the new item lies on a
/// free cell of the board; so does eating.
pub proof fn lemma_spawn_and_consume_keep_valid(food: FoodView, cell: Duple)
    requires
        food.wf(),
    ensures
        cell.on_board() && !food.cells.contains(cell) ==> food.with_food(cell).wf(),
        food.without_food(cell).wf(),
{
}

impl View for Food {
    type V = FoodView;

    closed spec fn view(&self) -> FoodView {
        FoodView {
            cells: Set::new(|c: Duple| c.on_board() && self.food_map@[c.x as int]@[c.y as int]),
            total_spawned: self.total_food as nat,
            target: self.max_food as nat,
        }
    }
}

impl Food {
    /// The validity of the food: its view is valid, and the count it keeps
    /// of the cells that hold food is right.
    pub closed spec fn wf(&self) -> bool {
        &&& self@.wf()
        &&& self.live_food == self@.live()
    }

    /// What is valid has a valid view.
    pub proof fn lemma_wf_view(&self)
        requires
            self.wf(),
        ensures
            self@.wf(),
    {
    }

    /// A board without food, to be kept at `max` items.
    pub fn new(max: usize) -> (food: Self)
        ensures
            food@ == FoodView::empty(max as nat),
            food.wf(),
    {
        let food = Self {
            food_map: [[false; BOARD_HEIGHT]; BOARD_WIDTH],
            total_food: 0,
            live_food: 0,
            max_food: max,
            rng: seeded(FOOD_SEED),
        };
        assert(food@.cells =~= Set::empty());
        food
    }

    /// Tests whether the cell in row `row`, column `col` holds food.
    pub fn occupied(&self, row: usize, col: usize) -> (held: bool)
        ensures
            held == self@.cells.contains(Duple { x: col, y: row }),
    {
        col < BOARD_WIDTH && row < BOARD_HEIGHT && self.food_map[col][row]
    }

    /// Puts an item on `pos` if that is a free cell of the board, and tells
    /// whether it did.
    pub fn place(&mut self, pos: Duple) -> (placed: bool)
        requires
            old(self).wf(),
            old(self)@.total_spawned < usize::MAX,
        ensures
            final(self).wf(),
            placed == (pos.on_board() && !old(self)@.cells.contains(pos)),
            placed ==> final(self)@ == old(self)@.with_food(pos),
            !placed ==> final(self)@ == old(self)@,
    {
        if pos.x < BOARD_WIDTH && pos.y < BOARD_HEIGHT && !self.food_map[pos.x][pos.y] {
            self.food_map[pos.x][pos.y] = true;
            self.total_food += 1;
            self.live_food += 1;
            assert(self@.cells =~= old(self)@.cells.insert(pos));
            true
        } else {
            false
        }
    }

    /// Eats the item on `pos`, if there is one, and tells whether there was.
    pub fn consume(&mut self, pos: Duple) -> (eaten: bool)
        requires
            old(self).wf(),
        ensures
            final(self).wf(),
            eaten == old(self)@.cells.contains(pos),
            final(self)@ == old(self)@.without_food(pos),
    {
        if pos.x < BOARD_WIDTH && pos.y < BOARD_HEIGHT && self.food_map[pos.x][pos.y] {
            assert(self@.cells.contains(pos));
            assert(self@.cells.len() == self@.cells.remove(pos).len() + 1);
            self.food_map[pos.x][pos.y] = false;
            self.live_food -= 1;
            assert(self@.cells =~= old(self)@.cells.remove(pos));
            true
        } else {
            assert(old(self)@.cells.remove(pos) =~= old(self)@.cells);
            false
        }
    }

    /// Spawns one item on a free interior cell drawn at random. A cell that
    /// holds food is never marked again: another is drawn, at most
    /// `SPAWN_ATTEMPTS` times in all.
    ///
    /// Which cells are drawn is up to the generator. The spawn succeeds for
    /// sure where no interior cell holds food, since the first cell drawn is
    /// then free, and fails for sure where every interior cell holds food.
    /// Between the two it succeeds as soon as a free cell is drawn.
    pub fn add_food(&mut self) -> (spawned: Result<Duple, SpawnError>)
        requires
            old(self).wf(),
            old(self)@.total_spawned < usize::MAX,
        ensures
            final(self).wf(),
            match spawned {
                Ok(cell) => {
                    &&& cell.interior()
                    &&& !old(self)@.cells.contains(cell)
                    &&& final(self)@ == old(self)@.with_food(cell)
                },
                Err(SpawnError::Saturated) => final(self)@ == old(self)@,
            },
            old(self)@.saturated() ==> spawned.is_err(),
            old(self)@.interior_is_free() ==> spawned.is_ok(),
    {
        let mut attempts: usize = 0;
        while attempts < SPAWN_ATTEMPTS
            invariant
                self.wf(),
                self@ == old(self)@,
                self@.total_spawned < usize::MAX,
                attempts > 0 ==> !old(self)@.interior_is_free(),
            decreases SPAWN_ATTEMPTS - attempts,
        {
            let draw_col: u32 = draw_u32(&mut self.rng);
            let draw_row: u32 = draw_u32(&mut self.rng);
            let cell = interior_cell(draw_col, draw_row);
            if self.place(cell) {
                return Ok(cell);
            }
            assert(cell.interior() && old(self)@.cells.contains(cell));
            attempts += 1;
        }
        Err(SpawnError::Saturated)
    }

    /// Spawns items until the board holds the target number, or until no
    /// free cell is found for one.
    ///
    /// Where an item is missing and no interior cell holds food, the first
    /// spawn succeeds for sure, so the board gains an item; where just one
    /// is missing, that spawn reaches the target.
    pub fn top_up(&mut self) -> (filled: Result<(), SpawnError>)
        requires
            old(self).wf(),
            old(self)@.total_spawned + old(self)@.shortfall() <= usize::MAX,
        ensures
            final(self).wf(),
            old(self)@.replenishes(final(self)@),
            filled.is_ok() == (final(self)@.live() >= final(self)@.target),
            old(self)@.interior_is_free() && old(self)@.shortfall() > 0 ==> final(self)@.live() > old(
                self,
            )@.live(),
            old(self)@.interior_is_free() && old(self)@.shortfall() == 1 ==> filled.is_ok(),
            old(self)@.shortfall() == 0 ==> final(self)@ == old(self)@,
    {
        while self.live_food < self.max_food
            invariant
                self.wf(),
                old(self)@.replenishes(self@),
                self@.total_spawned + self@.shortfall() <= usize::MAX,
                self@ == old(self)@ || self@.live() > old(self)@.live(),
            decreases self.max_food - self.live_food,
        {
            match self.add_food() {
                Ok(_) => {},
                Err(error) => {
                    return Err(error);
                },
            }
        }
        Ok(())
    }

    /// How many items were ever spawned.
    pub fn total_spawned(&self) -> (count: usize)
        ensures
            count == self@.total_spawned,
    {
        self.total_food
    }

    /// How many cells hold food now.
    pub fn live_count(&self) -> (count: usize)
        requires
            self.wf(),
        ensures
            count == self@.live(),
    {
        self.live_food
    }

    /// How many items the board should hold at once.
    pub fn target_count(&self) -> (count: usize)
        ensures
            count == self@.target,
    {
        self.max_food
    }
}

} // verus!
