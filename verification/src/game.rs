//! The game: one player, the food, and the rules of a tick.

use crate::board::{Duple, Heading, BOARD_HEIGHT, BOARD_WIDTH};
use crate::food::{Food, FoodView};
use crate::player::{Player, PlayerView, TRAIL_CAPACITY};
use crate::screen::{blank_backdrop, food_draw, score_draw, segment_draw, Draw, Message, Refresh};
use vstd::prelude::*;

verus! {

/// Seed of the generator that spawns the player of a new game.
pub const PLAYER_SEED: u64 = 1;

/// How many items of food a game keeps on the board.
pub const FOOD_TARGET: usize = 1;

/// A key of the keyboard, as the game reads it.
#[derive(Clone, Copy, Debug, PartialEq, Eq, Structural)]
pub enum KeyEvent {
    /// An arrow key.
    Arrow(Heading),
    /// A key that types a character.
    Unicode(char),
    /// Any other key.
    Other,
}

/// The game. It runs until the player hits the edge of the board or itself,
/// and is then over until it is reset.
pub struct Game {
    player: Player,
    food: Food,
    grid: Refresh,
    tick_count: i64,
    running: bool,
    score: usize,
}

/// What a `Game` stands for.
pub ghost struct GameView {
    pub player: PlayerView,
    pub food: FoodView,
    /// Number of turns played since the game was new or reset.
    pub tick_count: int,
    /// Whether the run goes on; the game is over where it does not.
    pub running: bool,
    /// Number of items eaten.
    pub score: nat,
}

/// The `index`-th cell of the board, counted column by column.
pub open spec fn food_cell(index: int) -> Duple {
    Duple { x: (index / BOARD_HEIGHT as int) as usize, y: (index % BOARD_HEIGHT as int) as usize }
}

impl GameView {
    /// The validity of a game: its parts are valid, and the score counts the
    /// segments that the player has gained.
    pub open spec fn wf(self) -> bool {
        &&& self.player.wf()
        &&& self.food.wf()
        &&& 0 <= self.tick_count <= i64::MAX
        &&& self.score + 1 == self.player.segments
    }

    /// A new game: nothing eaten, no tick played, no food yet, and the
    /// player just spawned on a cell of the board.
    pub open spec fn fresh(self) -> bool {
        &&& self.score == 0
        &&& self.tick_count == 0
        &&& self.running
        &&& self.food == FoodView::empty(FOOD_TARGET as nat)
        &&& self.player == PlayerView::spawned(self.player.position)
        &&& self.player.position.on_board()
    }

    /// Whether a turn can be played: a running game needs room for one more
    /// segment, and a tick count that can still grow.
    pub open spec fn can_turn(self) -> bool {
        self.running ==> self.player.has_room() && self.tick_count < i64::MAX
    }

    /// Whether a tick can be played: a turn can be, and the count of items
    /// spawned can take those that are missing.
    pub open spec fn ready(self) -> bool {
        &&& self.can_turn()
        &&& self.running ==> self.food.total_spawned + self.food.shortfall() <= usize::MAX
    }

    /// This game with `food` in place of its own.
    pub open spec fn fed(self, food: FoodView) -> GameView {
        GameView { food, ..self }
    }

    /// This game after a request to head along `heading`.
    pub open spec fn steered(self, heading: Heading) -> GameView {
        GameView { player: self.player.turned(heading), ..self }
    }

    /// The game after one turn. A game that is over stays as it is. In a
    /// running game the player makes the move of this tick, eats the food
    /// under its head, and the run ends if, having moved, it is at the edge
    /// or on itself.
    pub open spec fn after_turn(self) -> GameView {
        if !self.running {
            self
        } else {
            let moved = self.player.located(self.tick_count);
            let ate = self.food.cells.contains(moved.position);
            let player = if ate {
                moved.grown()
            } else {
                moved
            };
            GameView {
                player,
                food: self.food.without_food(moved.position),
                tick_count: self.tick_count + 1,
                running: !(player.has_moved && (player.at_edge || player.hits_itself())),
                score: if ate {
                    self.score + 1
                } else {
                    self.score
                },
            }
        }
    }

    /// What a tick of a running game brings about, whatever food it spawns;
    /// `after` is the game after the tick. The player makes the move of the
    /// tick and gains a segment exactly where the score grows. Food that lay
    /// under the head after the move is eaten, and none lies there after the
    /// tick. The run goes on unless the player, having moved, is at the edge
    /// or on itself. Food is spawned where an item is missing and no
    /// interior cell holds any.
    pub open spec fn ticked(self, after: GameView) -> bool {
        let moved = self.player.located(self.tick_count);
        &&& after.tick_count == self.tick_count + 1
        &&& self.score <= after.score <= self.score + 1
        &&& after.player == (if after.score > self.score {
            moved.grown()
        } else {
            moved
        })
        &&& self.food.cells.contains(moved.position) ==> after.score == self.score + 1
        &&& !after.food.cells.contains(moved.position)
        &&& after.running == !(after.player.has_moved && (after.player.at_edge
            || after.player.hits_itself()))
        &&& self.player.has_moved && self.player.at_edge ==> !after.running
        &&& after.food.target == self.food.target
        &&& after.food.total_spawned >= self.food.total_spawned
        &&& self.food.interior_is_free() && self.food.shortfall() > 0 ==> after.food.total_spawned
            > self.food.total_spawned
    }

    /// The game after as many turns as `foods` is long, where the food on
    /// the board is replaced by the next entry of `foods` before each turn.
    pub open spec fn played(self, foods: Seq<FoodView>) -> GameView
        decreases foods.len(),
    {
        if foods.len() == 0 {
            self
        } else {
            self.played(foods.drop_last()).fed(foods.last()).after_turn()
        }
    }

    /// The commands that draw the food on the first `upto` cells of the
    /// board, counted column by column.
    pub open spec fn food_draws(self, upto: nat) -> Seq<Draw>
        decreases upto,
    {
        if upto == 0 {
            Seq::empty()
        } else {
            let before = self.food_draws((upto - 1) as nat);
            let cell = food_cell(upto - 1);
            if self.food.cells.contains(cell) {
                before.push(food_draw(cell))
            } else {
                before
            }
        }
    }

    /// The commands that draw the player: its head, then each segment of
    /// its body from the first.
    pub open spec fn player_draws(self) -> Seq<Draw> {
        seq![segment_draw(self.player.position)] + Seq::new(
            self.player.segments,
            |i: int| segment_draw(self.player.trail[i]),
        )
    }

    /// The commands that tell how the run stands: a notice where it is over,
    /// then the score behind its label.
    pub open spec fn status_draws(self) -> Seq<Draw> {
        let notice = if self.running {
            Seq::empty()
        } else {
            seq![Message::GameOver.draw()]
        };
        notice + seq![Message::ScoreLabel.draw(), score_draw(self.score as usize)]
    }

    /// What a tick draws once it has brought the game to this state. A game
    /// that was over before the tick only asks for a restart. One that was
    /// running blanks the board, then draws the food, the player and the
    /// status, in this order.
    pub open spec fn frame(self, was_running: bool) -> Seq<Draw> {
        if was_running {
            blank_backdrop() + self.food_draws((BOARD_WIDTH * BOARD_HEIGHT) as nat)
                + self.player_draws() + self.status_draws()
        } else {
            seq![Message::Restart.draw()]
        }
    }
}

/// Two new games whose players were spawned on the same cell are the same
/// game, and stay the same over any number of turns as long as the same
/// food is spawned in both before each turn.
pub proof fn lemma_fresh_games_agree(a: GameView, b: GameView, foods: Seq<FoodView>)
    requires
        a.fresh(),
        b.fresh(),
        a.player.position == b.player.position,
    ensures
        a == b,
        a.played(foods) == b.played(foods),
{
}

/// A turn of a running game on which the head, after the move, lies on a
/// cell without food leaves the score, the segments and the food as they
/// were.
pub proof fn lemma_turn_without_food_keeps_score(game: GameView)
    requires
        game.running,
        !game.food.cells.contains(game.player.located(game.tick_count).position),
    ensures
        game.after_turn().score == game.score,
        game.after_turn().player == game.player.located(game.tick_count),
        game.after_turn().player.segments == game.player.segments,
        game.after_turn().food == game.food,
{
    let head = game.player.located(game.tick_count).position;
    assert(game.food.cells.remove(head) =~= game.food.cells);
}

/// After a turn of a running game the run goes on exactly where the player,
/// as the move and the eating left it, has not moved yet, or is neither at
/// the edge nor on itself.
pub proof fn lemma_turn_runs_on(game: GameView)
    requires
        game.running,
    ensures
        game.after_turn().running == !(game.after_turn().player.has_moved && (
        game.after_turn().player.at_edge || game.after_turn().player.hits_itself())),
        !game.after_turn().player.at_edge && !game.after_turn().player.hits_itself()
            ==> game.after_turn().running,
{
}

/// A running game whose player has moved and is at the edge is over after
/// the turn.
pub proof fn lemma_turn_at_edge_ends_run(game: GameView)
    requires
        game.running,
        game.player.has_moved,
        game.player.at_edge,
    ensures
        !game.after_turn().running,
{
}

/// On a turn that moves the player onto a cell with food, the head lies on
/// that cell, the score and the segments grow by one, and the cell holds no
/// food afterwards while every other cell is as it was.
pub proof fn lemma_turn_onto_food_eats(game: GameView, heading: Heading)
    requires
        game.wf(),
        game.running,
        game.tick_count % 3 == 0,
        game.player.heading == Some(heading),
        heading.stays_on_board(game.player.position),
        game.food.cells.contains(heading.target(game.player.position)),
    ensures
        game.after_turn().player.position == heading.target(game.player.position),
        game.after_turn().score == game.score + 1,
        game.after_turn().player.segments == game.player.segments + 1,
        !game.after_turn().food.cells.contains(heading.target(game.player.position)),
        forall|c: Duple|
            c != heading.target(game.player.position) ==> game.after_turn().food.cells.contains(c)
                == game.food.cells.contains(c),
        game.after_turn().food.live() == game.food.live() - 1,
        game.after_turn().food.total_spawned == game.food.total_spawned,
{
}

/// What `GameView::ticked` says holds of a running game whatever food a
/// tick spawns before its turn.
pub proof fn lemma_tick_outcome(game: GameView, food: FoodView)
    requires
        game.running,
        game.food.replenishes(food),
        game.food.interior_is_free() && game.food.shortfall() > 0 ==> food.live() > game.food.live(),
    ensures
        game.ticked(game.fed(food).after_turn()),
{
}

/// The first tick of a new game spawns an item.
pub proof fn lemma_first_tick_spawns(game: GameView, after: GameView)
    requires
        game.fresh(),
        game.ticked(after),
    ensures
        after.food.total_spawned >= 1,
{
    assert(game.food.cells =~= Set::empty());
}

/// A new game is valid, and a tick can be played on it.
pub proof fn lemma_fresh_is_valid(game: GameView)
    requires
        game.fresh(),
    ensures
        game.wf(),
        game.ready(),
{
}

/// A turn keeps a valid game valid. It plays one tick of a running game and
/// none of a game that is over, and the score never falls.
pub proof fn lemma_turn_keeps_valid(game: GameView)
    requires
        game.wf(),
        game.can_turn(),
    ensures
        game.after_turn().wf(),
        game.running ==> game.after_turn().tick_count == game.tick_count + 1,
        !game.running ==> game.after_turn() == game,
        game.score <= game.after_turn().score <= game.score + 1,
{
}

impl View for Game {
    type V = GameView;

    closed spec fn view(&self) -> GameView {
        GameView {
            player: self.player@,
            food: self.food@,
            tick_count: self.tick_count as int,
            running: self.running,
            score: self.score as nat,
        }
    }
}

impl Game {
    /// The validity of the game: its view is valid, and so are its parts.
    pub closed spec fn wf(&self) -> bool {
        &&& self@.wf()
        &&& self.food.wf()
        &&& self.grid.blank()
    }

    /// What is valid has a valid view.
    pub proof fn lemma_wf_view(&self)
        requires
            self.wf(),
        ensures
            self@.wf(),
    {
    }

    /// A new game.
    pub fn new() -> (game: Self)
        ensures
            game.wf(),
            game@.fresh(),
    {
        let game = Self {
            player: Player::new(PLAYER_SEED),
            food: Food::new(FOOD_TARGET),
            grid: Refresh::new(),
            tick_count: 0,
            running: true,
            score: 0,
        };
        proof {
            game.food.lemma_wf_view();
        }
        game
    }

    /// A running game about `player` and `food`, with no tick played. The
    /// score is the number of segments that `player` has gained.
    pub fn from_parts(player: Player, food: Food) -> (game: Self)
        requires
            player@.wf(),
            food.wf(),
        ensures
            game.wf(),
            game@ == (GameView {
                player: player@,
                food: food@,
                tick_count: 0,
                running: true,
                score: (player@.segments - 1) as nat,
            }),
    {
        proof {
            food.lemma_wf_view();
        }
        let score: usize = player.segments_alive() - 1;
        Self { player, food, grid: Refresh::new(), tick_count: 0, running: true, score }
    }

    /// Starts the game anew, with the player and the food as in a new game.
    pub fn reset(&mut self)
        ensures
            final(self).wf(),
            final(self)@.fresh(),
    {
        self.player = Player::new(PLAYER_SEED);
        self.food = Food::new(FOOD_TARGET);
        self.grid = Refresh::new();
        self.tick_count = 0;
        self.score = 0;
        self.running = true;
        proof {
            self.food.lemma_wf_view();
        }
    }

    /// Handles a key. An arrow requests a heading of the player. The
    /// character `r` resets a game that is over. Nothing else has an effect.
    pub fn key(&mut self, key: KeyEvent)
        requires
            old(self).wf(),
        ensures
            final(self).wf(),
            match key {
                KeyEvent::Arrow(heading) => final(self)@ == old(self)@.steered(heading),
                KeyEvent::Unicode(c) => if c == 'r' && !old(self)@.running {
                    final(self)@.fresh()
                } else {
                    final(self)@ == old(self)@
                },
                KeyEvent::Other => final(self)@ == old(self)@,
            },
    {
        match key {
            KeyEvent::Arrow(heading) => {
                self.player.set_heading(heading);
            },
            KeyEvent::Unicode(c) => {
                if c == 'r' && !self.running {
                    self.reset();
                }
            },
            KeyEvent::Other => {},
        }
    }

    /// Plays one turn on the food as it lies: the part of a tick that
    /// follows the spawning of food.
    pub fn turn(&mut self)
        requires
            old(self).wf(),
            old(self)@.can_turn(),
        ensures
            final(self).wf(),
            final(self)@ == old(self)@.after_turn(),
    {
        if !self.running {
            return ;
        }
        proof {
            self.food.lemma_wf_view();
        }
        self.player.update_location(self.tick_count);
        let head = self.player.position();
        if self.food.consume(head) {
            self.player.eat();
            self.score += 1;
        }
        if self.player.has_moved() && (self.player.at_edge() || self.player.check_collision_self()) {
            self.running = false;
        }
        self.tick_count += 1;
        proof {
            self.food.lemma_wf_view();
        }
    }

    /// Plays one tick and returns what it draws. A game that is over only
    /// asks for a restart. A running game first spawns food up to its
    /// target, on free interior cells, and skips that where none is found;
    /// then it plays one turn.
    pub fn tick(&mut self) -> (frame: Vec<Draw>)
        requires
            old(self).wf(),
            old(self)@.ready(),
        ensures
            final(self).wf(),
            frame@ == final(self)@.frame(old(self)@.running),
            !old(self)@.running ==> final(self)@ == old(self)@,
            old(self)@.running ==> old(self)@.ticked(final(self)@),
            old(self)@.running ==> exists|food: FoodView|
                {
                    &&& old(self)@.food.replenishes(food)
                    &&& old(self)@.food.interior_is_free() && old(self)@.food.shortfall() > 0
                        ==> food.live() > old(self)@.food.live()
                    &&& final(self)@ == #[trigger] old(self)@.fed(food).after_turn()
                },
    {
        if !self.running {
            return self.frame(false);
        }
        let _ = self.food.top_up();
        assert(self@ == old(self)@.fed(self.food@));
        proof {
            self.food.lemma_wf_view();
            lemma_tick_outcome(old(self)@, self.food@);
        }
        self.turn();
        self.frame(true)
    }

    /// Lists what a tick draws once it has brought the game to this state;
    /// `was_running` tells whether the game was running before that tick.
    pub fn frame(&self, was_running: bool) -> (frame: Vec<Draw>)
        requires
            self.wf(),
        ensures
            frame@ == self@.frame(was_running),
    {
        if !was_running {
            let mut frame: Vec<Draw> = Vec::new();
            frame.push(Message::Restart.draw());
            assert(frame@ =~= seq![Message::Restart.draw()]);
            return frame;
        }
        let mut frame: Vec<Draw> = self.grid.draw();
        proof {
            self.grid.lemma_blank_draws_blanks();
        }
        let mut col: usize = 0;
        while col < BOARD_WIDTH
            invariant
                col <= BOARD_WIDTH,
                frame@ == blank_backdrop() + self@.food_draws((col * BOARD_HEIGHT) as nat),
            decreases BOARD_WIDTH - col,
        {
            let mut row: usize = 0;
            while row < BOARD_HEIGHT
                invariant
                    col < BOARD_WIDTH,
                    row <= BOARD_HEIGHT,
                    frame@ == blank_backdrop() + self@.food_draws((col * BOARD_HEIGHT + row) as nat),
                decreases BOARD_HEIGHT - row,
            {
                let ghost index = (col * BOARD_HEIGHT + row) as int;
                assert(food_cell(index) == (Duple { x: col, y: row }));
                if self.food.occupied(row, col) {
                    frame.push(food_draw(Duple { x: col, y: row }));
                }
                assert(frame@ =~= blank_backdrop() + self@.food_draws((index + 1) as nat));
                row += 1;
            }
            col += 1;
        }
        let ghost with_food = frame@;
        frame.push(segment_draw(self.player.position()));
        let segments: usize = self.player.segments_alive();
        let mut i: usize = 0;
        while i < segments
            invariant
                i <= segments == self@.player.segments <= TRAIL_CAPACITY,
                frame@ == with_food + seq![segment_draw(self@.player.position)] + Seq::new(
                    i as nat,
                    |k: int| segment_draw(self@.player.trail[k]),
                ),
            decreases segments - i,
        {
            match self.player.segment(i) {
                Some(cell) => {
                    frame.push(segment_draw(cell));
                },
                None => {},
            }
            i += 1;
            assert(frame@ =~= with_food + seq![segment_draw(self@.player.position)] + Seq::new(
                i as nat,
                |k: int| segment_draw(self@.player.trail[k]),
            ));
        }
        if !self.running {
            frame.push(Message::GameOver.draw());
        }
        frame.push(Message::ScoreLabel.draw());
        frame.push(score_draw(self.score));
        assert(frame@ =~= self@.frame(true));
        frame
    }

    /// Tells whether `tick` can be called: see `GameView::ready`.
    pub fn ready(&self) -> (ready: bool)
        requires
            self.wf(),
        ensures
            ready == self@.ready(),
    {
        if !self.running {
            return true;
        }
        let live: usize = self.food.live_count();
        let target: usize = self.food.target_count();
        let shortfall: usize = if live < target {
            target - live
        } else {
            0
        };
        self.player.segments_alive() < TRAIL_CAPACITY && self.tick_count < i64::MAX
            && shortfall <= usize::MAX - self.food.total_spawned()
    }

    /// The player.
    pub fn player(&self) -> (player: &Player)
        ensures
            player@ == self@.player,
    {
        &self.player
    }

    /// The food.
    pub fn food(&self) -> (food: &Food)
        ensures
            food@ == self@.food,
    {
        &self.food
    }

    /// Number of turns played since the game was new or reset.
    pub fn tick_count(&self) -> (count: i64)
        ensures
            count == self@.tick_count,
    {
        self.tick_count
    }

    /// Whether the run goes on.
    pub fn is_running(&self) -> (running: bool)
        ensures
            running == self@.running,
    {
        self.running
    }

    /// Number of items eaten.
    pub fn score(&self) -> (score: usize)
        ensures
            score == self@.score,
    {
        self.score
    }
}

} // verus!
