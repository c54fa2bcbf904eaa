//! The player: its position and heading, and the trail of cells that its
//! body covers.

use crate::board::{Duple, Heading, BOARD_HEIGHT, BOARD_WIDTH};
use crate::food::Food;
use crate::random::{draw_u64, seeded};
use vstd::prelude::*;

verus! {

/// Number of cells the trail can hold; it exceeds the area of the board.
pub const TRAIL_CAPACITY: usize = 8000;

/// The player of the game.
///
/// `body` is the trail, most recent cell first. Its first `food_ate + 1`
/// entries are the segments of the body.
#[derive(Clone, Copy)]
pub struct Player {
    x: usize,
    y: usize,
    direction: Option<Heading>,
    food_ate: usize,
    body: [Duple; TRAIL_CAPACITY],
    has_moved: bool,
    edge: bool,
}

/// What a `Player` stands for.
pub ghost struct PlayerView {
    /// The cell of the head.
    pub position: Duple,
    /// The direction of travel; `None` until the first directional input.
    pub heading: Option<Heading>,
    /// The trail, most recent cell first, over its whole capacity.
    pub trail: Seq<Duple>,
    /// How many leading entries of the trail are segments of the body.
    pub segments: nat,
    /// Whether a directional input has been received.
    pub has_moved: bool,
    /// Whether a move off the board has been attempted.
    pub at_edge: bool,
}

impl PlayerView {
    /// The validity of a player: the body fits in the trail, and the head is
    /// on the board.
    pub open spec fn wf(self) -> bool {
        &&& self.trail.len() == TRAIL_CAPACITY
        &&& 1 <= self.segments <= TRAIL_CAPACITY
        &&& self.position.on_board()
        &&& self.heading.is_some() ==> self.has_moved
    }

    /// The player as it is spawned at `position`: one segment, no heading.
    pub open spec fn spawned(position: Duple) -> PlayerView {
        PlayerView {
            position,
            heading: None,
            trail: Seq::new(TRAIL_CAPACITY as nat, |i: int| Duple { x: 0, y: 0 }),
            segments: 1,
            has_moved: false,
            at_edge: false,
        }
    }

    /// The cell on which draws `draw_x` and `draw_y` spawn the player.
    pub open spec fn spawn_cell(draw_x: u64, draw_y: u64) -> Duple {
        Duple { x: (draw_x % BOARD_WIDTH as u64) as usize, y: (draw_y % BOARD_HEIGHT as u64) as usize }
    }

    /// Whether the trail can take one more segment.
    pub open spec fn has_room(self) -> bool {
        self.segments < TRAIL_CAPACITY
    }

    /// The player after eating: one more segment, nothing else changed.
    pub open spec fn grown(self) -> PlayerView {
        PlayerView { segments: self.segments + 1, ..self }
    }

    /// Whether the head lies on another segment of the body.
    pub open spec fn hits_itself(self) -> bool {
        exists|i: int| 1 <= i < self.segments && #[trigger] self.trail[i] == self.trail[0]
    }

    /// The trail after the head moves to `head`: each segment takes the cell
    /// of the one before it, and the first takes `head`.
    pub open spec fn shifted_trail(self, head: Duple) -> Seq<Duple> {
        Seq::new(
            self.trail.len(),
            |i: int|
                if i == 0 {
                    head
                } else if i < self.segments {
                    self.trail[i - 1]
                } else {
                    self.trail[i]
                },
        )
    }

    /// The player after one step along `heading`. A step that stays on the
    /// board moves the head and the body; one that would leave it moves
    /// nothing and records the edge.
    pub open spec fn stepped(self, heading: Heading) -> PlayerView {
        if heading.stays_on_board(self.position) {
            PlayerView {
                position: heading.target(self.position),
                heading: Some(heading),
                trail: self.shifted_trail(heading.target(self.position)),
                has_moved: true,
                ..self
            }
        } else {
            PlayerView { has_moved: true, at_edge: true, ..self }
        }
    }

    /// The player after one step along its own heading; without a heading it
    /// stays as it is.
    pub open spec fn advanced(self) -> PlayerView {
        match self.heading {
            Some(heading) => self.stepped(heading),
            None => self,
        }
    }

    /// The player after a request to head along `heading`: the exact reverse
    /// of the current heading is ignored.
    pub open spec fn turned(self, heading: Heading) -> PlayerView {
        if self.heading == Some(heading.spec_reverse()) {
            self
        } else {
            PlayerView { heading: Some(heading), has_moved: true, ..self }
        }
    }

    /// The player after it has turned to each heading of `headings` in
    /// order, and advanced once after each turn.
    pub open spec fn driven(self, headings: Seq<Heading>) -> PlayerView
        decreases headings.len(),
    {
        if headings.len() == 0 {
            self
        } else {
            self.driven(headings.drop_last()).turned(headings.last()).advanced()
        }
    }

    /// The player after the move that tick number `tick_count` makes: it
    /// advances on every third tick.
    pub open spec fn located(self, tick_count: int) -> PlayerView {
        if tick_count % 3 == 0 {
            self.advanced()
        } else {
            self
        }
    }
}

/// A player that turns to a heading other than the reverse of its own, and
/// then advances to a cell of the board, has moved by exactly one cell along
/// that heading: one column for left and right, one row for up and down.
pub proof fn lemma_advance_moves_one_cell(player: PlayerView, heading: Heading)
    requires
        player.heading != Some(heading.spec_reverse()),
        heading.stays_on_board(player.position),
    ensures
        player.turned(heading).advanced().position == heading.target(player.position),
        player.turned(heading).advanced().position.x - player.position.x == heading.dx(),
        player.turned(heading).advanced().position.y - player.position.y == heading.dy(),
        player.turned(heading).advanced().at_edge == player.at_edge,
        match heading {
            Heading::Up => heading.dx() == 0 && heading.dy() == -1,
            Heading::Down => heading.dx() == 0 && heading.dy() == 1,
            Heading::Left => heading.dx() == -1 && heading.dy() == 0,
            Heading::Right => heading.dx() == 1 && heading.dy() == 0,
        },
{
}

/// Along any sequence of turns, each followed by one advance, every turn
/// that does not reverse the heading and whose step stays on the board
/// moves the head by exactly one cell along the heading requested.
pub proof fn lemma_driven_moves_one_cell_each_time(
    player: PlayerView,
    headings: Seq<Heading>,
    k: int,
)
    requires
        0 <= k < headings.len(),
        player.driven(headings.take(k)).heading != Some(headings[k].spec_reverse()),
        headings[k].stays_on_board(player.driven(headings.take(k)).position),
    ensures
        player.driven(headings.take(k + 1)).position == headings[k].target(
            player.driven(headings.take(k)).position,
        ),
        player.driven(headings.take(k + 1)).position.x - player.driven(headings.take(k)).position.x
            == headings[k].dx(),
        player.driven(headings.take(k + 1)).position.y - player.driven(headings.take(k)).position.y
            == headings[k].dy(),
{
    let upto = headings.take(k + 1);
    assert(upto.drop_last() =~= headings.take(k));
    assert(upto.last() == headings[k]);
    lemma_advance_moves_one_cell(player.driven(headings.take(k)), headings[k]);
}

/// A player without a heading does not move when it advances.
pub proof fn lemma_advance_without_heading_stays(player: PlayerView)
    requires
        player.heading.is_none(),
    ensures
        player.advanced() == player,
{
}

/// A request for the exact reverse of the current heading changes nothing.
pub proof fn lemma_reverse_is_ignored(player: PlayerView, heading: Heading)
    requires
        player.heading == Some(heading),
    ensures
        player.turned(heading.spec_reverse()) == player,
{
}

/// A player of one segment never hits itself.
pub proof fn lemma_single_segment_never_hits_itself(player: PlayerView)
    requires
        player.segments == 1,
    ensures
        !player.hits_itself(),
{
}

impl View for Player {
    type V = PlayerView;

    closed spec fn view(&self) -> PlayerView {
        PlayerView {
            position: Duple { x: self.x, y: self.y },
            heading: self.direction,
            trail: self.body@,
            segments: (self.food_ate + 1) as nat,
            has_moved: self.has_moved,
            at_edge: self.edge,
        }
    }
}

impl Player {
    /// Spawns a player on the cell that the first two outputs of a generator
    /// seeded with `state` select.
    pub fn new(state: u64) -> (player: Self)
        ensures
            player@ == PlayerView::spawned(player@.position),
            player@.wf(),
    {
        let mut small_rng = seeded(state);
        let draw_x: u64 = draw_u64(&mut small_rng);
        let draw_y: u64 = draw_u64(&mut small_rng);
        Player::place(draw_x, draw_y)
    }

    /// Spawns a player on the cell that the draws `draw_x` and `draw_y`
    /// select: column `draw_x` modulo the width of the board, row `draw_y`
    /// modulo its height.
    pub fn place(draw_x: u64, draw_y: u64) -> (player: Self)
        ensures
            player@ == PlayerView::spawned(PlayerView::spawn_cell(draw_x, draw_y)),
            player@.wf(),
    {
        let x: usize = (draw_x % BOARD_WIDTH as u64) as usize;
        let y: usize = (draw_y % BOARD_HEIGHT as u64) as usize;
        let body: [Duple; TRAIL_CAPACITY] = [Duple::new(0, 0); TRAIL_CAPACITY];
        let player = Self { x, y, direction: None, food_ate: 0, body, has_moved: false, edge: false };
        assert(player@.trail =~= PlayerView::spawned(PlayerView::spawn_cell(draw_x, draw_y)).trail);
        player
    }

    /// Grows the body by one segment. The trail must have room for it.
    pub fn eat(&mut self)
        requires
            old(self)@.wf(),
            old(self)@.has_room(),
        ensures
            final(self)@ == old(self)@.grown(),
            final(self)@.wf(),
    {
        self.food_ate += 1;
    }

    /// Tests whether the head lies on a cell of `op` that holds food.
    pub fn check_collisions(&mut self, op: Food) -> (hit: bool)
        ensures
            hit == op@.cells.contains(old(self)@.position),
            *final(self) == *old(self),
    {
        op.occupied(self.y, self.x)
    }

    /// Tests whether the head lies on another segment of the body.
    pub fn check_collision_self(&self) -> (hit: bool)
        requires
            self@.wf(),
        ensures
            hit == self@.hits_itself(),
            self@.segments == 1 ==> !hit,
    {
        let mut i: usize = 1;
        while i < self.food_ate + 1
            invariant
                1 <= i <= self.food_ate + 1 <= TRAIL_CAPACITY,
                forall|k: int| 1 <= k < i ==> #[trigger] self.body@[k] != self.body@[0],
            decreases self.food_ate + 1 - i,
        {
            if self.body[i] == self.body[0] {
                assert(self@.trail[i as int] == self@.trail[0]);
                return true;
            }
            i += 1;
        }
        false
    }

    /// Steps one cell down.
    pub fn down(&mut self)
        requires
            old(self)@.wf(),
        ensures
            final(self)@ == old(self)@.stepped(Heading::Down),
            final(self)@.wf(),
    {
        self.step(Heading::Down)
    }

    /// Steps one cell up.
    pub fn up(&mut self)
        requires
            old(self)@.wf(),
        ensures
            final(self)@ == old(self)@.stepped(Heading::Up),
            final(self)@.wf(),
    {
        self.step(Heading::Up)
    }

    /// Steps one cell left.
    pub fn left(&mut self)
        requires
            old(self)@.wf(),
        ensures
            final(self)@ == old(self)@.stepped(Heading::Left),
            final(self)@.wf(),
    {
        self.step(Heading::Left)
    }

    /// Steps one cell right.
    pub fn right(&mut self)
        requires
            old(self)@.wf(),
        ensures
            final(self)@ == old(self)@.stepped(Heading::Right),
            final(self)@.wf(),
    {
        self.step(Heading::Right)
    }

    /// Requests a heading. The exact reverse of the current heading is
    /// ignored, so the head cannot turn back into its own body.
    pub fn set_heading(&mut self, heading: Heading)
        ensures
            final(self)@ == old(self)@.turned(heading),
            old(self)@.heading == Some(heading.spec_reverse()) ==> final(self)@ == old(self)@,
            old(self)@.wf() ==> final(self)@.wf(),
    {
        let reversal: bool = match self.direction {
            Some(current) => current == heading.reverse(),
            None => false,
        };
        if !reversal {
            self.direction = Some(heading);
            self.has_moved = true;
        }
    }

    /// Moves one cell along the current heading; does nothing without one.
    pub fn advance(&mut self)
        requires
            old(self)@.wf(),
        ensures
            final(self)@ == old(self)@.advanced(),
            final(self)@.wf(),
    {
        match self.direction {
            Some(heading) => self.step(heading),
            None => {},
        }
    }

    /// Makes the move of tick number `tick_count`: the player advances on
    /// every third tick.
    pub fn update_location(&mut self, tick_count: i64)
        requires
            old(self)@.wf(),
        ensures
            final(self)@ == old(self)@.located(tick_count as int),
            final(self)@.wf(),
    {
        if tick_count % 3 == 0 {
            self.advance();
        }
    }

    /// One step along `heading`, as `PlayerView::stepped` describes it.
    fn step(&mut self, heading: Heading)
        requires
            old(self)@.wf(),
        ensures
            final(self)@ == old(self)@.stepped(heading),
            final(self)@.wf(),
    {
        self.has_moved = true;
        match heading.step_from(Duple { x: self.x, y: self.y }) {
            Some(next) => {
                self.direction = Some(heading);
                self.x = next.x;
                self.y = next.y;
                self.shift_body(next);
            },
            None => {
                self.edge = true;
            },
        }
    }

    /// Lets each segment take the cell of the one before it, last segment
    /// first, and puts `head` in front.
    fn shift_body(&mut self, head: Duple)
        requires
            old(self).food_ate < TRAIL_CAPACITY,
        ensures
            final(self)@ == (PlayerView { trail: old(self)@.shifted_trail(head), ..old(self)@ }),
    {
        let ghost before = self@;
        let mut i: usize = self.food_ate;
        while i > 0
            invariant
                i <= self.food_ate < TRAIL_CAPACITY,
                self@ == (PlayerView { trail: self@.trail, ..before }),
                forall|k: int|
                    0 <= k < TRAIL_CAPACITY ==> #[trigger] self.body@[k] == (if i < k <= self.food_ate {
                        before.trail[k - 1]
                    } else {
                        before.trail[k]
                    }),
            decreases i,
        {
            self.body[i] = self.body[i - 1];
            i -= 1;
        }
        self.body[0] = head;
        assert(self@.trail =~= before.shifted_trail(head));
    }

    /// The cell of the head.
    pub fn position(&self) -> (pos: Duple)
        ensures
            pos == self@.position,
    {
        Duple { x: self.x, y: self.y }
    }

    /// The current heading, if any.
    pub fn heading(&self) -> (heading: Option<Heading>)
        ensures
            heading == self@.heading,
    {
        self.direction
    }

    /// Number of segments of the body.
    pub fn segments_alive(&self) -> (count: usize)
        requires
            self@.wf(),
        ensures
            count == self@.segments,
    {
        self.food_ate + 1
    }

    /// The `index`-th entry of the trail, counted from the head.
    pub fn segment(&self, index: usize) -> (cell: Option<Duple>)
        ensures
            cell.is_some() == (index < TRAIL_CAPACITY),
            cell.is_some() ==> cell.unwrap() == self@.trail[index as int],
    {
        if index < TRAIL_CAPACITY {
            Some(self.body[index])
        } else {
            None
        }
    }

    /// Whether a directional input has been received.
    pub fn has_moved(&self) -> (moved: bool)
        ensures
            moved == self@.has_moved,
    {
        self.has_moved
    }

    /// Whether a move off the board has been attempted.
    pub fn at_edge(&self) -> (at_edge: bool)
        ensures
            at_edge == self@.at_edge,
    {
        self.edge
    }
}

} // verus!
