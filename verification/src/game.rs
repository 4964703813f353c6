//! The simulation state and its per-frame phases: heading input, movement
//! with self-collision detection, food spawning, eating and growth, and the
//! game-over reset. Each phase is a total transition on the game state, and
//! a frame runs them in a fixed order.

use crate::grid::{move_pos, opposite_spec, pos_in_range, Direction, Position};
use vstd::prelude::*;

verus! {

/// X coordinate of the canonical start cell of the snake's head.
pub const START_X: i32 = 3;

/// Y coordinate of the canonical start cell of the snake's head.
pub const START_Y: i32 = 3;

/// One segment of the snake: a unique identity and its current cell.
#[derive(Clone, Copy, PartialEq, Eq, Structural, Debug)]
pub struct SnakeSegment {
    pub id: u64,
    pub position: Position,
}

/// One food item: a unique identity and the cell it occupies.
#[derive(Clone, Copy, PartialEq, Eq, Structural, Debug)]
pub struct Food {
    pub id: u64,
    pub position: Position,
}

/// The whole simulation state. Index 0 of `segments` is the head, the last
/// index is the tail. `pending_growth` and `pending_game_over` are
/// frame-scoped signals: raised by one phase, consumed by a later phase of
/// the same frame, and cleared by the end of the frame.
pub struct GameState {
    pub arena_size: i32,
    pub segments: Vec<SnakeSegment>,
    pub heading: Direction,
    pub foods: Vec<Food>,
    pub last_tail_position: Option<Position>,
    pub pending_growth: bool,
    pub pending_game_over: bool,
    pub next_id: u64,
}

/// The mathematical model of a [`GameState`].
pub ghost struct GameView {
    pub arena_size: i32,
    pub segments: Seq<SnakeSegment>,
    pub heading: Direction,
    pub foods: Seq<Food>,
    pub last_tail_position: Option<Position>,
    pub pending_growth: bool,
    pub pending_game_over: bool,
    pub next_id: u64,
}

impl View for GameState {
    type V = GameView;

    open spec fn view(&self) -> GameView {
        GameView {
            arena_size: self.arena_size,
            segments: self.segments@,
            heading: self.heading,
            foods: self.foods@,
            last_tail_position: self.last_tail_position,
            pending_growth: self.pending_growth,
            pending_game_over: self.pending_game_over,
            next_id: self.next_id,
        }
    }
}

/// The cells of the segments, oldest first: index 0 is the head's cell.
pub open spec fn segment_positions(segments: Seq<SnakeSegment>) -> Seq<Position> {
    segments.map_values(|s: SnakeSegment| s.position)
}

impl GameView {
    /// The snake has at least head and tail, every segment sits on the grid,
    /// and segment identities are distinct and below the allocation counter.
    pub open spec fn segments_wf(self) -> bool {
        &&& 2 <= self.segments.len()
        &&& forall|i: int|
            0 <= i < self.segments.len() ==> pos_in_range(
                (#[trigger] self.segments[i]).position,
                self.arena_size as int,
            )
        &&& forall|i: int, j: int|
            0 <= i < j < self.segments.len() ==> (#[trigger] self.segments[i]).id != (
            #[trigger] self.segments[j]).id
        &&& forall|i: int| 0 <= i < self.segments.len() ==> (#[trigger] self.segments[i]).id
            < self.next_id
    }

    /// Every food item sits on the grid and food identities are distinct and
    /// below the allocation counter.
    pub open spec fn foods_wf(self) -> bool {
        &&& forall|i: int|
            0 <= i < self.foods.len() ==> pos_in_range(
                (#[trigger] self.foods[i]).position,
                self.arena_size as int,
            )
        &&& forall|i: int, j: int|
            0 <= i < j < self.foods.len() ==> (#[trigger] self.foods[i]).id != (
            #[trigger] self.foods[j]).id
        &&& forall|i: int| 0 <= i < self.foods.len() ==> (#[trigger] self.foods[i]).id
            < self.next_id
    }

    /// No segment shares an identity with a food item.
    pub open spec fn ids_disjoint(self) -> bool {
        forall|i: int, j: int|
            0 <= i < self.segments.len() && 0 <= j < self.foods.len() ==> (
            #[trigger] self.segments[i]).id != (#[trigger] self.foods[j]).id
    }

    /// The recorded pre-move tail cell, if any, lies on the grid.
    pub open spec fn tail_slot_wf(self) -> bool {
        self.last_tail_position matches Some(p) ==> pos_in_range(p, self.arena_size as int)
    }

    /// Well-formedness of the whole state. The grid must be large enough to
    /// hold the canonical two-segment start snake.
    pub open spec fn wf(self) -> bool {
        &&& 4 <= self.arena_size
        &&& self.segments_wf()
        &&& self.foods_wf()
        &&& self.ids_disjoint()
        &&& self.tail_slot_wf()
    }

    /// Everything a fresh snake spawn needs of the surrounding state.
    pub open spec fn spawn_pre(self) -> bool {
        &&& 4 <= self.arena_size
        &&& self.next_id + 2 <= u64::MAX
        &&& self.foods_wf()
        &&& self.tail_slot_wf()
    }
}

/// The canonical start cell of the snake's head.
pub open spec fn start_position() -> Position {
    Position { x: START_X, y: START_Y }
}

/// The directional intent sampled from raw key state: the first pressed key
/// in the priority order left, down, up, right wins; with no key pressed the
/// current heading stands.
pub open spec fn requested_direction(
    left: bool,
    down: bool,
    up: bool,
    right: bool,
    current: Direction,
) -> Direction {
    if left {
        Direction::Left
    } else if down {
        Direction::Down
    } else if up {
        Direction::Up
    } else if right {
        Direction::Right
    } else {
        current
    }
}

/// The heading after a request: an exact reversal is rejected and leaves the
/// heading unchanged; any other request is taken.
pub open spec fn heading_after(current: Direction, requested: Direction) -> Direction {
    if requested == opposite_spec(current) {
        current
    } else {
        requested
    }
}

/// The state after the input phase: only the heading may change.
pub open spec fn input_applied(
    v: GameView,
    left: bool,
    down: bool,
    up: bool,
    right: bool,
) -> GameView {
    GameView { heading: heading_after(v.heading, requested_direction(left, down, up, right, v.heading)), ..v }
}

/// The state after one movement tick: the tail's pre-move cell is recorded,
/// the head advances one cell in the current heading, every other segment
/// takes the pre-move cell of its predecessor, and a game over is raised if
/// the new head cell occurs anywhere in the pre-move snapshot.
pub open spec fn movement_applied(v: GameView) -> GameView {
    let snapshot = segment_positions(v.segments);
    let new_head = move_pos(snapshot[0], v.heading, v.arena_size as int);
    GameView {
        segments: Seq::new(
            v.segments.len(),
            |i: int|
                SnakeSegment {
                    id: v.segments[i].id,
                    position: if i == 0 {
                        new_head
                    } else {
                        snapshot[i - 1]
                    },
                },
        ),
        last_tail_position: Some(snapshot[snapshot.len() - 1]),
        pending_game_over: v.pending_game_over || snapshot.contains(new_head),
        ..v
    }
}

/// The state after spawning one food item at `position`.
pub open spec fn spawn_applied(v: GameView, position: Position) -> GameView {
    GameView {
        foods: v.foods.push(Food { id: v.next_id, position }),
        next_id: (v.next_id + 1) as u64,
        ..v
    }
}

/// Food at a cell other than `head` survives the eating phase.
pub open spec fn survives(head: Position) -> spec_fn(Food) -> bool {
    |f: Food| f.position != head
}

/// The state after the eating phase: every food item on the head's cell is
/// destroyed, and growth is raised if there was at least one.
pub open spec fn eating_applied(v: GameView) -> GameView {
    let head = v.segments[0].position;
    GameView {
        foods: v.foods.filter(survives(head)),
        pending_growth: v.pending_growth || exists|i: int|
            0 <= i < v.foods.len() && (#[trigger] v.foods[i]).position == head,
        ..v
    }
}

/// The state after the growth phase: if growth is pending and a movement
/// tick has ever recorded a tail cell, one segment is appended there; with
/// no recorded tail cell the growth is a silent no-op. The growth signal is
/// cleared either way.
pub open spec fn growth_applied(v: GameView) -> GameView {
    match v.last_tail_position {
        Some(p) => if v.pending_growth {
            GameView {
                segments: v.segments.push(SnakeSegment { id: v.next_id, position: p }),
                next_id: (v.next_id + 1) as u64,
                pending_growth: false,
                ..v
            }
        } else {
            GameView { pending_growth: false, ..v }
        },
        None => GameView { pending_growth: false, ..v },
    }
}

/// The segments and heading of a freshly spawned snake, replacing whatever
/// was there: a head at the canonical start cell and one segment to its
/// left, heading `Right`. Two identities are allocated.
pub open spec fn snake_spawned(v: GameView) -> GameView {
    GameView {
        segments: seq![
            SnakeSegment { id: v.next_id, position: start_position() },
            SnakeSegment {
                id: (v.next_id + 1) as u64,
                position: move_pos(start_position(), Direction::Left, v.arena_size as int),
            },
        ],
        heading: Direction::Right,
        next_id: (v.next_id + 2) as u64,
        ..v
    }
}

/// The state after the game-over phase: on a pending game over every food
/// item and every segment is destroyed and the canonical start snake is
/// spawned; otherwise nothing changes. The signal is cleared either way.
pub open spec fn reset_applied(v: GameView) -> GameView {
    if v.pending_game_over {
        GameView {
            pending_game_over: false,
            ..snake_spawned(GameView { foods: Seq::<Food>::empty(), ..v })
        }
    } else {
        GameView { pending_game_over: false, ..v }
    }
}

/// The canonical process-start state on a grid of size `arena_size`.
pub open spec fn initial_view(arena_size: i32) -> GameView {
    snake_spawned(
        GameView {
            arena_size,
            segments: Seq::<SnakeSegment>::empty(),
            heading: Direction::Right,
            foods: Seq::<Food>::empty(),
            last_tail_position: None,
            pending_growth: false,
            pending_game_over: false,
            next_id: 0,
        },
    )
}

/// Relies on rand::random_range over `0..n`: the draw is uniform over the
/// half-open range, so the result lies in `[0, n)`; the call panics only on
/// an empty range, which the precondition rules out.
#[verifier::external_body]
fn random_coordinate(n: i32) -> (r: i32)
    requires
        1 <= n,
    ensures
        0 <= r < n,
{
    rand::random_range(0..n)
}

proof fn lemma_eaten_foods_wf(foods: Seq<Food>, head: Position, arena: int, bound: u64)
    requires
        forall|i: int|
            0 <= i < foods.len() ==> pos_in_range((#[trigger] foods[i]).position, arena),
        forall|i: int, j: int|
            0 <= i < j < foods.len() ==> (#[trigger] foods[i]).id != (#[trigger] foods[j]).id,
        forall|i: int| 0 <= i < foods.len() ==> (#[trigger] foods[i]).id < bound,
    ensures
        ({
            let kept = foods.filter(survives(head));
            &&& forall|i: int|
                0 <= i < kept.len() ==> pos_in_range((#[trigger] kept[i]).position, arena)
            &&& forall|i: int, j: int|
                0 <= i < j < kept.len() ==> (#[trigger] kept[i]).id != (#[trigger] kept[j]).id
            &&& forall|i: int| 0 <= i < kept.len() ==> (#[trigger] kept[i]).id < bound
            &&& forall|i: int|
                0 <= i < kept.len() ==> exists|k: int|
                    0 <= k < foods.len() && (#[trigger] kept[i]).id == foods[k].id
        }),
    decreases foods.len(),
{
    reveal(Seq::filter);
    if foods.len() > 0 {
        let prefix = foods.drop_last();
        let last = foods.last();
        lemma_eaten_foods_wf(prefix, head, arena, bound);
        let sub = prefix.filter(survives(head));
        let kept = foods.filter(survives(head));
        assert forall|i: int|
            0 <= i < kept.len() implies exists|k: int|
            0 <= k < foods.len() && (#[trigger] kept[i]).id == foods[k].id by {
            if i < sub.len() {
                let k = choose|k: int|
                    0 <= k < prefix.len() && (#[trigger] sub[i]).id == prefix[k].id;
                assert(kept[i].id == foods[k].id);
            } else {
                assert(kept[i].id == foods[foods.len() - 1].id);
            }
        }
        assert forall|i: int, j: int|
            0 <= i < j < kept.len() implies (#[trigger] kept[i]).id != (#[trigger] kept[j]).id by {
            if j == sub.len() && kept.len() == sub.len() + 1 {
                let k = choose|k: int|
                    0 <= k < prefix.len() && (#[trigger] sub[i]).id == prefix[k].id;
                assert(foods[k].id != foods[foods.len() - 1].id);
            }
        }
    }
}

fn contains_position(items: &Vec<Position>, target: Position) -> (r: bool)
    ensures
        r == items@.contains(target),
{
    let mut i: usize = 0;
    while i < items.len()
        invariant
            0 <= i <= items@.len(),
            forall|j: int| 0 <= j < i ==> items@[j] != target,
        decreases items@.len() - i,
    {
        if items[i] == target {
            assert(items@[i as int] == target);
            return true;
        }
        i += 1;
    }
    false
}

impl GameState {
    /// The canonical process-start state: a two-segment snake at the start
    /// cell, heading `Right`, no food, no signals raised.
    pub fn new(arena_size: i32) -> (r: GameState)
        requires
            4 <= arena_size,
        ensures
            r@ == initial_view(arena_size),
            r@.wf(),
    {
        let mut game = GameState {
            arena_size,
            segments: Vec::new(),
            heading: Direction::Right,
            foods: Vec::new(),
            last_tail_position: None,
            pending_growth: false,
            pending_game_over: false,
            next_id: 0,
        };
        game.spawn_snake();
        game
    }

    /// Appends one segment with a fresh identity at the given cell and hands
    /// the identity back.
    fn spawn_segment(&mut self, position: Position) -> (id: u64)
        requires
            old(self)@.next_id < u64::MAX,
        ensures
            id == old(self)@.next_id,
            final(self)@ == (GameView {
                segments: old(self)@.segments.push(
                    SnakeSegment { id: old(self)@.next_id, position },
                ),
                next_id: (old(self)@.next_id + 1) as u64,
                ..old(self)@
            }),
    {
        let id = self.next_id;
        self.next_id = self.next_id + 1;
        self.segments.push(SnakeSegment { id, position });
        id
    }

    /// Replaces the segments with the canonical two-segment start snake and
    /// sets the heading to `Right`; food and the tail slot are untouched.
    pub fn spawn_snake(&mut self)
        requires
            old(self)@.spawn_pre(),
        ensures
            final(self)@ == snake_spawned(old(self)@),
            final(self)@.wf(),
    {
        let head_position = Position { x: START_X, y: START_Y };
        self.segments = Vec::new();
        let head_id = self.next_id;
        self.next_id = self.next_id + 1;
        self.segments.push(SnakeSegment { id: head_id, position: head_position });
        let _ = self.spawn_segment(head_position.left(self.arena_size));
        self.heading = Direction::Right;
        proof {
            assert(self.segments@ =~= snake_spawned(old(self)@).segments);
        }
    }

    /// Takes the requested heading unless it is the exact reversal of the
    /// current one, which is rejected and leaves the heading unchanged.
    pub fn set_heading(&mut self, requested: Direction)
        ensures
            final(self)@ == (GameView {
                heading: heading_after(old(self)@.heading, requested),
                ..old(self)@
            }),
    {
        if requested != self.heading.opposite() {
            self.heading = requested;
        }
    }

    /// Samples the directional intent from raw key state (priority order
    /// left, down, up, right; no key keeps the current heading) and applies
    /// it as a heading request.
    pub fn snake_movement_input(&mut self, left: bool, down: bool, up: bool, right: bool)
        ensures
            final(self)@ == input_applied(old(self)@, left, down, up, right),
    {
        let requested = if left {
            Direction::Left
        } else if down {
            Direction::Down
        } else if up {
            Direction::Up
        } else if right {
            Direction::Right
        } else {
            self.heading
        };
        self.set_heading(requested);
    }

    /// One movement tick: snapshot the segment cells, record the pre-move
    /// tail cell, advance the head one cell in the current heading, raise a
    /// game over if the new head cell occurs anywhere in the pre-move
    /// snapshot (old head and old tail included), and shift every other
    /// segment to its predecessor's pre-move cell.
    pub fn snake_movement(&mut self)
        requires
            old(self)@.wf(),
        ensures
            final(self)@ == movement_applied(old(self)@),
            final(self)@.wf(),
    {
        let count = self.segments.len();
        let mut snapshot: Vec<Position> = Vec::new();
        let mut i: usize = 0;
        while i < count
            invariant
                count == self.segments@.len(),
                0 <= i <= count,
                snapshot@.len() == i,
                forall|j: int| 0 <= j < i ==> snapshot@[j] == self.segments@[j].position,
            decreases count - i,
        {
            snapshot.push(self.segments[i].position);
            i += 1;
        }
        proof {
            assert(snapshot@ =~= segment_positions(self.segments@));
        }

        self.last_tail_position = Some(snapshot[count - 1]);

        let head_position = snapshot[0];
        let new_head = match self.heading {
            Direction::Left => head_position.left(self.arena_size),
            Direction::Right => head_position.right(self.arena_size),
            Direction::Up => head_position.up(self.arena_size),
            Direction::Down => head_position.down(self.arena_size),
        };

        if contains_position(&snapshot, new_head) {
            self.pending_game_over = true;
        }

        let mut new_segments: Vec<SnakeSegment> = Vec::new();
        new_segments.push(SnakeSegment { id: self.segments[0].id, position: new_head });
        let mut i: usize = 1;
        while i < count
            invariant
                count == self.segments@.len(),
                1 <= i <= count,
                snapshot@.len() == count,
                forall|j: int| 0 <= j < count ==> snapshot@[j] == self.segments@[j].position,
                new_segments@.len() == i,
                new_segments@[0] == (SnakeSegment { id: self.segments@[0].id, position: new_head }),
                forall|j: int|
                    1 <= j < i ==> new_segments@[j] == (SnakeSegment {
                        id: self.segments@[j].id,
                        position: snapshot@[j - 1],
                    }),
            decreases count - i,
        {
            new_segments.push(
                SnakeSegment { id: self.segments[i].id, position: snapshot[i - 1] },
            );
            i += 1;
        }
        self.segments = new_segments;
        proof {
            assert(self.segments@ =~= movement_applied(old(self)@).segments);
        }
    }

    /// Spawns one food item at the given cell, allocating one identity.
    pub fn spawn_food_at(&mut self, position: Position)
        requires
            old(self)@.wf(),
            old(self)@.next_id < u64::MAX,
            pos_in_range(position, old(self)@.arena_size as int),
        ensures
            final(self)@ == spawn_applied(old(self)@, position),
            final(self)@.wf(),
    {
        let id = self.next_id;
        self.next_id = self.next_id + 1;
        self.foods.push(Food { id, position });
    }

    /// One spawn tick: creates exactly one food item at a cell drawn
    /// uniformly at random, both axes independent. No check is made against
    /// other food or the snake; food accumulates without bound.
    pub fn spawn_food(&mut self)
        requires
            old(self)@.wf(),
            old(self)@.next_id < u64::MAX,
        ensures
            exists|p: Position|
                pos_in_range(p, old(self)@.arena_size as int) && final(self)@ == spawn_applied(
                    old(self)@,
                    p,
                ),
            final(self)@.foods.len() == old(self)@.foods.len() + 1,
            forall|i: int|
                0 <= i < old(self)@.foods.len() ==> final(self)@.foods[i] == old(self)@.foods[i],
            final(self)@.wf(),
    {
        let x = random_coordinate(self.arena_size);
        let y = random_coordinate(self.arena_size);
        let position = Position { x, y };
        self.spawn_food_at(position);
        proof {
            assert(pos_in_range(position, old(self)@.arena_size as int) && self@ == spawn_applied(
                old(self)@,
                position,
            ));
        }
    }

    /// The eating phase: destroys every food item on the head's cell and
    /// raises growth if there was at least one; raising it for several food
    /// items at once has no further effect.
    pub fn snake_eating(&mut self)
        requires
            old(self)@.wf(),
        ensures
            final(self)@ == eating_applied(old(self)@),
            final(self)@.wf(),
    {
        let head = self.segments[0].position;
        let ghost keep = survives(head);
        let mut kept: Vec<Food> = Vec::new();
        let mut ate = false;
        let mut i: usize = 0;
        proof {
            reveal(Seq::filter);
            assert(self.foods@.take(0).filter(keep) =~= Seq::<Food>::empty());
        }
        while i < self.foods.len()
            invariant
                0 <= i <= self.foods@.len(),
                head == self.segments@[0].position,
                keep == survives(head),
                kept@ == self.foods@.take(i as int).filter(keep),
                ate == exists|j: int|
                    0 <= j < i && (#[trigger] self.foods@[j]).position == head,
            decreases self.foods@.len() - i,
        {
            let food = self.foods[i];
            proof {
                reveal(Seq::filter);
                assert(self.foods@.take(i as int + 1).drop_last() =~= self.foods@.take(i as int));
                assert(self.foods@.take(i as int + 1).last() == food);
                assert(self.foods@.take(i as int + 1).filter(keep) == (if keep(food) {
                    self.foods@.take(i as int).filter(keep).push(food)
                } else {
                    self.foods@.take(i as int).filter(keep)
                }));
            }
            if food.position == head {
                ate = true;
                assert((self.foods@[i as int]).position == head);
            } else {
                kept.push(food);
            }
            i += 1;
        }
        proof {
            assert(self.foods@.take(self.foods@.len() as int) =~= self.foods@);
        }
        self.foods = kept;
        self.pending_growth = self.pending_growth || ate;
        proof {
            lemma_eaten_foods_wf(
                old(self)@.foods,
                head,
                old(self)@.arena_size as int,
                old(self)@.next_id,
            );
            let kept_seq = old(self)@.foods.filter(survives(head));
            assert forall|i: int, j: int|
                0 <= i < self@.segments.len() && 0 <= j < kept_seq.len() implies (
            #[trigger] self@.segments[i]).id != (#[trigger] kept_seq[j]).id by {
                let k = choose|k: int|
                    0 <= k < old(self)@.foods.len() && (#[trigger] kept_seq[j]).id == old(
                        self,
                    )@.foods[k].id;
            }
        }
    }

    /// The growth phase: if growth is pending and a tail cell has been
    /// recorded, appends one segment there; before the first movement tick
    /// it is a silent no-op. The growth signal is cleared either way.
    pub fn snake_growth(&mut self)
        requires
            old(self)@.wf(),
            old(self)@.next_id < u64::MAX,
        ensures
            final(self)@ == growth_applied(old(self)@),
            final(self)@.wf(),
    {
        if self.pending_growth {
            if let Some(position) = self.last_tail_position {
                let _ = self.spawn_segment(position);
            }
        }
        self.pending_growth = false;
    }

    /// The game-over phase: on a pending game over destroys every food item
    /// and every segment and spawns the canonical start snake; otherwise
    /// nothing changes. The signal is cleared either way.
    pub fn game_over(&mut self)
        requires
            old(self)@.wf(),
            old(self)@.next_id + 2 <= u64::MAX,
        ensures
            final(self)@ == reset_applied(old(self)@),
            final(self)@.wf(),
    {
        if self.pending_game_over {
            self.foods = Vec::new();
            self.spawn_snake();
        }
        self.pending_game_over = false;
    }
}

} // verus!
