//! The per-frame controller: two independent periodic timers gate the
//! movement tick and the spawn tick, and one frame runs the phases in a
//! fixed order — input, spawn, movement, eating, growth, game over.

use crate::game::{
    eating_applied, growth_applied, input_applied, movement_applied, reset_applied, spawn_applied,
    GameState, GameView,
};
use crate::grid::{pos_in_range, Position};
use vstd::prelude::*;

verus! {

/// A periodic timer driven by accumulated elapsed wall-clock time. It fires
/// level-triggered, at most once per check: when a check crosses the period,
/// whole missed periods are discarded and only the remainder is kept.
#[derive(Clone, Copy, PartialEq, Eq, Structural, Debug)]
pub struct TickTimer {
    pub accumulated_ms: u64,
    pub period_ms: u64,
}

/// The timer fires on this check: the accumulated time reaches the period.
pub open spec fn timer_fires(t: TickTimer, elapsed_ms: u64) -> bool {
    t.accumulated_ms + elapsed_ms >= t.period_ms
}

/// The timer after a check: on a firing the remainder below one period is
/// kept; otherwise the elapsed time accumulates.
pub open spec fn timer_after(t: TickTimer, elapsed_ms: u64) -> TickTimer {
    if timer_fires(t, elapsed_ms) {
        TickTimer {
            accumulated_ms: ((t.accumulated_ms + elapsed_ms) % (t.period_ms as int)) as u64,
            period_ms: t.period_ms,
        }
    } else {
        TickTimer {
            accumulated_ms: (t.accumulated_ms + elapsed_ms) as u64,
            period_ms: t.period_ms,
        }
    }
}

impl TickTimer {
    /// The period is positive and the accumulator is strictly below it.
    pub open spec fn wf(self) -> bool {
        &&& 1 <= self.period_ms
        &&& self.accumulated_ms < self.period_ms
    }

    /// A fresh timer with nothing accumulated.
    pub fn new(period_ms: u64) -> (r: TickTimer)
        requires
            1 <= period_ms,
        ensures
            r == (TickTimer { accumulated_ms: 0, period_ms }),
            r.wf(),
    {
        TickTimer { accumulated_ms: 0, period_ms }
    }

    /// One check: adds the elapsed time and reports whether the timer fires.
    pub fn advance(&mut self, elapsed_ms: u64) -> (fired: bool)
        requires
            old(self).wf(),
            old(self).accumulated_ms + elapsed_ms <= u64::MAX,
        ensures
            fired == timer_fires(*old(self), elapsed_ms),
            *final(self) == timer_after(*old(self), elapsed_ms),
            final(self).wf(),
    {
        let total = self.accumulated_ms + elapsed_ms;
        if total >= self.period_ms {
            self.accumulated_ms = total % self.period_ms;
            true
        } else {
            self.accumulated_ms = total;
            false
        }
    }
}

/// The game state together with the two timers that gate its ticks.
pub struct Simulation {
    pub game: GameState,
    pub movement_timer: TickTimer,
    pub food_timer: TickTimer,
}

/// The mathematical model of a [`Simulation`].
pub ghost struct SimulationView {
    pub game: GameView,
    pub movement_timer: TickTimer,
    pub food_timer: TickTimer,
}

impl View for Simulation {
    type V = SimulationView;

    open spec fn view(&self) -> SimulationView {
        SimulationView {
            game: self.game@,
            movement_timer: self.movement_timer,
            food_timer: self.food_timer,
        }
    }
}

impl SimulationView {
    /// The game state and both timers are well-formed.
    pub open spec fn wf(self) -> bool {
        &&& self.game.wf()
        &&& self.movement_timer.wf()
        &&& self.food_timer.wf()
    }
}

/// One whole frame, as a function of the pre-frame state, the raw key state,
/// the elapsed time, and the cell the spawner would draw. The phases run in
/// the fixed order: directional input, food spawn (on its timer), movement
/// (on its timer), eating, growth, game over; both frame-scoped signals are
/// clear afterwards. `food_position` matters only on a spawn tick.
pub open spec fn frame_applied(
    v: SimulationView,
    left: bool,
    down: bool,
    up: bool,
    right: bool,
    elapsed_ms: u64,
    food_position: Position,
) -> SimulationView {
    let g0 = input_applied(v.game, left, down, up, right);
    let g1 = if timer_fires(v.food_timer, elapsed_ms) {
        spawn_applied(g0, food_position)
    } else {
        g0
    };
    let g2 = if timer_fires(v.movement_timer, elapsed_ms) {
        movement_applied(g1)
    } else {
        g1
    };
    let g3 = eating_applied(g2);
    let g4 = growth_applied(g3);
    let g5 = reset_applied(g4);
    SimulationView {
        game: g5,
        movement_timer: timer_after(v.movement_timer, elapsed_ms),
        food_timer: timer_after(v.food_timer, elapsed_ms),
    }
}

/// The growth and game-over signals are frame-scoped: whatever a frame's
/// phases raised, both are clear once the frame is over.
pub proof fn lemma_signals_cleared_by_frame_end(
    v: SimulationView,
    left: bool,
    down: bool,
    up: bool,
    right: bool,
    elapsed_ms: u64,
    food_position: Position,
)
    ensures
        !frame_applied(v, left, down, up, right, elapsed_ms, food_position).game.pending_growth,
        !frame_applied(v, left, down, up, right, elapsed_ms, food_position).game.pending_game_over,
{
}

impl Simulation {
    /// A fresh simulation: the canonical start state and two timers with
    /// nothing accumulated.
    pub fn new(arena_size: i32, movement_period_ms: u64, food_period_ms: u64) -> (r: Simulation)
        requires
            4 <= arena_size,
            1 <= movement_period_ms,
            1 <= food_period_ms,
        ensures
            r@ == (SimulationView {
                game: crate::game::initial_view(arena_size),
                movement_timer: TickTimer { accumulated_ms: 0, period_ms: movement_period_ms },
                food_timer: TickTimer { accumulated_ms: 0, period_ms: food_period_ms },
            }),
            r@.wf(),
    {
        Simulation {
            game: GameState::new(arena_size),
            movement_timer: TickTimer::new(movement_period_ms),
            food_timer: TickTimer::new(food_period_ms),
        }
    }

    /// One frame of the simulation: the phases run in their fixed order, the
    /// movement and spawn ticks gated by their timers. The resulting state is
    /// a whole-frame transition of the old one for some in-range spawn cell;
    /// that cell is drawn at random, so no more is promised of it.
    pub fn frame(&mut self, left: bool, down: bool, up: bool, right: bool, elapsed_ms: u64)
        requires
            old(self)@.wf(),
            old(self)@.game.next_id + 4 <= u64::MAX,
            old(self)@.movement_timer.accumulated_ms + elapsed_ms <= u64::MAX,
            old(self)@.food_timer.accumulated_ms + elapsed_ms <= u64::MAX,
        ensures
            exists|p: Position|
                pos_in_range(p, old(self)@.game.arena_size as int) && final(self)@
                    == frame_applied(old(self)@, left, down, up, right, elapsed_ms, p),
            final(self)@.wf(),
    {
        self.game.snake_movement_input(left, down, up, right);
        let ghost g0 = self.game@;

        let spawn_fired = self.food_timer.advance(elapsed_ms);
        if spawn_fired {
            self.game.spawn_food();
        }
        let ghost witness: Position = if timer_fires(old(self)@.food_timer, elapsed_ms) {
            choose|p: Position|
                pos_in_range(p, g0.arena_size as int) && self.game@ == spawn_applied(g0, p)
        } else {
            Position { x: 0, y: 0 }
        };
        let ghost g1 = self.game@;

        let movement_fired = self.movement_timer.advance(elapsed_ms);
        if movement_fired {
            self.game.snake_movement();
        }
        self.game.snake_eating();
        self.game.snake_growth();
        self.game.game_over();

        proof {
            assert(pos_in_range(witness, old(self)@.game.arena_size as int));
            assert(g1 == (if timer_fires(old(self)@.food_timer, elapsed_ms) {
                spawn_applied(g0, witness)
            } else {
                g0
            }));
            assert(self@ == frame_applied(
                old(self)@,
                left,
                down,
                up,
                right,
                elapsed_ms,
                witness,
            ));
        }
    }
}

} // verus!
