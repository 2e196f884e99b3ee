//! The top-level simulation state and its tick orchestration: movement,
//! collision check, growth, and food respawn, sequenced within one tick.

use vstd::prelude::*;
use crate::chain::{shifted, SnakeChain};
use crate::grid::{Direction, GridPosition, SnakeError};
use crate::signal::FoodEatenSignal;
use crate::spawner::{spawn, Bounds};

verus! {

/// Pure collision detection: the food is eaten exactly when it is present
/// and lies on the head's cell; absent food is never eaten.
pub fn check_food_eaten(head: GridPosition, food: Option<GridPosition>) -> (r: bool)
    ensures
        r <==> food == Some(head),
{
    match food {
        Some(p) => p == head,
        None => false,
    }
}

/// The chain's segments after `n` ticks in which nothing is eaten: each
/// such tick is exactly one synchronous movement step.
pub open spec fn run_ticks(s: Seq<GridPosition>, d: Direction, n: nat) -> Seq<GridPosition>
    decreases n,
{
    if n == 0 {
        s
    } else {
        shifted(run_ticks(s, d, (n - 1) as nat), d)
    }
}

/// Multi-tick stability: over any number of ticks during which the food
/// never lies on the head's path, the chain's length stays constant at its
/// initial value, because every such tick is a pure shift and a shift
/// preserves length.
pub proof fn lemma_multi_tick_stability(
    s: Seq<GridPosition>,
    d: Direction,
    food: GridPosition,
    n: nat,
)
    requires
        s.len() >= 2,
        forall|k: nat| 1 <= k <= n ==> #[trigger] run_ticks(s, d, k)[0] != food,
    ensures
        run_ticks(s, d, n).len() == s.len(),
    decreases n,
{
    if n > 0 {
        lemma_multi_tick_stability(s, d, food, (n - 1) as nat);
    }
}

/// The sole owner of the snake chain and the food: it wires one tick as
/// movement, then collision check, then on a hit growth followed by
/// respawn, with the food-eaten signal consumed within the same tick.
pub struct SimulationState {
    pub chain: SnakeChain,
    pub food: Option<GridPosition>,
    pub bounds: Bounds,
    pub signal: FoodEatenSignal,
}

impl SimulationState {
    /// Between ticks the chain and the bounds are well formed, no signal is
    /// in flight, and the food, while present, never lies on the chain.
    pub open spec fn wf(self) -> bool {
        &&& self.chain.wf()
        &&& self.bounds.wf()
        &&& !self.signal.pending
        &&& match self.food {
            Some(f) => !self.chain.occupies(f),
            None => true,
        }
    }

    /// Assembles a simulation from a well-formed chain, a food cell that
    /// does not lie on the chain, and well-formed bounds.
    pub fn new(chain: SnakeChain, food: Option<GridPosition>, bounds: Bounds) -> (r:
        SimulationState)
        requires
            chain.wf(),
            bounds.wf(),
            match food {
                Some(f) => !chain.occupies(f),
                None => true,
            },
        ensures
            r.chain == chain,
            r.food == food,
            r.bounds == bounds,
            r.wf(),
    {
        SimulationState { chain, food, bounds, signal: FoodEatenSignal::new() }
    }

    /// The default starting board: a head at the origin with one tail
    /// segment below it, heading up, food one cell above the head, and food
    /// placement randomized along the vertical axis only.
    pub fn initial() -> (r: SimulationState)
        ensures
            r.wf(),
            r.chain.segments@.len() == 2,
            r.chain.segments@[0] == (GridPosition { x: 0, y: 0, z: 0 }),
            r.chain.segments@[1] == (GridPosition { x: 0, y: -1i32, z: 0 }),
            r.chain.direction == Direction::Up,
            r.chain.pending is None,
            r.food == Some(GridPosition { x: 0, y: 1, z: 0 }),
            r.bounds == (Bounds {
                x_min: 0,
                x_max: 0,
                y_min: -5i32,
                y_max: 5,
                z_min: 0,
                z_max: 0,
            }),
    {
        let mut segments: Vec<GridPosition> = Vec::new();
        segments.push(GridPosition { x: 0, y: 0, z: 0 });
        segments.push(GridPosition { x: 0, y: -1, z: 0 });
        let chain = SnakeChain { segments, direction: Direction::Up, pending: None };
        let food = Some(GridPosition { x: 0, y: 1, z: 0 });
        let bounds = Bounds { x_min: 0, x_max: 0, y_min: -5, y_max: 5, z_min: 0, z_max: 0 };
        SimulationState { chain, food, bounds, signal: FoodEatenSignal::new() }
    }

    /// Whether the next tick may run: the state is well formed and the head
    /// has room for one more step; the run-time mirror of the tick's
    /// precondition.
    pub fn can_tick(&self) -> (r: bool)
        ensures
            r <==> self.wf() && self.chain.can_advance(),
    {
        if self.chain.segments.len() < 2 {
            return false;
        }
        if !(self.bounds.x_min <= self.bounds.x_max && self.bounds.y_min <= self.bounds.y_max
            && self.bounds.z_min <= self.bounds.z_max) {
            return false;
        }
        if self.signal.pending {
            return false;
        }
        let food_clear = match self.food {
            Some(f) => !crate::spawner::contains_position(&self.chain.segments, f),
            None => true,
        };
        food_clear && self.chain.can_advance_now()
    }

    /// One atomic tick. Movement always happens: the chain becomes its
    /// synchronous shift. The collision check then compares the moved head
    /// to the food; on a miss the tick is done and the food is unchanged.
    /// On a hit the food is eaten: the signal fires once, the chain grows
    /// by exactly one segment at the captured pre-step tail cell, and the
    /// spawner relocates the food to a free cell inside the bounds — unless
    /// the grown chain fills the whole bounded region, which is reported as
    /// `BoardFull` with the food left absent.
    pub fn tick(&mut self) -> (r: Result<bool, SnakeError>)
        requires
            old(self).wf(),
            old(self).chain.can_advance(),
        ensures
            final(self).wf(),
            final(self).bounds == old(self).bounds,
            final(self).chain.direction == old(self).chain.direction,
            ({
                let s0 = old(self).chain.segments@;
                let moved = shifted(s0, old(self).chain.direction);
                let ate = old(self).food == Some(moved[0]);
                let grown = moved.push(s0.last());
                &&& (r matches Ok(a) ==> a == ate)
                &&& (!ate ==> r == Ok::<bool, SnakeError>(false) && final(self).chain.segments@
                    == moved && final(self).food == old(self).food)
                &&& (ate ==> final(self).chain.segments@ == grown)
                &&& (ate ==> (r is Ok <==> old(self).bounds.has_free_cell(grown)))
                &&& (ate && r is Ok ==> (final(self).food matches Some(f) && old(
                    self,
                ).bounds.contains(f) && !grown.contains(f)))
                &&& (r matches Err(e) ==> e == SnakeError::BoardFull && final(self).food is None)
            }),
    {
        let ghost s0 = self.chain.segments@;
        self.chain.advance();
        let ghost moved = self.chain.segments@;
        let head = self.chain.segments[0];
        let ate = check_food_eaten(head, self.food);
        if ate {
            self.food = None;
            self.signal.emit();
        }
        let fired = self.signal.consume();
        if !fired {
            proof {
                match self.food {
                    Some(f) => {
                        assert(f != moved[0]);
                        assert(!s0.contains(f));
                        assert forall|i: int| 0 <= i < moved.len() implies moved[i] != f by {
                            if i >= 1 {
                                assert(moved[i] == s0[i - 1]);
                                if moved[i] == f {
                                    assert(s0.contains(f));
                                }
                            }
                        }
                        assert(!moved.contains(f));
                    },
                    None => {},
                }
            }
            return Ok(false);
        }
        let grow_result = self.chain.grow();
        match grow_result {
            Ok(()) => {},
            Err(e) => {
                proof {
                    assert(false);
                }
                return Err(e);
            },
        }
        match spawn(&self.chain.segments, &self.bounds) {
            Ok(p) => {
                self.food = Some(p);
                Ok(true)
            },
            Err(e) => Err(e),
        }
    }
}

} // verus!
