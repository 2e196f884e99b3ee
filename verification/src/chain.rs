//! The ordered chain of snake segments: movement and growth.

use vstd::prelude::*;
use crate::grid::{Direction, GridPosition, SnakeError};

verus! {

/// Where the head of `s` lands after one step in direction `d`
/// (component-wise addition, as far as the machine's integers reach).
pub open spec fn step_head(p: GridPosition, d: Direction) -> GridPosition {
    GridPosition {
        x: (p.x + d.delta_spec().x) as i32,
        y: (p.y + d.delta_spec().y) as i32,
        z: (p.z + d.delta_spec().z) as i32,
    }
}

/// One synchronous movement step of a whole chain: the head advances by the
/// heading's delta, every other segment moves to the cell its predecessor
/// held before the step, and the old tail cell is left behind.
pub open spec fn shifted(s: Seq<GridPosition>, d: Direction) -> Seq<GridPosition>
    recommends
        s.len() >= 1,
{
    seq![step_head(s[0], d)] + s.drop_last()
}

/// The shift invariant, spelled element by element: after one movement step
/// the head has moved by the heading's delta and every segment at index
/// `i >= 1` occupies the cell its predecessor held before the step.
pub proof fn lemma_shift_invariant(s: Seq<GridPosition>, d: Direction)
    requires
        s.len() >= 1,
    ensures
        shifted(s, d).len() == s.len(),
        shifted(s, d)[0] == step_head(s[0], d),
        forall|i: int| 1 <= i < s.len() ==> shifted(s, d)[i] == s[i - 1],
{
}

/// The snake: an ordered sequence of segment cells (head first, tail last),
/// the head's fixed heading, and the tail cell captured by the most recent
/// movement step, which growth consumes.
pub struct SnakeChain {
    pub segments: Vec<GridPosition>,
    pub direction: Direction,
    pub pending: Option<GridPosition>,
}

impl SnakeChain {
    /// A chain always has a head and at least one tail segment.
    pub open spec fn wf(self) -> bool {
        self.segments@.len() >= 2
    }

    /// Whether the chain covers the cell `p`.
    pub open spec fn occupies(self, p: GridPosition) -> bool {
        self.segments@.contains(p)
    }

    /// Whether the head can take one more step without leaving the
    /// machine's integer range.
    pub open spec fn can_advance(self) -> bool
        recommends
            self.wf(),
    {
        self.segments@[0].can_add(self.direction.delta_spec())
    }

    /// Makes a chain from its segment cells and heading. The chain needs a
    /// head and at least one tail segment, so fewer than two cells give no
    /// chain.
    pub fn new(segments: Vec<GridPosition>, direction: Direction) -> (r: Option<SnakeChain>)
        ensures
            match r {
                Some(c) => {
                    &&& segments@.len() >= 2
                    &&& c.segments@ == segments@
                    &&& c.direction == direction
                    &&& c.pending is None
                    &&& c.wf()
                },
                None => segments@.len() < 2,
            },
    {
        if segments.len() < 2 {
            None
        } else {
            Some(SnakeChain { segments, direction, pending: None })
        }
    }

    /// Whether the head can take one more step without leaving the
    /// machine's integer range; the run-time mirror of `can_advance`.
    pub fn can_advance_now(&self) -> (r: bool)
        requires
            self.wf(),
        ensures
            r == self.can_advance(),
    {
        let head = self.segments[0];
        let d = self.direction.delta();
        let ok_x = if d.x > 0 {
            head.x < i32::MAX
        } else if d.x < 0 {
            head.x > i32::MIN
        } else {
            true
        };
        let ok_y = if d.y > 0 {
            head.y < i32::MAX
        } else if d.y < 0 {
            head.y > i32::MIN
        } else {
            true
        };
        let ok_z = if d.z > 0 {
            head.z < i32::MAX
        } else if d.z < 0 {
            head.z > i32::MIN
        } else {
            true
        };
        ok_x && ok_y && ok_z
    }

    /// One tick of movement: the head advances one cell in the chain's
    /// heading and every other segment moves to the cell its predecessor
    /// held before this step, all computed from one consistent snapshot of
    /// the pre-step positions. The tail's pre-step cell is recorded as the
    /// pending position that a later growth step appends at.
    pub fn advance(&mut self)
        requires
            old(self).wf(),
            old(self).can_advance(),
        ensures
            final(self).wf(),
            final(self).direction == old(self).direction,
            final(self).segments@ == shifted(old(self).segments@, old(self).direction),
            final(self).pending == Some(old(self).segments@.last()),
    {
        let ghost s = self.segments@;
        let n = self.segments.len();
        self.pending = Some(self.segments[n - 1]);
        let new_head = self.segments[0].add(self.direction.delta());
        let mut moved: Vec<GridPosition> = Vec::new();
        moved.push(new_head);
        let mut i: usize = 0;
        while i < n - 1
            invariant
                self.segments@ == s,
                n == s.len(),
                2 <= n,
                i <= n - 1,
                moved@ == seq![new_head] + s.subrange(0, i as int),
            decreases n - 1 - i,
        {
            let seg = self.segments[i];
            moved.push(seg);
            proof {
                assert(moved@ =~= seq![new_head] + s.subrange(0, i + 1 as int));
            }
            i = i + 1;
        }
        self.segments = moved;
        proof {
            assert(self.segments@ =~= shifted(s, old(self).direction));
        }
    }

    /// One step of growth: appends a segment at the pending tail position
    /// captured by the most recent movement step, which becomes the new
    /// designated tail, and consumes the pending position so growth can run
    /// at most once per movement step. Without a captured pending position
    /// growth is out of protocol order and is rejected.
    pub fn grow(&mut self) -> (r: Result<(), SnakeError>)
        requires
            old(self).wf(),
        ensures
            final(self).wf(),
            final(self).direction == old(self).direction,
            match old(self).pending {
                Some(p) => {
                    &&& r == Ok::<(), SnakeError>(())
                    &&& final(self).segments@ == old(self).segments@.push(p)
                    &&& final(self).pending is None
                },
                None => {
                    &&& r == Err::<(), SnakeError>(SnakeError::GrowthWithoutPendingPosition)
                    &&& *final(self) == *old(self)
                },
            },
    {
        match self.pending {
            Some(p) => {
                self.segments.push(p);
                self.pending = None;
                Ok(())
            },
            None => Err(SnakeError::GrowthWithoutPendingPosition),
        }
    }
}

/// Growth preserves the whole pre-growth chain as a prefix and appends
/// exactly one element; only the appended element is new.
pub proof fn lemma_growth_preserves_prefix(s: Seq<GridPosition>, p: GridPosition)
    ensures
        s.push(p).len() == s.len() + 1,
        forall|i: int| 0 <= i < s.len() ==> s.push(p)[i] == s[i],
        s.push(p)[s.len() as int] == p,
{
}

} // verus!
