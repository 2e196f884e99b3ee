//! Food placement: rejection sampling inside configured bounds, with a
//! terminating fallback that enumerates the bounded region.

use vstd::prelude::*;
use rand::Rng;
use crate::grid::{GridPosition, SnakeError};

verus! {

/// How many random candidates are drawn before the spawner falls back to
/// enumerating the bounded region directly.
pub const MAX_RANDOM_ATTEMPTS: u32 = 32;

/// The per-axis inclusive ranges food may be placed in. An axis whose two
/// ends coincide is fixed, which is how a configuration randomizes only
/// some of the axes.
#[derive(Clone, Copy, Debug, PartialEq, Eq, Structural)]
pub struct Bounds {
    pub x_min: i32,
    pub x_max: i32,
    pub y_min: i32,
    pub y_max: i32,
    pub z_min: i32,
    pub z_max: i32,
}

impl Bounds {
    /// Each axis range is non-empty.
    pub open spec fn wf(self) -> bool {
        &&& self.x_min <= self.x_max
        &&& self.y_min <= self.y_max
        &&& self.z_min <= self.z_max
    }

    /// Whether the cell `p` lies inside the bounded region.
    pub open spec fn contains(self, p: GridPosition) -> bool {
        &&& self.x_min <= p.x <= self.x_max
        &&& self.y_min <= p.y <= self.y_max
        &&& self.z_min <= p.z <= self.z_max
    }

    /// Whether some cell of the bounded region is not occupied.
    pub open spec fn has_free_cell(self, occupied: Seq<GridPosition>) -> bool {
        exists|p: GridPosition| self.contains(p) && !occupied.contains(p)
    }
}

/// Whether `cells` holds the cell `p`; a linear scan of the occupancy
/// snapshot.
pub fn contains_position(cells: &Vec<GridPosition>, p: GridPosition) -> (r: bool)
    ensures
        r == cells@.contains(p),
{
    let mut i: usize = 0;
    while i < cells.len()
        invariant
            i <= cells@.len(),
            forall|j: int| 0 <= j < i ==> cells@[j] != p,
        decreases cells@.len() - i,
    {
        if cells[i] == p {
            return true;
        }
        i = i + 1;
    }
    false
}

/// Relies on rand's `Rng::gen_range` on `thread_rng` over an inclusive
/// range: the sample lies between the two ends. An empty range would make
/// the call panic, so it is required away. Nothing more is promised of a
/// random draw.
#[verifier::external_body]
fn random_in_range(lo: i32, hi: i32) -> (r: i32)
    requires
        lo <= hi,
    ensures
        lo <= r <= hi,
{
    rand::thread_rng().gen_range(lo..=hi)
}

/// The first unoccupied cell of the bounded region in axis order, or
/// nothing when the region is fully occupied.
fn first_free_cell(occupied: &Vec<GridPosition>, bounds: &Bounds) -> (r: Option<GridPosition>)
    requires
        bounds.wf(),
    ensures
        match r {
            Some(p) => bounds.contains(p) && !occupied@.contains(p),
            None => forall|p: GridPosition| bounds.contains(p) ==> occupied@.contains(p),
        },
{
    let mut x: i64 = bounds.x_min as i64;
    while x <= bounds.x_max as i64
        invariant
            bounds.wf(),
            bounds.x_min as i64 <= x <= bounds.x_max as i64 + 1,
            forall|p: GridPosition| bounds.contains(p) && p.x < x ==> occupied@.contains(p),
        decreases bounds.x_max as i64 + 1 - x,
    {
        let mut y: i64 = bounds.y_min as i64;
        while y <= bounds.y_max as i64
            invariant
                bounds.wf(),
                bounds.x_min as i64 <= x <= bounds.x_max as i64,
                bounds.y_min as i64 <= y <= bounds.y_max as i64 + 1,
                forall|p: GridPosition| bounds.contains(p) && p.x < x ==> occupied@.contains(p),
                forall|p: GridPosition|
                    bounds.contains(p) && p.x == x && p.y < y ==> occupied@.contains(p),
            decreases bounds.y_max as i64 + 1 - y,
        {
            let mut z: i64 = bounds.z_min as i64;
            while z <= bounds.z_max as i64
                invariant
                    bounds.wf(),
                    bounds.x_min as i64 <= x <= bounds.x_max as i64,
                    bounds.y_min as i64 <= y <= bounds.y_max as i64,
                    bounds.z_min as i64 <= z <= bounds.z_max as i64 + 1,
                    forall|p: GridPosition| bounds.contains(p) && p.x < x ==> occupied@.contains(p),
                    forall|p: GridPosition|
                        bounds.contains(p) && p.x == x && p.y < y ==> occupied@.contains(p),
                    forall|p: GridPosition|
                        bounds.contains(p) && p.x == x && p.y == y && p.z < z
                            ==> occupied@.contains(p),
                decreases bounds.z_max as i64 + 1 - z,
            {
                let candidate = GridPosition { x: x as i32, y: y as i32, z: z as i32 };
                if !contains_position(occupied, candidate) {
                    return Some(candidate);
                }
                z = z + 1;
            }
            y = y + 1;
        }
        x = x + 1;
    }
    None
}

/// Chooses a cell for the food: a cell inside `bounds` that none of the
/// `occupied` cells covers. Random candidates are drawn first; if none of a
/// bounded number of draws is free, the bounded region is enumerated
/// directly, so the spawner terminates even on a full board. Exactly when
/// the region has no free cell the spawner reports `BoardFull`.
pub fn spawn(occupied: &Vec<GridPosition>, bounds: &Bounds) -> (r: Result<
    GridPosition,
    SnakeError,
>)
    requires
        bounds.wf(),
    ensures
        match r {
            Ok(p) => bounds.contains(p) && !occupied@.contains(p),
            Err(e) => {
                &&& e == SnakeError::BoardFull
                &&& forall|p: GridPosition| bounds.contains(p) ==> occupied@.contains(p)
            },
        },
        r is Ok <==> bounds.has_free_cell(occupied@),
{
    let mut attempts: u32 = 0;
    while attempts < MAX_RANDOM_ATTEMPTS
        invariant
            bounds.wf(),
        decreases MAX_RANDOM_ATTEMPTS - attempts,
    {
        let x = random_in_range(bounds.x_min, bounds.x_max);
        let y = random_in_range(bounds.y_min, bounds.y_max);
        let z = random_in_range(bounds.z_min, bounds.z_max);
        let candidate = GridPosition { x, y, z };
        if !contains_position(occupied, candidate) {
            return Ok(candidate);
        }
        attempts = attempts + 1;
    }
    match first_free_cell(occupied, bounds) {
        Some(p) => Ok(p),
        None => Err(SnakeError::BoardFull),
    }
}

} // verus!
