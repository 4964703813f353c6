//! The toroidal play field: grid cells, headings, and wraparound arithmetic.

use vstd::prelude::*;

verus! {

/// Side length of the square play field in the shipped configuration.
pub const ARENA_SIZE: i32 = 10;

/// A cell of the toroidal grid. Both coordinates of a well-formed position
/// lie in `[0, n)` for the grid size `n`; equality is exact.
#[derive(Clone, Copy, PartialEq, Eq, Structural, Debug)]
pub struct Position {
    pub x: i32,
    pub y: i32,
}

/// The four headings the snake can take.
#[derive(Clone, Copy, PartialEq, Eq, Structural, Debug)]
pub enum Direction {
    Left,
    Up,
    Right,
    Down,
}

/// Wraparound of a coordinate that is at most one grid length out of range:
/// one addition or subtraction of `n` brings it back into `[0, n)`.
pub open spec fn wrap_spec(v: int, n: int) -> int {
    if v < 0 {
        v + n
    } else if v >= n {
        v - n
    } else {
        v
    }
}

/// Both coordinates of `p` lie on the grid of size `n`.
pub open spec fn pos_in_range(p: Position, n: int) -> bool {
    &&& 0 <= p.x < n
    &&& 0 <= p.y < n
}

/// Wraps `pos` into `[0, n)` by adding or subtracting `n` once, and is the
/// identity on coordinates already in range. Callers offset a coordinate by
/// at most one cell at a time, so the input is never more than one grid
/// length out of range.
pub fn warp_position(pos: i32, n: i32) -> (r: i32)
    requires
        1 <= n,
        -n <= pos < 2 * n,
    ensures
        r == wrap_spec(pos as int, n as int),
        0 <= r < n,
        0 <= pos < n ==> r == pos,
{
    if pos < 0 {
        pos + n
    } else if pos >= n {
        pos - n
    } else {
        pos
    }
}

/// The neighbouring cell of `p` one step in direction `d`, on the torus of
/// size `n`.
pub open spec fn move_pos(p: Position, d: Direction, n: int) -> Position {
    match d {
        Direction::Left => Position { x: wrap_spec(p.x - 1, n) as i32, y: p.y },
        Direction::Right => Position { x: wrap_spec(p.x + 1, n) as i32, y: p.y },
        Direction::Up => Position { x: p.x, y: wrap_spec(p.y + 1, n) as i32 },
        Direction::Down => Position { x: p.x, y: wrap_spec(p.y - 1, n) as i32 },
    }
}

impl Position {
    /// The cell one step to the left, wrapping at the edge.
    pub fn left(&self, n: i32) -> (r: Position)
        requires
            1 <= n,
            pos_in_range(*self, n as int),
        ensures
            r == move_pos(*self, Direction::Left, n as int),
            pos_in_range(r, n as int),
    {
        Position { x: warp_position(self.x - 1, n), y: self.y }
    }

    /// The cell one step to the right, wrapping at the edge.
    pub fn right(&self, n: i32) -> (r: Position)
        requires
            1 <= n,
            pos_in_range(*self, n as int),
        ensures
            r == move_pos(*self, Direction::Right, n as int),
            pos_in_range(r, n as int),
    {
        Position { x: warp_position(self.x + 1, n), y: self.y }
    }

    /// The cell one step up, wrapping at the edge.
    pub fn up(&self, n: i32) -> (r: Position)
        requires
            1 <= n,
            pos_in_range(*self, n as int),
        ensures
            r == move_pos(*self, Direction::Up, n as int),
            pos_in_range(r, n as int),
    {
        Position { x: self.x, y: warp_position(self.y + 1, n) }
    }

    /// The cell one step down, wrapping at the edge.
    pub fn down(&self, n: i32) -> (r: Position)
        requires
            1 <= n,
            pos_in_range(*self, n as int),
        ensures
            r == move_pos(*self, Direction::Down, n as int),
            pos_in_range(r, n as int),
    {
        Position { x: self.x, y: warp_position(self.y - 1, n) }
    }
}

/// The opposite heading: `Left` and `Right` swap, `Up` and `Down` swap.
pub open spec fn opposite_spec(d: Direction) -> Direction {
    match d {
        Direction::Left => Direction::Right,
        Direction::Right => Direction::Left,
        Direction::Up => Direction::Down,
        Direction::Down => Direction::Up,
    }
}

impl Direction {
    /// The heading pointing the other way.
    pub fn opposite(self) -> (r: Self)
        ensures
            r == opposite_spec(self),
    {
        match self {
            Self::Left => Self::Right,
            Self::Right => Self::Left,
            Self::Up => Self::Down,
            Self::Down => Self::Up,
        }
    }
}

impl Default for Direction {
    /// A snake starts out heading `Right`.
    fn default() -> (r: Self)
        ensures
            r == Direction::Right,
    {
        Direction::Right
    }
}

/// The `opposite` mapping is total and involutive: reversing twice is the
/// identity.
pub proof fn lemma_opposite_involutive(d: Direction)
    ensures
        opposite_spec(opposite_spec(d)) == d,
{
}

/// The position reached from `p` after `k` single-cell steps in direction `d`
/// on the torus of size `n`.
pub open spec fn moved_times(p: Position, d: Direction, n: int, k: nat) -> Position
    decreases k,
{
    if k == 0 {
        p
    } else {
        move_pos(moved_times(p, d, n, (k - 1) as nat), d, n)
    }
}

proof fn lemma_moved_times_formula(p: Position, d: Direction, n: int, k: nat)
    requires
        1 <= n <= i32::MAX,
        pos_in_range(p, n),
        k <= n,
    ensures
        ({
            let q = moved_times(p, d, n, k);
            &&& pos_in_range(q, n)
            &&& (d == Direction::Right ==> q.y == p.y && q.x == (if p.x + k < n {
                p.x + k
            } else {
                p.x + k - n
            }))
            &&& (d == Direction::Left ==> q.y == p.y && q.x == (if p.x - k >= 0 {
                p.x - k
            } else {
                p.x - k + n
            }))
            &&& (d == Direction::Up ==> q.x == p.x && q.y == (if p.y + k < n {
                p.y + k
            } else {
                p.y + k - n
            }))
            &&& (d == Direction::Down ==> q.x == p.x && q.y == (if p.y - k >= 0 {
                p.y - k
            } else {
                p.y - k + n
            }))
        }),
    decreases k,
{
    if k > 0 {
        lemma_moved_times_formula(p, d, n, (k - 1) as nat);
    }
}

/// Toroidal closure: taking `n` single-cell steps in one fixed direction on a
/// grid of size `n` brings a position back to where it started.
pub proof fn lemma_toroidal_closure(p: Position, d: Direction, n: int)
    requires
        1 <= n <= i32::MAX,
        pos_in_range(p, n),
    ensures
        moved_times(p, d, n, n as nat) == p,
{
    lemma_moved_times_formula(p, d, n, n as nat);
}

} // verus!
