//! Board geometry: the cell lattice, the toroidal wraparound rule, and the
//! four-way direction algebra.

use vstd::prelude::*;

verus! {

/// Side of one grid cell, in world units.
pub const CELL: i64 = 20;

/// Number of cells from the centre of the board to an edge.
pub const HALF: i64 = 5;

/// Coordinates of cell centres span `[-BOUND, BOUND]` on both axes;
/// `BOUND` is `CELL * HALF`.
pub const BOUND: i64 = 100;

/// Number of cells along one axis: `2 * HALF + 1`.
pub const AXIS_CELLS: i64 = 11;

/// Number of cells on the whole board: `AXIS_CELLS` squared.
pub const NUM_CELLS: i64 = 121;

/// A point of the board, in world units. Cell centres sit at multiples of
/// `CELL`, so two distinct cells are at least `CELL` apart and a proximity
/// test with any threshold below `CELL` collapses to equality of positions.
#[derive(Clone, Copy, Debug, PartialEq, Eq, Structural)]
pub struct Pos {
    pub x: i64,
    pub y: i64,
}

/// One of the four movement directions.
#[derive(Clone, Copy, Debug, PartialEq, Eq, Structural)]
pub enum Dir {
    Up,
    Down,
    Left,
    Right,
}

/// A position is on the board when both coordinates lie in `[-BOUND, BOUND]`.
pub open spec fn in_range(p: Pos) -> bool {
    &&& -(BOUND as int) <= p.x <= BOUND as int
    &&& -(BOUND as int) <= p.y <= BOUND as int
}

/// Horizontal component of a one-cell step in direction `d`.
pub open spec fn step_x(d: Dir) -> int {
    match d {
        Dir::Left => -(CELL as int),
        Dir::Right => CELL as int,
        _ => 0,
    }
}

/// Vertical component of a one-cell step in direction `d`.
pub open spec fn step_y(d: Dir) -> int {
    match d {
        Dir::Up => CELL as int,
        Dir::Down => -(CELL as int),
        _ => 0,
    }
}

/// `p` translated one cell along `d`, before wraparound.
pub open spec fn stepped(p: Pos, d: Dir) -> Pos {
    Pos { x: (p.x + step_x(d)) as i64, y: (p.y + step_y(d)) as i64 }
}

/// `p` translated one cell against `d`: where a segment following `p` sits.
pub open spec fn stepped_back(p: Pos, d: Dir) -> Pos {
    Pos { x: (p.x - step_x(d)) as i64, y: (p.y - step_y(d)) as i64 }
}

/// Wraparound of one coordinate: a value beyond an edge jumps to the
/// opposite edge; values in range pass through unchanged.
pub open spec fn wrap_coord(v: int) -> int {
    if v < -(BOUND as int) {
        BOUND as int
    } else if v > BOUND as int {
        -(BOUND as int)
    } else {
        v
    }
}

/// Wraparound applied to both axes of a position.
pub open spec fn wrap_pos(p: Pos) -> Pos {
    Pos { x: wrap_coord(p.x as int) as i64, y: wrap_coord(p.y as int) as i64 }
}

/// Where the head lands when it moves one cell along `d` from `p`.
pub open spec fn next_pos(p: Pos, d: Dir) -> Pos {
    wrap_pos(stepped(p, d))
}

/// The direction opposite to `d`.
pub open spec fn opp(d: Dir) -> Dir {
    match d {
        Dir::Up => Dir::Down,
        Dir::Down => Dir::Up,
        Dir::Left => Dir::Right,
        Dir::Right => Dir::Left,
    }
}

/// The heading after a direction input: a request for the exact opposite of
/// the current direction is dropped, any other request is taken.
pub open spec fn next_dir(cur: Dir, req: Dir) -> Dir {
    if req == opp(cur) {
        cur
    } else {
        req
    }
}

/// The centre of grid cell `k`, counting cells row by row.
pub open spec fn cell_of(k: int) -> Pos {
    Pos {
        x: (CELL as int * (k / (AXIS_CELLS as int)) - BOUND as int) as i64,
        y: (CELL as int * (k % (AXIS_CELLS as int)) - BOUND as int) as i64,
    }
}

/// `p` is the centre of one of the board's cells.
pub open spec fn on_grid(p: Pos) -> bool {
    exists|k: int| 0 <= k < NUM_CELLS as int && cell_of(k) == p
}

/// One-cell displacement along `d`, in world units.
pub fn step(d: Dir) -> (r: (i64, i64))
    ensures
        r.0 as int == step_x(d),
        r.1 as int == step_y(d),
{
    match d {
        Dir::Up => (0, CELL),
        Dir::Down => (0, -CELL),
        Dir::Left => (-CELL, 0),
        Dir::Right => (CELL, 0),
    }
}

/// The direction opposite to `d`.
pub fn opposite(d: Dir) -> (r: Dir)
    ensures
        r == opp(d),
{
    match d {
        Dir::Up => Dir::Down,
        Dir::Down => Dir::Up,
        Dir::Left => Dir::Right,
        Dir::Right => Dir::Left,
    }
}

/// Maps a position back onto the board: a coordinate beyond an edge jumps to
/// the opposite edge, a coordinate in range is untouched.
pub fn wrap(p: Pos) -> (r: Pos)
    ensures
        r == wrap_pos(p),
{
    let mut r = p;
    if r.x < -BOUND {
        r.x = BOUND;
    } else if r.x > BOUND {
        r.x = -BOUND;
    }
    if r.y < -BOUND {
        r.y = BOUND;
    } else if r.y > BOUND {
        r.y = -BOUND;
    }
    r
}

/// `p` moved one cell along `d`, with wraparound.
pub fn advance(p: Pos, d: Dir) -> (r: Pos)
    requires
        in_range(p),
    ensures
        r == next_pos(p, d),
{
    let (dx, dy) = step(d);
    wrap(Pos { x: p.x + dx, y: p.y + dy })
}

/// Wraparound always lands on the board, whatever the input.
pub proof fn lemma_wrap_in_range(p: Pos)
    ensures
        in_range(wrap_pos(p)),
{
}

/// One step from any board position, after wraparound, is again a board
/// position.
pub proof fn lemma_step_stays_in_range(p: Pos, d: Dir)
    requires
        in_range(p),
    ensures
        in_range(next_pos(p, d)),
{
}

/// An input requesting the exact opposite of the current direction leaves
/// the direction unchanged.
pub proof fn lemma_no_reversal(d: Dir)
    ensures
        next_dir(d, opp(d)) == d,
{
}

} // verus!
