//! Cube topology resolver.
//!
//! A cell on the cube's surface is a face tag plus local coordinates
//! `(u, v)`, each in `[0, grid_size)`. Stepping one cell in a direction
//! either stays on the same face (one coordinate moves by one) or crosses a
//! face boundary, in which case a fixed rule keyed by (face, direction)
//! gives the destination face, the remapped coordinates in that face's own
//! frame, and a possibly rotated travel direction. The 24 rules all come
//! from one consistent unfolding of the cube, so every seam is reciprocal:
//! crossing an edge and immediately reversing returns to the original cell.

use vstd::prelude::*;

verus! {

/// One of the six faces of the cube. Purely a tag.
#[derive(Clone, Copy, Debug, PartialEq, Eq, Structural)]
pub enum Face {
    Front,
    Back,
    Left,
    Right,
    Top,
    Bottom,
}

/// The snake's instantaneous travel intent, in the local 2D frame of
/// whichever face it currently occupies.
#[derive(Clone, Copy, Debug, PartialEq, Eq, Structural)]
pub enum Direction {
    Up,
    Down,
    Left,
    Right,
}

/// One discrete cell on the cube's surface: a face tag plus local
/// coordinates, each in `[0, grid_size)`. Two positions are equal iff face
/// and both coordinates match.
#[derive(Clone, Copy, Debug, PartialEq, Eq, Structural)]
pub struct Position {
    pub face: Face,
    pub u: i32,
    pub v: i32,
}

/// Both local coordinates of `p` lie in `[0, n)`.
pub open spec fn pos_valid(p: Position, n: int) -> bool {
    &&& 0 <= p.u < n
    &&& 0 <= p.v < n
}

/// The result of one step, in the destination face's frame. Spec-only
/// record: the coordinates are unbounded integers.
pub struct Transition {
    pub face: Face,
    pub u: int,
    pub v: int,
    pub dir: Direction,
}

/// The direction directly opposite `d`.
pub open spec fn reverse(d: Direction) -> Direction {
    match d {
        Direction::Up => Direction::Down,
        Direction::Down => Direction::Up,
        Direction::Left => Direction::Right,
        Direction::Right => Direction::Left,
    }
}

/// Stepping from `(u, v)` in direction `d` leaves the `[0, n)` bounds and
/// therefore crosses a face boundary.
pub open spec fn crossing(u: int, v: int, d: Direction, n: int) -> bool {
    match d {
        Direction::Up => v + 1 >= n,
        Direction::Down => v - 1 < 0,
        Direction::Left => u - 1 < 0,
        Direction::Right => u + 1 >= n,
    }
}

/// The 24-entry seam table: destination of a boundary crossing out of
/// `face` in direction `d`, starting from `(u, v)`. Coordinates are the
/// cell the step started from; each rule only reads the coordinate that
/// runs along the edge being crossed.
pub open spec fn cross_transition(face: Face, u: int, v: int, d: Direction, n: int) -> Transition {
    match (face, d) {
        (Face::Front, Direction::Up) => (Transition { face: Face::Top, u: u, v: 0, dir: d }),
        (Face::Front, Direction::Down) => (Transition { face: Face::Bottom, u: u, v: n - 1, dir: d }),
        (Face::Front, Direction::Left) => (Transition { face: Face::Left, u: n - 1, v: v, dir: d }),
        (Face::Front, Direction::Right) => (Transition { face: Face::Right, u: 0, v: v, dir: d }),
        (Face::Back, Direction::Up) => (Transition {
            face: Face::Top,
            u: n - 1 - u,
            v: n - 1,
            dir: Direction::Down,
        }),
        (Face::Back, Direction::Down) => (Transition {
            face: Face::Bottom,
            u: n - 1 - u,
            v: 0,
            dir: Direction::Up,
        }),
        (Face::Back, Direction::Left) => (Transition { face: Face::Right, u: n - 1, v: v, dir: d }),
        (Face::Back, Direction::Right) => (Transition { face: Face::Left, u: 0, v: v, dir: d }),
        (Face::Top, Direction::Up) => (Transition {
            face: Face::Back,
            u: n - 1 - u,
            v: n - 1,
            dir: Direction::Down,
        }),
        (Face::Top, Direction::Down) => (Transition { face: Face::Front, u: u, v: n - 1, dir: d }),
        (Face::Top, Direction::Left) => (Transition {
            face: Face::Left,
            u: n - 1 - v,
            v: n - 1,
            dir: Direction::Down,
        }),
        (Face::Top, Direction::Right) => (Transition {
            face: Face::Right,
            u: v,
            v: n - 1,
            dir: Direction::Down,
        }),
        (Face::Bottom, Direction::Up) => (Transition { face: Face::Front, u: u, v: 0, dir: d }),
        (Face::Bottom, Direction::Down) => (Transition {
            face: Face::Back,
            u: n - 1 - u,
            v: 0,
            dir: Direction::Up,
        }),
        (Face::Bottom, Direction::Left) => (Transition {
            face: Face::Left,
            u: v,
            v: 0,
            dir: Direction::Up,
        }),
        (Face::Bottom, Direction::Right) => (Transition {
            face: Face::Right,
            u: n - 1 - v,
            v: 0,
            dir: Direction::Up,
        }),
        (Face::Right, Direction::Up) => (Transition {
            face: Face::Top,
            u: n - 1,
            v: u,
            dir: Direction::Left,
        }),
        (Face::Right, Direction::Down) => (Transition {
            face: Face::Bottom,
            u: n - 1,
            v: n - 1 - u,
            dir: Direction::Left,
        }),
        (Face::Right, Direction::Left) => (Transition { face: Face::Front, u: n - 1, v: v, dir: d }),
        (Face::Right, Direction::Right) => (Transition { face: Face::Back, u: 0, v: v, dir: d }),
        (Face::Left, Direction::Up) => (Transition {
            face: Face::Top,
            u: 0,
            v: n - 1 - u,
            dir: Direction::Right,
        }),
        (Face::Left, Direction::Down) => (Transition {
            face: Face::Bottom,
            u: 0,
            v: u,
            dir: Direction::Right,
        }),
        (Face::Left, Direction::Left) => (Transition { face: Face::Back, u: n - 1, v: v, dir: d }),
        (Face::Left, Direction::Right) => (Transition { face: Face::Front, u: 0, v: v, dir: d }),
    }
}

/// Where one step from `(face, u, v)` in direction `d` lands: within the
/// same face when the step stays in bounds, through the seam table when it
/// crosses an edge.
pub open spec fn next_transition(face: Face, u: int, v: int, d: Direction, n: int) -> Transition {
    if crossing(u, v, d, n) {
        cross_transition(face, u, v, d, n)
    } else {
        match d {
            Direction::Up => (Transition { face: face, u: u, v: v + 1, dir: d }),
            Direction::Down => (Transition { face: face, u: u, v: v - 1, dir: d }),
            Direction::Left => (Transition { face: face, u: u - 1, v: v, dir: d }),
            Direction::Right => (Transition { face: face, u: u + 1, v: v, dir: d }),
        }
    }
}

/// `p` is exactly the cell that `t` describes.
pub open spec fn at_cell(t: Transition, p: Position) -> bool {
    &&& t.face == p.face
    &&& t.u == p.u as int
    &&& t.v == p.v as int
}

/// Stepping from `p` in direction `d` on an `n`-sized grid yields exactly
/// the cell `q` and the travel direction `nd`.
pub open spec fn steps_to(p: Position, d: Direction, n: int, q: Position, nd: Direction) -> bool {
    let t = next_transition(p.face, p.u as int, p.v as int, d, n);
    at_cell(t, q) && nd == t.dir
}

/// Resolver totality: for every face, direction and in-range cell, the step
/// lands on an in-range cell.
pub proof fn lemma_totality(face: Face, u: int, v: int, d: Direction, n: int)
    requires
        1 <= n,
        0 <= u < n,
        0 <= v < n,
    ensures
        ({
            let t = next_transition(face, u, v, d, n);
            0 <= t.u < n && 0 <= t.v < n
        }),
{
}

/// Resolver reciprocity: a step that crosses a seam, immediately reversed,
/// crosses the same seam back to the original cell, travelling opposite to
/// the original direction.
pub proof fn lemma_reciprocity(face: Face, u: int, v: int, d: Direction, n: int)
    requires
        1 <= n,
        0 <= u < n,
        0 <= v < n,
        crossing(u, v, d, n),
    ensures
        ({
            let t = next_transition(face, u, v, d, n);
            let b = next_transition(t.face, t.u, t.v, reverse(t.dir), n);
            b.face == face && b.u == u && b.v == v && b.dir == reverse(d)
        }),
{
}

/// Map a stepped coordinate and the seam table into executable code: the
/// one genuinely geometric function of the crate.
///
/// Returns the cell one step from `pos` in direction `dir`, together with
/// the travel direction after the step; both are pinned to the spec-level
/// table by `steps_to`.
pub fn next_position(pos: Position, dir: Direction, grid_size: i32) -> (r: (Position, Direction))
    requires
        1 <= grid_size,
        pos_valid(pos, grid_size as int),
    ensures
        steps_to(pos, dir, grid_size as int, r.0, r.1),
        pos_valid(r.0, grid_size as int),
{
    let n = grid_size;
    let mut u = pos.u;
    let mut v = pos.v;
    let mut face = pos.face;
    let mut new_dir = dir;

    match dir {
        Direction::Up => v += 1,
        Direction::Down => v -= 1,
        Direction::Left => u -= 1,
        Direction::Right => u += 1,
    }

    if u < 0 || u >= n || v < 0 || v >= n {
        match (face, dir) {
            (Face::Front, Direction::Up) => {
                face = Face::Top;
                v = 0;
            },
            (Face::Front, Direction::Down) => {
                face = Face::Bottom;
                v = n - 1;
            },
            (Face::Front, Direction::Left) => {
                face = Face::Left;
                u = n - 1;
            },
            (Face::Front, Direction::Right) => {
                face = Face::Right;
                u = 0;
            },
            (Face::Back, Direction::Up) => {
                face = Face::Top;
                v = n - 1;
                new_dir = Direction::Down;
                u = n - 1 - u;
            },
            (Face::Back, Direction::Down) => {
                face = Face::Bottom;
                v = 0;
                new_dir = Direction::Up;
                u = n - 1 - u;
            },
            (Face::Back, Direction::Left) => {
                face = Face::Right;
                u = n - 1;
            },
            (Face::Back, Direction::Right) => {
                face = Face::Left;
                u = 0;
            },
            (Face::Top, Direction::Up) => {
                face = Face::Back;
                v = n - 1;
                new_dir = Direction::Down;
                u = n - 1 - u;
            },
            (Face::Top, Direction::Down) => {
                face = Face::Front;
                v = n - 1;
            },
            (Face::Top, Direction::Left) => {
                face = Face::Left;
                u = n - 1 - v;
                v = n - 1;
                new_dir = Direction::Down;
            },
            (Face::Top, Direction::Right) => {
                face = Face::Right;
                u = v;
                v = n - 1;
                new_dir = Direction::Down;
            },
            (Face::Bottom, Direction::Up) => {
                face = Face::Front;
                v = 0;
            },
            (Face::Bottom, Direction::Down) => {
                face = Face::Back;
                v = 0;
                new_dir = Direction::Up;
                u = n - 1 - u;
            },
            (Face::Bottom, Direction::Left) => {
                face = Face::Left;
                u = v;
                v = 0;
                new_dir = Direction::Up;
            },
            (Face::Bottom, Direction::Right) => {
                face = Face::Right;
                u = n - 1 - v;
                v = 0;
                new_dir = Direction::Up;
            },
            (Face::Right, Direction::Up) => {
                face = Face::Top;
                let old_u = u;
                u = n - 1;
                v = old_u;
                new_dir = Direction::Left;
            },
            (Face::Right, Direction::Down) => {
                face = Face::Bottom;
                let old_u = u;
                u = n - 1;
                v = n - 1 - old_u;
                new_dir = Direction::Left;
            },
            (Face::Right, Direction::Left) => {
                face = Face::Front;
                u = n - 1;
            },
            (Face::Right, Direction::Right) => {
                face = Face::Back;
                u = 0;
            },
            (Face::Left, Direction::Up) => {
                face = Face::Top;
                let old_u = u;
                u = 0;
                v = n - 1 - old_u;
                new_dir = Direction::Right;
            },
            (Face::Left, Direction::Down) => {
                face = Face::Bottom;
                let old_u = u;
                u = 0;
                v = old_u;
                new_dir = Direction::Right;
            },
            (Face::Left, Direction::Left) => {
                face = Face::Back;
                u = n - 1;
            },
            (Face::Left, Direction::Right) => {
                face = Face::Front;
                u = 0;
            },
        }
    }

    (Position { face, u, v }, new_dir)
}

} // verus!
