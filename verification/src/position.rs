//! A 2D point with exact rational coordinates.
//!
//! One point type serves every coordinate space in the crate (screen,
//! world/content, deltas); unverified frontends convert their native point
//! types to and from it at the boundary.

use vstd::prelude::*;

use crate::rational::{q_int, q_zero, Rational};

verus! {

/// A 2D point or extent with exact rational components.
#[derive(Clone, Copy, Debug, PartialEq, Eq, Structural)]
pub struct Position {
    pub x: Rational,
    pub y: Rational,
}

impl Position {
    /// Both components are well-formed rationals.
    pub open spec fn wf(self) -> bool {
        self.x.wf() && self.y.wf()
    }

    pub fn new(x: Rational, y: Rational) -> (r: Position)
        ensures
            r.x == x,
            r.y == y,
    {
        Position { x, y }
    }

    /// The point at integer coordinates `(x, y)`.
    pub fn from_ints(x: i64, y: i64) -> (r: Position)
        requires
            x > i64::MIN,
            y > i64::MIN,
        ensures
            r.wf(),
            r.x@ == q_int(x as int),
            r.y@ == q_int(y as int),
    {
        Position { x: Rational::from_int(x), y: Rational::from_int(y) }
    }

    /// The origin `(0, 0)`.
    pub fn origin() -> (r: Position)
        ensures
            r.wf(),
            r.x@ == q_zero(),
            r.y@ == q_zero(),
    {
        Position { x: Rational::zero(), y: Rational::zero() }
    }
}

} // verus!
