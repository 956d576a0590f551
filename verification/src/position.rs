//! Fixed-timestep position integration. Each fixed tick of simulated
//! duration `1 / frame_rate` seconds advances a position by
//! `velocity * tick duration`. A coordinate is kept exactly as the integer
//! pair `(units, diag_units)` standing for
//! `(units + diag_units * sqrt(2)/2) / frame_rate` world units, so that the
//! per-tick increment is just the componentwise integer sum of the
//! velocity's own `(units, diag_units)` pairs — no rounding ever happens.

use crate::velocity::Velocity;
use vstd::prelude::*;

verus! {

/// One exactly-represented coordinate: `(units + diag_units * sqrt(2)/2)`
/// ticks-scaled world units. Dividing by the tick rate of the integrator
/// that wrote it gives the coordinate in world units.
#[derive(Clone, Copy, Debug, PartialEq, Eq, Structural)]
pub struct Coord {
    pub units: i64,
    pub diag_units: i64,
}

/// A 2D translation, mutated only by the position integrator.
#[derive(Clone, Copy, Debug, PartialEq, Eq, Structural)]
pub struct Position {
    pub x: Coord,
    pub y: Coord,
}

impl Coord {
    /// The origin.
    pub open spec fn spec_zero() -> Coord {
        Coord { units: 0, diag_units: 0 }
    }

    /// Two coordinates written under tick rates `rate_a` and `rate_b` denote
    /// the same world-unit value exactly when the cross-multiplied integer
    /// parts agree: `(u_a + d_a*sqrt(2)/2)/rate_a == (u_b + d_b*sqrt(2)/2)/rate_b`
    /// holds iff `u_a*rate_b == u_b*rate_a` and `d_a*rate_b == d_b*rate_a`,
    /// since 1 and `sqrt(2)/2` are linearly independent over the rationals.
    pub open spec fn same_value(self, rate_a: int, other: Coord, rate_b: int) -> bool {
        self.units * rate_b == other.units * rate_a && self.diag_units * rate_b == other.diag_units
            * rate_a
    }
}

impl Position {
    /// The origin.
    pub open spec fn spec_origin() -> Position {
        Position { x: Coord::spec_zero(), y: Coord::spec_zero() }
    }

    /// A position at the origin.
    pub fn origin() -> (p: Position)
        ensures
            p == Position::spec_origin(),
    {
        Position { x: Coord { units: 0, diag_units: 0 }, y: Coord { units: 0, diag_units: 0 } }
    }
}

/// The position one fixed tick after `p` under velocity `v`: every part
/// grows by the matching part of the velocity, which is exactly
/// `p + v * tick duration` in the tick-scaled representation.
pub open spec fn spec_step(p: Position, v: Velocity) -> Position {
    Position {
        x: Coord {
            units: (p.x.units + v.x_units()) as i64,
            diag_units: (p.x.diag_units + v.x_diag_units()) as i64,
        },
        y: Coord {
            units: (p.y.units + v.y_units()) as i64,
            diag_units: (p.y.diag_units + v.y_diag_units()) as i64,
        },
    }
}

/// Whether one tick under `v` keeps every part of `p` inside `i64`.
pub open spec fn step_fits(p: Position, v: Velocity) -> bool {
    &&& i64::MIN <= p.x.units + v.x_units() <= i64::MAX
    &&& i64::MIN <= p.x.diag_units + v.x_diag_units() <= i64::MAX
    &&& i64::MIN <= p.y.units + v.y_units() <= i64::MAX
    &&& i64::MIN <= p.y.diag_units + v.y_diag_units() <= i64::MAX
}

/// Advances `p` by one fixed tick under velocity `v`:
/// `position += velocity * tick duration`, exactly.
pub fn integrate(p: &mut Position, v: &Velocity)
    requires
        v.wf(),
        step_fits(*old(p), *v),
    ensures
        *final(p) == spec_step(*old(p), *v),
{
    let dx: i64 = if v.dir.x == 1 {
        v.speed as i64
    } else if v.dir.x == -1 {
        -(v.speed as i64)
    } else {
        0
    };
    let dy: i64 = if v.dir.y == 1 {
        v.speed as i64
    } else if v.dir.y == -1 {
        -(v.speed as i64)
    } else {
        0
    };
    if v.dir.x != 0 && v.dir.y != 0 {
        p.x.diag_units = p.x.diag_units + dx;
        p.y.diag_units = p.y.diag_units + dy;
    } else {
        p.x.units = p.x.units + dx;
        p.y.units = p.y.units + dy;
    }
}

/// The position `n` fixed ticks after `p` under the constant velocity `v`,
/// with exact (unbounded) integer parts.
pub open spec fn spec_ticks(p: Position, v: Velocity, n: nat) -> Position
    decreases n,
{
    if n == 0 {
        p
    } else {
        spec_step(spec_ticks(p, v, (n - 1) as nat), v)
    }
}

/// Law: integrating a zero velocity is the identity — a resting entity stays
/// exactly where it is after any number of fixed ticks.
pub proof fn law_zero_velocity_fixes_position(p: Position, v: Velocity, n: nat)
    requires
        v.wf(),
        v.is_zero(),
    ensures
        spec_ticks(p, v, n) == p,
    decreases n,
{
    if n > 0 {
        law_zero_velocity_fixes_position(p, v, (n - 1) as nat);
    }
}

/// Whether `n` ticks under `v` stay inside `i64` at every intermediate
/// position, so that a run of `n` calls of `integrate` is defined.
pub open spec fn ticks_fit(p: Position, v: Velocity, n: nat) -> bool {
    forall|k: nat| k < n ==> #[trigger] step_fits(spec_ticks(p, v, k), v)
}

/// Law: integration is exactly linear. After `n` fixed ticks under the
/// constant velocity `v`, every part of the position has advanced by
/// exactly `n` times the matching part of the velocity — that is, the
/// position has advanced by exactly `n * tick duration * v` world units.
pub proof fn law_integration_linear(p: Position, v: Velocity, n: nat)
    requires
        ticks_fit(p, v, n),
    ensures
        spec_ticks(p, v, n).x.units == p.x.units + n * v.x_units(),
        spec_ticks(p, v, n).x.diag_units == p.x.diag_units + n * v.x_diag_units(),
        spec_ticks(p, v, n).y.units == p.y.units + n * v.y_units(),
        spec_ticks(p, v, n).y.diag_units == p.y.diag_units + n * v.y_diag_units(),
    decreases n,
{
    if n == 0 {
        assert(n * v.x_units() == 0);
        assert(n * v.x_diag_units() == 0);
        assert(n * v.y_units() == 0);
        assert(n * v.y_diag_units() == 0);
    } else {
        let m = (n - 1) as nat;
        assert forall|k: nat| k < m implies #[trigger] step_fits(spec_ticks(p, v, k), v) by {
            assert(k < n);
        }
        law_integration_linear(p, v, m);
        assert(step_fits(spec_ticks(p, v, m), v));
        assert forall|c: int| #[trigger] (n * c) == m * c + c by {
            assert(n * c == m * c + c) by (nonlinear_arith)
                requires
                    n == m + 1,
            ;
        }
    }
}

/// Law: the per-second displacement does not depend on the tick rate. Two
/// integrators run from the origin with the same velocity, one at
/// `rate_a` ticks per second for `n_a` ticks and one at `rate_b` for `n_b`
/// ticks, have covered the same simulated time when `n_a * rate_b == n_b * rate_a`
/// (for instance one second each: `n_a == rate_a`, `n_b == rate_b`), and
/// then their positions denote exactly the same world-unit coordinates.
pub proof fn law_rate_independent_displacement(
    v: Velocity,
    rate_a: int,
    n_a: nat,
    rate_b: int,
    n_b: nat,
)
    requires
        ticks_fit(Position::spec_origin(), v, n_a),
        ticks_fit(Position::spec_origin(), v, n_b),
        n_a * rate_b == n_b * rate_a,
    ensures
        ({
            let pa = spec_ticks(Position::spec_origin(), v, n_a);
            let pb = spec_ticks(Position::spec_origin(), v, n_b);
            pa.x.same_value(rate_a, pb.x, rate_b) && pa.y.same_value(rate_a, pb.y, rate_b)
        }),
{
    let o = Position::spec_origin();
    law_integration_linear(o, v, n_a);
    law_integration_linear(o, v, n_b);
    let pa = spec_ticks(o, v, n_a);
    let pb = spec_ticks(o, v, n_b);
    assert forall|c: int| #[trigger] (n_a * c) * rate_b == (n_b * c) * rate_a by {
        broadcast use vstd::arithmetic::mul::group_mul_properties;

        assert((n_a * c) * rate_b == (n_a * rate_b) * c) by (nonlinear_arith);
        assert((n_b * c) * rate_a == (n_b * rate_a) * c) by (nonlinear_arith);
    }
    assert(pa.x.units * rate_b == pb.x.units * rate_a) by {
        assert(pa.x.units == n_a * v.x_units());
        assert(pb.x.units == n_b * v.x_units());
        assert((n_a * v.x_units()) * rate_b == (n_b * v.x_units()) * rate_a);
    }
    assert(pa.x.diag_units * rate_b == pb.x.diag_units * rate_a) by {
        assert((n_a * v.x_diag_units()) * rate_b == (n_b * v.x_diag_units()) * rate_a);
    }
    assert(pa.y.units * rate_b == pb.y.units * rate_a) by {
        assert((n_a * v.y_units()) * rate_b == (n_b * v.y_units()) * rate_a);
    }
    assert(pa.y.diag_units * rate_b == pb.y.diag_units * rate_a) by {
        assert((n_a * v.y_diag_units()) * rate_b == (n_b * v.y_diag_units()) * rate_a);
    }
}

} // verus!
