//! Direction resolution and velocity: four opposing directional actions are
//! turned into a direction vector with components in `{-1, 0, 1}`, which is
//! then normalized and scaled by the player's maximum speed.

use crate::action::ActionState;
use crate::action::Action;
use vstd::prelude::*;

verus! {

/// An unnormalized 2D direction with each component in `{-1, 0, 1}`,
/// derived from the four directional actions as
/// `(right - left, up - down)`.
#[derive(Clone, Copy, Debug, PartialEq, Eq, Structural)]
pub struct Direction {
    pub x: i8,
    pub y: i8,
}

impl Direction {
    /// Both components stay in `{-1, 0, 1}`.
    pub open spec fn wf(self) -> bool {
        -1 <= self.x <= 1 && -1 <= self.y <= 1
    }

    /// No directional action wins on either axis.
    pub open spec fn is_zero(self) -> bool {
        self.x == 0 && self.y == 0
    }
}

/// The direction component won by two opposing actions: `1` if only the
/// positive action is active, `-1` if only the negative one is, `0` when
/// they cancel or both rest.
pub open spec fn spec_axis(positive: bool, negative: bool) -> i8 {
    if positive == negative {
        0i8
    } else if positive {
        1i8
    } else {
        -1i8
    }
}

/// The direction derived from the four directional actions.
pub open spec fn spec_direction(right: bool, left: bool, up: bool, down: bool) -> Direction {
    Direction { x: spec_axis(right, left), y: spec_axis(up, down) }
}

/// Resolves one axis from its two opposing actions.
pub fn resolve_axis(positive: bool, negative: bool) -> (c: i8)
    ensures
        c == spec_axis(positive, negative),
        c as int == (if positive { 1int } else { 0int }) - (if negative { 1int } else { 0int }),
{
    if positive && !negative {
        1
    } else if negative && !positive {
        -1
    } else {
        0
    }
}

/// Resolves the direction vector from the four directional actions:
/// `(right - left, up - down)`, componentwise in `{-1, 0, 1}`.
pub fn resolve_direction(right: bool, left: bool, up: bool, down: bool) -> (d: Direction)
    ensures
        d == spec_direction(right, left, up, down),
        d.wf(),
        d.x as int == (if right { 1int } else { 0int }) - (if left { 1int } else { 0int }),
        d.y as int == (if up { 1int } else { 0int }) - (if down { 1int } else { 0int }),
{
    Direction { x: resolve_axis(right, left), y: resolve_axis(up, down) }
}

/// A 2D velocity stored as the normalized direction and the speed it was
/// scaled by, in world units per second. The exact x-component of the
/// velocity is `x_units() + x_diag_units() * sqrt(2)/2`, and likewise for y,
/// so diagonal movement carries its irrational factor exactly instead of as
/// a rounded product.
#[derive(Clone, Copy, Debug, PartialEq, Eq, Structural)]
pub struct Velocity {
    pub dir: Direction,
    pub speed: u32,
}

impl Velocity {
    /// The direction is a unit-grid direction and a zero direction carries
    /// zero speed, so the velocity of a resting entity is the zero vector.
    pub open spec fn wf(self) -> bool {
        self.dir.wf() && (self.dir.is_zero() ==> self.speed == 0)
    }

    /// The zero vector.
    pub open spec fn is_zero(self) -> bool {
        self.dir.is_zero()
    }

    /// Movement on both axes at once: the normalized components are
    /// `sqrt(2)/2` rather than 1 in magnitude.
    pub open spec fn is_diagonal(self) -> bool {
        self.dir.x != 0 && self.dir.y != 0
    }

    /// Integer part of the x-component (coefficient of 1).
    pub open spec fn x_units(self) -> int {
        if self.is_diagonal() {
            0
        } else {
            self.dir.x * self.speed
        }
    }

    /// Diagonal part of the x-component (coefficient of `sqrt(2)/2`).
    pub open spec fn x_diag_units(self) -> int {
        if self.is_diagonal() {
            self.dir.x * self.speed
        } else {
            0
        }
    }

    /// Integer part of the y-component (coefficient of 1).
    pub open spec fn y_units(self) -> int {
        if self.is_diagonal() {
            0
        } else {
            self.dir.y * self.speed
        }
    }

    /// Diagonal part of the y-component (coefficient of `sqrt(2)/2`).
    pub open spec fn y_diag_units(self) -> int {
        if self.is_diagonal() {
            self.dir.y * self.speed
        } else {
            0
        }
    }

    /// Twice the squared magnitude of the velocity. For a component
    /// `a + b * sqrt(2)/2` with `a * b == 0` (always the case here: a
    /// component is either purely axis-aligned or purely diagonal), the
    /// squared component is `a*a + b*b/2`, so twice the squared magnitude is
    /// the integer `2*a*a + b*b` summed over both components.
    pub open spec fn norm_sq_twice(self) -> int {
        2 * self.x_units() * self.x_units() + self.x_diag_units() * self.x_diag_units() + 2
            * self.y_units() * self.y_units() + self.y_diag_units() * self.y_diag_units()
    }

    /// A resting velocity: zero direction, zero speed.
    pub fn zero() -> (v: Velocity)
        ensures
            v == (Velocity { dir: Direction { x: 0i8, y: 0i8 }, speed: 0u32 }),
            v.wf(),
            v.is_zero(),
    {
        Velocity { dir: Direction { x: 0, y: 0 }, speed: 0 }
    }
}

/// The velocity the resolver writes for the given directional levels:
/// direction `(right - left, up - down)`, normalized and scaled by
/// `max_speed`; the zero direction yields the zero velocity.
pub open spec fn spec_resolve_velocity(
    right: bool,
    left: bool,
    up: bool,
    down: bool,
    max_speed: u32,
) -> Velocity {
    let d = spec_direction(right, left, up, down);
    Velocity { dir: d, speed: if d.is_zero() { 0u32 } else { max_speed } }
}

/// Derives the player's velocity for this frame from the current levels of
/// the four directional actions: the direction `(right - left, up - down)`
/// normalized to unit length (or left zero) and scaled by `max_speed`. The
/// result overwrites, never accumulates.
pub fn resolve_velocity(right: bool, left: bool, up: bool, down: bool, max_speed: u32) -> (v:
    Velocity)
    ensures
        v == spec_resolve_velocity(right, left, up, down, max_speed),
        v.wf(),
        v.dir == spec_direction(right, left, up, down),
        v.is_zero() ==> v.speed == 0,
        !v.is_zero() ==> v.speed == max_speed,
{
    let d = resolve_direction(right, left, up, down);
    let speed: u32 = if d.x == 0 && d.y == 0 {
        0
    } else {
        max_speed
    };
    Velocity { dir: d, speed }
}

/// Derives the player's velocity for this frame from an action-state
/// snapshot, reading the current levels of the four directional actions.
pub fn resolve_velocity_from_actions(actions: &ActionState, max_speed: u32) -> (v: Velocity)
    ensures
        v == spec_resolve_velocity(
            actions.spec_pressed(Action::Right),
            actions.spec_pressed(Action::Left),
            actions.spec_pressed(Action::Up),
            actions.spec_pressed(Action::Down),
            max_speed,
        ),
        v.wf(),
{
    resolve_velocity(
        actions.pressed(Action::Right),
        actions.pressed(Action::Left),
        actions.pressed(Action::Up),
        actions.pressed(Action::Down),
        max_speed,
    )
}

/// Law: the resolved velocity has magnitude exactly `max_speed` whenever any
/// direction wins, and 0 when the directions cancel or rest — normalization
/// happens before scaling, so a diagonal is as fast as an axis move, not
/// `sqrt(2)` times faster. Stated exactly: twice the squared magnitude is
/// `2 * max_speed * max_speed`, or 0 for the zero direction.
pub proof fn law_velocity_magnitude(
    right: bool,
    left: bool,
    up: bool,
    down: bool,
    max_speed: u32,
)
    ensures
        ({
            let v = spec_resolve_velocity(right, left, up, down, max_speed);
            v.norm_sq_twice() == if v.is_zero() {
                0int
            } else {
                2 * max_speed * max_speed
            }
        }),
{
    let v = spec_resolve_velocity(right, left, up, down, max_speed);
    let s = max_speed as int;
    if !v.is_zero() {
        assert(v.dir.x == 1 || v.dir.x == 0 || v.dir.x == -1);
        assert(v.dir.y == 1 || v.dir.y == 0 || v.dir.y == -1);
        if v.is_diagonal() {
            assert(v.x_diag_units() == s || v.x_diag_units() == -s);
            assert(v.y_diag_units() == s || v.y_diag_units() == -s);
            assert(v.norm_sq_twice() == 2 * s * s) by (nonlinear_arith)
                requires
                    v.x_units() == 0 && v.y_units() == 0,
                    v.x_diag_units() == s || v.x_diag_units() == -s,
                    v.y_diag_units() == s || v.y_diag_units() == -s,
                    v.norm_sq_twice() == 2 * v.x_units() * v.x_units() + v.x_diag_units()
                        * v.x_diag_units() + 2 * v.y_units() * v.y_units() + v.y_diag_units()
                        * v.y_diag_units(),
            ;
        } else {
            assert(v.norm_sq_twice() == 2 * s * s) by (nonlinear_arith)
                requires
                    v.x_diag_units() == 0 && v.y_diag_units() == 0,
                    (v.x_units() == s || v.x_units() == -s) && v.y_units() == 0 || (v.y_units()
                        == s || v.y_units() == -s) && v.x_units() == 0,
                    v.norm_sq_twice() == 2 * v.x_units() * v.x_units() + v.x_diag_units()
                        * v.x_diag_units() + 2 * v.y_units() * v.y_units() + v.y_diag_units()
                        * v.y_diag_units(),
            ;
        }
    }
}

/// Law: opposing directional actions cancel. With Right and Left both
/// pressed the x-component of the resolved velocity is zero, and with Up
/// and Down both pressed the y-component is zero, whatever the other keys
/// and the speed.
pub proof fn law_opposing_actions_cancel(
    right: bool,
    left: bool,
    up: bool,
    down: bool,
    max_speed: u32,
)
    ensures
        ({
            let v = spec_resolve_velocity(right, left, up, down, max_speed);
            &&& (right == left ==> v.x_units() == 0 && v.x_diag_units() == 0)
            &&& (up == down ==> v.y_units() == 0 && v.y_diag_units() == 0)
        }),
{
}

} // verus!
