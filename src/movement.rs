use vstd::prelude::*;
use crate::rack::BallRole;

verus! {

/// Time units in one second.
pub const TIME_UNITS_PER_SECOND: u64 = 60_000;

/// Acceleration while the up control is held, in world units per second squared.
/// It is larger than the others to work against the gravity that pulls the
/// ball down.
pub const UP_RATE: i64 = 2500;

/// Acceleration while the down, left or right control is held.
pub const SIDE_RATE: i64 = 500;

/// Largest velocity component magnitude that a cue-ball update accepts.
pub const VELOCITY_LIMIT: i64 = 9_000_000_000_000_000_000;

/// Which of the four directional controls are held this tick.
#[derive(Clone, Copy, Debug, PartialEq, Eq, Structural)]
pub struct HeldDirections {
    pub up: bool,
    pub down: bool,
    pub left: bool,
    pub right: bool,
}

/// A velocity, in world units per second scaled by `TIME_UNITS_PER_SECOND`
/// (so that a rate times a tick length in time units is exact).
#[derive(Clone, Copy, Debug, PartialEq, Eq, Structural)]
pub struct Velocity {
    pub x: i64,
    pub y: i64,
}

/// A ball as the movement rule sees it: its role and its velocity.
#[derive(Clone, Copy, Debug, PartialEq, Eq, Structural)]
pub struct Body {
    pub role: BallRole,
    pub velocity: Velocity,
}

impl HeldDirections {
    /// Combines the two keys bound to each direction (W or Up, S or Down, A or
    /// Left, D or Right): a direction is held if either of its keys is.
    pub fn from_keys(
        w: bool,
        arrow_up: bool,
        s: bool,
        arrow_down: bool,
        a: bool,
        arrow_left: bool,
        d: bool,
        arrow_right: bool,
    ) -> (r: HeldDirections)
        ensures
            r.up == (w || arrow_up),
            r.down == (s || arrow_down),
            r.left == (a || arrow_left),
            r.right == (d || arrow_right),
    {
        HeldDirections {
            up: w || arrow_up,
            down: s || arrow_down,
            left: a || arrow_left,
            right: d || arrow_right,
        }
    }
}

/// Change of the x velocity over `dt` time units.
pub open spec fn delta_x(h: HeldDirections, dt: int) -> int {
    (if h.right { SIDE_RATE * dt } else { 0 }) - (if h.left { SIDE_RATE * dt } else { 0 })
}

/// Change of the y velocity over `dt` time units.
pub open spec fn delta_y(h: HeldDirections, dt: int) -> int {
    (if h.up { UP_RATE * dt } else { 0 }) - (if h.down { SIDE_RATE * dt } else { 0 })
}

/// A velocity that any single update keeps in range.
pub open spec fn velocity_in_range(v: Velocity) -> bool {
    -VELOCITY_LIMIT <= v.x <= VELOCITY_LIMIT && -VELOCITY_LIMIT <= v.y <= VELOCITY_LIMIT
}

/// The velocity change that the held controls make over a tick of `dt` time
/// units; held directions add up.
pub fn velocity_delta(h: HeldDirections, dt: u32) -> (r: Velocity)
    ensures
        r.x == delta_x(h, dt as int),
        r.y == delta_y(h, dt as int),
{
    let side: i64 = SIDE_RATE * (dt as i64);
    let up: i64 = UP_RATE * (dt as i64);
    let mut x: i64 = 0;
    let mut y: i64 = 0;
    if h.right {
        x = x + side;
    }
    if h.left {
        x = x - side;
    }
    if h.up {
        y = y + up;
    }
    if h.down {
        y = y - side;
    }
    Velocity { x, y }
}

/// The velocity of a body after one tick of `dt` time units.
pub open spec fn moved(b: Body, h: HeldDirections, dt: int) -> Body {
    if b.role == BallRole::Cue {
        Body {
            role: b.role,
            velocity: Velocity {
                x: (b.velocity.x + delta_x(h, dt)) as i64,
                y: (b.velocity.y + delta_y(h, dt)) as i64,
            },
        }
    } else {
        b
    }
}

/// One tick of the movement rule: every cue ball's velocity changes by the
/// held controls' increment; the other bodies are left as they are.
pub fn movement(bodies: &mut Vec<Body>, h: HeldDirections, dt: u32)
    requires
        forall|i: int| 0 <= i < old(bodies).len() ==> velocity_in_range(#[trigger] old(bodies)[i].velocity),
    ensures
        final(bodies).len() == old(bodies).len(),
        forall|i: int|
            0 <= i < old(bodies).len() ==> #[trigger] final(bodies)[i] == moved(old(bodies)[i], h, dt as int),
{
    let delta = velocity_delta(h, dt);
    let n: usize = bodies.len();
    let mut i: usize = 0;
    while i < n
        invariant
            n == bodies.len(),
            n == old(bodies).len(),
            i <= n,
            delta.x == delta_x(h, dt as int),
            delta.y == delta_y(h, dt as int),
            forall|j: int| 0 <= j < n ==> velocity_in_range(#[trigger] old(bodies)[j].velocity),
            forall|j: int| 0 <= j < i ==> #[trigger] bodies[j] == moved(old(bodies)[j], h, dt as int),
            forall|j: int| i <= j < n ==> #[trigger] bodies[j] == old(bodies)[j],
        decreases n - i,
    {
        let b = bodies[i];
        if b.role == BallRole::Cue {
            assert(velocity_in_range(old(bodies)[i as int].velocity));
            let v = Velocity { x: b.velocity.x + delta.x, y: b.velocity.y + delta.y };
            bodies.set(i, Body { role: b.role, velocity: v });
        }
        i = i + 1;
    }
}

/// Holding up and left together for `dt` time units changes a velocity by
/// `(-500 dt, +2500 dt)`; holding nothing changes it by `(0, 0)`.
pub proof fn lemma_up_left_and_idle(dt: int)
    ensures
        ({
            let h = HeldDirections { up: true, down: false, left: true, right: false };
            delta_x(h, dt) == -500 * dt && delta_y(h, dt) == 2500 * dt
        }),
        ({
            let h = HeldDirections { up: false, down: false, left: false, right: false };
            delta_x(h, dt) == 0 && delta_y(h, dt) == 0
        }),
{
}

} // verus!
