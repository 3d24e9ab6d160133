//! Paddle motion from the held keys, and ball integration over one tick.
use vstd::prelude::*;
use crate::geometry::Vector;

verus! {

/// The keys that steer the paddle, as held during one tick.
#[derive(Clone, Copy, Debug, PartialEq, Eq, Structural)]
pub struct PaddleInput {
    pub left: bool,
    pub right: bool,
}

/// The net direction of the held keys: -1, 0 or 1.
pub open spec fn direction_of(input: PaddleInput) -> int {
    (if input.right { 1int } else { 0int }) + (if input.left { -1int } else { 0int })
}

pub open spec fn clamp(v: int, lo: int, hi: int) -> int {
    if v < lo {
        lo
    } else if v > hi {
        hi
    } else {
        v
    }
}

/// The paddle's x after one tick: moved by `direction * speed * dt`, then
/// held within `[lo, hi]`.
pub open spec fn paddle_step(x: int, input: PaddleInput, speed: int, dt: int, lo: int, hi: int) -> int {
    clamp(x + direction_of(input) * speed * dt, lo, hi)
}

/// The paddle's x after one tick per input of `inputs`, in order.
pub open spec fn paddle_run(
    x: int,
    inputs: Seq<PaddleInput>,
    speed: int,
    dt: int,
    lo: int,
    hi: int,
) -> int
    decreases inputs.len(),
{
    if inputs.len() == 0 {
        x
    } else {
        paddle_step(paddle_run(x, inputs.drop_last(), speed, dt, lo, hi), inputs.last(), speed, dt, lo, hi)
    }
}

/// A value of `i64`.
pub open spec fn fits_i64(v: int) -> bool {
    i64::MIN <= v <= i64::MAX
}

/// A position moved by a velocity over `dt`.
pub open spec fn integrated(pos: Vector, vel: Vector, dt: int) -> (int, int) {
    (pos.x + vel.x * dt, pos.y + vel.y * dt)
}

/// The position after `n` ticks of integration at a fixed velocity.
pub open spec fn integrate_n(pos: Vector, vel: Vector, dt: int, n: nat) -> Vector
    decreases n,
{
    if n == 0 {
        pos
    } else {
        let p = integrate_n(pos, vel, dt, (n - 1) as nat);
        Vector { x: (p.x + vel.x * dt) as i64, y: (p.y + vel.y * dt) as i64 }
    }
}

/// The direction that the held keys give: left counts -1, right +1, both 0.
pub fn direction(input: PaddleInput) -> (r: i64)
    ensures
        r == direction_of(input),
{
    let mut d: i64 = 0;
    if input.left {
        d = d - 1;
    }
    if input.right {
        d = d + 1;
    }
    d
}

/// Moves the paddle at `x` for one tick of length `dt` at `speed`, and
/// keeps it within `[left_bound, right_bound]`.
pub fn move_paddle(
    x: i64,
    input: PaddleInput,
    speed: i64,
    dt: i64,
    left_bound: i64,
    right_bound: i64,
) -> (r: i64)
    requires
        left_bound <= right_bound,
    ensures
        r == paddle_step(x as int, input, speed as int, dt as int, left_bound as int, right_bound as int),
        left_bound <= r <= right_bound,
{
    let d = direction(input);
    assert(-0x4000_0000_0000_0000_0000_0000_0000_0000int <= speed as int * dt as int
        <= 0x4000_0000_0000_0000_0000_0000_0000_0000int) by (nonlinear_arith)
        requires
            i64::MIN <= speed <= i64::MAX,
            i64::MIN <= dt <= i64::MAX,
    ;
    let step: i128 = speed as i128 * dt as i128;
    let moved: i128 = if d < 0 {
        x as i128 - step
    } else if d > 0 {
        x as i128 + step
    } else {
        x as i128
    };
    assert(moved == x + d * speed * dt) by (nonlinear_arith)
        requires
            d == -1 || d == 0 || d == 1,
            step == speed * dt,
            d < 0 ==> moved == x - step,
            d > 0 ==> moved == x + step,
            d == 0 ==> moved == x,
    ;
    if moved < left_bound as i128 {
        left_bound
    } else if moved > right_bound as i128 {
        right_bound
    } else {
        moved as i64
    }
}

/// Advances `pos` by `vel` over a tick of length `dt`.
pub fn apply_velocity(pos: Vector, vel: Vector, dt: i64) -> (r: Vector)
    requires
        fits_i64(integrated(pos, vel, dt as int).0),
        fits_i64(integrated(pos, vel, dt as int).1),
    ensures
        r.x == integrated(pos, vel, dt as int).0,
        r.y == integrated(pos, vel, dt as int).1,
{
    assert(-0x4000_0000_0000_0000_0000_0000_0000_0000int <= vel.x as int * dt as int
        <= 0x4000_0000_0000_0000_0000_0000_0000_0000int) by (nonlinear_arith)
        requires
            i64::MIN <= vel.x <= i64::MAX,
            i64::MIN <= dt <= i64::MAX,
    ;
    assert(-0x4000_0000_0000_0000_0000_0000_0000_0000int <= vel.y as int * dt as int
        <= 0x4000_0000_0000_0000_0000_0000_0000_0000int) by (nonlinear_arith)
        requires
            i64::MIN <= vel.y <= i64::MAX,
            i64::MIN <= dt <= i64::MAX,
    ;
    let x = pos.x as i128 + vel.x as i128 * dt as i128;
    let y = pos.y as i128 + vel.y as i128 * dt as i128;
    Vector { x: x as i64, y: y as i64 }
}

/// Whatever keys are held, tick after tick, a paddle that starts within
/// its bounds stays within them.
pub proof fn lemma_paddle_stays_in_bounds(
    x: int,
    inputs: Seq<PaddleInput>,
    speed: int,
    dt: int,
    lo: int,
    hi: int,
)
    requires
        lo <= x <= hi,
    ensures
        lo <= paddle_run(x, inputs, speed, dt, lo, hi) <= hi,
    decreases inputs.len(),
{
    if inputs.len() > 0 {
        lemma_paddle_stays_in_bounds(x, inputs.drop_last(), speed, dt, lo, hi);
    }
}

/// Integrating a ball at rest, for any number of ticks, leaves it where it
/// was.
pub proof fn lemma_rest_stays_put(pos: Vector, vel: Vector, dt: int, n: nat)
    requires
        vel.x == 0,
        vel.y == 0,
    ensures
        integrate_n(pos, vel, dt, n) == pos,
    decreases n,
{
    if n > 0 {
        lemma_rest_stays_put(pos, vel, dt, (n - 1) as nat);
    }
}

} // verus!
