//! The simulation state and one fixed tick of it: paddle motion, ball
//! integration, then the collision pass over walls, paddle and bricks.
use vstd::prelude::*;
use crate::arena::{in_limit, wall_boxes, wall_colliders, Arena};
use crate::collision::{collide, contact, overlaps, reflect, reflectable, reflected, Collision};
use crate::geometry::{Aabb, Vector};
use crate::motion::{apply_velocity, fits_i64, integrated, move_paddle, paddle_step, PaddleInput};

verus! {

/// A destructible brick; `id` tells bricks apart.
#[derive(Clone, Copy, Debug, PartialEq, Eq, Structural)]
pub struct Brick {
    pub id: u64,
    pub body: Aabb,
}

/// The ball: its center, its velocity per unit of time, and its radius; for
/// collisions it is the square of side `2 * radius` around its center.
#[derive(Clone, Copy, Debug, PartialEq, Eq, Structural)]
pub struct Ball {
    pub pos: Vector,
    pub vel: Vector,
    pub radius: i64,
}

impl Ball {
    pub open spec fn bounding_box(self) -> Aabb {
        Aabb { center: self.pos, half: Vector { x: self.radius, y: self.radius } }
    }

    pub fn collider(&self) -> (r: Aabb)
        ensures
            r == self.bounding_box(),
    {
        Aabb { center: self.pos, half: Vector { x: self.radius, y: self.radius } }
    }
}

/// The score: the number of bricks destroyed so far.
#[derive(Clone, Copy, Debug, PartialEq, Eq, Structural)]
pub struct Scoreboard {
    pub score: u64,
}

impl Scoreboard {
    pub fn new() -> (r: Scoreboard)
        ensures
            r.score == 0,
    {
        Scoreboard { score: 0 }
    }

    pub fn score(&self) -> (r: u64)
        ensures
            r == self.score,
    {
        self.score
    }

    pub fn increment(&mut self)
        requires
            old(self).score < u64::MAX,
        ensures
            final(self).score == old(self).score + 1,
    {
        self.score = self.score + 1;
    }
}

/// The fixed parameters of a session.
#[derive(Clone, Copy, Debug, PartialEq, Eq, Structural)]
pub struct Settings {
    pub arena: Arena,
    /// Paddle speed, in position units per unit of time.
    pub paddle_speed: i64,
    /// The least room left between the paddle and a wall.
    pub paddle_padding: i64,
    /// The length of one tick, in units of time.
    pub time_step: i64,
}

impl Settings {
    /// The leftmost x of the paddle's center, for a paddle of half-width `half_width`.
    pub open spec fn left_bound(self, half_width: int) -> int {
        self.arena.left + self.arena.wall_thickness / 2 + half_width + self.paddle_padding
    }

    /// The rightmost x of the paddle's center, for a paddle of half-width `half_width`.
    pub open spec fn right_bound(self, half_width: int) -> int {
        self.arena.right - self.arena.wall_thickness / 2 - half_width - self.paddle_padding
    }

    pub fn left_bound_of(&self, half_width: i64) -> (r: i64)
        requires
            self.arena.wf(),
            in_limit(half_width as int),
            in_limit(self.paddle_padding as int),
        ensures
            r == self.left_bound(half_width as int),
    {
        self.arena.left + self.arena.wall_thickness / 2 + half_width + self.paddle_padding
    }

    pub fn right_bound_of(&self, half_width: i64) -> (r: i64)
        requires
            self.arena.wf(),
            in_limit(half_width as int),
            in_limit(self.paddle_padding as int),
        ensures
            r == self.right_bound(half_width as int),
    {
        self.arena.right - self.arena.wall_thickness / 2 - half_width - self.paddle_padding
    }
}

/// What the simulation holds from tick to tick.
pub struct State {
    pub paddle: Aabb,
    pub ball: Ball,
    pub bricks: Seq<Brick>,
    pub score: int,
}

/// The bodies of `bricks`, in order.
pub open spec fn bodies(bricks: Seq<Brick>) -> Seq<Aabb> {
    bricks.map_values(|b: Brick| b.body)
}

/// The velocity after bouncing off one collider that `ball_box` may touch.
pub open spec fn respond(ball_box: Aabb, vel: Vector, target: Aabb) -> Vector {
    match contact(ball_box, target) {
        Some(c) => reflected(vel, c),
        None => vel,
    }
}

/// The velocity after bouncing off each of `targets` in turn.
pub open spec fn respond_all(ball_box: Aabb, vel: Vector, targets: Seq<Aabb>) -> Vector
    decreases targets.len(),
{
    if targets.len() == 0 {
        vel
    } else {
        respond(ball_box, respond_all(ball_box, vel, targets.drop_last()), targets.last())
    }
}

/// The contacts of `ball_box` with `targets`, in order, one per collider touched.
pub open spec fn contacts(ball_box: Aabb, targets: Seq<Aabb>) -> Seq<Collision>
    decreases targets.len(),
{
    if targets.len() == 0 {
        seq![]
    } else {
        let r = contacts(ball_box, targets.drop_last());
        match contact(ball_box, targets.last()) {
            Some(c) => r.push(c),
            None => r,
        }
    }
}

/// The bricks of `bricks` that `ball_box` does not touch, in order.
pub open spec fn survivors(ball_box: Aabb, bricks: Seq<Brick>) -> Seq<Brick>
    decreases bricks.len(),
{
    if bricks.len() == 0 {
        seq![]
    } else {
        let r = survivors(ball_box, bricks.drop_last());
        if overlaps(ball_box, bricks.last().body) {
            r
        } else {
            r.push(bricks.last())
        }
    }
}

/// The collision pass on a state whose ball has already moved: the walls,
/// then the paddle, then the live bricks, in that order.
pub open spec fn resolve(s: Settings, st: State) -> State {
    let bb = st.ball.bounding_box();
    let vel = respond_all(bb, respond_all(bb, st.ball.vel, wall_boxes(s.arena).push(st.paddle)), bodies(st.bricks));
    let live = survivors(bb, st.bricks);
    State {
        paddle: st.paddle,
        ball: Ball { vel, ..st.ball },
        bricks: live,
        score: st.score + (st.bricks.len() - live.len()),
    }
}

/// The contacts that the collision pass on `st` reports.
pub open spec fn resolve_contacts(s: Settings, st: State) -> Seq<Collision> {
    let bb = st.ball.bounding_box();
    contacts(bb, wall_boxes(s.arena).push(st.paddle)) + contacts(bb, bodies(st.bricks))
}

/// The state after the paddle has moved for `input`.
pub open spec fn paddle_moved(s: Settings, st: State, input: PaddleInput) -> State {
    let hw = st.paddle.half.x as int;
    let x = paddle_step(
        st.paddle.center.x as int,
        input,
        s.paddle_speed as int,
        s.time_step as int,
        s.left_bound(hw),
        s.right_bound(hw),
    );
    State { paddle: Aabb { center: Vector { x: x as i64, ..st.paddle.center }, ..st.paddle }, ..st }
}

/// The state after the ball has moved for one tick.
pub open spec fn ball_moved(s: Settings, st: State) -> State {
    let p = integrated(st.ball.pos, st.ball.vel, s.time_step as int);
    State { ball: Ball { pos: Vector { x: p.0 as i64, y: p.1 as i64 }, ..st.ball }, ..st }
}

/// One tick: paddle motion, then ball integration, then the collision pass.
pub open spec fn tick(s: Settings, st: State, input: PaddleInput) -> State {
    resolve(s, ball_moved(s, paddle_moved(s, st, input)))
}

/// The state after one tick per input of `inputs`, in order.
pub open spec fn run(s: Settings, st: State, inputs: Seq<PaddleInput>) -> State
    decreases inputs.len(),
{
    if inputs.len() == 0 {
        st
    } else {
        tick(s, run(s, st, inputs.drop_last()), inputs.last())
    }
}

/// The settings make sense and the paddle lies within its bounds.
pub open spec fn paddle_valid(s: Settings, st: State) -> bool {
    let hw = st.paddle.half.x as int;
    &&& s.arena.wf()
    &&& in_limit(s.paddle_padding as int)
    &&& st.paddle.wf()
    &&& in_limit(hw)
    &&& s.left_bound(hw) <= s.right_bound(hw)
    &&& s.left_bound(hw) <= st.paddle.center.x <= s.right_bound(hw)
}

/// The whole simulation: settings, paddle, ball, live bricks and score.
pub struct World {
    pub settings: Settings,
    pub paddle: Aabb,
    pub ball: Ball,
    pub bricks: Vec<Brick>,
    pub scoreboard: Scoreboard,
}

impl World {
    pub open spec fn view(&self) -> State {
        State {
            paddle: self.paddle,
            ball: self.ball,
            bricks: self.bricks@,
            score: self.scoreboard.score as int,
        }
    }

    /// The settings make sense and the state is one the simulation can reach.
    pub open spec fn wf(&self) -> bool {
        &&& paddle_valid(self.settings, self@)
        &&& self.ball.radius >= 0
        &&& reflectable(self.ball.vel)
        &&& self.scoreboard.score + self.bricks@.len() <= u64::MAX
    }

    /// The ball's next position lies within `i64`.
    pub open spec fn can_move_ball(&self) -> bool {
        let p = integrated(self.ball.pos, self.ball.vel, self.settings.time_step as int);
        fits_i64(p.0) && fits_i64(p.1)
    }

    /// Moves the paddle for the held keys, keeping it within its bounds.
    pub fn move_paddle(&mut self, input: PaddleInput)
        requires
            old(self).wf(),
        ensures
            final(self).wf(),
            final(self).settings == old(self).settings,
            final(self)@ == paddle_moved(old(self).settings, old(self)@, input),
    {
        let lo = self.settings.left_bound_of(self.paddle.half.x);
        let hi = self.settings.right_bound_of(self.paddle.half.x);
        let x = move_paddle(self.paddle.center.x, input, self.settings.paddle_speed, self.settings.time_step, lo, hi);
        self.paddle.center.x = x;
    }

    /// Moves the ball by its velocity over one tick.
    pub fn apply_velocity(&mut self)
        requires
            old(self).wf(),
            old(self).can_move_ball(),
        ensures
            final(self).wf(),
            final(self).settings == old(self).settings,
            final(self)@ == ball_moved(old(self).settings, old(self)@),
    {
        let p = apply_velocity(self.ball.pos, self.ball.vel, self.settings.time_step);
        self.ball.pos = p;
    }

    /// The collision pass: tests the ball against the walls, the paddle and
    /// each live brick in turn; bounces the ball off each collider it
    /// touches, destroys and scores each brick it touches, and returns one
    /// contact per collider touched.
    pub fn check_for_collisions(&mut self) -> (events: Vec<Collision>)
        requires
            old(self).wf(),
        ensures
            final(self).wf(),
            final(self).settings == old(self).settings,
            final(self)@ == resolve(old(self).settings, old(self)@),
            events@ == resolve_contacts(old(self).settings, old(self)@),
    {
        let bb = self.ball.collider();
        let ghost v0 = self.ball.vel;
        let ghost st0 = self@;
        let walls = wall_colliders(&self.settings.arena);
        let mut events: Vec<Collision> = Vec::new();
        let mut i: usize = 0;
        while i < walls.len()
            invariant
                bb == self.ball.bounding_box(),
                0 <= i <= walls@.len(),
                self.bricks@ == st0.bricks,
                self.paddle == st0.paddle,
                self.settings == old(self).settings,
                self.scoreboard == old(self).scoreboard,
                walls@ == wall_boxes(self.settings.arena),
                reflectable(self.ball.vel),
                self.ball.vel == respond_all(bb, v0, walls@.take(i as int)),
                events@ == contacts(bb, walls@.take(i as int)),
            decreases walls@.len() - i,
        {
            assert(walls@.take(i + 1).drop_last() =~= walls@.take(i as int));
            match collide(&bb, &walls[i]) {
                Some(c) => {
                    events.push(c);
                    self.ball.vel = reflect(self.ball.vel, c);
                },
                None => {},
            }
            i = i + 1;
        }
        let ghost pre = wall_boxes(self.settings.arena).push(self.paddle);
        assert(pre.drop_last() =~= walls@.take(i as int));
        match collide(&bb, &self.paddle) {
            Some(c) => {
                events.push(c);
                self.ball.vel = reflect(self.ball.vel, c);
            },
            None => {},
        }
        assert(self.ball.vel == respond_all(bb, v0, pre));
        let ghost v1 = self.ball.vel;
        let ghost ev1 = events@;

        let mut kept: Vec<Brick> = Vec::new();
        let mut j: usize = 0;
        let n = self.bricks.len();
        while j < n
            invariant
                bb == self.ball.bounding_box(),
                n == self.bricks@.len(),
                self.bricks@ == st0.bricks,
                self.paddle == st0.paddle,
                self.settings == old(self).settings,
                0 <= j <= n,
                reflectable(self.ball.vel),
                self.ball.vel == respond_all(bb, v1, bodies(self.bricks@.take(j as int))),
                events@ == ev1 + contacts(bb, bodies(self.bricks@.take(j as int))),
                kept@ == survivors(bb, self.bricks@.take(j as int)),
                kept@.len() <= j,
                self.scoreboard.score == st0.score + (j - kept@.len()),
                st0.score + n <= u64::MAX,
            decreases n - j,
        {
            assert(self.bricks@.take(j + 1).drop_last() =~= self.bricks@.take(j as int));
            assert(bodies(self.bricks@.take(j + 1)).drop_last() =~= bodies(self.bricks@.take(j as int)));
            let b = self.bricks[j];
            match collide(&bb, &b.body) {
                Some(c) => {
                    events.push(c);
                    self.scoreboard.increment();
                    self.ball.vel = reflect(self.ball.vel, c);
                },
                None => {
                    kept.push(b);
                },
            }
            proof {
                assert(events@ =~= ev1 + contacts(bb, bodies(self.bricks@.take(j + 1))));
            }
            j = j + 1;
        }
        assert(self.bricks@.take(n as int) =~= self.bricks@);
        self.bricks = kept;
        events
    }

    /// One tick: moves the paddle for the held keys, moves the ball, then
    /// runs the collision pass; returns the contacts of that pass.
    pub fn step(&mut self, input: PaddleInput) -> (events: Vec<Collision>)
        requires
            old(self).wf(),
            old(self).can_move_ball(),
        ensures
            final(self).wf(),
            final(self).settings == old(self).settings,
            final(self)@ == tick(old(self).settings, old(self)@, input),
            events@ == resolve_contacts(
                old(self).settings,
                ball_moved(old(self).settings, paddle_moved(old(self).settings, old(self)@, input)),
            ),
    {
        self.move_paddle(input);
        self.apply_velocity();
        self.check_for_collisions()
    }
}


/// The bricks that survive a collision pass are bricks that were there.
pub proof fn lemma_survivors_subset(bb: Aabb, bricks: Seq<Brick>)
    ensures
        survivors(bb, bricks).len() <= bricks.len(),
        forall|b: Brick| #[trigger] survivors(bb, bricks).contains(b) ==> bricks.contains(b)
            && !overlaps(bb, b.body),
    decreases bricks.len(),
{
    if bricks.len() > 0 {
        let rest = bricks.drop_last();
        lemma_survivors_subset(bb, rest);
        let r = survivors(bb, rest);
        assert forall|b: Brick| #[trigger] survivors(bb, bricks).contains(b) implies bricks.contains(b)
            && !overlaps(bb, b.body) by {
            if r.contains(b) {
                assert(rest.contains(b));
                let k = choose|k: int| 0 <= k < rest.len() && rest[k] == b;
                assert(bricks[k] == rest[k]);
                assert(!overlaps(bb, b.body));
            } else {
                assert(!overlaps(bb, bricks.last().body));
                assert(survivors(bb, bricks) == r.push(bricks.last()));
                let k = choose|k: int| 0 <= k < r.len() + 1 && r.push(bricks.last())[k] == b;
                assert(k == r.len());
                assert(b == bricks.last());
                assert(bricks[bricks.len() - 1] == b);
            }
        }
    } else {
        assert(survivors(bb, bricks) =~= Seq::<Brick>::empty());
    }
}

/// A tick keeps the paddle within its bounds and its size as it was.
pub proof fn lemma_tick_keeps_paddle_valid(s: Settings, st: State, input: PaddleInput)
    requires
        paddle_valid(s, st),
    ensures
        paddle_valid(s, tick(s, st, input)),
        tick(s, st, input).paddle.half == st.paddle.half,
        tick(s, st, input).paddle.center.y == st.paddle.center.y,
{
}

/// Whatever keys are held, tick after tick, the paddle stays within
/// `[left_bound, right_bound]`.
pub proof fn lemma_paddle_in_bounds(s: Settings, st: State, inputs: Seq<PaddleInput>)
    requires
        paddle_valid(s, st),
    ensures
        paddle_valid(s, run(s, st, inputs)),
        s.left_bound(st.paddle.half.x as int) <= run(s, st, inputs).paddle.center.x
            <= s.right_bound(st.paddle.half.x as int),
    decreases inputs.len(),
{
    if inputs.len() > 0 {
        lemma_paddle_in_bounds(s, st, inputs.drop_last());
        let mid = run(s, st, inputs.drop_last());
        lemma_tick_keeps_paddle_valid(s, mid, inputs.last());
        lemma_paddle_half_kept(s, st, inputs);
    }
}

/// Ticks never change the paddle's size.
pub proof fn lemma_paddle_half_kept(s: Settings, st: State, inputs: Seq<PaddleInput>)
    ensures
        run(s, st, inputs).paddle.half == st.paddle.half,
    decreases inputs.len(),
{
    if inputs.len() > 0 {
        lemma_paddle_half_kept(s, st, inputs.drop_last());
    }
}

/// In one tick the score grows by exactly the number of bricks destroyed in
/// that tick, and so never falls.
pub proof fn lemma_tick_score(s: Settings, st: State, input: PaddleInput)
    ensures
        tick(s, st, input).bricks.len() <= st.bricks.len(),
        tick(s, st, input).score == st.score + (st.bricks.len() - tick(s, st, input).bricks.len()),
        tick(s, st, input).score >= st.score,
{
    let m = ball_moved(s, paddle_moved(s, st, input));
    lemma_survivors_subset(m.ball.bounding_box(), m.bricks);
}

/// Over any run of ticks the score never falls, and score plus live bricks
/// stays what it was.
pub proof fn lemma_score_monotone(s: Settings, st: State, inputs: Seq<PaddleInput>)
    ensures
        run(s, st, inputs).score >= st.score,
        run(s, st, inputs).score + run(s, st, inputs).bricks.len() == st.score + st.bricks.len(),
    decreases inputs.len(),
{
    if inputs.len() > 0 {
        lemma_score_monotone(s, st, inputs.drop_last());
        lemma_tick_score(s, run(s, st, inputs.drop_last()), inputs.last());
    }
}

/// A brick that the ball touches in a tick is gone from the live set after
/// it, and no brick enters the live set.
pub proof fn lemma_tick_destroys_touched(s: Settings, st: State, input: PaddleInput, b: Brick)
    ensures
        tick(s, st, input).bricks.contains(b) ==> st.bricks.contains(b),
        overlaps(ball_moved(s, paddle_moved(s, st, input)).ball.bounding_box(), b.body)
            ==> !tick(s, st, input).bricks.contains(b),
{
    let m = ball_moved(s, paddle_moved(s, st, input));
    lemma_survivors_subset(m.ball.bounding_box(), m.bricks);
}

/// A brick that is not live (destroyed, or never there) stays out of the
/// live set for every later tick; as each collision pass tests the live
/// bricks alone, no later pass touches it.
pub proof fn lemma_destroyed_stays_gone(s: Settings, st: State, inputs: Seq<PaddleInput>, b: Brick)
    requires
        !st.bricks.contains(b),
    ensures
        !run(s, st, inputs).bricks.contains(b),
    decreases inputs.len(),
{
    if inputs.len() > 0 {
        lemma_destroyed_stays_gone(s, st, inputs.drop_last(), b);
        lemma_tick_destroys_touched(s, run(s, st, inputs.drop_last()), inputs.last(), b);
    }
}

} // verus!
