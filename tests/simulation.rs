use breakout::arena::{wall_colliders, Arena, WallLocation};
use breakout::collision::{collide, reflect, Collision};
use breakout::geometry::{Aabb, Vector};
use breakout::motion::{apply_velocity, direction, move_paddle, PaddleInput};
use breakout::setup::{brick_grid, setup, PADDLE_SPEED, TIME_STEP};
use breakout::world::{Ball, Brick, Scoreboard, World};

fn boxed(cx: i64, cy: i64, hx: i64, hy: i64) -> Aabb {
    Aabb::new(Vector::new(cx, cy), Vector::new(hx, hy))
}

const NONE: PaddleInput = PaddleInput { left: false, right: false };
const LEFT: PaddleInput = PaddleInput { left: true, right: false };
const RIGHT: PaddleInput = PaddleInput { left: false, right: true };
const BOTH: PaddleInput = PaddleInput { left: true, right: true };

#[test]
fn no_overlap_gives_no_contact() {
    let brick = boxed(0, 0, 10, 10);
    assert_eq!(collide(&boxed(30, 0, 5, 5), &brick), None);
    // Touching edges do not overlap.
    assert_eq!(collide(&boxed(15, 0, 5, 5), &brick), None);
}

#[test]
fn contact_sides() {
    let target = boxed(0, 0, 10, 10);
    assert_eq!(collide(&boxed(-12, 0, 5, 5), &target), Some(Collision::Left));
    assert_eq!(collide(&boxed(12, 0, 5, 5), &target), Some(Collision::Right));
    assert_eq!(collide(&boxed(0, -12, 5, 5), &target), Some(Collision::Bottom));
    assert_eq!(collide(&boxed(0, 12, 5, 5), &target), Some(Collision::Top));
    assert_eq!(collide(&boxed(0, 0, 5, 5), &target), Some(Collision::Inside));
}

#[test]
fn corner_contact_picks_smaller_penetration() {
    let target = boxed(0, 0, 10, 10);
    // Horizontal depth 2, vertical depth 4: the left side.
    assert_eq!(collide(&boxed(-13, -11, 5, 5), &target), Some(Collision::Left));
    // Horizontal depth 4, vertical depth 2: the bottom side.
    assert_eq!(collide(&boxed(-11, -13, 5, 5), &target), Some(Collision::Bottom));
    // Equal depths: the vertical axis wins.
    assert_eq!(collide(&boxed(-12, 12, 5, 5), &target), Some(Collision::Top));
}

#[test]
fn left_contact_reflects_only_motion_into_the_side() {
    assert_eq!(reflect(Vector::new(7, -3), Collision::Left), Vector::new(-7, -3));
    assert_eq!(reflect(Vector::new(-7, -3), Collision::Left), Vector::new(-7, -3));
    assert_eq!(reflect(Vector::new(0, -3), Collision::Left), Vector::new(0, -3));
}

#[test]
fn other_sides_reflect_their_axis() {
    assert_eq!(reflect(Vector::new(-4, 2), Collision::Right), Vector::new(4, 2));
    assert_eq!(reflect(Vector::new(4, 2), Collision::Right), Vector::new(4, 2));
    assert_eq!(reflect(Vector::new(4, -2), Collision::Top), Vector::new(4, 2));
    assert_eq!(reflect(Vector::new(4, 2), Collision::Top), Vector::new(4, 2));
    assert_eq!(reflect(Vector::new(4, 2), Collision::Bottom), Vector::new(4, -2));
    assert_eq!(reflect(Vector::new(4, -2), Collision::Bottom), Vector::new(4, -2));
    assert_eq!(reflect(Vector::new(4, -2), Collision::Inside), Vector::new(4, -2));
}

#[test]
fn direction_combines_keys() {
    assert_eq!(direction(NONE), 0);
    assert_eq!(direction(LEFT), -1);
    assert_eq!(direction(RIGHT), 1);
    assert_eq!(direction(BOTH), 0);
}

#[test]
fn paddle_moves_and_clamps() {
    assert_eq!(move_paddle(0, RIGHT, 500, 1, -1000, 1000), 500);
    assert_eq!(move_paddle(0, BOTH, 500, 1, -1000, 1000), 0);
    assert_eq!(move_paddle(800, RIGHT, 500, 1, -1000, 1000), 1000);
    assert_eq!(move_paddle(-800, LEFT, 100, 3, -1000, 1000), -1000);
    assert_eq!(move_paddle(i64::MAX - 1, RIGHT, i64::MAX, i64::MAX, 0, i64::MAX), i64::MAX);
}

#[test]
fn paddle_held_left_stops_at_bound() {
    let lb: i64 = -22500;
    let rb: i64 = 22500;
    for (p, t, dt) in [(500i64, 10i64, 1i64), (500, 100, 1), (7, 13, 3), (1000, 22, 1), (1000, 23, 1)] {
        let mut x: i64 = 0;
        for _ in 0..t {
            x = move_paddle(x, LEFT, p, dt, lb, rb);
        }
        assert_eq!(x, std::cmp::max(lb, -p * t * dt));
    }
}

#[test]
fn world_paddle_held_left_for_many_ticks() {
    let mut w = setup();
    for _ in 0..10 {
        w.move_paddle(LEFT);
    }
    assert_eq!(w.paddle.center.x, -PADDLE_SPEED * 10 * TIME_STEP);
    for _ in 0..100 {
        w.move_paddle(LEFT);
    }
    assert_eq!(w.paddle.center.x, -22500);
}

#[test]
fn paddle_stays_in_bounds_for_any_inputs() {
    let mut w = setup();
    let inputs = [LEFT, LEFT, RIGHT, BOTH, NONE, RIGHT];
    for k in 0..500usize {
        let input = inputs[(k * 7 + k / 3) % inputs.len()];
        w.move_paddle(input);
        assert!(-22500 <= w.paddle.center.x && w.paddle.center.x <= 22500);
    }
    for _ in 0..200 {
        w.move_paddle(RIGHT);
        assert!(w.paddle.center.x <= 22500);
    }
    assert_eq!(w.paddle.center.x, 22500);
}

#[test]
fn integration_moves_by_velocity_times_step() {
    assert_eq!(apply_velocity(Vector::new(10, -20), Vector::new(3, -4), 5), Vector::new(25, -40));
}

#[test]
fn ball_at_rest_stays_put() {
    let mut p = Vector::new(-123, 456);
    for _ in 0..1000 {
        p = apply_velocity(p, Vector::new(0, 0), 7);
    }
    assert_eq!(p, Vector::new(-123, 456));
}

#[test]
fn wall_geometry() {
    let a = Arena::new(-27000, 27000, -18000, 18000, 600);
    assert_eq!(WallLocation::Left.position(&a), Vector::new(-27000, 0));
    assert_eq!(WallLocation::Top.position(&a), Vector::new(0, 18000));
    assert_eq!(WallLocation::Left.size(&a), Vector::new(600, 36600));
    assert_eq!(WallLocation::Bottom.size(&a), Vector::new(54600, 600));
    assert_eq!(
        WallLocation::Right.line(&a),
        (Vector::new(27000, 18000), Vector::new(27000, -18000))
    );
    assert_eq!(
        WallLocation::Bottom.line(&a),
        (Vector::new(-27000, -18000), Vector::new(27000, -18000))
    );
    let walls = wall_colliders(&a);
    assert_eq!(walls.len(), 4);
    assert_eq!(walls[0], boxed(27000, 0, 300, 18300));
    assert_eq!(walls[1], boxed(-27000, 0, 300, 18300));
    assert_eq!(walls[2], boxed(0, -18000, 27300, 300));
    assert_eq!(walls[3], boxed(0, 18000, 27300, 300));
}

#[test]
fn setup_builds_the_standard_session() {
    let w = setup();
    assert_eq!(w.scoreboard.score(), 0);
    assert_eq!(w.paddle, boxed(0, -14400, 3600, 600));
    assert_eq!(w.ball.pos, Vector::new(0, -3000));
    assert_eq!(w.ball.radius, 450);
    assert_eq!(w.bricks.len(), 28);
    assert_eq!(w.bricks[0], Brick { id: 0, body: boxed(-21600, 2250, 2400, 450) });
    assert_eq!(w.bricks[6], Brick { id: 6, body: boxed(21600, 2250, 2400, 450) });
    assert_eq!(w.bricks[27], Brick { id: 27, body: boxed(21600, 12150, 2400, 450) });
}

#[test]
fn brick_grid_layout() {
    let g = brick_grid(2, 3, Vector::new(100, 200), Vector::new(50, 30), Vector::new(10, 5));
    assert_eq!(g.len(), 6);
    assert_eq!(g[4], Brick { id: 4, body: boxed(150, 230, 10, 5) });
    assert_eq!(brick_grid(0, 3, Vector::new(0, 0), Vector::new(1, 1), Vector::new(1, 1)).len(), 0);
}

fn open_field() -> World {
    let mut w = setup();
    w.bricks = Vec::new();
    w.paddle.center.x = 22500;
    w
}

#[test]
fn ball_falling_to_floor_bounces_up() {
    let mut w = open_field();
    let s: i64 = 500;
    w.ball.pos = Vector::new(0, -3000);
    w.ball.vel = Vector::new(0, -s);
    for _ in 0..28 {
        let events = w.step(NONE);
        assert!(events.is_empty());
        assert_eq!(w.ball.vel, Vector::new(0, -s));
    }
    let events = w.step(NONE);
    assert_eq!(events, vec![Collision::Top]);
    assert_eq!(w.ball.pos, Vector::new(0, -3000 - 29 * s));
    assert_eq!(w.ball.vel, Vector::new(0, s));
}

#[test]
fn collision_pass_compounds_reflections() {
    let mut w = open_field();
    // Overlapping the right wall and the top wall at once.
    w.ball.pos = Vector::new(26400, 17400);
    w.ball.vel = Vector::new(100, 100);
    let events = w.check_for_collisions();
    assert_eq!(events, vec![Collision::Left, Collision::Bottom]);
    assert_eq!(w.ball.vel, Vector::new(-100, -100));
}

fn hit_from_below(w: &mut World, b: Brick) -> Vec<Collision> {
    w.ball.pos = Vector::new(b.body.center.x, b.body.center.y - b.body.half.y - w.ball.radius + 100);
    w.ball.vel = Vector::new(0, 500);
    w.check_for_collisions()
}

#[test]
fn destroying_the_standard_grid() {
    let mut w = setup();
    let all: Vec<Brick> = w.bricks.clone();
    for (k, b) in all.iter().enumerate() {
        let events = hit_from_below(&mut w, *b);
        assert_eq!(events, vec![Collision::Bottom]);
        assert_eq!(w.ball.vel, Vector::new(0, -500));
        assert_eq!(w.scoreboard.score(), k as u64 + 1);
        assert!(!w.bricks.contains(b));
    }
    assert_eq!(w.scoreboard.score(), 28);
    assert!(w.bricks.is_empty());
}

#[test]
fn destroying_a_small_grid() {
    let (rows, cols) = (3usize, 5usize);
    let mut w = open_field();
    w.bricks = brick_grid(rows, cols, Vector::new(-12000, 3000), Vector::new(6000, 3000), Vector::new(2400, 450));
    let all: Vec<Brick> = w.bricks.clone();
    for b in all.iter().rev() {
        let before = w.scoreboard.score();
        hit_from_below(&mut w, *b);
        assert_eq!(w.scoreboard.score(), before + 1);
    }
    assert_eq!(w.scoreboard.score(), (rows * cols) as u64);
    assert!(w.bricks.is_empty());
}

#[test]
fn destroyed_brick_never_returns() {
    let mut w = setup();
    let target = w.bricks[3];
    hit_from_below(&mut w, target);
    assert_eq!(w.scoreboard.score(), 1);
    assert_eq!(w.bricks.len(), 27);
    // Hitting the same place again touches nothing.
    let events = hit_from_below(&mut w, target);
    assert!(events.is_empty());
    assert_eq!(w.scoreboard.score(), 1);
    assert!(!w.bricks.contains(&target));
    for _ in 0..300 {
        w.step(NONE);
        assert!(!w.bricks.contains(&target));
    }
}

#[test]
fn score_grows_by_bricks_destroyed_each_tick() {
    let mut w = setup();
    let mut last = w.scoreboard.score();
    let mut live = w.bricks.len() as u64;
    for k in 0..3000usize {
        let input = if (k / 40) % 2 == 0 { LEFT } else { RIGHT };
        w.step(input);
        let now = w.scoreboard.score();
        let live_now = w.bricks.len() as u64;
        assert!(now >= last);
        assert_eq!(now - last, live - live_now);
        last = now;
        live = live_now;
    }
}

#[test]
fn two_bricks_hit_in_one_tick() {
    let mut w = open_field();
    w.bricks = vec![
        Brick { id: 1, body: boxed(-500, 5000, 400, 400) },
        Brick { id: 2, body: boxed(500, 5000, 400, 400) },
    ];
    w.ball.pos = Vector::new(0, 4300);
    w.ball.vel = Vector::new(0, 300);
    let events = w.check_for_collisions();
    // The first contact turns the ball, the second finds it moving away.
    assert_eq!(events, vec![Collision::Bottom, Collision::Bottom]);
    assert_eq!(w.ball.vel, Vector::new(0, -300));
    assert_eq!(w.scoreboard.score(), 2);
    assert!(w.bricks.is_empty());
}

#[test]
fn scoreboard_counts_up() {
    let mut s = Scoreboard::new();
    assert_eq!(s.score(), 0);
    s.increment();
    s.increment();
    assert_eq!(s.score(), 2);
}

#[test]
fn ball_collider_is_square_of_radius() {
    let b = Ball { pos: Vector::new(5, 6), vel: Vector::new(0, 0), radius: 7 };
    assert_eq!(b.collider(), boxed(5, 6, 7, 7));
}

#[test]
fn center_within_collider_is_inside() {
    let target = boxed(0, 0, 100, 100);
    // The ball straddles the top edge only, yet its center is inside.
    assert_eq!(collide(&boxed(0, 95, 10, 10), &target), Some(Collision::Inside));
    // With the center outside, the same edge gives a side.
    assert_eq!(collide(&boxed(0, 105, 10, 10), &target), Some(Collision::Top));
}
