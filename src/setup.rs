//! The standard session: its constants, the grid of bricks, and the
//! initial world.
//!
//! Lengths are in sub-pixel units of one sixtieth of a pixel and time is in
//! ticks of one sixtieth of a second, so a speed in units per tick reads as
//! pixels per second.
use vstd::prelude::*;
use crate::arena::Arena;
use crate::geometry::{Aabb, Vector};
use crate::motion::fits_i64;
use crate::world::{Ball, Brick, Scoreboard, Settings, World};

verus! {

/// The length of one tick.
pub const TIME_STEP: i64 = 1;

pub const PADDLE_WIDTH: i64 = 7200;
pub const PADDLE_HEIGHT: i64 = 1200;
pub const GAP_BETWEEN_PADDLE_AND_FLOOR: i64 = 3600;
pub const PADDLE_SPEED: i64 = 500;
/// How close the paddle can get to a wall.
pub const PADDLE_PADDING: i64 = 600;

pub const BALL_START_X: i64 = 0;
pub const BALL_START_Y: i64 = -3000;
/// The side of the ball's bounding square.
pub const BALL_SIZE: i64 = 900;
/// The initial velocity: speed 400 along the down-right diagonal, rounded.
pub const BALL_START_VX: i64 = 283;
pub const BALL_START_VY: i64 = -283;

pub const WALL_THICKNESS: i64 = 600;
pub const LEFT_WALL: i64 = -27000;
pub const RIGHT_WALL: i64 = 27000;
pub const BOTTOM_WALL: i64 = -18000;
pub const TOP_WALL: i64 = 18000;

pub const BRICK_WIDTH: i64 = 4800;
pub const BRICK_HEIGHT: i64 = 900;
pub const GAP_BETWEEN_PADDLE_AND_BRICKS: i64 = 16200;
pub const GAP_BETWEEN_BRICKS: i64 = 2400;
/// Lower bounds: the number of bricks is what fits within them.
pub const GAP_BETWEEN_BRICKS_AND_CEILING: i64 = 1200;
pub const GAP_BETWEEN_BRICKS_AND_SIDES: i64 = 1200;

pub const PADDLE_Y: i64 = BOTTOM_WALL + GAP_BETWEEN_PADDLE_AND_FLOOR;

/// The brick in row `row` and column `column` of a grid of `n_columns`
/// columns whose first brick is centered at `offset`, with `pitch` from one
/// brick's center to the next; bricks are numbered row by row.
pub open spec fn grid_brick(row: int, column: int, n_columns: int, offset: Vector, pitch: Vector, half: Vector) -> Brick {
    Brick {
        id: (row * n_columns + column) as u64,
        body: Aabb {
            center: Vector {
                x: (offset.x + column * pitch.x) as i64,
                y: (offset.y + row * pitch.y) as i64,
            },
            half,
        },
    }
}

proof fn lemma_grid_index(rr: int, c: int, row: int, n: int)
    requires
        0 <= rr < row,
        0 <= c < n,
    ensures
        0 <= rr * n + c < row * n,
{
    assert(0 <= rr * n + c < row * n) by (nonlinear_arith)
        requires
            0 <= rr < row,
            0 <= c < n,
    ;
}

proof fn lemma_between(k: int, n: int, p: int, o: int)
    requires
        0 <= k < n,
        fits_i64(o),
        fits_i64(o + (n - 1) * p),
    ensures
        fits_i64(o + k * p),
        -0x4000_0000_0000_0000_0000_0000_0000_0000int <= k * p <= 0x4000_0000_0000_0000_0000_0000_0000_0000int,
{
    assert(fits_i64(o + k * p)) by (nonlinear_arith)
        requires
            0 <= k < n,
            fits_i64(o),
            fits_i64(o + (n - 1) * p),
    ;
}

/// Lays out `n_rows` rows of `n_columns` bricks, row by row.
pub fn brick_grid(n_rows: usize, n_columns: usize, offset: Vector, pitch: Vector, half: Vector) -> (r: Vec<Brick>)
    requires
        n_rows * n_columns <= u64::MAX,
        n_columns == 0 || fits_i64(offset.x + (n_columns - 1) * pitch.x),
        n_rows == 0 || fits_i64(offset.y + (n_rows - 1) * pitch.y),
    ensures
        r@.len() == n_rows * n_columns,
        forall|row: int, column: int|
            0 <= row < n_rows && 0 <= column < n_columns ==> #[trigger] r@[row * n_columns + column]
                == grid_brick(row, column, n_columns as int, offset, pitch, half),
{
    let mut r: Vec<Brick> = Vec::new();
    let mut row: usize = 0;
    while row < n_rows
        invariant
            0 <= row <= n_rows,
            n_rows * n_columns <= u64::MAX,
            n_columns == 0 || fits_i64(offset.x + (n_columns - 1) * pitch.x),
            n_rows == 0 || fits_i64(offset.y + (n_rows - 1) * pitch.y),
            r@.len() == row * n_columns,
            forall|rr: int, c: int|
                0 <= rr < row && 0 <= c < n_columns ==> #[trigger] r@[rr * n_columns + c]
                    == grid_brick(rr, c, n_columns as int, offset, pitch, half),
        decreases n_rows - row,
    {
        proof {
            lemma_between(row as int, n_rows as int, pitch.y as int, offset.y as int);
        }
        let y = (offset.y as i128 + row as i128 * pitch.y as i128) as i64;
        let mut column: usize = 0;
        while column < n_columns
            invariant
                0 <= row < n_rows,
                0 <= column <= n_columns,
                n_rows * n_columns <= u64::MAX,
                n_columns == 0 || fits_i64(offset.x + (n_columns - 1) * pitch.x),
                y == offset.y + row * pitch.y,
                r@.len() == row * n_columns + column,
                forall|rr: int, c: int|
                    0 <= rr < row && 0 <= c < n_columns ==> #[trigger] r@[rr * n_columns + c]
                        == grid_brick(rr, c, n_columns as int, offset, pitch, half),
                forall|c: int|
                    0 <= c < column ==> #[trigger] r@[row * n_columns + c]
                        == grid_brick(row as int, c, n_columns as int, offset, pitch, half),
            decreases n_columns - column,
        {
            proof {
                lemma_between(column as int, n_columns as int, pitch.x as int, offset.x as int);
                lemma_grid_index(row as int, column as int, (row + 1) as int, n_columns as int);
                assert((row + 1) * n_columns == row * n_columns + n_columns) by (nonlinear_arith);
            }
            let x = (offset.x as i128 + column as i128 * pitch.x as i128) as i64;
            let id = r.len() as u64;
            let ghost prev = r@;
            r.push(Brick { id, body: Aabb { center: Vector { x, y }, half } });
            proof {
                assert forall|rr: int, c: int|
                    0 <= rr < row && 0 <= c < n_columns implies #[trigger] r@[rr * n_columns + c]
                        == grid_brick(rr, c, n_columns as int, offset, pitch, half) by {
                    lemma_grid_index(rr, c, row as int, n_columns as int);
                    assert(r@[rr * n_columns + c] == prev[rr * n_columns + c]);
                }
                assert forall|c: int|
                    0 <= c < column + 1 implies #[trigger] r@[row * n_columns + c]
                        == grid_brick(row as int, c, n_columns as int, offset, pitch, half) by {
                    if c < column {
                        assert(r@[row * n_columns + c] == prev[row * n_columns + c]);
                    }
                }
            }
            column = column + 1;
        }
        proof {
            assert((row + 1) * n_columns == row * n_columns + n_columns) by (nonlinear_arith);
            assert forall|rr: int, c: int|
                0 <= rr < row + 1 && 0 <= c < n_columns implies #[trigger] r@[rr * n_columns + c]
                    == grid_brick(rr, c, n_columns as int, offset, pitch, half) by {
                if rr == row {
                    assert(r@[row * n_columns + c] == grid_brick(row as int, c, n_columns as int, offset, pitch, half));
                }
            }
        }
        row = row + 1;
    }
    r
}


/// How many columns of bricks fit between the side gaps.
pub open spec fn brick_columns() -> int {
    ((RIGHT_WALL - LEFT_WALL) - 2 * GAP_BETWEEN_BRICKS_AND_SIDES) / (BRICK_WIDTH + GAP_BETWEEN_BRICKS)
}

/// The y of the bricks' bottom edge.
pub open spec fn bricks_bottom() -> int {
    PADDLE_Y + GAP_BETWEEN_PADDLE_AND_BRICKS
}

/// How many rows of bricks fit between the bottom edge and the ceiling gap.
pub open spec fn brick_rows() -> int {
    (TOP_WALL - bricks_bottom() - GAP_BETWEEN_BRICKS_AND_CEILING) / (BRICK_HEIGHT + GAP_BETWEEN_BRICKS)
}

/// The center of the first brick: the grid, gaps included, is centered
/// between the walls.
pub open spec fn grid_offset() -> Vector {
    let center = (LEFT_WALL + RIGHT_WALL) / 2;
    let left_edge = center - brick_columns() * BRICK_WIDTH / 2 - (brick_columns() - 1) * GAP_BETWEEN_BRICKS / 2;
    Vector { x: (left_edge + BRICK_WIDTH / 2) as i64, y: (bricks_bottom() + BRICK_HEIGHT / 2) as i64 }
}

pub open spec fn grid_pitch() -> Vector {
    Vector { x: (BRICK_WIDTH + GAP_BETWEEN_BRICKS) as i64, y: (BRICK_HEIGHT + GAP_BETWEEN_BRICKS) as i64 }
}

pub open spec fn brick_half() -> Vector {
    Vector { x: (BRICK_WIDTH / 2) as i64, y: (BRICK_HEIGHT / 2) as i64 }
}

pub open spec fn standard_settings() -> Settings {
    Settings {
        arena: Arena {
            left: LEFT_WALL,
            right: RIGHT_WALL,
            bottom: BOTTOM_WALL,
            top: TOP_WALL,
            wall_thickness: WALL_THICKNESS,
        },
        paddle_speed: PADDLE_SPEED,
        paddle_padding: PADDLE_PADDING,
        time_step: TIME_STEP,
    }
}

/// Builds the standard session: the paddle centered above the floor, the
/// ball at its start, the grid of bricks that fits, and a score of zero.
pub fn setup() -> (w: World)
    ensures
        w.wf(),
        w.settings == standard_settings(),
        w.paddle == (Aabb {
            center: Vector { x: 0, y: PADDLE_Y },
            half: Vector { x: (PADDLE_WIDTH / 2) as i64, y: (PADDLE_HEIGHT / 2) as i64 },
        }),
        w.ball == (Ball {
            pos: Vector { x: BALL_START_X, y: BALL_START_Y },
            vel: Vector { x: BALL_START_VX, y: BALL_START_VY },
            radius: (BALL_SIZE / 2) as i64,
        }),
        w.scoreboard.score == 0,
        w.bricks@.len() == brick_rows() * brick_columns(),
        forall|row: int, column: int|
            0 <= row < brick_rows() && 0 <= column < brick_columns() ==> #[trigger] w.bricks@[row * brick_columns()
                + column]
                == grid_brick(row, column, brick_columns(), grid_offset(), grid_pitch(), brick_half()),
{
    let settings = Settings {
        arena: Arena::new(LEFT_WALL, RIGHT_WALL, BOTTOM_WALL, TOP_WALL, WALL_THICKNESS),
        paddle_speed: PADDLE_SPEED,
        paddle_padding: PADDLE_PADDING,
        time_step: TIME_STEP,
    };
    let paddle = Aabb {
        center: Vector { x: 0, y: PADDLE_Y },
        half: Vector { x: PADDLE_WIDTH / 2, y: PADDLE_HEIGHT / 2 },
    };
    let ball = Ball {
        pos: Vector { x: BALL_START_X, y: BALL_START_Y },
        vel: Vector { x: BALL_START_VX, y: BALL_START_VY },
        radius: BALL_SIZE / 2,
    };

    let total_width_of_bricks = (RIGHT_WALL - LEFT_WALL) - 2 * GAP_BETWEEN_BRICKS_AND_SIDES;
    let bottom_edge_of_bricks = PADDLE_Y + GAP_BETWEEN_PADDLE_AND_BRICKS;
    let total_height_of_bricks = TOP_WALL - bottom_edge_of_bricks - GAP_BETWEEN_BRICKS_AND_CEILING;
    let n_columns = total_width_of_bricks / (BRICK_WIDTH + GAP_BETWEEN_BRICKS);
    let n_rows = total_height_of_bricks / (BRICK_HEIGHT + GAP_BETWEEN_BRICKS);
    let n_vertical_gaps = n_columns - 1;
    let center_of_bricks = (LEFT_WALL + RIGHT_WALL) / 2;
    let left_edge_of_bricks = center_of_bricks - n_columns * BRICK_WIDTH / 2 - n_vertical_gaps
        * GAP_BETWEEN_BRICKS / 2;
    let offset = Vector { x: left_edge_of_bricks + BRICK_WIDTH / 2, y: bottom_edge_of_bricks + BRICK_HEIGHT / 2 };
    let pitch = Vector { x: BRICK_WIDTH + GAP_BETWEEN_BRICKS, y: BRICK_HEIGHT + GAP_BETWEEN_BRICKS };
    let half = Vector { x: BRICK_WIDTH / 2, y: BRICK_HEIGHT / 2 };
    assert(n_columns == brick_columns() && n_rows == brick_rows());
    assert(offset == grid_offset());
    assert(0 < n_rows <= total_height_of_bricks && 0 < n_columns <= total_width_of_bricks) by (nonlinear_arith)
        requires
            n_rows == total_height_of_bricks as int / (BRICK_HEIGHT + GAP_BETWEEN_BRICKS) as int,
            n_columns == total_width_of_bricks as int / (BRICK_WIDTH + GAP_BETWEEN_BRICKS) as int,
            total_height_of_bricks == TOP_WALL - (PADDLE_Y + GAP_BETWEEN_PADDLE_AND_BRICKS)
                - GAP_BETWEEN_BRICKS_AND_CEILING,
            total_width_of_bricks == (RIGHT_WALL - LEFT_WALL) - 2 * GAP_BETWEEN_BRICKS_AND_SIDES,
    ;
    assert(fits_i64(offset.y + (n_rows - 1) * pitch.y)) by (nonlinear_arith)
        requires
            0 < n_rows <= total_height_of_bricks,
            total_height_of_bricks == TOP_WALL - (PADDLE_Y + GAP_BETWEEN_PADDLE_AND_BRICKS)
                - GAP_BETWEEN_BRICKS_AND_CEILING,
            offset.y == PADDLE_Y + GAP_BETWEEN_PADDLE_AND_BRICKS + BRICK_HEIGHT / 2,
            pitch.y == BRICK_HEIGHT + GAP_BETWEEN_BRICKS,
    ;
    assert(fits_i64(offset.x + (n_columns - 1) * pitch.x)) by (nonlinear_arith)
        requires
            0 < n_columns <= total_width_of_bricks,
            total_width_of_bricks == (RIGHT_WALL - LEFT_WALL) - 2 * GAP_BETWEEN_BRICKS_AND_SIDES,
            -total_width_of_bricks <= offset.x <= total_width_of_bricks,
            pitch.x == BRICK_WIDTH + GAP_BETWEEN_BRICKS,
    ;
    let bricks = brick_grid(n_rows as usize, n_columns as usize, offset, pitch, half);
    World { settings, paddle, ball, bricks, scoreboard: Scoreboard::new() }
}

} // verus!
