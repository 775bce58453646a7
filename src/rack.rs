use vstd::prelude::*;

verus! {

/// Sub-units in one world unit.
pub const SUBUNITS_PER_UNIT: i64 = 200;

/// Distance between neighbouring rack positions, in sub-units per world unit of
/// ball radius: 2.05 radii.
pub const SPACING_PER_RADIUS: i64 = 410;

/// Half of `SPACING_PER_RADIUS`, the in-row offset of a row with an even
/// number of neighbours on each side.
pub const HALF_SPACING_PER_RADIUS: i64 = 205;

/// Number of rows in the rack.
pub const RACK_ROWS: usize = 5;

/// Number of object balls in the rack.
pub const RACK_SIZE: usize = 15;

/// Flattened index of the distinctly coloured ball: the middle of the third row.
pub const CENTER_BALL: usize = 4;

/// Largest coordinate magnitude accepted for a rack origin.
pub const COORD_LIMIT: i64 = 1_000_000_000_000_000;

/// Largest ball radius accepted, in world units.
pub const RADIUS_LIMIT: u32 = 1_000_000;

/// A point of the table plane, in sub-units.
#[derive(Clone, Copy, Debug, PartialEq, Eq, Structural)]
pub struct Point {
    pub x: i64,
    pub y: i64,
}

/// What a ball is for; `Eight` differs from `Regular` only in its colour.
#[derive(Clone, Copy, Debug, PartialEq, Eq, Structural)]
pub enum BallRole {
    Cue,
    Regular,
    Eight,
}

/// One object ball of the rack.
#[derive(Clone, Copy, Debug, PartialEq, Eq, Structural)]
pub struct RackBall {
    pub position: Point,
    /// 0-based row, counted away from the apex.
    pub row: usize,
    pub role: BallRole,
}

/// First flattened index of 0-based row `k`: the `k`-th triangular number.
pub open spec fn row_start(k: int) -> int {
    k * (k + 1) / 2
}

/// Row of flattened index `i` (for `0 <= i < 15`).
pub open spec fn row_of(i: int) -> int {
    if i < 1 {
        0
    } else if i < 3 {
        1
    } else if i < 6 {
        2
    } else if i < 10 {
        3
    } else {
        4
    }
}

/// Position of flattened index `i` within its row.
pub open spec fn col_of(i: int) -> int {
    i - row_start(row_of(i))
}

/// Rack spacing for a ball radius given in world units, in sub-units.
pub open spec fn spacing(radius: int) -> int {
    SPACING_PER_RADIUS * radius
}

/// Where ball `i` of a rack with apex `origin` lies: rows step along x by one
/// spacing, and the balls of a row are spread symmetrically about the
/// apex line along y, one spacing apart.
pub open spec fn rack_point(origin: Point, radius: int, i: int) -> (int, int) {
    (
        origin.x + row_of(i) * spacing(radius),
        origin.y + (2 * col_of(i) - row_of(i)) * (HALF_SPACING_PER_RADIUS * radius),
    )
}

/// Role of rack ball `i`.
pub open spec fn rack_role(i: int) -> BallRole {
    if i == CENTER_BALL {
        BallRole::Eight
    } else {
        BallRole::Regular
    }
}

/// The inputs for which every rack coordinate fits the integer type.
pub open spec fn rack_fits(origin: Point, radius: u32) -> bool {
    -COORD_LIMIT <= origin.x <= COORD_LIMIT && -COORD_LIMIT <= origin.y <= COORD_LIMIT
        && radius <= RADIUS_LIMIT
}

/// Squared distance between two points.
pub open spec fn dist_sq(a: (int, int), b: (int, int)) -> int {
    (a.0 - b.0) * (a.0 - b.0) + (a.1 - b.1) * (a.1 - b.1)
}

/// Lays out the fifteen object balls as a five-row triangle whose apex is at
/// `origin`, for balls of `radius` world units.
pub fn rack_layout(origin: Point, radius: u32) -> (r: Vec<RackBall>)
    requires
        rack_fits(origin, radius),
    ensures
        r.len() == RACK_SIZE,
        forall|i: int|
            0 <= i < RACK_SIZE ==> {
                &&& r[i].row == row_of(i)
                &&& r[i].role == rack_role(i)
                &&& (r[i].position.x as int, r[i].position.y as int) == rack_point(origin, radius as int, i)
            },
{
    let sp: i64 = SPACING_PER_RADIUS * (radius as i64);
    let half: i64 = HALF_SPACING_PER_RADIUS * (radius as i64);
    let mut balls: Vec<RackBall> = Vec::new();
    let mut row: usize = 0;
    while row < RACK_ROWS
        invariant
            row <= RACK_ROWS,
            rack_fits(origin, radius),
            sp == spacing(radius as int),
            half == HALF_SPACING_PER_RADIUS * radius,
            balls.len() == row_start(row as int),
            forall|i: int|
                0 <= i < balls.len() ==> {
                    &&& balls[i].row == row_of(i)
                    &&& balls[i].role == rack_role(i)
                    &&& (balls[i].position.x as int, balls[i].position.y as int) == rack_point(origin, radius as int, i)
                },
        decreases RACK_ROWS - row,
    {
        let mut col: usize = 0;
        while col <= row
            invariant
                row < RACK_ROWS,
                col <= row + 1,
                rack_fits(origin, radius),
                sp == spacing(radius as int),
                half == HALF_SPACING_PER_RADIUS * radius,
                balls.len() == row_start(row as int) + col,
                forall|i: int|
                    0 <= i < balls.len() ==> {
                        &&& balls[i].row == row_of(i)
                        &&& balls[i].role == rack_role(i)
                        &&& (balls[i].position.x as int, balls[i].position.y as int) == rack_point(origin, radius as int, i)
                    },
            decreases row + 1 - col,
        {
            let idx: Ghost<int> = Ghost(balls.len() as int);
            proof {
                assert(row_of(idx@) == row && col_of(idx@) == col) by {
                    assert(row_start(0) == 0 && row_start(1) == 1 && row_start(2) == 3
                        && row_start(3) == 6 && row_start(4) == 10);
                }
                assert(0 <= (row as int) * sp <= 4 * sp) by (nonlinear_arith)
                    requires row <= 4, sp >= 0;
                assert(-4 * half <= (2 * (col as int) - (row as int)) * half <= 4 * half) by (nonlinear_arith)
                    requires col <= row, row <= 4, half >= 0;
            }
            let x: i64 = origin.x + (row as i64) * sp;
            let y: i64 = origin.y + (2 * (col as i64) - (row as i64)) * half;
            let role: BallRole = if balls.len() == CENTER_BALL {
                BallRole::Eight
            } else {
                BallRole::Regular
            };
            balls.push(RackBall { position: Point { x, y }, row, role });
            col = col + 1;
        }
        proof {
            assert(row_start(row + 1) == row_start(row as int) + row + 1) by (nonlinear_arith);
        }
        row = row + 1;
    }
    proof {
        assert(row_start(5) == 15);
    }
    balls
}

proof fn lemma_scaled_square(d: int, s: int)
    requires
        d != 0,
        s >= 0,
    ensures
        (d * s) * (d * s) >= s * s,
{
    assert((d * s) * (d * s) == (d * d) * (s * s)) by (nonlinear_arith);
    assert(d * d >= 1) by (nonlinear_arith)
        requires
            d != 0,
    ;
    assert((d * d) * (s * s) >= s * s) by (nonlinear_arith)
        requires
            d * d >= 1,
    ;
}

/// No two balls of a rack overlap: for balls of `radius` world units, the
/// centres of any two distinct rack positions are at least two radii apart.
pub proof fn lemma_rack_no_overlap(origin: Point, radius: int, i: int, j: int)
    requires
        radius >= 0,
        0 <= i < RACK_SIZE,
        0 <= j < RACK_SIZE,
        i != j,
    ensures
        dist_sq(rack_point(origin, radius, i), rack_point(origin, radius, j)) >= (2
            * SUBUNITS_PER_UNIT * radius) * (2 * SUBUNITS_PER_UNIT * radius),
{
    let a = rack_point(origin, radius, i);
    let b = rack_point(origin, radius, j);
    let s = spacing(radius);
    let dx = a.0 - b.0;
    let dy = a.1 - b.1;
    assert(dx * dx >= 0 && dy * dy >= 0) by (nonlinear_arith);
    if row_of(i) != row_of(j) {
        assert(dx == (row_of(i) - row_of(j)) * s) by (nonlinear_arith)
            requires
                dx == (origin.x + row_of(i) * s) - (origin.x + row_of(j) * s),
        ;
        lemma_scaled_square(row_of(i) - row_of(j), s);
    } else {
        let h = HALF_SPACING_PER_RADIUS * radius;
        assert(dy == (col_of(i) - col_of(j)) * s) by (nonlinear_arith)
            requires
                dy == (origin.y + (2 * col_of(i) - row_of(i)) * h) - (origin.y + (2 * col_of(j)
                    - row_of(j)) * h),
                row_of(i) == row_of(j),
                s == 2 * h,
        ;
        lemma_scaled_square(col_of(i) - col_of(j), s);
    }
    assert(s * s >= (2 * SUBUNITS_PER_UNIT * radius) * (2 * SUBUNITS_PER_UNIT * radius))
        by (nonlinear_arith)
        requires
            s == 410 * radius,
            radius >= 0,
    ;
}

/// The rack's rows hold one to five balls: 0-based row `k` is exactly the
/// `k + 1` consecutive flattened indices from `row_start(k)` on, and the five
/// rows together hold all fifteen balls.
pub proof fn lemma_row_population(k: int)
    requires
        0 <= k < RACK_ROWS,
    ensures
        row_start(k + 1) - row_start(k) == k + 1,
        forall|i: int|
            0 <= i < RACK_SIZE ==> (row_of(i) == k <==> row_start(k) <= i < row_start(k + 1)),
        row_start(0) == 0,
        row_start(RACK_ROWS as int) == RACK_SIZE,
{
    assert(row_start(0) == 0 && row_start(1) == 1 && row_start(2) == 3 && row_start(3) == 6
        && row_start(4) == 10 && row_start(5) == 15);
}

} // verus!
