use vstd::prelude::*;
use crate::rack::{rack_fits, rack_layout, Point, RackBall, SUBUNITS_PER_UNIT};

verus! {

/// Largest table dimension accepted, in world units.
pub const TABLE_LIMIT: u32 = 1_000_000_000;

/// Table half-dimensions, rail thickness and ball radius, in world units.
#[derive(Clone, Copy, Debug, PartialEq, Eq, Structural)]
pub struct TableDims {
    pub half_width: u32,
    pub half_height: u32,
    pub rail_thickness: u32,
    pub ball_radius: u32,
}

/// A static rectangular rail: its centre and its half-extents, in sub-units.
#[derive(Clone, Copy, Debug, PartialEq, Eq, Structural)]
pub struct Rail {
    pub center: Point,
    pub half_extents: Point,
}

/// Everything placed on the table at start: the rails (top, bottom, left,
/// right), the cue ball and the rack of object balls.
#[derive(Clone, Debug)]
pub struct Scene {
    pub rails: Vec<Rail>,
    pub cue_ball: Point,
    pub rack: Vec<RackBall>,
}

/// A length in world units, as sub-units.
pub open spec fn in_subunits(units: int) -> int {
    SUBUNITS_PER_UNIT * units
}

/// The dimensions for which every scene coordinate fits the integer type.
pub open spec fn dims_fit(d: TableDims) -> bool {
    d.half_width <= TABLE_LIMIT && d.half_height <= TABLE_LIMIT && d.rail_thickness
        <= TABLE_LIMIT && d.ball_radius <= crate::rack::RADIUS_LIMIT
}

/// Rail `k` (0 top, 1 bottom, 2 left, 3 right): centred on its edge, as thick
/// as `rail_thickness`, and long enough to cover the edge and the corners.
pub open spec fn rail_spec(d: TableDims, k: int) -> (Point, Point) {
    let w = in_subunits(d.half_width as int);
    let h = in_subunits(d.half_height as int);
    let t = in_subunits(d.rail_thickness as int) / 2;
    if k == 0 {
        (Point { x: 0, y: h as i64 }, Point { x: (w + t) as i64, y: t as i64 })
    } else if k == 1 {
        (Point { x: 0, y: -h as i64 }, Point { x: (w + t) as i64, y: t as i64 })
    } else if k == 2 {
        (Point { x: -w as i64, y: 0 }, Point { x: t as i64, y: (h + t) as i64 })
    } else {
        (Point { x: w as i64, y: 0 }, Point { x: t as i64, y: (h + t) as i64 })
    }
}

/// The cue ball's start: halfway from the centre to the left edge.
pub open spec fn cue_start(d: TableDims) -> Point {
    Point { x: -(in_subunits(d.half_width as int) / 2) as i64, y: 0 }
}

/// The rack's apex: halfway from the centre to the right edge.
pub open spec fn rack_apex(d: TableDims) -> Point {
    Point { x: (in_subunits(d.half_width as int) / 2) as i64, y: 0 }
}

fn rail(center_x: i64, center_y: i64, half_x: i64, half_y: i64) -> (r: Rail)
    ensures
        r == (Rail { center: Point { x: center_x, y: center_y }, half_extents: Point { x: half_x, y: half_y } }),
{
    Rail { center: Point { x: center_x, y: center_y }, half_extents: Point { x: half_x, y: half_y } }
}

impl TableDims {
    /// The table the game opens with: 800 by 400 world units, 20-unit rails,
    /// balls of radius 10.
    pub fn standard() -> (r: TableDims)
        ensures
            r == (TableDims { half_width: 400, half_height: 200, rail_thickness: 20, ball_radius: 10 }),
            dims_fit(r),
    {
        TableDims { half_width: 400, half_height: 200, rail_thickness: 20, ball_radius: 10 }
    }
}

/// Builds the scene for a table: four rails, the cue ball left of centre and
/// the fifteen-ball rack right of centre.
pub fn setup(d: TableDims) -> (r: Scene)
    requires
        dims_fit(d),
    ensures
        r.rails.len() == 4,
        forall|k: int| 0 <= k < 4 ==> (r.rails[k].center, r.rails[k].half_extents) == rail_spec(d, k),
        r.cue_ball == cue_start(d),
        r.rack@ == rack_layout_spec(d),
{
    let w: i64 = SUBUNITS_PER_UNIT * (d.half_width as i64);
    let h: i64 = SUBUNITS_PER_UNIT * (d.half_height as i64);
    let t: i64 = SUBUNITS_PER_UNIT * (d.rail_thickness as i64) / 2;
    let mut rails: Vec<Rail> = Vec::new();
    rails.push(rail(0, h, w + t, t));
    rails.push(rail(0, -h, w + t, t));
    rails.push(rail(-w, 0, t, h + t));
    rails.push(rail(w, 0, t, h + t));
    let cue_ball = Point { x: -(w / 2), y: 0 };
    let apex = Point { x: w / 2, y: 0 };
    assert(rack_fits(apex, d.ball_radius));
    let rack = rack_layout(apex, d.ball_radius);
    proof {
        assert(rack@ =~= rack_layout_spec(d));
    }
    Scene { rails, cue_ball, rack }
}

/// The rack that `setup` places: `rack_layout` at the rack's apex.
pub open spec fn rack_layout_spec(d: TableDims) -> Seq<RackBall> {
    Seq::new(
        crate::rack::RACK_SIZE as nat,
        |i: int|
            RackBall {
                position: Point {
                    x: crate::rack::rack_point(rack_apex(d), d.ball_radius as int, i).0 as i64,
                    y: crate::rack::rack_point(rack_apex(d), d.ball_radius as int, i).1 as i64,
                },
                row: crate::rack::row_of(i) as usize,
                role: crate::rack::rack_role(i),
            },
    )
}

} // verus!
