//! The play field: its four bounds, its wall thickness, and the four static
//! walls laid along its edges.
use vstd::prelude::*;
use crate::geometry::{Aabb, Vector};

verus! {

/// Every coordinate and length of the arena lies within this magnitude, so
/// that sums of a few of them stay within `i64`.
pub const COORD_LIMIT: i64 = 0x1000_0000_0000_0000;

pub open spec fn in_limit(v: int) -> bool {
    -COORD_LIMIT <= v <= COORD_LIMIT
}

/// The bounds of the play field and the thickness of its walls.
#[derive(Clone, Copy, Debug, PartialEq, Eq, Structural)]
pub struct Arena {
    pub left: i64,
    pub right: i64,
    pub bottom: i64,
    pub top: i64,
    pub wall_thickness: i64,
}

impl Arena {
    /// The field is a proper rectangle and its walls have a thickness.
    pub open spec fn wf(self) -> bool {
        &&& self.left < self.right
        &&& self.bottom < self.top
        &&& 0 < self.wall_thickness
        &&& in_limit(self.left as int) && in_limit(self.right as int)
        &&& in_limit(self.bottom as int) && in_limit(self.top as int)
        &&& in_limit(self.wall_thickness as int)
    }

    pub open spec fn width(self) -> int {
        self.right - self.left
    }

    pub open spec fn height(self) -> int {
        self.top - self.bottom
    }

    pub fn new(left: i64, right: i64, bottom: i64, top: i64, wall_thickness: i64) -> (r: Arena)
        ensures
            r == (Arena { left, right, bottom, top, wall_thickness }),
    {
        Arena { left, right, bottom, top, wall_thickness }
    }
}

/// Which side of the arena a wall stands on.
#[derive(Clone, Copy, Debug, PartialEq, Eq, Structural)]
pub enum WallLocation {
    Left,
    Right,
    Bottom,
    Top,
}

impl WallLocation {
    /// The center of the wall: on the arena's edge, centered along it.
    pub open spec fn position_spec(self, a: Arena) -> Vector {
        match self {
            WallLocation::Left => Vector { x: a.left, y: 0 },
            WallLocation::Right => Vector { x: a.right, y: 0 },
            WallLocation::Bottom => Vector { x: 0, y: a.bottom },
            WallLocation::Top => Vector { x: 0, y: a.top },
        }
    }

    /// The two ends of the edge the wall stands on.
    pub open spec fn line_spec(self, a: Arena) -> (Vector, Vector) {
        match self {
            WallLocation::Left => (Vector { x: a.left, y: a.top }, Vector { x: a.left, y: a.bottom }),
            WallLocation::Right => (Vector { x: a.right, y: a.top }, Vector { x: a.right, y: a.bottom }),
            WallLocation::Top => (Vector { x: a.left, y: a.top }, Vector { x: a.right, y: a.top }),
            WallLocation::Bottom => (Vector { x: a.left, y: a.bottom }, Vector { x: a.right, y: a.bottom }),
        }
    }

    /// The full extent of the wall: one thickness across, and the edge's
    /// length plus one thickness along it, so that the corners are closed.
    pub open spec fn size_spec(self, a: Arena) -> Vector {
        match self {
            WallLocation::Left | WallLocation::Right => Vector {
                x: a.wall_thickness,
                y: (a.height() + a.wall_thickness) as i64,
            },
            WallLocation::Bottom | WallLocation::Top => Vector {
                x: (a.width() + a.wall_thickness) as i64,
                y: a.wall_thickness,
            },
        }
    }

    /// The wall as a collider: centered on its position, half its size.
    pub open spec fn collider_spec(self, a: Arena) -> Aabb {
        let s = self.size_spec(a);
        Aabb { center: self.position_spec(a), half: Vector { x: (s.x / 2) as i64, y: (s.y / 2) as i64 } }
    }

    pub fn position(&self, a: &Arena) -> (r: Vector)
        ensures
            r == self.position_spec(*a),
    {
        match self {
            WallLocation::Left => Vector { x: a.left, y: 0 },
            WallLocation::Right => Vector { x: a.right, y: 0 },
            WallLocation::Bottom => Vector { x: 0, y: a.bottom },
            WallLocation::Top => Vector { x: 0, y: a.top },
        }
    }

    pub fn line(&self, a: &Arena) -> (r: (Vector, Vector))
        ensures
            r == self.line_spec(*a),
    {
        match self {
            WallLocation::Left => (Vector { x: a.left, y: a.top }, Vector { x: a.left, y: a.bottom }),
            WallLocation::Right => (Vector { x: a.right, y: a.top }, Vector { x: a.right, y: a.bottom }),
            WallLocation::Top => (Vector { x: a.left, y: a.top }, Vector { x: a.right, y: a.top }),
            WallLocation::Bottom => (Vector { x: a.left, y: a.bottom }, Vector { x: a.right, y: a.bottom }),
        }
    }

    pub fn size(&self, a: &Arena) -> (r: Vector)
        requires
            a.wf(),
        ensures
            r == self.size_spec(*a),
            r.x > 0,
            r.y > 0,
    {
        let arena_height = a.top - a.bottom;
        let arena_width = a.right - a.left;
        match self {
            WallLocation::Left | WallLocation::Right => Vector {
                x: a.wall_thickness,
                y: arena_height + a.wall_thickness,
            },
            WallLocation::Bottom | WallLocation::Top => Vector {
                x: arena_width + a.wall_thickness,
                y: a.wall_thickness,
            },
        }
    }

    pub fn collider(&self, a: &Arena) -> (r: Aabb)
        requires
            a.wf(),
        ensures
            r == self.collider_spec(*a),
            r.wf(),
    {
        let s = self.size(a);
        Aabb { center: self.position(a), half: Vector { x: s.x / 2, y: s.y / 2 } }
    }
}

/// The walls in the order in which collisions are tested against them.
pub open spec fn wall_order() -> Seq<WallLocation> {
    seq![WallLocation::Right, WallLocation::Left, WallLocation::Bottom, WallLocation::Top]
}

/// The colliders of the four walls, in `wall_order`.
pub open spec fn wall_boxes(a: Arena) -> Seq<Aabb> {
    wall_order().map_values(|w: WallLocation| w.collider_spec(a))
}

/// Builds the colliders of the arena's four walls.
pub fn wall_colliders(a: &Arena) -> (r: Vec<Aabb>)
    requires
        a.wf(),
    ensures
        r@ == wall_boxes(*a),
{
    let mut r: Vec<Aabb> = Vec::new();
    r.push(WallLocation::Right.collider(a));
    r.push(WallLocation::Left.collider(a));
    r.push(WallLocation::Bottom.collider(a));
    r.push(WallLocation::Top.collider(a));
    assert(r@ =~= wall_boxes(*a));
    r
}

} // verus!
