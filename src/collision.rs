//! Box-against-box contact: whether two boxes overlap, through which side
//! the first entered the second, and how a velocity bounces off that side.
use vstd::prelude::*;
use crate::geometry::{Aabb, Vector};

verus! {

/// The side of a collider through which a moving box entered it.
#[derive(Clone, Copy, Debug, PartialEq, Eq, Structural)]
pub enum Collision {
    Left,
    Right,
    Top,
    Bottom,
    Inside,
}

/// The open boxes `a` and `b` share some area.
pub open spec fn overlaps(a: Aabb, b: Aabb) -> bool {
    &&& a.min_x() < b.max_x()
    &&& a.max_x() > b.min_x()
    &&& a.min_y() < b.max_y()
    &&& a.max_y() > b.min_y()
}

/// `a` reaches across the left edge of `b` and not across its right edge.
pub open spec fn enters_left(a: Aabb, b: Aabb) -> bool {
    a.min_x() < b.min_x() && a.max_x() > b.min_x() && a.max_x() < b.max_x()
}

/// `a` reaches across the right edge of `b` and not across its left edge.
pub open spec fn enters_right(a: Aabb, b: Aabb) -> bool {
    a.min_x() > b.min_x() && a.min_x() < b.max_x() && a.max_x() > b.max_x()
}

/// `a` reaches across the bottom edge of `b` and not across its top edge.
pub open spec fn enters_bottom(a: Aabb, b: Aabb) -> bool {
    a.min_y() < b.min_y() && a.max_y() > b.min_y() && a.max_y() < b.max_y()
}

/// `a` reaches across the top edge of `b` and not across its bottom edge.
pub open spec fn enters_top(a: Aabb, b: Aabb) -> bool {
    a.min_y() > b.min_y() && a.min_y() < b.max_y() && a.max_y() > b.max_y()
}

/// The side struck on the horizontal axis, `Inside` when there is none.
pub open spec fn side_x(a: Aabb, b: Aabb) -> Collision {
    if enters_left(a, b) {
        Collision::Left
    } else if enters_right(a, b) {
        Collision::Right
    } else {
        Collision::Inside
    }
}

/// The side struck on the vertical axis, `Inside` when there is none.
pub open spec fn side_y(a: Aabb, b: Aabb) -> Collision {
    if enters_bottom(a, b) {
        Collision::Bottom
    } else if enters_top(a, b) {
        Collision::Top
    } else {
        Collision::Inside
    }
}

/// How far `a` has pushed past the struck vertical edge of `b`.
pub open spec fn depth_x(a: Aabb, b: Aabb) -> int {
    if enters_left(a, b) {
        a.max_x() - b.min_x()
    } else {
        b.max_x() - a.min_x()
    }
}

/// How far `a` has pushed past the struck horizontal edge of `b`.
pub open spec fn depth_y(a: Aabb, b: Aabb) -> int {
    if enters_bottom(a, b) {
        a.max_y() - b.min_y()
    } else {
        b.max_y() - a.min_y()
    }
}

/// The center of `a` lies strictly within `b`.
pub open spec fn center_within(a: Aabb, b: Aabb) -> bool {
    b.min_x() < a.center.x < b.max_x() && b.min_y() < a.center.y < b.max_y()
}

/// The contact of `a` with `b`: none without overlap; `Inside` when the
/// center of `a` lies within `b`; otherwise the side of the axis with the
/// smaller penetration, the vertical one on a tie, where an axis on which no
/// single edge is crossed gives way to the other, and `Inside` when neither
/// axis has a crossed edge.
pub open spec fn contact(a: Aabb, b: Aabb) -> Option<Collision> {
    if !overlaps(a, b) {
        None
    } else if center_within(a, b) {
        Some(Collision::Inside)
    } else if side_x(a, b) == Collision::Inside {
        Some(side_y(a, b))
    } else if side_y(a, b) == Collision::Inside {
        Some(side_x(a, b))
    } else if depth_y(a, b) <= depth_x(a, b) {
        Some(side_y(a, b))
    } else {
        Some(side_x(a, b))
    }
}

/// A velocity can be negated on either axis without leaving `i64`.
pub open spec fn reflectable(v: Vector) -> bool {
    v.x > i64::MIN && v.y > i64::MIN
}

/// The velocity after a contact: the axis of the struck side is negated
/// only while the motion still goes into that side.
pub open spec fn reflected(v: Vector, c: Collision) -> Vector {
    match c {
        Collision::Left => if v.x > 0 { Vector { x: (-v.x) as i64, y: v.y } } else { v },
        Collision::Right => if v.x < 0 { Vector { x: (-v.x) as i64, y: v.y } } else { v },
        Collision::Top => if v.y < 0 { Vector { x: v.x, y: (-v.y) as i64 } } else { v },
        Collision::Bottom => if v.y > 0 { Vector { x: v.x, y: (-v.y) as i64 } } else { v },
        Collision::Inside => v,
    }
}

/// Classifies the contact of box `a` with box `b`.
pub fn collide(a: &Aabb, b: &Aabb) -> (r: Option<Collision>)
    ensures
        r == contact(*a, *b),
        r.is_some() <==> overlaps(*a, *b),
{
    let a_min_x = a.center.x as i128 - a.half.x as i128;
    let a_max_x = a.center.x as i128 + a.half.x as i128;
    let a_min_y = a.center.y as i128 - a.half.y as i128;
    let a_max_y = a.center.y as i128 + a.half.y as i128;
    let b_min_x = b.center.x as i128 - b.half.x as i128;
    let b_max_x = b.center.x as i128 + b.half.x as i128;
    let b_min_y = b.center.y as i128 - b.half.y as i128;
    let b_max_y = b.center.y as i128 + b.half.y as i128;

    if !(a_min_x < b_max_x && a_max_x > b_min_x && a_min_y < b_max_y && a_max_y > b_min_y) {
        return None;
    }
    let cx = a.center.x as i128;
    let cy = a.center.y as i128;
    if b_min_x < cx && cx < b_max_x && b_min_y < cy && cy < b_max_y {
        return Some(Collision::Inside);
    }
    let (x_side, x_depth) = if a_min_x < b_min_x && a_max_x > b_min_x && a_max_x < b_max_x {
        (Collision::Left, a_max_x - b_min_x)
    } else if a_min_x > b_min_x && a_min_x < b_max_x && a_max_x > b_max_x {
        (Collision::Right, b_max_x - a_min_x)
    } else {
        (Collision::Inside, 0)
    };
    let (y_side, y_depth) = if a_min_y < b_min_y && a_max_y > b_min_y && a_max_y < b_max_y {
        (Collision::Bottom, a_max_y - b_min_y)
    } else if a_min_y > b_min_y && a_min_y < b_max_y && a_max_y > b_max_y {
        (Collision::Top, b_max_y - a_min_y)
    } else {
        (Collision::Inside, 0)
    };
    match (x_side, y_side) {
        (Collision::Inside, _) => Some(y_side),
        (_, Collision::Inside) => Some(x_side),
        _ => if y_depth <= x_depth {
            Some(y_side)
        } else {
            Some(x_side)
        },
    }
}

/// Bounces velocity `v` off a contact on side `c`.
pub fn reflect(v: Vector, c: Collision) -> (r: Vector)
    requires
        reflectable(v),
    ensures
        r == reflected(v, c),
        reflectable(r),
{
    match c {
        Collision::Left => if v.x > 0 { Vector { x: -v.x, y: v.y } } else { v },
        Collision::Right => if v.x < 0 { Vector { x: -v.x, y: v.y } } else { v },
        Collision::Top => if v.y < 0 { Vector { x: v.x, y: -v.y } } else { v },
        Collision::Bottom => if v.y > 0 { Vector { x: v.x, y: -v.y } } else { v },
        Collision::Inside => v,
    }
}

/// A `Left` contact negates a horizontal velocity that goes into the
/// collider and leaves every other velocity as it was.
pub proof fn lemma_left_contact_reflection(v: Vector)
    ensures
        v.x > 0 ==> reflected(v, Collision::Left) == (Vector { x: (-v.x) as i64, y: v.y }),
        v.x > 0 ==> reflected(v, Collision::Left).x == -v.x,
        v.x <= 0 ==> reflected(v, Collision::Left) == v,
{
}

} // verus!
