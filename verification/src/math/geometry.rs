//! Planes, lines, and their fixed-point intersections and signed
//! distances. Quotients are truncated toward zero.

use vstd::prelude::*;
use crate::math::vector::{
    abs1, dot_spec, in_range, lemma_mul_in_range, Vector3d, MAX_COORD, MAX_DOT_OPERAND,
    MAX_PLANE_DIR, UNIT,
};

verus! {

/// A plane: an anchor position and a direction normal to the plane.
#[derive(Clone, Copy, PartialEq, Eq, Structural, Debug)]
pub struct Plane {
    pub pos: Vector3d,
    pub dir: Vector3d,
}

/// A segment between two endpoints.
#[derive(Clone, Copy, PartialEq, Eq, Structural, Debug)]
pub struct FiniteLine3d {
    pub start: Vector3d,
    pub end: Vector3d,
}

/// A line through `pos` along `dir`.
#[derive(Clone, Copy, PartialEq, Eq, Structural, Debug)]
pub struct InfiniteLine3d {
    pub pos: Vector3d,
    pub dir: Vector3d,
}

/// Quotient truncated toward zero, as Rust's integer division rounds.
pub open spec fn tdiv(a: int, b: int) -> int {
    let q = abs1(a) / abs1(b);
    if (a < 0) != (b < 0) {
        -q
    } else {
        q
    }
}

/// The signed distance scale of `pos` against the plane through
/// `plane_pos` with direction `plane_dir`: the dot product of the
/// direction with the offset of `pos` from the anchor.
pub open spec fn signed_dist_spec(pos: Vector3d, plane_pos: Vector3d, plane_dir: Vector3d) -> int {
    plane_dir.x * (pos.x - plane_pos.x) + plane_dir.y * (pos.y - plane_pos.y) + plane_dir.z * (
    pos.z - plane_pos.z)
}

/// Whether the fraction `num / den` lies in `[0, 1]`.
pub open spec fn in_unit_interval(num: int, den: int) -> bool {
    &&& (num == 0 || ((num < 0) <==> (den < 0)))
    &&& abs1(num) <= abs1(den)
}

/// The magnitude of a dot product of bounded vectors.
pub proof fn lemma_dot_bound(a: Vector3d, b: Vector3d, ba: int, bb: int)
    requires
        a.bounded(ba),
        b.bounded(bb),
        0 <= ba,
        0 <= bb,
    ensures
        in_range(dot_spec(a, b), 3 * (ba * bb)),
{
    assert(in_range(a.x * b.x + a.y * b.y + a.z * b.z, 3 * (ba * bb))) by (nonlinear_arith)
        requires
            -ba <= a.x <= ba,
            -ba <= a.y <= ba,
            -ba <= a.z <= ba,
            -bb <= b.x <= bb,
            -bb <= b.y <= bb,
            -bb <= b.z <= bb,
            0 <= ba,
            0 <= bb,
    ;
}

/// The magnitude of a signed distance of bounded positions against a
/// bounded plane direction.
pub proof fn lemma_signed_dist_bound(pos: Vector3d, plane_pos: Vector3d, plane_dir: Vector3d)
    requires
        pos.bounded(MAX_COORD as int),
        plane_pos.bounded(MAX_COORD as int),
        plane_dir.bounded(UNIT as int),
    ensures
        in_range(signed_dist_spec(pos, plane_pos, plane_dir), 6 * MAX_COORD as int * UNIT as int),
{
    assert(in_range(
        plane_dir.x * (pos.x - plane_pos.x) + plane_dir.y * (pos.y - plane_pos.y) + plane_dir.z
            * (pos.z - plane_pos.z),
        6 * MAX_COORD as int * UNIT as int,
    )) by (nonlinear_arith)
        requires
            -MAX_COORD <= pos.x <= MAX_COORD,
            -MAX_COORD <= pos.y <= MAX_COORD,
            -MAX_COORD <= pos.z <= MAX_COORD,
            -MAX_COORD <= plane_pos.x <= MAX_COORD,
            -MAX_COORD <= plane_pos.y <= MAX_COORD,
            -MAX_COORD <= plane_pos.z <= MAX_COORD,
            -UNIT <= plane_dir.x <= UNIT,
            -UNIT <= plane_dir.y <= UNIT,
            -UNIT <= plane_dir.z <= UNIT,
    ;
}

/// Truncated division, on machine integers.
pub(crate) fn tdiv_i128(a: i128, b: i128) -> (r: i128)
    requires
        b != 0,
        a != i128::MIN,
        b != i128::MIN,
    ensures
        r == tdiv(a as int, b as int),
        abs1(r as int) <= abs1(a as int),
{
    let aa: u128 = if a < 0 {
        (-a) as u128
    } else {
        a as u128
    };
    let bb: u128 = if b < 0 {
        (-b) as u128
    } else {
        b as u128
    };
    let q = aa / bb;
    proof {
        assert(q <= aa) by {
            assert(aa as int <= bb as int * aa as int) by (nonlinear_arith)
                requires
                    1 <= bb,
                    0 <= aa,
            ;
            vstd::arithmetic::div_mod::lemma_multiply_divide_le(
                aa as int,
                bb as int,
                aa as int,
            );
        }
    }
    if (a < 0) != (b < 0) {
        -(q as i128)
    } else {
        q as i128
    }
}

/// The quotient of a scaled numerator keeps the scale's bound when the
/// fraction lies within one: `|num| ≤ |den|` forces
/// `|tdiv(c·num, den)| ≤ |c|`.
pub proof fn lemma_tdiv_scaled_bound(c: int, num: int, den: int)
    requires
        den != 0,
        abs1(num) <= abs1(den),
    ensures
        abs1(tdiv(c * num, den)) <= abs1(c),
{
    assert(abs1(c * num) == abs1(c) * abs1(num) && abs1(c) * abs1(num) <= abs1(den) * abs1(c))
        by (nonlinear_arith)
        requires
            abs1(num) <= abs1(den),
            abs1(c) == if c < 0 { -c } else { c },
            abs1(num) == if num < 0 { -num } else { num },
            abs1(den) == if den < 0 { -den } else { den },
            abs1(c * num) == if c * num < 0 { -(c * num) } else { c * num },
    ;
    vstd::arithmetic::div_mod::lemma_multiply_divide_le(abs1(c * num), abs1(den), abs1(c));
}

/// The signed distance scale of `pos` against a raw plane, exactly.
pub fn pos_raw_plane_signed_dist(pos: &Vector3d, plane_pos: &Vector3d, plane_dir: &Vector3d) -> (r:
    i128)
    requires
        pos.bounded(MAX_COORD as int),
        plane_pos.bounded(MAX_COORD as int),
        plane_dir.bounded(MAX_PLANE_DIR as int),
    ensures
        r == signed_dist_spec(*pos, *plane_pos, *plane_dir),
{
    let diff = pos.sub(plane_pos);
    plane_dir.dot(&diff)
}

/// The signed distance scale of `pos` against `plane`, exactly.
pub fn pos_plane_signed_dist(pos: &Vector3d, plane: &Plane) -> (r: i128)
    requires
        pos.bounded(MAX_COORD as int),
        plane.pos.bounded(MAX_COORD as int),
        plane.dir.bounded(UNIT as int),
    ensures
        r == signed_dist_spec(*pos, plane.pos, plane.dir),
{
    pos_raw_plane_signed_dist(pos, &plane.pos, &plane.dir)
}

/// Whether `pos` lies strictly on the side of `plane` its direction
/// points to.
pub fn pos_in_front_of_plane(pos: &Vector3d, plane: &Plane) -> (r: bool)
    requires
        pos.bounded(MAX_COORD as int),
        plane.pos.bounded(MAX_COORD as int),
        plane.dir.bounded(UNIT as int),
    ensures
        r == (signed_dist_spec(*pos, plane.pos, plane.dir) > 0),
{
    pos_plane_signed_dist(pos, plane) > 0
}

/// Where the segment from `pos_1` to `pos_2` meets the raw plane:
/// `None` when the segment direction is perpendicular to the plane
/// direction or the crossing parameter falls outside the segment; else
/// the crossing point, each coordinate's quotient truncated.
pub fn raw_plane_finite_line_intersection(
    plane_pos: &Vector3d,
    plane_dir: &Vector3d,
    pos_1: &Vector3d,
    pos_2: &Vector3d,
) -> (r: Option<Vector3d>)
    requires
        plane_pos.bounded(MAX_COORD as int),
        plane_dir.bounded(UNIT as int),
        pos_1.bounded(MAX_COORD as int),
        pos_2.bounded(MAX_COORD as int),
    ensures
        ({
            let dp = signed_dist_spec(*pos_2, *pos_1, *plane_dir);
            let num = signed_dist_spec(*plane_pos, *pos_1, *plane_dir);
            match r {
                Some(v) => {
                    &&& dp != 0
                    &&& in_unit_interval(num, dp)
                    &&& v.x == pos_1.x + tdiv((pos_2.x - pos_1.x) * num, dp)
                    &&& v.y == pos_1.y + tdiv((pos_2.y - pos_1.y) * num, dp)
                    &&& v.z == pos_1.z + tdiv((pos_2.z - pos_1.z) * num, dp)
                    &&& v.bounded(3 * MAX_COORD as int)
                },
                None => dp == 0 || !in_unit_interval(num, dp),
            }
        }),
{
    let line_dir = pos_2.sub(pos_1);
    let dp = pos_raw_plane_signed_dist(pos_2, pos_1, plane_dir);
    if dp == 0 {
        return None;
    }
    let num = pos_raw_plane_signed_dist(plane_pos, pos_1, plane_dir);
    proof {
        lemma_signed_dist_bound(*plane_pos, *pos_1, *plane_dir);
        lemma_signed_dist_bound(*pos_2, *pos_1, *plane_dir);
    }
    if !(num == 0 || ((num < 0) == (dp < 0))) {
        return None;
    }
    let na: i128 = if num < 0 {
        -num
    } else {
        num
    };
    let da: i128 = if dp < 0 {
        -dp
    } else {
        dp
    };
    if na > da {
        return None;
    }
    proof {
        lemma_tdiv_scaled_bound(pos_2.x - pos_1.x, num as int, dp as int);
        lemma_tdiv_scaled_bound(pos_2.y - pos_1.y, num as int, dp as int);
        lemma_tdiv_scaled_bound(pos_2.z - pos_1.z, num as int, dp as int);
        lemma_mul_in_range(line_dir.x as int, num as int, MAX_DOT_OPERAND as int);
        lemma_mul_in_range(line_dir.y as int, num as int, MAX_DOT_OPERAND as int);
        lemma_mul_in_range(line_dir.z as int, num as int, MAX_DOT_OPERAND as int);
    }
    let qx = tdiv_i128((line_dir.x as i128) * num, dp);
    let qy = tdiv_i128((line_dir.y as i128) * num, dp);
    let qz = tdiv_i128((line_dir.z as i128) * num, dp);
    Some(
        Vector3d {
            x: pos_1.x + (qx as i64),
            y: pos_1.y + (qy as i64),
            z: pos_1.z + (qz as i64),
        },
    )
}

/// Where the segment from `pos_1` to `pos_2` meets `plane`; see
/// `raw_plane_finite_line_intersection`.
pub fn plane_finite_line_intersection(plane: &Plane, pos_1: &Vector3d, pos_2: &Vector3d) -> (r:
    Option<Vector3d>)
    requires
        plane.pos.bounded(MAX_COORD as int),
        plane.dir.bounded(UNIT as int),
        pos_1.bounded(MAX_COORD as int),
        pos_2.bounded(MAX_COORD as int),
    ensures
        ({
            let dp = signed_dist_spec(*pos_2, *pos_1, plane.dir);
            let num = signed_dist_spec(plane.pos, *pos_1, plane.dir);
            match r {
                Some(v) => {
                    &&& dp != 0
                    &&& in_unit_interval(num, dp)
                    &&& v.x == pos_1.x + tdiv((pos_2.x - pos_1.x) * num, dp)
                    &&& v.y == pos_1.y + tdiv((pos_2.y - pos_1.y) * num, dp)
                    &&& v.z == pos_1.z + tdiv((pos_2.z - pos_1.z) * num, dp)
                    &&& v.bounded(3 * MAX_COORD as int)
                },
                None => dp == 0 || !in_unit_interval(num, dp),
            }
        }),
{
    raw_plane_finite_line_intersection(&plane.pos, &plane.dir, pos_1, pos_2)
}

/// Where the infinite `line` meets `plane`: `None` when the directions
/// are perpendicular, or when a coordinate of the crossing would leave
/// the coordinate range; else the crossing point, each coordinate's
/// quotient truncated.
pub fn plane_line_intersection(plane: &Plane, line: &InfiniteLine3d) -> (r: Option<Vector3d>)
    requires
        plane.pos.bounded(MAX_COORD as int),
        plane.dir.bounded(UNIT as int),
        line.pos.bounded(MAX_COORD as int),
        line.dir.bounded(UNIT as int),
    ensures
        ({
            let dp = dot_spec(line.dir, plane.dir);
            let num = signed_dist_spec(plane.pos, line.pos, plane.dir);
            match r {
                Some(v) => {
                    &&& dp != 0
                    &&& v.x == line.pos.x + tdiv(line.dir.x * num, dp)
                    &&& v.y == line.pos.y + tdiv(line.dir.y * num, dp)
                    &&& v.z == line.pos.z + tdiv(line.dir.z * num, dp)
                },
                None => dp == 0 || !(in_range(line.pos.x + tdiv(line.dir.x * num, dp), i64::MAX as int)
                    && in_range(line.pos.y + tdiv(line.dir.y * num, dp), i64::MAX as int)
                    && in_range(line.pos.z + tdiv(line.dir.z * num, dp), i64::MAX as int)),
            }
        }),
{
    let dp = line.dir.dot(&plane.dir);
    if dp == 0 {
        return None;
    }
    let num = pos_raw_plane_signed_dist(&plane.pos, &line.pos, &plane.dir);
    proof {
        lemma_signed_dist_bound(plane.pos, line.pos, plane.dir);
        lemma_dot_bound(line.dir, plane.dir, UNIT as int, UNIT as int);
        lemma_mul_in_range(line.dir.x as int, num as int, MAX_DOT_OPERAND as int);
        lemma_mul_in_range(line.dir.y as int, num as int, MAX_DOT_OPERAND as int);
        lemma_mul_in_range(line.dir.z as int, num as int, MAX_DOT_OPERAND as int);
    }
    let cx = (line.pos.x as i128) + tdiv_i128((line.dir.x as i128) * num, dp);
    let cy = (line.pos.y as i128) + tdiv_i128((line.dir.y as i128) * num, dp);
    let cz = (line.pos.z as i128) + tdiv_i128((line.dir.z as i128) * num, dp);
    let lo = i64::MIN as i128;
    let hi = i64::MAX as i128;
    if cx < lo || cx > hi || cy < lo || cy > hi || cz < lo || cz > hi {
        return None;
    }
    Some(Vector3d { x: cx as i64, y: cy as i64, z: cz as i64 })
}

} // verus!
