//! The per-point transform chain: rotate, translate, perspective-project,
//! map to screen space.
//!
//! Each stage is stated exactly over the rational model in `rat`.  The
//! rotation reproduces the renderer's literal formula, which is not a
//! rotation about the y axis even though its name says so: the x output
//! mixes `|theta|` and `sin(theta)`, and the z output carries a factor
//! `floor(theta)` that makes it collapse to zero for every angle below 1.
//! The formula is kept as it is; its oddities are stated, not repaired.
//! Because sine and tangent have no exact rational form, the two
//! trigonometric values enter as rational arguments that the caller
//! supplies for the current angle.

use vstd::prelude::*;
use crate::rat::{
    add_fits, div_fits, fits, int_abs, mul_fits, rat_add, rat_div_val, rat_eq, rat_floor,
    rat_mul, rat_wf, Rat, RatV,
};
use vstd::arithmetic::div_mod::lemma_fundamental_div_mod_converse;

verus! {

/// The mathematical value of a 3-D point.
pub type Point3V = (RatV, RatV, RatV);

/// The mathematical value of a 2-D (screen-space) point.
pub type Point2V = (RatV, RatV);

pub open spec fn point3_wf(p: Point3V) -> bool {
    rat_wf(p.0) && rat_wf(p.1) && rat_wf(p.2)
}

pub open spec fn point2_wf(p: Point2V) -> bool {
    rat_wf(p.0) && rat_wf(p.1)
}

/// A point of the 3-D scene, with exact rational coordinates.
#[derive(Clone, Copy, Debug, PartialEq, Eq, Structural)]
pub struct Point3 {
    pub x: Rat,
    pub y: Rat,
    pub z: Rat,
}

impl View for Point3 {
    type V = Point3V;

    open spec fn view(&self) -> Point3V {
        (self.x@, self.y@, self.z@)
    }
}

/// A point in screen space, with exact rational coordinates.
#[derive(Clone, Copy, Debug, PartialEq, Eq, Structural)]
pub struct Point2 {
    pub x: Rat,
    pub y: Rat,
}

impl View for Point2 {
    type V = Point2V;

    open spec fn view(&self) -> Point2V {
        (self.x@, self.y@)
    }
}

/// The renderer's rotation formula, exactly as it computes:
/// `x' = x * |theta| + z * sin(theta)`, `y' = y`,
/// `z' = x * tan(theta) * z * floor(theta)`,
/// with `s` standing for `sin(theta)` and `t` for `tan(theta)`.
pub open spec fn rotate_y_spec(p: Point3V, th: RatV, s: RatV, t: RatV) -> Point3V {
    let x1 = rat_add(rat_mul(p.0, rat_abs_val(th)), rat_mul(p.2, s));
    let z1 = rat_mul(rat_mul(rat_mul(p.0, t), p.2), (rat_floor(th), 1int));
    (x1, p.1, z1)
}

/// The abs of a rational: magnitude of the numerator over the same
/// denominator.
pub open spec fn rat_abs_val(a: RatV) -> RatV {
    (int_abs(a.0), a.1)
}

/// Every product `rotate_y` forms stays inside `i128`.
pub open spec fn rotate_y_fits(p: Point3V, th: RatV, s: RatV, t: RatV) -> bool {
    let ath = rat_abs_val(th);
    let m1 = rat_mul(p.0, ath);
    let m2 = rat_mul(p.2, s);
    let m3 = rat_mul(p.0, t);
    let m4 = rat_mul(m3, p.2);
    let fl = (rat_floor(th), 1int);
    fits(th.0) && mul_fits(p.0, ath) && mul_fits(p.2, s) && add_fits(m1, m2)
        && mul_fits(p.0, t) && mul_fits(m3, p.2) && mul_fits(m4, fl)
}

/// Elementwise sum of a point and an offset.
pub open spec fn translate_spec(p: Point3V, o: Point3V) -> Point3V {
    (rat_add(p.0, o.0), rat_add(p.1, o.1), rat_add(p.2, o.2))
}

pub open spec fn translate_fits(p: Point3V, o: Point3V) -> bool {
    add_fits(p.0, o.0) && add_fits(p.1, o.1) && add_fits(p.2, o.2)
}

/// The renderer's projection: the x coordinate is only scaled by the
/// aspect ratio `r`, while the y coordinate alone takes the perspective
/// divide by depth.  The divide is undefined at depth zero, so that
/// depth is excluded here and handled by the frame builder.
pub open spec fn project_spec(p: Point3V, r: RatV) -> Point2V {
    (rat_mul(p.0, r), rat_div_val(p.1, p.2))
}

pub open spec fn project_fits(p: Point3V, r: RatV) -> bool {
    mul_fits(p.0, r) && div_fits(p.1, p.2)
}

/// Map normalized coordinates to pixel coordinates:
/// `sx = x * (w / 2) + w / 2`, `sy = y * (h / 2) + h / 2`.
pub open spec fn to_screen_spec(p: Point2V, w: RatV, h: RatV) -> Point2V {
    let hw = rat_mul(w, (1int, 2int));
    let hh = rat_mul(h, (1int, 2int));
    (rat_add(rat_mul(p.0, hw), hw), rat_add(rat_mul(p.1, hh), hh))
}

pub open spec fn to_screen_fits(p: Point2V, w: RatV, h: RatV) -> bool {
    let hw = rat_mul(w, (1int, 2int));
    let hh = rat_mul(h, (1int, 2int));
    mul_fits(w, (1int, 2int)) && mul_fits(h, (1int, 2int)) && mul_fits(p.0, hw)
        && add_fits(rat_mul(p.0, hw), hw) && mul_fits(p.1, hh)
        && add_fits(rat_mul(p.1, hh), hh)
}

/// Apply the rotation formula for angle `theta`, whose sine and tangent
/// the caller passes as the rationals `sin_theta` and `tan_theta`.
pub fn rotate_y(p: &Point3, theta: &Rat, sin_theta: &Rat, tan_theta: &Rat) -> (r: Point3)
    requires
        point3_wf(p@),
        rat_wf(theta@),
        rat_wf(sin_theta@),
        rat_wf(tan_theta@),
        rotate_y_fits(p@, theta@, sin_theta@, tan_theta@),
    ensures
        r@ == rotate_y_spec(p@, theta@, sin_theta@, tan_theta@),
        point3_wf(r@),
{
    let ath = theta.abs();
    let m1 = p.x.mul(ath);
    let m2 = p.z.mul(*sin_theta);
    let x1 = m1.add(m2);
    let fl = Rat::from_int(theta.floor());
    let z1 = p.x.mul(*tan_theta).mul(p.z).mul(fl);
    Point3 { x: x1, y: p.y, z: z1 }
}

/// Elementwise translation by `offset`.
pub fn translate(p: &Point3, offset: &Point3) -> (r: Point3)
    requires
        point3_wf(p@),
        point3_wf(offset@),
        translate_fits(p@, offset@),
    ensures
        r@ == translate_spec(p@, offset@),
        point3_wf(r@),
{
    Point3 { x: p.x.add(offset.x), y: p.y.add(offset.y), z: p.z.add(offset.z) }
}

/// Project to the screen plane with aspect ratio `r`.  Depth zero is
/// excluded: the perspective divide has no value there.
pub fn project(p: &Point3, r: &Rat) -> (q: Point2)
    requires
        point3_wf(p@),
        rat_wf(r@),
        p@.2.0 != 0,
        project_fits(p@, r@),
    ensures
        q@ == project_spec(p@, r@),
        point2_wf(q@),
{
    Point2 { x: p.x.mul(*r), y: p.y.div_by(p.z) }
}

/// Map a normalized point to pixel coordinates on a `w` by `h` canvas.
pub fn to_screen(p: &Point2, w: &Rat, h: &Rat) -> (q: Point2)
    requires
        point2_wf(p@),
        rat_wf(w@),
        rat_wf(h@),
        to_screen_fits(p@, w@, h@),
    ensures
        q@ == to_screen_spec(p@, w@, h@),
        point2_wf(q@),
{
    let half = Rat::new(1, 2);
    let half_w = w.mul(half);
    let half_h = h.mul(half);
    Point2 { x: p.x.mul(half_w).add(half_w), y: p.y.mul(half_h).add(half_h) }
}

/// Law: at angle zero the rotation collapses both the x and the z
/// coordinate of every point to zero and leaves y untouched, because
/// `|0| = sin 0 = tan 0 = floor 0 = 0`.  The zero sine and tangent enter
/// as the requirement on `s` and `t`.
pub proof fn lemma_rotate_zero_angle(p: Point3V, th: RatV, s: RatV, t: RatV)
    requires
        point3_wf(p),
        rat_wf(th),
        rat_wf(s),
        rat_wf(t),
        th.0 == 0,
        s.0 == 0,
        t.0 == 0,
    ensures
        rat_eq(rotate_y_spec(p, th, s, t).0, (0int, 1int)),
        rotate_y_spec(p, th, s, t).1 == p.1,
        rat_eq(rotate_y_spec(p, th, s, t).2, (0int, 1int)),
{
    lemma_fundamental_div_mod_converse(0, th.1, 0, 0);
    assert(rat_floor(th) == 0);
    assert(p.0.0 * int_abs(th.0) == 0) by (nonlinear_arith)
        requires
            th.0 == 0,
    ;
    assert(p.2.0 * s.0 == 0) by (nonlinear_arith)
        requires
            s.0 == 0,
    ;
}

/// Law: for every angle strictly between zero and one the floor factor
/// is zero, so the rotated z coordinate is zero whatever the point and
/// whatever sine and tangent values come in.
pub proof fn lemma_rotate_small_angle_flattens(p: Point3V, th: RatV, s: RatV, t: RatV)
    requires
        point3_wf(p),
        rat_wf(th),
        rat_wf(s),
        rat_wf(t),
        0 < th.0 < th.1,
    ensures
        rat_floor(th) == 0,
        rat_eq(rotate_y_spec(p, th, s, t).2, (0int, 1int)),
{
    lemma_fundamental_div_mod_converse(th.0, th.1, 0, th.0);
    assert(rat_floor(th) == 0);
}

/// Law: translating by `(0, 0, 3)` leaves the x and y coordinates
/// exactly as they were (component for component) and adds exactly 3 to
/// the depth.
pub proof fn lemma_translate_adds_distance(p: Point3V)
    requires
        point3_wf(p),
    ensures
        translate_spec(p, ((0int, 1int), (0int, 1int), (3int, 1int))).0 == p.0,
        translate_spec(p, ((0int, 1int), (0int, 1int), (3int, 1int))).1 == p.1,
        translate_spec(p, ((0int, 1int), (0int, 1int), (3int, 1int))).2
            == (p.2.0 + 3 * p.2.1, p.2.1),
        rat_eq(
            translate_spec(p, ((0int, 1int), (0int, 1int), (3int, 1int))).2,
            rat_add(p.2, (3int, 1int)),
        ),
{
}

/// Law: the origin of the normalized plane maps to the center of the
/// canvas, `(w / 2, h / 2)`, for every positive width and height.
pub proof fn lemma_to_screen_centers_origin(x: RatV, y: RatV, w: RatV, h: RatV)
    requires
        rat_wf(x),
        rat_wf(y),
        rat_wf(w),
        rat_wf(h),
        x.0 == 0,
        y.0 == 0,
        w.0 > 0,
        h.0 > 0,
    ensures
        rat_eq(to_screen_spec((x, y), w, h).0, rat_mul(w, (1int, 2int))),
        rat_eq(to_screen_spec((x, y), w, h).1, rat_mul(h, (1int, 2int))),
{
    let hw = rat_mul(w, (1int, 2int));
    let hh = rat_mul(h, (1int, 2int));
    let sx = rat_add(rat_mul((x.0, x.1), hw), hw);
    let sy = rat_add(rat_mul((y.0, y.1), hh), hh);
    assert(sx.0 * hw.1 == hw.0 * sx.1) by (nonlinear_arith)
        requires
            x.0 == 0,
            sx == rat_add(rat_mul((x.0, x.1), hw), hw),
    ;
    assert(sy.0 * hh.1 == hh.0 * sy.1) by (nonlinear_arith)
        requires
            y.0 == 0,
            sy == rat_add(rat_mul((y.0, y.1), hh), hh),
    ;
}

} // verus!
