//! Per-frame rendering: the fixed 15x15x15 lattice, the per-point run of
//! the transform chain, and the animation angle.
//!
//! `render_frame` produces, for the current angle and canvas size, the
//! 2x2 pixel square for each of the 3375 lattice points, in the fixed
//! iteration order (x outermost, z innermost).  A point whose translated
//! depth is exactly zero has no perspective image (the divide is
//! undefined there); such a point yields `None` and is simply not drawn.
//!
//! The angle advances by exactly 1/200 (that is, 0.005) per frame and is
//! held as a frame counter, so its rational value is exact forever.

use vstd::prelude::*;
use vstd::arithmetic::div_mod::{lemma_fundamental_div_mod, lemma_mod_bound};
use crate::rat::{
    lemma_floor_in_bound, lemma_mul_in_bound, lemma_mul_pos_bound, rat_add, rat_bounded,
    rat_eq, rat_floor, rat_mul, rat_sub, rat_wf, Rat, RatV,
};
use crate::transform::{
    point3_wf, project, project_fits, project_spec, rat_abs_val, rotate_y, rotate_y_fits,
    rotate_y_spec, to_screen, to_screen_fits, to_screen_spec, translate, translate_fits,
    translate_spec, Point2V, Point3,
};

verus! {

/// Number of lattice samples per axis.
pub const LATTICE_N: u32 = 15;

/// Number of lattice points per frame (15 cubed).
pub const LATTICE_POINTS: u32 = 3375;

/// Side, in pixels, of the square drawn for each point.
pub const SQUARE_SIDE: u32 = 2;

/// The lattice is pushed this far away from the camera along z.
pub const DISTANCE: i128 = 3;

/// Magnitude cap on the components of the angle, sine and tangent
/// arguments (2^30); within it, every intermediate of the chain fits.
pub const ANGLE_COMP_LIMIT: i128 = 1073741824;

/// Cap on the canvas width and height in pixels (2^24).
pub const CANVAS_LIMIT: u64 = 16777216;

/// An axis-aligned filled square in pixel coordinates, by its top-left
/// corner and side lengths.
#[derive(Clone, Copy, Debug, PartialEq, Eq, Structural)]
pub struct PixelRect {
    pub x: i128,
    pub y: i128,
    pub w: u32,
    pub h: u32,
}

/// Lattice coordinate of sample `i`: 15 evenly spaced samples over
/// [-1, 1], that is `(i - 7) / 7`.
pub open spec fn lattice_coord_spec(i: int) -> RatV {
    (i - 7, 7int)
}

pub fn lattice_coord(i: u32) -> (r: Rat)
    requires
        i < LATTICE_N,
    ensures
        r@ == lattice_coord_spec(i as int),
        rat_wf(r@),
{
    Rat::new(i as i128 - 7, 7)
}

/// Top-left corner of the square for a screen-space point: the point
/// moved up and left by half the side, floored to whole pixels.
pub open spec fn corner_spec(p: Point2V) -> (int, int) {
    (rat_floor(rat_sub(p.0, (1int, 1int))), rat_floor(rat_sub(p.1, (1int, 1int))))
}

/// The whole chain for lattice indices `(ix, iy, iz)`: rotate, translate
/// by `(0, 0, 3)`, project with aspect ratio `h / w`, map to a `w` by
/// `h` canvas, and take the square's corner.  `None` exactly when the
/// translated depth is zero.
pub open spec fn point_corner_spec(
    ix: int,
    iy: int,
    iz: int,
    th: RatV,
    s: RatV,
    t: RatV,
    w: int,
    h: int,
) -> Option<(int, int)> {
    let p = (lattice_coord_spec(ix), lattice_coord_spec(iy), lattice_coord_spec(iz));
    let pr = rotate_y_spec(p, th, s, t);
    let pt = translate_spec(pr, ((0int, 1int), (0int, 1int), (3int, 1int)));
    if pt.2.0 == 0 {
        None
    } else {
        let pp = project_spec(pt, (h, w));
        let ps = to_screen_spec(pp, (w, 1int), (h, 1int));
        Some(corner_spec(ps))
    }
}

/// The square `r` is the drawn image of the spec corner `c`: present
/// exactly when `c` is, at the same pixel, with side 2.
pub open spec fn rect_matches(r: Option<PixelRect>, c: Option<(int, int)>) -> bool {
    match (r, c) {
        (Some(rect), Some(corner)) => rect.x as int == corner.0 && rect.y as int == corner.1
            && rect.w == SQUARE_SIDE && rect.h == SQUARE_SIDE,
        (None, None) => true,
        _ => false,
    }
}

/// Run the transform chain for one lattice point and return its square,
/// or `None` for the depth-zero points that have no perspective image.
pub fn transform_point(
    ix: u32,
    iy: u32,
    iz: u32,
    theta: &Rat,
    sin_theta: &Rat,
    tan_theta: &Rat,
    w: u64,
    h: u64,
) -> (r: Option<PixelRect>)
    requires
        ix < LATTICE_N,
        iy < LATTICE_N,
        iz < LATTICE_N,
        rat_bounded(theta@, ANGLE_COMP_LIMIT as int),
        rat_bounded(sin_theta@, ANGLE_COMP_LIMIT as int),
        rat_bounded(tan_theta@, ANGLE_COMP_LIMIT as int),
        1 <= w <= CANVAS_LIMIT,
        h <= CANVAS_LIMIT,
    ensures
        rect_matches(
            r,
            point_corner_spec(
                ix as int,
                iy as int,
                iz as int,
                theta@,
                sin_theta@,
                tan_theta@,
                w as int,
                h as int,
            ),
        ),
{
    let p = Point3 { x: lattice_coord(ix), y: lattice_coord(iy), z: lattice_coord(iz) };
    let ghost th: RatV = theta@;
    let ghost s: RatV = sin_theta@;
    let ghost t: RatV = tan_theta@;
    let ghost x0: RatV = p@.0;
    let ghost y0: RatV = p@.1;
    let ghost z0: RatV = p@.2;
    let ghost ath: RatV = rat_abs_val(th);
    let ghost m1: RatV = rat_mul(x0, ath);
    let ghost m2: RatV = rat_mul(z0, s);
    let ghost m3: RatV = rat_mul(x0, t);
    let ghost m4: RatV = rat_mul(m3, z0);
    let ghost fl: RatV = (rat_floor(th), 1int);
    proof {
        lemma_mul_in_bound(x0.0, ath.0, 8, 1073741824);
        lemma_mul_pos_bound(x0.1, ath.1, 8, 1073741824);
        lemma_mul_in_bound(z0.0, s.0, 8, 1073741824);
        lemma_mul_pos_bound(z0.1, s.1, 8, 1073741824);
        lemma_mul_in_bound(m1.0, m2.1, 8589934592, 8589934592);
        lemma_mul_in_bound(m2.0, m1.1, 8589934592, 8589934592);
        lemma_mul_pos_bound(m1.1, m2.1, 8589934592, 8589934592);
        lemma_mul_in_bound(x0.0, t.0, 8, 1073741824);
        lemma_mul_pos_bound(x0.1, t.1, 8, 1073741824);
        lemma_mul_in_bound(m3.0, z0.0, 8589934592, 8);
        lemma_mul_pos_bound(m3.1, z0.1, 8589934592, 8);
        lemma_floor_in_bound(th, 1073741824);
        lemma_mul_in_bound(m4.0, fl.0, 68719476736, 1073741824);
        assert(rotate_y_fits(p@, th, s, t));
    }
    let pr = rotate_y(&p, theta, sin_theta, tan_theta);
    let ghost x1: RatV = pr@.0;
    let ghost z1: RatV = pr@.2;
    let offset = Point3 { x: Rat::from_int(0), y: Rat::from_int(0), z: Rat::from_int(DISTANCE) };
    proof {
        assert(-147573952589676412928 <= x1.0 <= 147573952589676412928);
        assert(0 < x1.1 <= 73786976294838206464);
        assert(-73786976294838206464 <= z1.0 <= 73786976294838206464);
        assert(0 < z1.1 <= 68719476736);
        assert(translate_fits(pr@, offset@));
    }
    let pt = translate(&pr, &offset);
    let ghost xt: RatV = pt@.0;
    let ghost yt: RatV = pt@.1;
    let ghost zt: RatV = pt@.2;
    if pt.z.num == 0 {
        return None;
    }
    let aspect = Rat::new(h as i128, w as i128);
    proof {
        assert(-147573952589676412928 <= xt.0 <= 147573952589676412928);
        assert(0 < xt.1 <= 73786976294838206464);
        assert(-147573952589676412928 <= zt.0 <= 147573952589676412928);
        assert(0 < zt.1 <= 68719476736);
        lemma_mul_in_bound(xt.0, aspect@.0, 147573952589676412928, 16777216);
        lemma_mul_pos_bound(xt.1, aspect@.1, 73786976294838206464, 16777216);
        lemma_mul_in_bound(yt.0, zt.1, 8, 68719476736);
        lemma_mul_in_bound(yt.1, zt.0, 8, 147573952589676412928);
        assert(project_fits(pt@, aspect@));
    }
    let pp = project(&pt, &aspect);
    let ghost px2: RatV = pp@.0;
    let ghost py2: RatV = pp@.1;
    let width_r = Rat::new(w as i128, 1);
    let height_r = Rat::new(h as i128, 1);
    let ghost hw: RatV = rat_mul(width_r@, (1int, 2int));
    let ghost hh: RatV = rat_mul(height_r@, (1int, 2int));
    proof {
        if zt.0 > 0 {
            lemma_mul_pos_bound(yt.1, zt.0, 8, 147573952589676412928);
        } else {
            lemma_mul_pos_bound(yt.1, -zt.0, 8, 147573952589676412928);
        }
        assert(-549755813888 <= py2.0 <= 549755813888);
        assert(0 < py2.1 <= 1180591620717411303424);
        assert(-2475880078570760549798248448 <= px2.0 <= 2475880078570760549798248448);
        assert(0 < px2.1 <= 1237940039285380274899124224);
        lemma_mul_in_bound(px2.0, hw.0, 2475880078570760549798248448, 16777216);
        lemma_mul_pos_bound(px2.1, hw.1, 1237940039285380274899124224, 2);
        lemma_mul_in_bound(py2.0, hh.0, 549755813888, 16777216);
        lemma_mul_pos_bound(py2.1, hh.1, 1180591620717411303424, 2);
        let sxm: RatV = rat_mul(px2, hw);
        let sym: RatV = rat_mul(py2, hh);
        lemma_mul_in_bound(sxm.0, hw.1, 41538374868278621028243970633760768, 2);
        lemma_mul_in_bound(hw.0, sxm.1, 16777216, 2475880078570760549798248448);
        lemma_mul_pos_bound(sxm.1, hw.1, 2475880078570760549798248448, 2);
        lemma_mul_in_bound(sym.0, hh.1, 9223372036854775808, 2);
        lemma_mul_in_bound(hh.0, sym.1, 16777216, 2361183241434822606848);
        lemma_mul_pos_bound(sym.1, hh.1, 2361183241434822606848, 2);
        assert(to_screen_fits(pp@, width_r@, height_r@));
    }
    let ps = to_screen(&pp, &width_r, &height_r);
    let ghost sx: RatV = ps@.0;
    let ghost sy: RatV = ps@.1;
    let one = Rat::from_int(1);
    proof {
        assert(-166153499473114484112975882535043072 <= sx.0
            <= 166153499473114484112975882535043072);
        assert(0 < sx.1 <= 4951760157141521099596496896);
        assert(-79228162514264337593543950336 <= sy.0 <= 79228162514264337593543950336);
        assert(0 < sy.1 <= 4722366482869645213696);
    }
    let cx = ps.x.sub(one);
    let cy = ps.y.sub(one);
    let qx = cx.floor();
    let qy = cy.floor();
    let rect = PixelRect { x: qx, y: qy, w: SQUARE_SIDE, h: SQUARE_SIDE };
    proof {
        assert(point_corner_spec(
            ix as int,
            iy as int,
            iz as int,
            th,
            s,
            t,
            w as int,
            h as int,
        ) == Some((qx as int, qy as int)));
    }
    Some(rect)
}

/// Build one frame: the square (or `None`) for each of the 3375 lattice
/// points, indexed in the fixed order `ix` outermost, `iz` innermost, so
/// entry `i` belongs to indices `(i / 225, (i / 15) % 15, i % 15)`.
pub fn render_frame(
    theta: &Rat,
    sin_theta: &Rat,
    tan_theta: &Rat,
    w: u64,
    h: u64,
) -> (out: Vec<Option<PixelRect>>)
    requires
        rat_bounded(theta@, ANGLE_COMP_LIMIT as int),
        rat_bounded(sin_theta@, ANGLE_COMP_LIMIT as int),
        rat_bounded(tan_theta@, ANGLE_COMP_LIMIT as int),
        1 <= w <= CANVAS_LIMIT,
        h <= CANVAS_LIMIT,
    ensures
        out@.len() == LATTICE_POINTS,
        forall|i: int|
            0 <= i < LATTICE_POINTS ==> rect_matches(
                out@[i],
                point_corner_spec(
                    i / 225,
                    (i / 15) % 15,
                    i % 15,
                    theta@,
                    sin_theta@,
                    tan_theta@,
                    w as int,
                    h as int,
                ),
            ),
{
    let mut out: Vec<Option<PixelRect>> = Vec::new();
    let mut i: u32 = 0;
    while i < LATTICE_POINTS
        invariant
            i <= LATTICE_POINTS,
            out@.len() == i as int,
            rat_bounded(theta@, ANGLE_COMP_LIMIT as int),
            rat_bounded(sin_theta@, ANGLE_COMP_LIMIT as int),
            rat_bounded(tan_theta@, ANGLE_COMP_LIMIT as int),
            1 <= w <= CANVAS_LIMIT,
            h <= CANVAS_LIMIT,
            forall|j: int|
                0 <= j < i as int ==> rect_matches(
                    out@[j],
                    point_corner_spec(
                        j / 225,
                        (j / 15) % 15,
                        j % 15,
                        theta@,
                        sin_theta@,
                        tan_theta@,
                        w as int,
                        h as int,
                    ),
                ),
        decreases LATTICE_POINTS - i,
    {
        proof {
            lemma_fundamental_div_mod(i as int, 225);
            lemma_mod_bound(i as int, 225);
            lemma_mod_bound(i as int / 15, 15);
            lemma_mod_bound(i as int, 15);
        }
        let ix: u32 = i / 225;
        let iy: u32 = (i / 15) % 15;
        let iz: u32 = i % 15;
        let cell = transform_point(ix, iy, iz, theta, sin_theta, tan_theta, w, h);
        out.push(cell);
        i = i + 1;
    }
    out
}

/// The animation angle: starts at zero and grows by exactly 1/200 per
/// frame, never reset.  It is held as the frame count, so its rational
/// value `steps / 200` is exact however long the run.
#[derive(Clone, Copy, Debug, PartialEq, Eq, Structural)]
pub struct Angle {
    pub steps: u64,
}

impl View for Angle {
    type V = RatV;

    open spec fn view(&self) -> RatV {
        (self.steps as int, 200int)
    }
}

impl Angle {
    pub fn new() -> (a: Angle)
        ensures
            a.steps == 0,
            a@ == (0int, 200int),
    {
        Angle { steps: 0 }
    }

    /// One frame has passed: the angle grows by exactly 1/200.
    pub fn advance(&mut self)
        requires
            old(self).steps < u64::MAX,
        ensures
            final(self).steps == old(self).steps + 1,
            rat_eq(final(self)@, rat_add(old(self)@, (1int, 200int))),
    {
        proof {
            let n: int = self.steps as int;
            assert((n + 1) * (200 * 200) == (n * 200 + 1 * 200) * 200) by (nonlinear_arith);
        }
        self.steps = self.steps + 1;
    }

    /// The angle as an exact rational, for the transform chain.
    pub fn to_rat(&self) -> (r: Rat)
        ensures
            r@ == self@,
            rat_wf(r@),
    {
        Rat::new(self.steps as i128, 200)
    }

    /// Whether the angle is still small enough for `render_frame`'s
    /// component cap.
    pub fn within_cap(&self) -> (b: bool)
        ensures
            b == rat_bounded(self@, ANGLE_COMP_LIMIT as int),
    {
        self.steps <= ANGLE_COMP_LIMIT as u64
    }
}

/// The angle value reached after `n` frames when each frame adds 1/200
/// to the previous exact value, starting from zero.
pub open spec fn accumulated_theta(n: nat) -> RatV
    decreases n,
{
    if n == 0 {
        (0int, 1int)
    } else {
        rat_add(accumulated_theta((n - 1) as nat), (1int, 200int))
    }
}

/// Law: accumulation is exact.  After `n` frames with no reset the
/// angle is exactly `n / 200`, that is `0.005 * n`: the per-frame sums
/// never drift from the closed form.
pub proof fn lemma_theta_accumulates(n: nat)
    ensures
        rat_wf(accumulated_theta(n)),
        rat_eq(accumulated_theta(n), (n as int, 200int)),
    decreases n,
{
    if n > 0 {
        lemma_theta_accumulates((n - 1) as nat);
        let prev = accumulated_theta((n - 1) as nat);
        assert((prev.0 * 200 + 1 * prev.1) * 200 == (n as int) * (prev.1 * 200))
            by (nonlinear_arith)
            requires
                prev.0 * 200 == (n as int - 1) * prev.1,
                n >= 1,
        ;
    }
}

} // verus!
