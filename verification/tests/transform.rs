use fractal_core::frac::Frac;
use fractal_core::transform::{
    fractal_to_screen, pan_center, screen_to_fractal, zoom_about_pointer, Vec2q, Viewport,
};

fn fr(num: i64, den: i64) -> Frac {
    Frac::new(num, den)
}

fn v2(x: Frac, y: Frac) -> Vec2q {
    Vec2q::new(x, y)
}

#[test]
fn frac_checked_ops_exact() {
    let a = fr(1, 2);
    let b = fr(1, 3);
    let s = a.add(b).unwrap();
    assert!(s.eqv(&fr(5, 6)));
    let d = a.sub(b).unwrap();
    assert!(d.eqv(&fr(1, 6)));
    let m = a.mul(b).unwrap();
    assert!(m.eqv(&fr(1, 6)));
    let q = a.div(b).unwrap();
    assert!(q.eqv(&fr(3, 2)));
}

#[test]
fn frac_division_by_zero_is_none() {
    let a = fr(7, 3);
    assert!(a.div(Frac::zero()).is_none());
}

#[test]
fn frac_negative_divisor_normalizes() {
    let a = fr(1, 2);
    let q = a.div(fr(-1, 1)).unwrap();
    assert!(q.den > 0);
    assert!(q.eqv(&fr(-1, 2)));
}

#[test]
fn frac_overflow_is_none() {
    let big = fr(i64::MAX, 1);
    assert!(big.add(big).is_none());
    assert!(big.mul(big).is_none());
}

#[test]
fn screen_to_fractal_center_of_viewport() {
    // the middle of the viewport with a zero center maps to the origin
    let vp = Viewport::new(v2(fr(10, 1), fr(20, 1)), v2(fr(40, 1), fr(40, 1)));
    let pos = v2(fr(30, 1), fr(40, 1));
    let f = screen_to_fractal(pos, &vp, Vec2q::zero()).unwrap();
    assert!(f.x.eqv(&Frac::zero()));
    assert!(f.y.eqv(&Frac::zero()));
}

#[test]
fn transform_round_trip_is_exact() {
    let vp = Viewport::new(v2(fr(10, 1), fr(20, 1)), v2(fr(640, 1), fr(480, 1)));
    let center = v2(fr(1, 2), fr(-1, 3));
    let pos = v2(fr(100, 1), fr(200, 1));
    let f = screen_to_fractal(pos, &vp, center).unwrap();
    let back = fractal_to_screen(f, &vp, center).unwrap();
    assert!(back.x.eqv(&pos.x));
    assert!(back.y.eqv(&pos.y));

    let there = fractal_to_screen(center, &vp, center).unwrap();
    let again = screen_to_fractal(there, &vp, center).unwrap();
    assert!(again.x.eqv(&center.x));
    assert!(again.y.eqv(&center.y));
}

#[test]
fn pan_moves_center_against_drag() {
    let vp = Viewport::new(Vec2q::zero(), v2(fr(64, 1), fr(48, 1)));
    let drag = v2(fr(32, 1), fr(24, 1));
    let c = pan_center(Vec2q::zero(), drag, &vp).unwrap();
    assert!(c.x.eqv(&fr(-1, 2)));
    assert!(c.y.eqv(&fr(-1, 2)));
}

#[test]
fn zoom_about_pointer_keeps_pointer_fixed() {
    // the fractal coordinate recovered at the pointer's screen position,
    // divided by the zoom as the shader does, is identical before and
    // after the zoom update
    let vp = Viewport::new(v2(fr(5, 1), fr(7, 1)), v2(fr(320, 1), fr(240, 1)));
    let center = v2(fr(1, 4), fr(-2, 5));
    let zoom = fr(1, 5);
    let delta = fr(3, 1);
    let pos = v2(fr(101, 1), fr(57, 1));

    let before = screen_to_fractal(pos, &vp, center).unwrap();
    let (center2, zoom2) = zoom_about_pointer(center, zoom, delta, before).unwrap();
    let after = screen_to_fractal(pos, &vp, center2).unwrap();

    let true_before_x = before.x.div(zoom).unwrap();
    let true_before_y = before.y.div(zoom).unwrap();
    let true_after_x = after.x.div(zoom2).unwrap();
    let true_after_y = after.y.div(zoom2).unwrap();
    assert!(true_after_x.eqv(&true_before_x));
    assert!(true_after_y.eqv(&true_before_y));
    assert!(zoom2.eqv(&fr(3, 5)));
}

#[test]
fn unit_zoom_delta_changes_nothing() {
    let center = v2(fr(1, 3), fr(1, 7));
    let zoom = fr(2, 1);
    let pointer = v2(fr(5, 2), fr(-3, 4));
    let (c2, z2) = zoom_about_pointer(center, zoom, Frac::one(), pointer).unwrap();
    assert!(c2.x.eqv(&center.x));
    assert!(c2.y.eqv(&center.y));
    assert!(z2.eqv(&zoom));
}
