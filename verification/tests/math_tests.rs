use gravylib::math::{
    cos, exp, saturate, sin, smoothstep, FxVec3, FX_HALF_PI, FX_ONE, FX_PI,
};

#[test]
fn saturate_clamps_to_unit_range() {
    assert_eq!(saturate(-5), 0);
    assert_eq!(saturate(0), 0);
    assert_eq!(saturate(123), 123);
    assert_eq!(saturate(FX_ONE), FX_ONE);
    assert_eq!(saturate(70_000), FX_ONE);
}

#[test]
fn sine_hits_the_cardinal_points() {
    let v = sin(FxVec3::new(0, FX_HALF_PI, FX_PI));
    assert_eq!(v.x, 0);
    assert_eq!(v.y, 65535);
    assert_eq!(v.z, 0);
    let w = sin(FxVec3::new(FX_PI + FX_HALF_PI, -FX_HALF_PI, FX_ONE));
    assert_eq!(w.x, -65535);
    assert_eq!(w.y, -65535);
    assert_eq!(w.z, 55064);
}

#[test]
fn cosine_is_sine_a_quarter_turn_ahead() {
    let v = cos(FxVec3::new(0, FX_PI, FX_HALF_PI));
    assert_eq!(v.x, 65535);
    assert_eq!(v.y, -65535);
    assert_eq!(v.z, 0);
}

#[test]
fn exponential_matches_its_formula() {
    let v = exp(FxVec3::new(0, FX_ONE, -FX_ONE));
    assert_eq!(v.x, FX_ONE);
    assert_eq!(v.y, 178090);
    assert_eq!(v.z, 24092);
    let w = exp(FxVec3::new(2 * FX_ONE, -20 * FX_ONE, 0));
    assert_eq!(w.x, 482480);
    assert_eq!(w.y, 0);
}

#[test]
fn smoothstep_eases_between_the_edges() {
    assert_eq!(smoothstep(0, FX_ONE, -5), 0);
    assert_eq!(smoothstep(0, FX_ONE, FX_ONE + 5), FX_ONE);
    assert_eq!(smoothstep(0, FX_ONE, 32_768), 32_768);
    assert_eq!(smoothstep(0, FX_ONE, 16_384), 10_240);
}
