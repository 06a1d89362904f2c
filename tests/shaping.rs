use maschine::handler::MHandler;
use maschine::shaper::{shape_pressure, PressureShape};

#[test]
fn linear_shape_rounds_scaled_pressure() {
    let s = PressureShape::Linear;
    assert_eq!(shape_pressure(&s, 0), 0);
    assert_eq!(shape_pressure(&s, 100), 3);
    assert_eq!(shape_pressure(&s, 1024), 32);
    assert_eq!(shape_pressure(&s, 2048), 64);
    assert_eq!(shape_pressure(&s, 3000), 93);
    assert_eq!(shape_pressure(&s, 4095), 127);
}

#[test]
fn exponential_shape_rounds_power_of_pressure() {
    let s = PressureShape::Exponential { num: 2, den: 5 };
    assert_eq!(shape_pressure(&s, 0), 0);
    assert_eq!(shape_pressure(&s, 1), 5);
    assert_eq!(shape_pressure(&s, 100), 29);
    assert_eq!(shape_pressure(&s, 1024), 73);
    assert_eq!(shape_pressure(&s, 2048), 96);
    assert_eq!(shape_pressure(&s, 3000), 112);
    assert_eq!(shape_pressure(&s, 4095), 127);
}

#[test]
fn exponent_one_matches_linear() {
    let e = PressureShape::Exponential { num: 1, den: 1 };
    let l = PressureShape::Linear;
    for p in [0u16, 1, 33, 100, 1024, 2048, 3000, 4094, 4095] {
        assert_eq!(shape_pressure(&e, p), shape_pressure(&l, p));
    }
}

#[test]
fn exponent_zero_is_full_scale() {
    let s = PressureShape::Exponential { num: 0, den: 3 };
    assert_eq!(shape_pressure(&s, 0), 127);
    assert_eq!(shape_pressure(&s, 2000), 127);
}

#[test]
fn constant_shape_ignores_pressure() {
    let s = PressureShape::Constant(2048);
    assert_eq!(shape_pressure(&s, 0), 64);
    assert_eq!(shape_pressure(&s, 1), 64);
    assert_eq!(shape_pressure(&s, 4095), 64);
}

#[test]
fn handler_uses_its_shape() {
    let h = MHandler {
        color: 0,
        pressure_shape: PressureShape::Exponential { num: 2, den: 5 },
        send_aftertouch: false,
    };
    assert_eq!(h.pressure_to_vel(2048), 96);
}
