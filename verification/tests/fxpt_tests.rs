use flappy_core::fxpt::{Fxpt, FxptOverflow, FIXED_POINT_DIVISOR};

#[test]
fn units_round_trip_whole_range() {
    for n in -1024i16..=1023i16 {
        let f = Fxpt::from_units(n);
        assert_eq!(f.0, n * FIXED_POINT_DIVISOR);
        assert_eq!(f.to_units(), n);
    }
}

#[test]
fn try_from_units_accepts_range_edges() {
    assert_eq!(Fxpt::try_from_units(1023), Ok(Fxpt(1023 * 32)));
    assert_eq!(Fxpt::try_from_units(-1024), Ok(Fxpt(-1024 * 32)));
    assert_eq!(Fxpt::try_from_units(0), Ok(Fxpt(0)));
}

#[test]
fn try_from_units_rejects_overflow() {
    assert_eq!(Fxpt::try_from_units(1024), Err(FxptOverflow));
    assert_eq!(Fxpt::try_from_units(-1025), Err(FxptOverflow));
    assert_eq!(Fxpt::try_from_units(i16::MAX), Err(FxptOverflow));
    assert_eq!(Fxpt::try_from_units(i16::MIN), Err(FxptOverflow));
}

#[test]
fn to_units_floors_toward_negative_infinity() {
    assert_eq!(Fxpt(33).to_units(), 1);
    assert_eq!(Fxpt(-1).to_units(), -1);
    assert_eq!(Fxpt(-33).to_units(), -2);
    assert_eq!(Fxpt(-32).to_units(), -1);
    assert_eq!(Fxpt(31).to_units(), 0);
}

#[test]
fn float_conversion_is_exact_at_this_scale() {
    // Dividing an i16 by a power of two is exact in f32, so the displayed
    // value is within one unit of the fractional resolution of the intended
    // rational - in fact it is that rational exactly.
    for raw in [-32768i16, -1024, -33, -1, 0, 1, 31, 32, 1023, 32767] {
        let f = raw as f32 / FIXED_POINT_DIVISOR as f32;
        assert!(f.is_finite());
        assert_eq!(f * FIXED_POINT_DIVISOR as f32, raw as f32);
        let units = Fxpt(raw).to_units();
        assert!((f - units as f32).abs() < 1.0);
    }
}
