use benilla::single::{origin, zero, Double, Single};

fn s(x: f32) -> Single {
    Single::from_bits(x.to_bits())
}

#[test]
fn order_is_the_order_of_numbers() {
    let values = [
        f32::NEG_INFINITY,
        -7.5,
        -1.0e-40,
        -0.0,
        0.0,
        1.0e-40,
        0.1,
        7.5,
        f32::INFINITY,
        f32::NAN,
        -f32::NAN,
    ];
    for a in values {
        for b in values {
            assert_eq!(s(a).is_below(s(b)), a < b, "{a} < {b}");
            assert_eq!(s(a).is_at_most(s(b)), a <= b, "{a} <= {b}");
            assert_eq!(
                s(a).total_ranked() < s(b).total_ranked(),
                a.total_cmp(&b) == std::cmp::Ordering::Less,
                "{a} before {b}"
            );
        }
        assert_eq!(s(a).is_nan(), a.is_nan());
    }
}

#[test]
fn signs_and_bounds() {
    assert_eq!(s(2.5).negate(), s(-2.5));
    assert_eq!(s(-2.5).negate(), s(2.5));
    assert_eq!(s(-2.5).abs(), s(2.5));
    assert_eq!(s(2.0).least(s(3.0)), s(2.0));
    assert_eq!(s(f32::NAN).least(s(3.0)), s(3.0));
    assert_eq!(s(5.0).clamp(s(-1.0), s(1.0)), s(1.0));
    assert_eq!(s(-5.0).clamp(s(-1.0), s(1.0)), s(-1.0));
    assert_eq!(s(0.5).clamp(s(-1.0), s(1.0)), s(0.5));
    assert_eq!(zero(), s(0.0));
    assert_eq!(origin().y, zero());
}

#[test]
fn doubles_compare_as_numbers() {
    let d = |x: f64| Double::from_bits(x.to_bits());
    assert!(d(-1.0).is_at_most(d(0.0)));
    assert!(d(-0.0).is_at_most(d(0.0)) && d(0.0).is_at_most(d(-0.0)));
    assert!(!d(2.0).is_at_most(d(1.0)));
    assert!(!d(f64::NAN).is_at_most(d(1.0)));
}
