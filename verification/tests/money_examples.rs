use fintrak::money::Money;

#[test]
fn whole_amounts_show_no_fraction() {
    assert_eq!(Money::from_cents(11000).render(), "110");
    assert_eq!(Money::from_cents(0).render(), "0");
    assert_eq!(Money::from_cents(100).render(), "1");
    assert_eq!(Money::from_cents(-4000).render(), "-40");
}

#[test]
fn fractions_are_shown_in_their_shortest_form() {
    assert_eq!(Money::from_cents(4050).render(), "40.5");
    assert_eq!(Money::from_cents(4005).render(), "40.05");
    assert_eq!(Money::from_cents(4055).render(), "40.55");
    assert_eq!(Money::from_cents(5).render(), "0.05");
    assert_eq!(Money::from_cents(-5).render(), "-0.05");
    assert_eq!(Money::from_cents(-50).render(), "-0.5");
    assert_eq!(Money::from_cents(99).render(), "0.99");
}

#[test]
fn the_ends_of_the_range_are_rendered() {
    assert_eq!(Money::from_cents(i64::MAX).render(), "92233720368547758.07");
    assert_eq!(Money::from_cents(i64::MIN).render(), "-92233720368547758.08");
    assert_eq!(Money::from_cents(i64::MIN).render_fixed(), "-92233720368547758.08");
}

#[test]
fn fixed_notation_has_two_digits() {
    assert_eq!(Money::from_cents(11000).render_fixed(), "110.00");
    assert_eq!(Money::from_cents(4050).render_fixed(), "40.50");
    assert_eq!(Money::from_cents(4005).render_fixed(), "40.05");
    assert_eq!(Money::from_cents(-5).render_fixed(), "-0.05");
    assert_eq!(Money::from_cents(0).render_fixed(), "0.00");
}

#[test]
fn the_notation_agrees_with_that_of_floats_on_hundredths() {
    for cents in [0i64, 1, 10, 99, 100, 101, 110, 4050, 123456, -1, -10, -250, -12345] {
        let as_float = cents as f64 / 100.0;
        assert_eq!(Money::from_cents(cents).render(), format!("{}", as_float));
        assert_eq!(Money::from_cents(cents).render_fixed(), format!("{:.2}", as_float));
    }
}
