use pilot::decimal::Decimal;

#[test]
fn decimal_parts_are_kept() {
    let number = Decimal::new(false, 15, -1);
    assert!(!number.positive);
    assert_eq!(number.mantissa, 15);
    assert_eq!(number.exponent, -1);
    assert_eq!(number, Decimal { positive: false, mantissa: 15, exponent: -1 });
}

#[test]
fn decimal_from_integer() {
    assert_eq!(Decimal::from_integer(0), Decimal::new(true, 0, 0));
    assert_eq!(Decimal::from_integer(4096), Decimal::new(true, 4096, 0));
    assert_eq!(Decimal::from_integer(-7), Decimal::new(false, 7, 0));
    assert_eq!(Decimal::from_integer(i64::MAX), Decimal::new(true, 9223372036854775807, 0));
    assert_eq!(Decimal::from_integer(i64::MIN), Decimal::new(false, 9223372036854775808, 0));
}

#[test]
fn decimal_plain_integer() {
    assert_eq!(Decimal::new(true, 20, 0).as_plain_integer(), Some(20));
    assert_eq!(Decimal::new(false, 20, 0).as_plain_integer(), Some(-20));
    assert_eq!(Decimal::new(false, 0, 0).as_plain_integer(), Some(0));
    assert_eq!(Decimal::new(true, 2, 1).as_plain_integer(), None);
    assert_eq!(Decimal::new(true, 20, -1).as_plain_integer(), None);
    assert_eq!(Decimal::new(true, 9223372036854775807, 0).as_plain_integer(), Some(i64::MAX));
    assert_eq!(Decimal::new(true, 9223372036854775808, 0).as_plain_integer(), None);
    assert_eq!(Decimal::new(false, 9223372036854775808, 0).as_plain_integer(), Some(i64::MIN));
    assert_eq!(Decimal::new(false, 9223372036854775809, 0).as_plain_integer(), None);
    assert_eq!(Decimal::new(true, u64::MAX, 0).as_plain_integer(), None);
}

#[test]
fn decimal_compares_with_fractions() {
    let half = Decimal::new(true, 5, -1);
    assert!(half.is_at_most(1));
    assert!(half.is_at_least(0));
    assert!(!half.is_at_least(1));
    assert!(!half.is_at_most(0));
    assert!(half.is_between(0, 1));
    assert!(half.is_between(-2, 2));
    assert!(!half.is_between(1, 2));
    let minus = Decimal::new(false, 25, -1);
    assert!(minus.is_at_most(-2));
    assert!(!minus.is_at_least(-2));
    assert!(minus.is_at_least(-3));
    assert!(!minus.is_between(-2, 2));
}

#[test]
fn decimal_compares_at_the_bound() {
    assert!(Decimal::new(true, 2, 0).is_between(2, 2));
    assert!(Decimal::new(true, 2000, -3).is_between(2, 2));
    assert!(Decimal::new(true, 2, 0).is_at_most(2));
    assert!(!Decimal::new(true, 2001, -3).is_at_most(2));
    assert!(Decimal::new(true, 1999, -3).is_at_most(2));
    assert!(!Decimal::new(true, 1999, -3).is_at_least(2));
    assert!(Decimal::new(false, 2, 0).is_at_least(-2));
    assert!(!Decimal::new(false, 2000000000000000001, -18).is_at_least(-2));
    assert!(Decimal::new(true, 2000000000000000000, -18).is_between(2, 2));
}

#[test]
fn decimal_compares_with_large_exponents() {
    assert!(!Decimal::new(true, 1, 19).is_at_most(i64::MAX));
    assert!(Decimal::new(false, 1, 19).is_at_most(i64::MIN));
    assert!(Decimal::new(true, 9, 18).is_at_most(i64::MAX));
    assert!(Decimal::new(true, 922337203685477580, 1).is_at_most(i64::MAX));
    assert!(!Decimal::new(true, 922337203685477581, 1).is_at_most(i64::MAX));
    assert!(!Decimal::new(true, 1, i16::MAX).is_at_most(i64::MAX));
    assert!(Decimal::new(true, 1, i16::MAX).is_at_least(i64::MAX));
    assert!(Decimal::new(true, 0, i16::MAX).is_between(0, 0));
    assert!(Decimal::new(false, 0, i16::MAX).is_between(0, 0));
    assert!(Decimal::new(true, u64::MAX, 18).is_at_least(i64::MAX));
    assert!(!Decimal::new(false, u64::MAX, 18).is_at_least(i64::MIN));
}

#[test]
fn decimal_compares_with_small_exponents() {
    assert!(Decimal::new(true, u64::MAX, -20).is_at_most(1));
    assert!(Decimal::new(true, u64::MAX, -20).is_at_least(0));
    assert!(!Decimal::new(true, u64::MAX, -19).is_at_most(1));
    assert!(Decimal::new(true, u64::MAX, -19).is_at_most(2));
    assert!(Decimal::new(true, u64::MAX, i16::MIN).is_between(0, 1));
    assert!(!Decimal::new(true, 1, i16::MIN).is_at_most(0));
    assert!(Decimal::new(false, 1, i16::MIN).is_at_most(0));
    assert!(!Decimal::new(false, 1, i16::MIN).is_at_least(0));
    assert!(Decimal::new(false, 1, i16::MIN).is_at_least(-1));
    assert!(Decimal::new(true, 0, i16::MIN).is_between(0, 0));
    assert!(Decimal::new(false, u64::MAX, -19).is_at_least(-2));
    assert!(!Decimal::new(false, u64::MAX, -19).is_at_least(-1));
    assert!(Decimal::new(true, u64::MAX, -19).is_at_least(i64::MIN));
    assert!(Decimal::new(true, 10000000000000000000, -19).is_between(1, 1));
}

#[test]
fn decimal_agrees_with_floats_on_a_grid() {
    let mut exponent: i16 = -4;
    while exponent <= 2 {
        let mut mantissa: u64 = 0;
        while mantissa <= 300 {
            for positive in [true, false] {
                let number = Decimal::new(positive, mantissa, exponent);
                let sign = if positive { 1.0 } else { -1.0 };
                let value = sign * (mantissa as f64) * 10f64.powi(exponent as i32);
                for bound in [-2i64, -1, 0, 1, 2] {
                    let near = (value - bound as f64).abs() < 1e-9;
                    if !near {
                        assert_eq!(number.is_at_most(bound), value <= bound as f64);
                        assert_eq!(number.is_at_least(bound), value >= bound as f64);
                    } else {
                        assert!(number.is_at_most(bound) && number.is_at_least(bound));
                    }
                }
            }
            mantissa += 7;
        }
        exponent += 1;
    }
}
