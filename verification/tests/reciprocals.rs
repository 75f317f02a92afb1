use integration_params::scalar::Scalar;

fn sc(x: f32) -> Scalar {
    Scalar::from_bits(x.to_bits())
}

fn holds(inv: u32, step: u32) -> bool {
    Scalar::from_bits(inv).is_inverse_of(Scalar::from_bits(step))
}

#[test]
fn exact_inverses_are_accepted() {
    assert!(sc(2.0).is_inverse_of(sc(0.5)));
    assert!(sc(0.5).is_inverse_of(sc(2.0)));
    assert!(sc(1.0).is_inverse_of(sc(1.0)));
    assert!(sc(0.25).is_inverse_of(sc(4.0)));
    assert!(sc(1024.0).is_inverse_of(sc(1.0 / 1024.0)));
}

#[test]
fn rounded_inverses_are_accepted() {
    assert!(holds(0x426f_ffff, 0x3c88_8889));
    assert!(sc(1.0 / 3.0).is_inverse_of(sc(3.0)));
    assert!(sc(1.0 / 0.3).is_inverse_of(sc(0.3)));
    assert!(sc(1.0 / 120.0).is_inverse_of(sc(120.0)));
}

#[test]
fn neighbours_of_the_inverse_are_refused() {
    assert!(!holds(0x426f_fffe, 0x3c88_8889));
    assert!(!holds(0x4270_0000, 0x3c88_8889));
    assert!(!holds(2.0f32.to_bits() + 1, 0.5f32.to_bits()));
    assert!(!holds(2.0f32.to_bits() - 1, 0.5f32.to_bits()));
    assert!(!sc(60.0).is_inverse_of(sc(1.0 / 60.0)));
    assert!(!sc(-2.0).is_inverse_of(sc(0.5)));
    assert!(!sc(0.0).is_inverse_of(sc(0.5)));
    assert!(!sc(f32::NAN).is_inverse_of(sc(0.5)));
    assert!(!sc(f32::INFINITY).is_inverse_of(sc(0.5)));
}

#[test]
fn a_zero_and_the_infinity_have_the_inverse_zero() {
    assert!(sc(0.0).is_inverse_of(sc(0.0)));
    assert!(sc(0.0).is_inverse_of(sc(-0.0)));
    assert!(sc(0.0).is_inverse_of(sc(f32::INFINITY)));
    assert!(!sc(-0.0).is_inverse_of(sc(0.0)));
    assert!(!sc(-0.0).is_inverse_of(sc(f32::INFINITY)));
    assert!(!sc(f32::INFINITY).is_inverse_of(sc(0.0)));
    assert!(!sc(1.0).is_inverse_of(sc(0.0)));
    assert!(!sc(f32::MIN_POSITIVE).is_inverse_of(sc(f32::INFINITY)));
}

#[test]
fn a_negative_step_has_a_negative_inverse() {
    assert!(sc(-4.0).is_inverse_of(sc(-0.25)));
    assert!(!sc(4.0).is_inverse_of(sc(-0.25)));
    assert!(!sc(123.0).is_inverse_of(sc(-0.25)));
    assert!(sc(-0.0).is_inverse_of(sc(f32::NEG_INFINITY)));
    assert!(!sc(0.0).is_inverse_of(sc(f32::NEG_INFINITY)));
    assert_eq!(sc(-0.25).inverse(), sc(-4.0));
    assert_eq!(sc(f32::NEG_INFINITY).inverse(), sc(-0.0));
}

#[test]
fn a_nan_stands_as_its_own_inverse() {
    for b in [0x7fc0_0000u32, 0x7f80_0001, 0xffc0_1234] {
        assert_eq!(Scalar::from_bits(b).inverse().to_bits(), b);
        assert!(holds(b, b));
        assert!(!holds(0, b));
    }
}

#[test]
fn the_inverse_has_the_documented_values() {
    assert_eq!(sc(0.5).inverse(), sc(2.0));
    assert_eq!(sc(2.0).inverse(), sc(0.5));
    assert_eq!(sc(1.0).inverse(), sc(1.0));
    assert_eq!(sc(0.0).inverse().to_bits(), 0);
    assert_eq!(sc(-0.0).inverse().to_bits(), 0);
    assert_eq!(sc(f32::INFINITY).inverse().to_bits(), 0);
    assert_eq!(Scalar::from_bits(0x3c88_8889).inverse().to_bits(), 0x426f_ffff);
    assert_eq!(sc(3.0).inverse(), sc(1.0 / 3.0));
    assert_eq!(Scalar::from_bits(1).inverse(), sc(f32::INFINITY));
    assert_eq!(sc(f32::MAX).inverse(), sc(1.0 / f32::MAX));
}

#[test]
fn the_inverse_agrees_with_division_across_the_patterns() {
    let mut b: u32 = 1;
    loop {
        let x = f32::from_bits(b);
        if !x.is_nan() && x != 0.0 {
            let got = Scalar::from_bits(b).inverse().to_bits();
            assert_eq!(got, (1.0f32 / x).to_bits(), "{:#x}", b);
        }
        match b.checked_add(104_729) {
            Some(next) => b = next,
            None => break,
        }
    }
}

#[test]
fn the_inverse_agrees_with_division_around_the_powers_of_two() {
    let mut e: u32 = 0;
    while e < 255 {
        for d in [0u32, 1, 2, 3, 0x40_0000, 0x7f_fffd, 0x7f_fffe, 0x7f_ffff] {
            let b = (e << 23) + d;
            if b != 0 {
                let got = Scalar::from_bits(b).inverse().to_bits();
                assert_eq!(got, (1.0f32 / f32::from_bits(b)).to_bits(), "{:#x}", b);
            }
        }
        e += 1;
    }
}

#[test]
fn tiny_steps_have_the_inverse_infinity() {
    let inf = f32::INFINITY.to_bits();
    assert!(holds(inf, 1));
    assert!(holds(inf, 0x0010_0000));
    assert_eq!(1.0f32 / f32::from_bits(0x0020_0000), f32::INFINITY);
    assert!(holds(inf, 0x0020_0000));
    assert!(1.0f32 / f32::from_bits(0x0020_0001) < f32::INFINITY);
    assert!(!holds(inf, 0x0020_0001));
    assert!(holds((1.0f32 / f32::from_bits(0x0020_0001)).to_bits(), 0x0020_0001));
    let small = 1.0f32 / f32::MAX;
    assert!(holds((1.0f32 / small).to_bits(), small.to_bits()));
}

#[test]
fn huge_steps_have_a_subnormal_inverse() {
    let inv = 1.0f32 / f32::MAX;
    assert!(inv > 0.0 && inv < f32::MIN_POSITIVE);
    assert!(sc(inv).is_inverse_of(sc(f32::MAX)));
    assert!(!holds(inv.to_bits() + 1, f32::MAX.to_bits()));
    assert!(!holds(inv.to_bits() - 1, f32::MAX.to_bits()));
}

#[test]
fn the_check_agrees_with_division_across_the_patterns() {
    let mut b: u32 = 1;
    while b < 0x7f80_0000 {
        let x = f32::from_bits(b);
        let inv = (1.0f32 / x).to_bits();
        assert!(holds(inv, b), "{:#x}", b);
        assert!(!holds(inv - 1, b), "{:#x}", b);
        if inv < 0x7f80_0000 {
            assert!(!holds(inv + 1, b), "{:#x}", b);
        }
        b += 7_919;
    }
}

#[test]
fn the_check_agrees_with_division_around_the_powers_of_two() {
    let mut e: u32 = 0;
    while e < 255 {
        let base = e << 23;
        for d in [0u32, 1, 2, 3, 0x40_0000, 0x7f_fffd, 0x7f_fffe, 0x7f_ffff] {
            let b = base + d;
            if b == 0 {
                continue;
            }
            let inv = (1.0f32 / f32::from_bits(b)).to_bits();
            assert!(holds(inv, b), "{:#x}", b);
            assert!(!holds(inv - 1, b), "{:#x}", b);
            if inv < 0x7f80_0000 {
                assert!(!holds(inv + 1, b), "{:#x}", b);
            }
        }
        e += 1;
    }
}
