use media_thumb::score::Score;

fn score(x: f32) -> Score {
    Score::from_bits(x.to_bits())
}

fn samples() -> Vec<f32> {
    vec![
        0.0,
        -0.0,
        1.0,
        -1.0,
        0.5,
        -0.5,
        1.5,
        128.0,
        -128.0,
        f32::MIN_POSITIVE,
        -f32::MIN_POSITIVE,
        f32::from_bits(1),
        f32::from_bits(0x8000_0001),
        f32::from_bits(0x007f_ffff),
        f32::MAX,
        f32::MIN,
        f32::EPSILON,
        f32::INFINITY,
        f32::NEG_INFINITY,
        f32::NAN,
        f32::from_bits(0xffc0_0000),
        f32::from_bits(0x7f80_0001),
        f32::from_bits(0xffff_ffff),
        3.1415927,
        -2.7182817,
        1.0e-30,
        -1.0e30,
    ]
}

#[test]
fn ge_and_gt_agree_with_the_numbers() {
    for a in samples() {
        for b in samples() {
            assert_eq!(score(a).ge(&score(b)), a >= b, "{:?} >= {:?}", a, b);
            assert_eq!(score(a).gt(&score(b)), a > b, "{:?} > {:?}", a, b);
        }
    }
}

#[test]
fn nan_is_told_by_the_bits() {
    for a in samples() {
        assert_eq!(score(a).nan(), a.is_nan(), "{:?}", a);
    }
}

#[test]
fn ordinals_order_the_numbers() {
    for a in samples() {
        for b in samples() {
            if !a.is_nan() && !b.is_nan() {
                assert_eq!(score(a).ordinal() < score(b).ordinal(), a < b, "{:?} < {:?}", a, b);
                assert_eq!(score(a).ordinal() == score(b).ordinal(), a == b, "{:?} == {:?}", a, b);
            }
        }
    }
}

#[test]
fn exact_ordinals() {
    assert_eq!(score(0.0).ordinal(), 0);
    assert_eq!(score(-0.0).ordinal(), 0);
    assert_eq!(score(1.0).ordinal(), 0x3f80_0000);
    assert_eq!(score(-1.0).ordinal(), -0x3f80_0000);
    assert_eq!(score(f32::INFINITY).ordinal(), 0x7f80_0000);
    assert_eq!(score(f32::NEG_INFINITY).ordinal(), -0x7f80_0000);
    assert_eq!(Score::minus_one().to_bits(), (-1.0f32).to_bits());
    assert_eq!(Score::from_bits(0x1234_5678).to_bits(), 0x1234_5678);
}

#[test]
fn ge_and_gt_agree_on_many_patterns() {
    let mut state: u64 = 0x2545_f491_4f6c_dd1d;
    let mut next = || {
        state = state.wrapping_mul(6364136223846793005).wrapping_add(1442695040888963407);
        (state >> 32) as u32
    };
    for _ in 0..50_000 {
        let (a, b) = (next(), next());
        let (x, y) = (f32::from_bits(a), f32::from_bits(b));
        assert_eq!(Score::from_bits(a).ge(&Score::from_bits(b)), x >= y, "{:#x} >= {:#x}", a, b);
        assert_eq!(Score::from_bits(a).gt(&Score::from_bits(b)), x > y, "{:#x} > {:#x}", a, b);
        assert_eq!(Score::from_bits(a).nan(), x.is_nan(), "{:#x}", a);
        assert_eq!(Score::from_bits(a).ge(&Score::from_bits(a)), x >= x, "{:#x}", a);
    }
}
