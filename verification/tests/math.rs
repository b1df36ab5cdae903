use clmm::utils::math::{BASE_SQRT_PRICE, TICK_STEP};
use clmm::{
    get_amount_for_liquidity, get_sqrt_price_from_tick, get_tick_at_sqrt_price, swap_segment,
    ErrorCode,
};

const SAMPLE_TICKS: [i32; 13] = [
    i32::MIN,
    i32::MIN + 1,
    -887_272,
    -300,
    -100,
    -1,
    0,
    1,
    100,
    300,
    887_272,
    i32::MAX - 1,
    i32::MAX,
];

#[test]
fn base_price_is_two_to_the_96() {
    assert_eq!(BASE_SQRT_PRICE, 1u128 << 96);
    assert_eq!(TICK_STEP, 1_000_000);
}

#[test]
fn sqrt_price_of_chosen_ticks() {
    assert_eq!(get_sqrt_price_from_tick(0), Ok(79_228_162_514_264_337_593_543_950_336));
    assert_eq!(get_sqrt_price_from_tick(1), Ok(79_228_162_514_264_337_593_544_950_336));
    assert_eq!(get_sqrt_price_from_tick(-100), Ok(79_228_162_514_264_337_593_443_950_336));
    assert_eq!(get_sqrt_price_from_tick(i32::MAX), Ok(79_228_162_514_266_485_077_190_950_336));
    assert_eq!(get_sqrt_price_from_tick(i32::MIN), Ok(79_228_162_514_262_190_109_895_950_336));
}

#[test]
fn tick_round_trip_on_samples() {
    for tick in SAMPLE_TICKS {
        let price = get_sqrt_price_from_tick(tick).unwrap();
        assert_eq!(get_tick_at_sqrt_price(price), Ok(tick));
    }
}

#[test]
fn sqrt_price_grows_with_the_tick() {
    for pair in SAMPLE_TICKS.windows(2) {
        let lower = get_sqrt_price_from_tick(pair[0]).unwrap();
        let higher = get_sqrt_price_from_tick(pair[1]).unwrap();
        assert!(lower < higher);
    }
}

#[test]
fn tick_of_price_rounds_down() {
    let base = BASE_SQRT_PRICE;
    assert_eq!(get_tick_at_sqrt_price(base), Ok(0));
    assert_eq!(get_tick_at_sqrt_price(base + 999_999), Ok(0));
    assert_eq!(get_tick_at_sqrt_price(base + 1_000_000), Ok(1));
    assert_eq!(get_tick_at_sqrt_price(base - 1), Ok(-1));
    assert_eq!(get_tick_at_sqrt_price(base - 1_000_000), Ok(-1));
    assert_eq!(get_tick_at_sqrt_price(base - 1_000_001), Ok(-2));
    assert_eq!(get_tick_at_sqrt_price(base + 2_500_000), Ok(2));
    assert_eq!(get_tick_at_sqrt_price(base - 2_500_000), Ok(-3));
}

#[test]
fn tick_of_price_at_the_ends_of_the_tick_range() {
    let top = get_sqrt_price_from_tick(i32::MAX).unwrap();
    assert_eq!(get_tick_at_sqrt_price(top + 999_999), Ok(i32::MAX));
    assert_eq!(get_tick_at_sqrt_price(top + 1_000_000), Err(ErrorCode::ArithmeticOverflow));
    let bottom = get_sqrt_price_from_tick(i32::MIN).unwrap();
    assert_eq!(get_tick_at_sqrt_price(bottom), Ok(i32::MIN));
    assert_eq!(get_tick_at_sqrt_price(bottom - 1), Err(ErrorCode::ArithmeticOverflow));
}

#[test]
fn tick_of_price_out_of_range_overflows() {
    assert_eq!(get_tick_at_sqrt_price(0), Err(ErrorCode::ArithmeticOverflow));
    assert_eq!(get_tick_at_sqrt_price(u128::MAX), Err(ErrorCode::ArithmeticOverflow));
    assert_eq!(get_tick_at_sqrt_price(1u128 << 127), Err(ErrorCode::ArithmeticOverflow));
}

#[test]
fn amounts_below_range_are_all_token_0() {
    let price = BASE_SQRT_PRICE;
    let liquidity = 123_456_789u128;
    assert_eq!(
        get_amount_for_liquidity(price, price + 1, price + 10, liquidity),
        Ok((123_456_789, 0))
    );
}

#[test]
fn amounts_inside_range_are_split_in_halves() {
    assert_eq!(get_amount_for_liquidity(50, 10, 100, 1000), Ok((500, 500)));
    assert_eq!(get_amount_for_liquidity(50, 10, 100, 1001), Ok((500, 500)));
    assert_eq!(get_amount_for_liquidity(50, 10, 100, 1), Ok((0, 0)));
    assert_eq!(get_amount_for_liquidity(10, 10, 100, 1000), Ok((500, 500)));
    assert_eq!(get_amount_for_liquidity(99, 10, 100, 1000), Ok((500, 500)));
}

#[test]
fn amounts_at_or_above_range_are_all_token_1() {
    assert_eq!(get_amount_for_liquidity(100, 10, 100, 1000), Ok((0, 1000)));
    assert_eq!(get_amount_for_liquidity(101, 10, 100, 1000), Ok((0, 1000)));
    assert_eq!(get_amount_for_liquidity(u128::MAX, 10, 100, 7), Ok((0, 7)));
}

#[test]
fn amounts_of_an_inverted_range() {
    assert_eq!(get_amount_for_liquidity(50, 100, 10, 1000), Ok((1000, 0)));
    assert_eq!(get_amount_for_liquidity(100, 100, 10, 1000), Ok((0, 1000)));
}

#[test]
fn amounts_that_do_not_fit_overflow() {
    let limit = u64::MAX as u128;
    assert_eq!(get_amount_for_liquidity(5, 10, 100, limit), Ok((u64::MAX, 0)));
    assert_eq!(get_amount_for_liquidity(5, 10, 100, limit + 1), Err(ErrorCode::ArithmeticOverflow));
    assert_eq!(get_amount_for_liquidity(500, 10, 100, limit), Ok((0, u64::MAX)));
    assert_eq!(
        get_amount_for_liquidity(500, 10, 100, limit + 1),
        Err(ErrorCode::ArithmeticOverflow)
    );
    assert_eq!(
        get_amount_for_liquidity(50, 10, 100, 2 * limit + 1),
        Ok((u64::MAX, u64::MAX))
    );
    assert_eq!(
        get_amount_for_liquidity(50, 10, 100, 2 * limit + 2),
        Err(ErrorCode::ArithmeticOverflow)
    );
    assert_eq!(
        get_amount_for_liquidity(50, 10, 100, u128::MAX),
        Err(ErrorCode::ArithmeticOverflow)
    );
}

#[test]
fn amounts_grow_with_liquidity() {
    let cases: [(u128, u128, u128); 3] = [(50, 10, 100), (5, 10, 100), (500, 10, 100)];
    let liquidities: [u128; 6] = [0, 1, 2, 3, 1000, 1_000_000_007];
    for (current, lower, upper) in cases {
        for pair in liquidities.windows(2) {
            let less = get_amount_for_liquidity(current, lower, upper, pair[0]).unwrap();
            let more = get_amount_for_liquidity(current, lower, upper, pair[1]).unwrap();
            assert!(less.0 <= more.0);
            assert!(less.1 <= more.1);
            assert!(more.0 as u128 + more.1 as u128 <= pair[1]);
        }
    }
}

#[test]
fn swap_segment_token_0_for_token_1() {
    assert_eq!(
        swap_segment(BASE_SQRT_PRICE, 1_000_000, 1000, true),
        Ok((1000, 999, 79_149_013_500_763_574_019_524_426_336))
    );
    assert_eq!(
        swap_segment(BASE_SQRT_PRICE, 7, 3, true),
        Ok((3, 2, 55_459_713_759_985_036_315_480_765_237))
    );
}

#[test]
fn swap_segment_token_1_for_token_0() {
    assert_eq!(
        swap_segment(BASE_SQRT_PRICE, 1_000_000, 1000, false),
        Ok((1000, 999, 79_307_390_676_778_601_931_137_493_336))
    );
    assert_eq!(
        swap_segment(BASE_SQRT_PRICE, 7, 3, false),
        Ok((3, 2, 113_183_089_306_091_910_847_919_929_051))
    );
}

#[test]
fn swap_segment_in_a_deep_pool() {
    let liquidity = 100_000_000_000_000_000_000u128;
    assert_eq!(
        swap_segment(BASE_SQRT_PRICE, liquidity, 1000, true),
        Ok((1000, 999, 79_228_162_514_264_336_801_262_325_336))
    );
    assert_eq!(
        swap_segment(BASE_SQRT_PRICE, liquidity, 1000, false),
        Ok((1000, 999, 79_228_162_514_264_338_385_825_575_336))
    );
}

#[test]
fn swap_segment_with_the_largest_inputs() {
    assert_eq!(swap_segment(BASE_SQRT_PRICE, u128::MAX, 5, true), Ok((5, 4, BASE_SQRT_PRICE)));
    assert_eq!(swap_segment(BASE_SQRT_PRICE, u128::MAX - 2, 7, true), Ok((7, 6, BASE_SQRT_PRICE)));
    assert_eq!(
        swap_segment(BASE_SQRT_PRICE, 3, u64::MAX, true),
        Ok((u64::MAX, 2, 18_446_744_078_004_518_911))
    );
    assert_eq!(swap_segment(BASE_SQRT_PRICE, 1, 1, true), Ok((1, 0, BASE_SQRT_PRICE / 2)));
    assert_eq!(swap_segment(0, 1, 1, false), Ok((1, 0, 0)));
}

#[test]
fn swap_segment_without_amount_or_liquidity() {
    assert_eq!(
        swap_segment(BASE_SQRT_PRICE, 1_000_000, 0, true),
        Err(ErrorCode::InsufficentAmount)
    );
    assert_eq!(swap_segment(BASE_SQRT_PRICE, 0, 1000, true), Err(ErrorCode::InsufficentAmount));
    assert_eq!(swap_segment(BASE_SQRT_PRICE, 0, 0, false), Err(ErrorCode::InsufficentAmount));
}

#[test]
fn swap_segment_price_overflow() {
    assert_eq!(swap_segment(u128::MAX, 1, 1, false), Err(ErrorCode::ArithmeticOverflow));
    assert_eq!(swap_segment(u128::MAX, 1, u64::MAX, false), Err(ErrorCode::ArithmeticOverflow));
    assert_eq!(swap_segment(u128::MAX / 2 + 1, 1, 1, false), Err(ErrorCode::ArithmeticOverflow));
    assert_eq!(swap_segment(u128::MAX / 2, 1, 1, false), Ok((1, 0, u128::MAX - 1)));
    assert_eq!(swap_segment(u128::MAX, 1, 1, true), Ok((1, 0, u128::MAX - u128::MAX / 2)));
}

#[test]
fn swap_segment_pays_out_less_than_it_takes() {
    let liquidities: [u128; 5] = [1, 2, 1000, 1_000_000_007, u128::MAX];
    let amounts: [u64; 5] = [1, 2, 999, 1_000_000, u64::MAX];
    for liquidity in liquidities {
        for amount in amounts {
            let down = swap_segment(BASE_SQRT_PRICE, liquidity, amount, true).unwrap();
            assert_eq!(down.0, amount);
            assert!(down.1 < amount);
            assert!((down.1 as u128) < liquidity);
            assert!(down.2 <= BASE_SQRT_PRICE);
            if let Ok(up) = swap_segment(BASE_SQRT_PRICE, liquidity, amount, false) {
                assert_eq!(up.0, amount);
                assert_eq!(up.1, down.1);
                assert!(up.2 >= BASE_SQRT_PRICE);
            }
        }
    }
}
