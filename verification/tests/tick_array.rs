use clmm::{Address, ErrorCode, Pool, Position, TickArray, TickInfo, TICKS_PER_ARRAY};

fn array_starting_at(starting_tick: i32) -> TickArray {
    TickArray { starting_tick, ..TickArray::default() }
}

#[test]
fn vacant_records() {
    assert_eq!(TICKS_PER_ARRAY, 30);
    assert_eq!(Address::default(), Address { bytes: [0; 32] });
    assert_eq!(Address::new([7; 32]).bytes, [7; 32]);
    let tick = TickInfo::default();
    assert_eq!(tick, TickInfo { initialized: false, liquidity_gross: 0, liquidity_net: 0 });
    let array = TickArray::default();
    assert_eq!(array.pool, Address::default());
    assert_eq!(array.starting_tick, 0);
    assert_eq!(array.ticks, [tick; 30]);
    assert_eq!(array.bump, 0);
    assert!(array.is_unclaimed());
    let position = Position::default();
    assert_eq!(position.liquidity, 0);
    assert_eq!(position.owner, Address::default());
    assert!(position.is_vacant());
    assert!(position.has_range(0, 0));
    let pool = Pool::default();
    assert_eq!(pool.global_liquidity, 0);
    assert_eq!(pool.tick_spacing, 0);
}

#[test]
fn addresses_match_by_their_bytes() {
    let mut bytes = [0u8; 32];
    assert!(Address::new(bytes).is_zero());
    assert!(Address::new(bytes).matches(&Address::default()));
    bytes[31] = 1;
    assert!(!Address::new(bytes).is_zero());
    assert!(!Address::new(bytes).matches(&Address::default()));
    assert!(Address::new(bytes).matches(&Address::new(bytes)));
    let mut other = bytes;
    other[0] = 1;
    assert!(!Address::new(bytes).matches(&Address::new(other)));
}

#[test]
fn position_is_vacant_without_liquidity_and_owner() {
    let mut position = Position::default();
    position.liquidity = 1;
    assert!(!position.is_vacant());
    position.liquidity = 0;
    position.owner = Address::new([1; 32]);
    assert!(!position.is_vacant());
    position.tick_lower = -10;
    position.tick_uppar = 10;
    assert!(position.has_range(-10, 10));
    assert!(!position.has_range(-10, 20));
    assert!(!position.has_range(0, 10));
}

#[test]
fn starting_tick_of_chosen_ticks() {
    assert_eq!(TickArray::get_starting_tick_index(0, 10), 0);
    assert_eq!(TickArray::get_starting_tick_index(299, 10), 0);
    assert_eq!(TickArray::get_starting_tick_index(300, 10), 300);
    assert_eq!(TickArray::get_starting_tick_index(305, 10), 300);
    assert_eq!(TickArray::get_starting_tick_index(599, 10), 300);
    assert_eq!(TickArray::get_starting_tick_index(600, 10), 600);
    assert_eq!(TickArray::get_starting_tick_index(29, 1), 0);
    assert_eq!(TickArray::get_starting_tick_index(30, 1), 30);
    assert_eq!(TickArray::get_starting_tick_index(i32::MAX, 1), 2_147_483_640);
    assert_eq!(TickArray::get_starting_tick_index(i32::MAX, i32::MAX), 0);
}

#[test]
fn starting_tick_of_negative_ticks_lies_below_them() {
    assert_eq!(TickArray::get_starting_tick_index(-1, 10), -300);
    assert_eq!(TickArray::get_starting_tick_index(-5, 10), -300);
    assert_eq!(TickArray::get_starting_tick_index(-100, 10), -300);
    assert_eq!(TickArray::get_starting_tick_index(-299, 10), -300);
    assert_eq!(TickArray::get_starting_tick_index(-300, 10), -300);
    assert_eq!(TickArray::get_starting_tick_index(-301, 10), -600);
    assert_eq!(TickArray::get_starting_tick_index(-599, 10), -600);
    assert_eq!(TickArray::get_starting_tick_index(-600, 10), -600);
    assert_eq!(TickArray::get_starting_tick_index(-1, 1), -30);
    assert_eq!(TickArray::get_starting_tick_index(-30, 1), -30);
    assert_eq!(TickArray::get_starting_tick_index(-31, 1), -60);
    assert_eq!(TickArray::get_starting_tick_index(-2_147_483_640, 1), -2_147_483_640);
    assert_eq!(TickArray::get_starting_tick_index(-2_147_483_611, 1), -2_147_483_640);
}

#[test]
fn starting_tick_that_cannot_be_had() {
    assert_eq!(TickArray::checked_starting_tick_index(-100, 10), Some(-300));
    assert_eq!(TickArray::checked_starting_tick_index(200, 10), Some(0));
    assert_eq!(TickArray::checked_starting_tick_index(100, 0), None);
    assert_eq!(TickArray::checked_starting_tick_index(100, -10), None);
    assert_eq!(TickArray::checked_starting_tick_index(i32::MIN, -1), None);
    assert_eq!(TickArray::checked_starting_tick_index(i32::MIN, i32::MIN), None);
    assert_eq!(TickArray::checked_starting_tick_index(i32::MIN, 1), None);
    assert_eq!(TickArray::checked_starting_tick_index(-2_147_483_641, 1), None);
    assert_eq!(TickArray::checked_starting_tick_index(-2_147_483_640, 1), Some(-2_147_483_640));
    assert_eq!(TickArray::checked_starting_tick_index(i32::MIN, 10), None);
    assert_eq!(TickArray::checked_starting_tick_index(-2_147_483_400, 10), Some(-2_147_483_400));
    assert_eq!(TickArray::checked_starting_tick_index(-1, i32::MAX), None);
    assert_eq!(TickArray::checked_starting_tick_index(i32::MAX, 60), Some(2_147_482_800));
}

#[test]
fn starting_tick_is_the_same_within_a_stretch() {
    for spacing in [1, 10, 60] {
        for block in -4..4 {
            let first = block * 30 * spacing;
            for offset in 0..30 * spacing {
                let tick = first + offset;
                let start = TickArray::get_starting_tick_index(tick, spacing);
                assert_eq!(start, first);
                assert!(start <= tick && tick < start + 30 * spacing);
                assert_eq!(start % (30 * spacing), 0);
            }
        }
    }
}

#[test]
fn a_tick_has_its_own_slot_in_the_array_it_is_filed_under() {
    for spacing in [1, 10, 60] {
        for tick in -95 * spacing..=95 * spacing {
            let start = TickArray::get_starting_tick_index(tick, spacing);
            let array = array_starting_at(start);
            assert_eq!(array.slot_for(tick, spacing), Ok(((tick - start) / spacing) as usize));
        }
    }
    assert_eq!(TickArray::get_starting_tick_index(-100, 10), -300);
    assert_eq!(TickArray::get_starting_tick_index(200, 10), 0);
    assert_eq!(array_starting_at(-300).slot_for(-100, 10), Ok(20));
    assert_eq!(array_starting_at(0).slot_for(200, 10), Ok(20));
}

#[test]
fn slot_of_kth_tick_is_k_modulo_ticks_per_array() {
    for (starting_tick, spacing) in [(300, 10), (0, 10), (-300, 10), (0, 1), (-1800, 60)] {
        let array = array_starting_at(starting_tick);
        for k in -65i32..=65 {
            let tick = starting_tick + k * spacing;
            assert_eq!(array.slot_for(tick, spacing), Ok(k.rem_euclid(30) as usize));
        }
    }
}

#[test]
fn slot_of_chosen_ticks() {
    assert_eq!(array_starting_at(0).slot_for(100, 10), Ok(10));
    assert_eq!(array_starting_at(-300).slot_for(-100, 10), Ok(20));
    assert_eq!(array_starting_at(0).slot_for(-100, 10), Ok(20));
    assert_eq!(array_starting_at(0).slot_for(105, 10), Ok(10));
    assert_eq!(array_starting_at(0).slot_for(-105, 10), Ok(19));
    assert_eq!(array_starting_at(-300).slot_for(-5, 10), Ok(29));
    assert_eq!(array_starting_at(-300).slot_for(-295, 10), Ok(0));
    assert_eq!(array_starting_at(0).slot_for(5, 10), Ok(0));
    assert_eq!(array_starting_at(0).slot_for(290, 10), Ok(29));
    assert_eq!(array_starting_at(0).slot_for(300, 10), Ok(0));
    assert_eq!(array_starting_at(0).slot_for(100, -10), Ok(20));
    assert_eq!(array_starting_at(i32::MIN).slot_for(i32::MIN, 1), Ok(0));
    assert_eq!(array_starting_at(0).slot_for(i32::MAX, 1), Ok(7));
}

#[test]
fn slot_without_spacing_or_beyond_the_tick_type() {
    let array = array_starting_at(0);
    assert_eq!(array.slot_for(100, 0), Err(ErrorCode::ArithmeticOverflow));
    assert_eq!(array.slot_for(i32::MIN, -1), Err(ErrorCode::ArithmeticOverflow));
    assert_eq!(
        array_starting_at(i32::MIN).slot_for(0, -1),
        Err(ErrorCode::ArithmeticOverflow)
    );
    assert_eq!(
        array_starting_at(i32::MIN).slot_for(i32::MAX, 1),
        Err(ErrorCode::ArithmeticOverflow)
    );
    assert_eq!(
        array_starting_at(i32::MAX).slot_for(i32::MIN, 1),
        Err(ErrorCode::ArithmeticOverflow)
    );
    assert_eq!(array_starting_at(-1).slot_for(i32::MAX, 1), Err(ErrorCode::ArithmeticOverflow));
    assert_eq!(array_starting_at(0).slot_for(i32::MIN, 1), Ok(22));
}

#[test]
fn update_liquidity_at_a_lower_bound() {
    let mut tick = TickInfo::default();
    assert_eq!(tick.update_liquidity(1000, true), Ok(()));
    assert_eq!(tick, TickInfo { initialized: true, liquidity_gross: 1000, liquidity_net: 1000 });
    assert_eq!(tick.update_liquidity(-400, true), Ok(()));
    assert_eq!(tick, TickInfo { initialized: true, liquidity_gross: 1400, liquidity_net: 600 });
}

#[test]
fn update_liquidity_at_an_upper_bound() {
    let mut tick = TickInfo::default();
    assert_eq!(tick.update_liquidity(1000, false), Ok(()));
    assert_eq!(tick, TickInfo { initialized: true, liquidity_gross: 1000, liquidity_net: -1000 });
    assert_eq!(tick.update_liquidity(-400, false), Ok(()));
    assert_eq!(tick, TickInfo { initialized: true, liquidity_gross: 1400, liquidity_net: -600 });
}

#[test]
fn update_liquidity_by_nothing_marks_the_tick() {
    let mut tick = TickInfo::default();
    assert_eq!(tick.update_liquidity(0, true), Ok(()));
    assert_eq!(tick, TickInfo { initialized: true, liquidity_gross: 0, liquidity_net: 0 });
}

#[test]
fn update_liquidity_by_the_extremes() {
    let mut tick = TickInfo { initialized: false, liquidity_gross: 1, liquidity_net: 0 };
    assert_eq!(tick.update_liquidity(i128::MIN, true), Ok(()));
    assert_eq!(
        tick,
        TickInfo {
            initialized: true,
            liquidity_gross: (1u128 << 127) + 1,
            liquidity_net: i128::MIN,
        }
    );
    let mut tick = TickInfo { initialized: false, liquidity_gross: 0, liquidity_net: -1 };
    assert_eq!(tick.update_liquidity(i128::MIN, false), Ok(()));
    assert_eq!(
        tick,
        TickInfo { initialized: true, liquidity_gross: 1u128 << 127, liquidity_net: i128::MAX }
    );
    let mut tick = TickInfo::default();
    assert_eq!(tick.update_liquidity(i128::MAX, true), Ok(()));
    assert_eq!(
        tick,
        TickInfo { initialized: true, liquidity_gross: i128::MAX as u128, liquidity_net: i128::MAX }
    );
}

#[test]
fn update_liquidity_overflow_changes_nothing() {
    let before = TickInfo { initialized: false, liquidity_gross: u128::MAX, liquidity_net: 5 };
    let mut tick = before;
    assert_eq!(tick.update_liquidity(1, true), Err(ErrorCode::ArithmeticOverflow));
    assert_eq!(tick, before);
    assert_eq!(tick.update_liquidity(-1, false), Err(ErrorCode::ArithmeticOverflow));
    assert_eq!(tick, before);

    let before = TickInfo { initialized: false, liquidity_gross: 0, liquidity_net: i128::MAX };
    let mut tick = before;
    assert_eq!(tick.update_liquidity(1, true), Err(ErrorCode::ArithmeticOverflow));
    assert_eq!(tick, before);
    assert_eq!(tick.update_liquidity(-1, false), Err(ErrorCode::ArithmeticOverflow));
    assert_eq!(tick, before);

    let before = TickInfo { initialized: true, liquidity_gross: 0, liquidity_net: i128::MIN };
    let mut tick = before;
    assert_eq!(tick.update_liquidity(-1, true), Err(ErrorCode::ArithmeticOverflow));
    assert_eq!(tick, before);
    assert_eq!(tick.update_liquidity(1, false), Err(ErrorCode::ArithmeticOverflow));
    assert_eq!(tick, before);

    let before = TickInfo { initialized: false, liquidity_gross: 0, liquidity_net: 0 };
    let mut tick = before;
    assert_eq!(tick.update_liquidity(i128::MIN, false), Err(ErrorCode::ArithmeticOverflow));
    assert_eq!(tick, before);
}

#[test]
fn tick_record_is_written_through_the_reference() {
    let mut array = array_starting_at(300);
    {
        let info = array.get_tick_info_mutable(350, 10).unwrap();
        assert_eq!(*info, TickInfo::default());
        info.update_liquidity(25, true).unwrap();
    }
    let mut expected = array_starting_at(300);
    expected.ticks[5] = TickInfo { initialized: true, liquidity_gross: 25, liquidity_net: 25 };
    assert_eq!(array, expected);
    assert_eq!(
        array.get_tick_info_mutable(350, 0).map(|info| *info),
        Err(ErrorCode::ArithmeticOverflow)
    );
    assert_eq!(array, expected);
}

#[test]
fn liquidity_delta_is_applied_to_one_slot() {
    let mut array = array_starting_at(0);
    assert_eq!(array.apply_liquidity_delta(100, 10, 1000, false), Ok(()));
    assert_eq!(array.apply_liquidity_delta(100, 10, -250, false), Ok(()));
    assert_eq!(array.apply_liquidity_delta(290, 10, 7, true), Ok(()));
    let mut expected = array_starting_at(0);
    expected.ticks[10] = TickInfo { initialized: true, liquidity_gross: 1250, liquidity_net: -750 };
    expected.ticks[29] = TickInfo { initialized: true, liquidity_gross: 7, liquidity_net: 7 };
    assert_eq!(array, expected);
}

#[test]
fn liquidity_delta_that_fails_changes_nothing() {
    let mut array = array_starting_at(0);
    array.ticks[10].liquidity_gross = u128::MAX;
    let before = array;
    assert_eq!(array.apply_liquidity_delta(100, 10, 1, true), Err(ErrorCode::ArithmeticOverflow));
    assert_eq!(array, before);
    assert_eq!(array.apply_liquidity_delta(100, 0, 1, true), Err(ErrorCode::ArithmeticOverflow));
    assert_eq!(array, before);
}

#[test]
fn claim_takes_an_unclaimed_array_only() {
    let pool = Address::new([9; 32]);
    let other = Address::new([8; 32]);
    let mut array = TickArray::default();
    array.claim(pool, -300);
    assert_eq!(array.pool, pool);
    assert_eq!(array.starting_tick, -300);
    assert!(!array.is_unclaimed());
    array.claim(other, 600);
    assert_eq!(array.pool, pool);
    assert_eq!(array.starting_tick, -300);

    let mut array = TickArray::default();
    array.claim(pool, 0);
    assert_eq!(array.pool, pool);
    array.claim(other, 600);
    assert_eq!(array.pool, pool);
    assert_eq!(array.starting_tick, 0);
}

#[test]
fn arrays_are_the_same_when_every_field_and_tick_agrees() {
    let array = array_starting_at(300);
    assert!(array.same_as(&array_starting_at(300)));
    assert!(!array.same_as(&array_starting_at(0)));
    let mut other = array;
    other.ticks[29].liquidity_net = -1;
    assert!(!array.same_as(&other));
    let mut other = array;
    other.ticks[0].initialized = true;
    assert!(!array.same_as(&other));
    let mut other = array;
    other.bump = 1;
    assert!(!array.same_as(&other));
    let mut other = array;
    other.pool = Address::new([1; 32]);
    assert!(!array.same_as(&other));
}
