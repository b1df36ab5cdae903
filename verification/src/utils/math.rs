//! Fixed-point price arithmetic.
//!
//! A price is carried as its square root scaled by 2^96. Ticks are laid out
//! evenly on that scale: tick 0 sits at [`BASE_SQRT_PRICE`] and neighbouring
//! ticks are [`TICK_STEP`] apart.
use crate::utils::error::ErrorCode;
use vstd::arithmetic::div_mod::lemma_fundamental_div_mod_converse;
use vstd::prelude::*;

verus! {

/// Scaled square-root price of tick 0, that is 2^96.
pub const BASE_SQRT_PRICE: u128 = 79_228_162_514_264_337_593_543_950_336;

/// Distance in scaled square-root price between two neighbouring ticks.
pub const TICK_STEP: u128 = 1_000_000;

/// The scaled square-root price at which `tick` begins.
pub open spec fn sqrt_price_at_tick(tick: int) -> int {
    BASE_SQRT_PRICE + tick * TICK_STEP
}

/// The tick whose bucket holds `sqrt_price`: the greatest tick that begins at
/// or below it.
pub open spec fn tick_at_sqrt_price(sqrt_price: int) -> int {
    (sqrt_price - BASE_SQRT_PRICE) / (TICK_STEP as int)
}

/// Token amounts `(amount0, amount1)` that stand behind `liquidity` in the
/// range `[lower, upper)` while the price is `current`.
///
/// Inside the range both tokens are in use and the liquidity is split evenly,
/// each half rounded down. Below the range the liquidity is all token 0, at or
/// above it all token 1.
pub open spec fn amounts_for_liquidity(current: int, lower: int, upper: int, liquidity: int) -> (
    int,
    int,
) {
    if lower <= current < upper {
        (liquidity / 2, liquidity / 2)
    } else if current < lower {
        (liquidity, 0)
    } else {
        (0, liquidity)
    }
}

/// What a swap of `amount_in` pays out against `liquidity`: the constant
/// product rule over two virtual reserves of `liquidity` each, rounded down.
pub open spec fn swap_amount_out(liquidity: int, amount_in: int) -> int {
    (liquidity * amount_in) / (liquidity + amount_in)
}

/// The scaled square-root price after a swap of `amount_in` against
/// `liquidity`.
///
/// Paying in token 0 lowers the price by `amount_in` times the price per unit
/// of the grown reserve; paying in token 1 raises it by `amount_in` times the
/// price per unit of liquidity. Both unit prices are rounded down.
pub open spec fn swap_next_sqrt_price(
    sqrt_price: int,
    liquidity: int,
    amount_in: int,
    zero_for_one: bool,
) -> int {
    if zero_for_one {
        sqrt_price - (sqrt_price / (liquidity + amount_in)) * amount_in
    } else {
        sqrt_price + (sqrt_price / liquidity) * amount_in
    }
}

/// The result of one swap segment: the amount consumed, the amount paid out
/// and the price afterwards.
pub open spec fn swap_segment_result(
    sqrt_price: u128,
    liquidity: u128,
    amount_in: u64,
    zero_for_one: bool,
) -> Result<(u64, u64, u128), ErrorCode> {
    let next = swap_next_sqrt_price(
        sqrt_price as int,
        liquidity as int,
        amount_in as int,
        zero_for_one,
    );
    if amount_in == 0 || liquidity == 0 {
        Err(ErrorCode::InsufficentAmount)
    } else if next > u128::MAX {
        Err(ErrorCode::ArithmeticOverflow)
    } else {
        Ok((amount_in, swap_amount_out(liquidity as int, amount_in as int) as u64, next as u128))
    }
}

/// Converting a tick to a price and back gives the tick again.
pub proof fn lemma_tick_round_trip(tick: int)
    ensures
        tick_at_sqrt_price(sqrt_price_at_tick(tick)) == tick,
{
    lemma_fundamental_div_mod_converse(tick * TICK_STEP, TICK_STEP as int, tick, 0);
}

/// A higher tick begins at a strictly higher price.
pub proof fn lemma_sqrt_price_strictly_increasing(lower: int, higher: int)
    requires
        lower < higher,
    ensures
        sqrt_price_at_tick(lower) < sqrt_price_at_tick(higher),
{
}

/// Every price lies in the bucket of its tick: at or above the price at which
/// that tick begins, and below the price at which the next one begins.
pub proof fn lemma_tick_brackets_sqrt_price(sqrt_price: int)
    ensures
        sqrt_price_at_tick(tick_at_sqrt_price(sqrt_price)) <= sqrt_price < sqrt_price_at_tick(
            tick_at_sqrt_price(sqrt_price) + 1,
        ),
{
}

/// More liquidity never stands for less of either token.
pub proof fn lemma_amounts_monotonic(current: int, lower: int, upper: int, less: int, more: int)
    requires
        0 <= less <= more,
    ensures
        amounts_for_liquidity(current, lower, upper, less).0 <= amounts_for_liquidity(
            current,
            lower,
            upper,
            more,
        ).0,
        amounts_for_liquidity(current, lower, upper, less).1 <= amounts_for_liquidity(
            current,
            lower,
            upper,
            more,
        ).1,
{
}

/// The quotient `(l * a) / (l + a)` is `a` less the rounded-up quotient of
/// `a * a` by `l + a`.
proof fn lemma_swap_amount_out_by_shortfall(l: int, a: int, q: int, r: int)
    requires
        0 < l,
        0 < a,
        0 <= r < l + a,
        a * a == q * (l + a) + r,
    ensures
        swap_amount_out(l, a) == if r == 0 {
            a - q
        } else {
            a - q - 1
        },
        0 <= q < a,
{
    let d = l + a;
    assert(q >= 0 && q < a) by (nonlinear_arith)
        requires
            0 < l,
            0 < a,
            0 <= r < l + a,
            a * a == q * (l + a) + r,
    ;
    if r == 0 {
        assert(l * a == (a - q) * d + 0) by (nonlinear_arith)
            requires
                d == l + a,
                a * a == q * d,
        ;
        lemma_fundamental_div_mod_converse(l * a, d, a - q, 0);
    } else {
        assert(l * a == (a - q - 1) * d + (d - r)) by (nonlinear_arith)
            requires
                d == l + a,
                a * a == q * d + r,
        ;
        lemma_fundamental_div_mod_converse(l * a, d, a - q - 1, d - r);
    }
}

/// A swap pays out less than it takes in, and less than the liquidity it is
/// made against.
pub proof fn lemma_swap_amount_out_bounded(liquidity: int, amount_in: int)
    requires
        0 < liquidity,
        0 < amount_in,
    ensures
        0 <= swap_amount_out(liquidity, amount_in) < amount_in,
        swap_amount_out(liquidity, amount_in) < liquidity,
{
    let d = liquidity + amount_in;
    let x = liquidity * amount_in;
    let q = x / d;
    assert(x == d * q + x % d && 0 <= x % d < d) by (nonlinear_arith)
        requires
            d > 0,
            q == x / d,
    ;
    assert(0 <= q && q < amount_in && q < liquidity) by (nonlinear_arith)
        requires
            0 < liquidity,
            0 < amount_in,
            d == liquidity + amount_in,
            x == liquidity * amount_in,
            x == d * q + x % d,
            0 <= x % d < d,
    ;
}

/// Computes the scaled square-root price at which `tick` begins.
///
/// Every tick has a price: the whole tick range lies well inside the price
/// type, so the result is never an error. The tick of that price is `tick`
/// again.
pub fn get_sqrt_price_from_tick(tick: i32) -> (r: Result<u128, ErrorCode>)
    ensures
        0 < sqrt_price_at_tick(tick as int) <= u128::MAX,
        r == Ok::<u128, ErrorCode>(sqrt_price_at_tick(tick as int) as u128),
        tick_at_sqrt_price(sqrt_price_at_tick(tick as int)) == tick,
{
    proof {
        lemma_tick_round_trip(tick as int);
    }
    let offset: i128 = (tick as i128) * (TICK_STEP as i128);
    match BASE_SQRT_PRICE.checked_add_signed(offset) {
        Some(price) => Ok(price),
        None => Err(ErrorCode::ArithmeticOverflow),
    }
}

/// Finds the tick whose bucket holds `sqrt_price_x96`, rounding down to the
/// tick that begins at or below the price.
///
/// Fails with `ArithmeticOverflow` exactly when that tick does not fit the
/// tick type.
pub fn get_tick_at_sqrt_price(sqrt_price_x96: u128) -> (r: Result<i32, ErrorCode>)
    ensures
        r == if i32::MIN <= tick_at_sqrt_price(sqrt_price_x96 as int) <= i32::MAX {
            Ok::<i32, ErrorCode>(tick_at_sqrt_price(sqrt_price_x96 as int) as i32)
        } else {
            Err::<i32, ErrorCode>(ErrorCode::ArithmeticOverflow)
        },
{
    if sqrt_price_x96 >= BASE_SQRT_PRICE {
        let steps: u128 = (sqrt_price_x96 - BASE_SQRT_PRICE) / TICK_STEP;
        if steps > 2_147_483_647 {
            Err(ErrorCode::ArithmeticOverflow)
        } else {
            Ok(steps as i32)
        }
    } else {
        let gap: u128 = BASE_SQRT_PRICE - sqrt_price_x96;
        let steps: u128 = (gap - 1) / TICK_STEP + 1;
        if steps > 2_147_483_648 {
            Err(ErrorCode::ArithmeticOverflow)
        } else {
            let below: i64 = -(steps as i64);
            Ok(below as i32)
        }
    }
}

/// Computes the token amounts that stand behind `liquidity` in the price range
/// `[lower_sqrt_price_x96, upper_sqrt_price_x96)` at the current price.
///
/// Fails with `ArithmeticOverflow` exactly when an amount does not fit the
/// amount type.
pub fn get_amount_for_liquidity(
    current_sqrt_price_x96: u128,
    lower_sqrt_price_x96: u128,
    upper_sqrt_price_x96: u128,
    liquidity: u128,
) -> (r: Result<(u64, u64), ErrorCode>)
    ensures
        ({
            let amounts = amounts_for_liquidity(
                current_sqrt_price_x96 as int,
                lower_sqrt_price_x96 as int,
                upper_sqrt_price_x96 as int,
                liquidity as int,
            );
            r == if amounts.0 <= u64::MAX && amounts.1 <= u64::MAX {
                Ok::<(u64, u64), ErrorCode>((amounts.0 as u64, amounts.1 as u64))
            } else {
                Err::<(u64, u64), ErrorCode>(ErrorCode::ArithmeticOverflow)
            }
        }),
{
    let amount0: u128;
    let amount1: u128;
    if current_sqrt_price_x96 >= lower_sqrt_price_x96 && current_sqrt_price_x96
        < upper_sqrt_price_x96 {
        amount0 = liquidity / 2;
        amount1 = liquidity / 2;
    } else if current_sqrt_price_x96 < lower_sqrt_price_x96 {
        amount0 = liquidity;
        amount1 = 0;
    } else {
        amount0 = 0;
        amount1 = liquidity;
    }
    if amount0 > 18_446_744_073_709_551_615 || amount1 > 18_446_744_073_709_551_615 {
        Err(ErrorCode::ArithmeticOverflow)
    } else {
        Ok((amount0 as u64, amount1 as u64))
    }
}

/// Computes what a swap of `amount_in` pays out against `liquidity`.
///
/// The product of the two may not fit any machine integer, so the amount is
/// found as `amount_in` less the rounded-up quotient of its square by the
/// grown reserve.
fn amount_out_of_swap(liquidity: u128, amount_in: u64) -> (r: u64)
    requires
        liquidity > 0,
        amount_in > 0,
    ensures
        r == swap_amount_out(liquidity as int, amount_in as int),
{
    let paid: u128 = amount_in as u128;
    assert(0 < paid * paid <= 0xffff_ffff_ffff_ffff * 0xffff_ffff_ffff_ffff) by (nonlinear_arith)
        requires
            0 < paid <= 0xffff_ffff_ffff_ffff,
    ;
    let square: u128 = paid * paid;
    match liquidity.checked_add(paid) {
        Some(reserve) => {
            let quotient: u128 = square / reserve;
            let remainder: u128 = square % reserve;
            proof {
                assert(square == quotient * reserve + remainder) by (nonlinear_arith)
                    requires
                        reserve > 0,
                        quotient == square / reserve,
                        remainder == square % reserve,
                ;
                lemma_swap_amount_out_by_shortfall(
                    liquidity as int,
                    paid as int,
                    quotient as int,
                    remainder as int,
                );
            }
            if remainder == 0 {
                (paid - quotient) as u64
            } else {
                (paid - quotient - 1) as u64
            }
        },
        None => {
            proof {
                lemma_swap_amount_out_by_shortfall(liquidity as int, paid as int, 0, square as int);
            }
            amount_in - 1
        },
    }
}

/// Computes by how much a swap of `amount_in` of token 0 against `liquidity`
/// lowers the price.
fn price_fall_of_swap(sqrt_price_x96: u128, liquidity: u128, amount_in: u64) -> (r: u128)
    requires
        liquidity > 0,
        amount_in > 0,
    ensures
        r == (sqrt_price_x96 as int / (liquidity + amount_in)) * amount_in,
        r <= sqrt_price_x96,
{
    let paid: u128 = amount_in as u128;
    match liquidity.checked_add(paid) {
        Some(reserve) => {
            let unit: u128 = sqrt_price_x96 / reserve;
            assert(unit * paid <= sqrt_price_x96) by (nonlinear_arith)
                requires
                    0 < paid < reserve,
                    unit == sqrt_price_x96 / reserve,
            ;
            unit * paid
        },
        None => {
            proof {
                let reserve = liquidity + amount_in;
                assert(sqrt_price_x96 as int / reserve == 0) by (nonlinear_arith)
                    requires
                        0 <= sqrt_price_x96 < reserve,
                ;
            }
            0
        },
    }
}

/// Walks the price curve for one swap within the given liquidity.
///
/// Returns the amount consumed, which is all of `amount_in`, the amount paid
/// out and the price afterwards. `zero_for_one` says that token 0 is paid in
/// and token 1 paid out, which moves the price down; otherwise token 1 is paid
/// in and the price moves up.
///
/// Fails with `InsufficentAmount` when `amount_in` or `liquidity` is zero, and
/// with `ArithmeticOverflow` when the price afterwards does not fit the price
/// type.
pub fn swap_segment(
    sqrt_price_x96: u128,
    liquidity: u128,
    amount_in: u64,
    zero_for_one: bool,
) -> (r: Result<(u64, u64, u128), ErrorCode>)
    ensures
        r == swap_segment_result(sqrt_price_x96, liquidity, amount_in, zero_for_one),
        r matches Ok(segment) ==> segment.0 == amount_in && segment.1 < amount_in && segment.1
            < liquidity && (zero_for_one ==> segment.2 <= sqrt_price_x96) && (!zero_for_one
            ==> segment.2 >= sqrt_price_x96),
{
    if amount_in == 0 || liquidity == 0 {
        return Err(ErrorCode::InsufficentAmount);
    }
    proof {
        lemma_swap_amount_out_bounded(liquidity as int, amount_in as int);
    }
    let amount_out = amount_out_of_swap(liquidity, amount_in);
    if zero_for_one {
        let fall = price_fall_of_swap(sqrt_price_x96, liquidity, amount_in);
        Ok((amount_in, amount_out, sqrt_price_x96 - fall))
    } else {
        let unit: u128 = sqrt_price_x96 / liquidity;
        match unit.checked_mul(amount_in as u128) {
            Some(rise) => match sqrt_price_x96.checked_add(rise) {
                Some(next) => Ok((amount_in, amount_out, next)),
                None => Err(ErrorCode::ArithmeticOverflow),
            },
            None => Err(ErrorCode::ArithmeticOverflow),
        }
    }
}

} // verus!
