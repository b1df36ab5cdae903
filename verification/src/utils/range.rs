//! Tick ranges and the signed liquidity changes made at their bounds.
use crate::utils::error::ErrorCode;
use vstd::math::abs;
use vstd::prelude::*;

verus! {

/// `tick` is a multiple of `tick_spacing`. Nothing is a multiple of a spacing
/// of zero.
pub open spec fn tick_is_aligned(tick: int, tick_spacing: int) -> bool {
    tick_spacing != 0 && tick % tick_spacing == 0
}

/// The bounds can carry a position: the lower one lies below the upper one,
/// and both are multiples of the spacing.
pub open spec fn valid_tick_range(lower_tick: int, uppar_tick: int, tick_spacing: int) -> bool {
    lower_tick < uppar_tick && tick_is_aligned(lower_tick, tick_spacing) && tick_is_aligned(
        uppar_tick,
        tick_spacing,
    )
}

/// `tick` lies in the range: at or above the lower bound and below the upper
/// one.
pub open spec fn range_covers(lower_tick: int, uppar_tick: int, tick: int) -> bool {
    lower_tick <= tick < uppar_tick
}

/// The signed change that adding or withdrawing `amount` makes, or `None` when
/// the amount has no signed counterpart.
pub open spec fn spec_liquidity_delta(amount: u128, adding: bool) -> Option<i128> {
    if amount > i128::MAX {
        None
    } else if adding {
        Some(amount as i128)
    } else {
        Some((-(amount as int)) as i128)
    }
}

/// A number is a multiple of another exactly when their magnitudes are.
proof fn lemma_aligned_by_magnitude(x: int, d: int)
    requires
        d != 0,
    ensures
        (x % d == 0) <==> (abs(x) % abs(d) == 0),
{
    let ax: int = abs(x) as int;
    let ad: int = abs(d) as int;
    if x % d == 0 {
        let q = x / d;
        assert(x == q * d) by (nonlinear_arith)
            requires
                d != 0,
                q == x / d,
                x % d == 0,
        ;
        let aq: int = abs(q) as int;
        assert(ax == aq * ad) by (nonlinear_arith)
            requires
                x == q * d,
                ax == abs(x),
                ad == abs(d),
                aq == abs(q),
        ;
        vstd::arithmetic::div_mod::lemma_fundamental_div_mod_converse(ax, ad, aq, 0);
    }
    if ax % ad == 0 {
        let aq = ax / ad;
        assert(ax == aq * ad) by (nonlinear_arith)
            requires
                ad > 0,
                aq == ax / ad,
                ax % ad == 0,
        ;
        let q = if (x >= 0) == (d > 0) {
            aq
        } else {
            -aq
        };
        assert(x == q * d + 0) by (nonlinear_arith)
            requires
                ax == aq * ad,
                ax == abs(x),
                ad == abs(d),
                q == if (x >= 0) == (d > 0) {
                    aq
                } else {
                    -aq
                },
        ;
        if d > 0 {
            vstd::arithmetic::div_mod::lemma_fundamental_div_mod_converse(x, d, q, 0);
        } else {
            assert(x % d == 0) by (nonlinear_arith)
                requires
                    x == q * d,
                    d < 0,
            ;
        }
    }
}

/// Tells whether `tick` is a multiple of `tick_spacing`.
pub fn is_tick_aligned(tick: i32, tick_spacing: i32) -> (r: bool)
    ensures
        r == tick_is_aligned(tick as int, tick_spacing as int),
{
    if tick_spacing == 0 {
        false
    } else {
        proof {
            lemma_aligned_by_magnitude(tick as int, tick_spacing as int);
            let magnitude: int = abs(tick_spacing as int) as int;
            assert(0int % magnitude == 0) by (nonlinear_arith)
                requires
                    magnitude > 0,
            ;
            assert(abs(tick as int) % 1 == 0);
        }
        match tick.checked_rem(tick_spacing) {
            Some(rest) => rest == 0,
            None => true,
        }
    }
}

/// Tells whether the bounds can carry a position in a pool of the given
/// spacing.
pub fn is_valid_tick_range(lower_tick: i32, uppar_tick: i32, tick_spacing: i32) -> (r: bool)
    ensures
        r == valid_tick_range(lower_tick as int, uppar_tick as int, tick_spacing as int),
{
    lower_tick < uppar_tick && is_tick_aligned(lower_tick, tick_spacing) && is_tick_aligned(
        uppar_tick,
        tick_spacing,
    )
}

/// Turns an amount of liquidity into the signed change that adding it, or
/// withdrawing it, makes at a tick.
///
/// Fails with `ArithmeticOverflow` exactly when the amount is larger than any
/// signed change.
pub fn liquidity_delta(amount: u128, adding: bool) -> (r: Result<i128, ErrorCode>)
    ensures
        match r {
            Ok(delta) => spec_liquidity_delta(amount, adding) == Some(delta),
            Err(e) => e == ErrorCode::ArithmeticOverflow && spec_liquidity_delta(amount, adding)
                is None,
        },
        r matches Ok(delta) ==> abs(delta as int) == amount && (adding ==> delta == amount) && (
        !adding ==> delta == -(amount as int)),
{
    if amount > 170_141_183_460_469_231_731_687_303_715_884_105_727 {
        Err(ErrorCode::ArithmeticOverflow)
    } else if adding {
        Ok(amount as i128)
    } else {
        Ok(-(amount as i128))
    }
}

} // verus!
