use crate::states::address::Address;
use crate::utils::error::ErrorCode;
use crate::utils::math::{
    amounts_for_liquidity, get_amount_for_liquidity, get_sqrt_price_from_tick, sqrt_price_at_tick,
    tick_at_sqrt_price,
};
use vstd::prelude::*;

verus! {

/// One liquidity pool: a pair of tokens traded at one tick spacing.
#[derive(Clone, Copy, Debug, PartialEq, Eq)]
pub struct Pool {
    pub token_mint_0: Address,
    pub token_mint_1: Address,
    pub token_vault_0: Address,
    pub token_vault_1: Address,
    /// Liquidity in use at the current price. This is not the sum over all
    /// positions, only over those whose range holds the current tick.
    pub global_liquidity: u128,
    /// Square root of the price of token 0 in token 1, scaled by 2^96.
    pub sqrt_price_x96: u128,
    /// The tick whose bucket holds the current price.
    pub current_tick: i32,
    /// Only ticks that are multiples of the spacing can bound a position.
    pub tick_spacing: i32,
    pub bump: u8,
}

impl Pool {
    /// The current tick is the one that the current price falls into.
    pub open spec fn tick_matches_price(self) -> bool {
        self.current_tick == tick_at_sqrt_price(self.sqrt_price_x96 as int)
    }

    /// What holds of every pool in use: the spacing is positive and the
    /// current tick is the one that the current price falls into.
    pub open spec fn wf(self) -> bool {
        self.tick_spacing > 0 && self.tick_matches_price()
    }

    /// Token amounts that stand behind `liquidity` between `lower_tick` and
    /// `uppar_tick` at the pool's current price, or `None` when an amount
    /// does not fit the amount type.
    pub open spec fn spec_amounts_for(
        self,
        lower_tick: i32,
        uppar_tick: i32,
        liquidity: u128,
    ) -> Option<(u64, u64)> {
        let amounts = amounts_for_liquidity(
            self.sqrt_price_x96 as int,
            sqrt_price_at_tick(lower_tick as int),
            sqrt_price_at_tick(uppar_tick as int),
            liquidity as int,
        );
        if amounts.0 <= u64::MAX && amounts.1 <= u64::MAX {
            Some((amounts.0 as u64, amounts.1 as u64))
        } else {
            None
        }
    }

    /// Computes the token amounts that stand behind `liquidity` between
    /// `lower_tick` and `uppar_tick` at the pool's current price.
    ///
    /// Fails with `ArithmeticOverflow` exactly when an amount does not fit the
    /// amount type.
    pub fn amounts_for(&self, lower_tick: i32, uppar_tick: i32, liquidity: u128) -> (r: Result<
        (u64, u64),
        ErrorCode,
    >)
        ensures
            match r {
                Ok(amounts) => self.spec_amounts_for(lower_tick, uppar_tick, liquidity) == Some(
                    amounts,
                ),
                Err(e) => e == ErrorCode::ArithmeticOverflow && self.spec_amounts_for(
                    lower_tick,
                    uppar_tick,
                    liquidity,
                ) is None,
            },
    {
        let lower = get_sqrt_price_from_tick(lower_tick)?;
        let uppar = get_sqrt_price_from_tick(uppar_tick)?;
        get_amount_for_liquidity(self.sqrt_price_x96, lower, uppar, liquidity)
    }

    /// A pool that was never set up: every field is zero.
    pub open spec fn vacant() -> Pool {
        Pool {
            token_mint_0: Address::zero(),
            token_mint_1: Address::zero(),
            token_vault_0: Address::zero(),
            token_vault_1: Address::zero(),
            global_liquidity: 0,
            sqrt_price_x96: 0,
            current_tick: 0,
            tick_spacing: 0,
            bump: 0,
        }
    }
}

impl Default for Pool {
    /// A pool that was never set up.
    fn default() -> (r: Pool)
        ensures
            r == Pool::vacant(),
    {
        Pool {
            token_mint_0: Address::default(),
            token_mint_1: Address::default(),
            token_vault_0: Address::default(),
            token_vault_1: Address::default(),
            global_liquidity: 0,
            sqrt_price_x96: 0,
            current_tick: 0,
            tick_spacing: 0,
            bump: 0,
        }
    }
}

} // verus!
