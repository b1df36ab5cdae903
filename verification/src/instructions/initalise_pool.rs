use crate::states::address::Address;
use crate::states::pool::Pool;
use crate::utils::error::ErrorCode;
use crate::utils::math::{get_tick_at_sqrt_price, tick_at_sqrt_price};
use vstd::prelude::*;

verus! {

/// The records that setting up a pool works on.
#[derive(Clone, Copy, Debug, PartialEq, Eq)]
pub struct InistalsiePool {
    /// The record that becomes the pool.
    pub pool: Pool,
    pub token_mint_0: Address,
    pub token_mint_1: Address,
    /// The pool's reserve of token 0.
    pub token_vault_0: Address,
    /// The pool's reserve of token 1.
    pub token_vault_1: Address,
}

impl InistalsiePool {
    /// The pool as it is set up with `tick_spacing` at `inital_sqrt_price`:
    /// it names the two mints and the two vaults, holds no liquidity, and
    /// stands at the given price and in the tick that this price falls into.
    pub open spec fn spec_pool(self, tick_spacing: i32, inital_sqrt_price: u128) -> Pool {
        Pool {
            token_mint_0: self.token_mint_0,
            token_mint_1: self.token_mint_1,
            token_vault_0: self.token_vault_0,
            token_vault_1: self.token_vault_1,
            global_liquidity: 0,
            sqrt_price_x96: inital_sqrt_price,
            current_tick: tick_at_sqrt_price(inital_sqrt_price as int) as i32,
            tick_spacing,
            bump: self.pool.bump,
        }
    }

    /// Sets up the pool with `tick_spacing` at `inital_sqrt_price`.
    ///
    /// Fails with `ArithmeticOverflow`, and changes nothing, exactly when the
    /// tick of the price does not fit the tick type.
    pub fn new(&mut self, tick_spacing: i32, inital_sqrt_price: u128) -> (r: Result<(), ErrorCode>)
        ensures
            match r {
                Ok(_) => i32::MIN <= tick_at_sqrt_price(inital_sqrt_price as int) <= i32::MAX
                    && *final(self) == (InistalsiePool {
                    pool: old(self).spec_pool(tick_spacing, inital_sqrt_price),
                    ..*old(self)
                }),
                Err(e) => e == ErrorCode::ArithmeticOverflow && !(i32::MIN <= tick_at_sqrt_price(
                    inital_sqrt_price as int,
                ) <= i32::MAX) && *final(self) == *old(self),
            },
            r is Ok ==> final(self).pool.tick_matches_price(),
            r is Ok && tick_spacing > 0 ==> final(self).pool.wf(),
    {
        let current_tick = get_tick_at_sqrt_price(inital_sqrt_price)?;
        self.pool.token_mint_0 = self.token_mint_0;
        self.pool.token_mint_1 = self.token_mint_1;
        self.pool.token_vault_0 = self.token_vault_0;
        self.pool.token_vault_1 = self.token_vault_1;
        self.pool.global_liquidity = 0;
        self.pool.sqrt_price_x96 = inital_sqrt_price;
        self.pool.current_tick = current_tick;
        self.pool.tick_spacing = tick_spacing;
        Ok(())
    }
}

} // verus!
