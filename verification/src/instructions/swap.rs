use crate::states::pool::Pool;
use crate::utils::error::ErrorCode;
use crate::utils::math::{
    get_tick_at_sqrt_price, swap_segment, swap_segment_result, tick_at_sqrt_price,
};
use vstd::prelude::*;

verus! {

/// The records that a swap works on.
#[derive(Clone, Copy, Debug, PartialEq, Eq)]
pub struct Swap {
    pub pool: Pool,
}

impl Swap {
    /// What swapping `amount_in` leads to: the records afterwards and the
    /// amount paid out, or the reason for which nothing is done.
    ///
    /// The whole swap is made within the pool's active liquidity, in one
    /// segment that consumes all of `amount_in`. The amount paid out must
    /// reach `amount_out_minimum`. The pool takes the price after the segment
    /// and the tick that this price falls into.
    pub open spec fn spec_new(
        self,
        amount_in: u64,
        swap_token_0_for_1: bool,
        amount_out_minimum: u64,
    ) -> Result<(Swap, u64), ErrorCode> {
        let segment = swap_segment_result(
            self.pool.sqrt_price_x96,
            self.pool.global_liquidity,
            amount_in,
            swap_token_0_for_1,
        );
        if amount_in == 0 || self.pool.global_liquidity == 0 {
            Err(ErrorCode::InsufficentAmount)
        } else if segment is Err {
            Err(segment->Err_0)
        } else if segment->Ok_0.1 < amount_out_minimum {
            Err(ErrorCode::SlippageExceeded)
        } else if !(i32::MIN <= tick_at_sqrt_price(segment->Ok_0.2 as int) <= i32::MAX) {
            Err(ErrorCode::ArithmeticOverflow)
        } else {
            Ok(
                (
                    Swap {
                        pool: Pool {
                            sqrt_price_x96: segment->Ok_0.2,
                            current_tick: tick_at_sqrt_price(segment->Ok_0.2 as int) as i32,
                            ..self.pool
                        },
                    },
                    segment->Ok_0.1,
                ),
            )
        }
    }

    /// Swaps `amount_in` of token 0 for token 1 if `swap_token_0_for_1`, and
    /// of token 1 for token 0 otherwise.
    ///
    /// On success the pool's price and tick are updated and the amount paid
    /// out is returned: all of `amount_in` has to move from the trader to the
    /// pool, and the amount returned from the pool to the trader. On failure
    /// nothing has changed.
    pub fn new(&mut self, amount_in: u64, swap_token_0_for_1: bool, amount_out_minimum: u64) -> (r:
        Result<u64, ErrorCode>)
        ensures
            match r {
                Ok(amount_out) => old(self).spec_new(
                    amount_in,
                    swap_token_0_for_1,
                    amount_out_minimum,
                ) == Ok::<(Swap, u64), ErrorCode>((*final(self), amount_out)),
                Err(e) => old(self).spec_new(amount_in, swap_token_0_for_1, amount_out_minimum)
                    == Err::<(Swap, u64), ErrorCode>(e) && *final(self) == *old(self),
            },
            r is Ok ==> final(self).pool.tick_matches_price(),
            r matches Ok(amount_out) ==> amount_out < amount_in,
            old(self).pool.wf() ==> final(self).pool.wf(),
    {
        if amount_in == 0 {
            return Err(ErrorCode::InsufficentAmount);
        }
        if self.pool.global_liquidity == 0 {
            return Err(ErrorCode::InsufficentAmount);
        }
        let (_amount_in_used, amount_out_calculated, new_sqrt_price_x96) = swap_segment(
            self.pool.sqrt_price_x96,
            self.pool.global_liquidity,
            amount_in,
            swap_token_0_for_1,
        )?;
        if amount_out_calculated < amount_out_minimum {
            return Err(ErrorCode::SlippageExceeded);
        }
        let current_tick = get_tick_at_sqrt_price(new_sqrt_price_x96)?;

        self.pool.sqrt_price_x96 = new_sqrt_price_x96;
        self.pool.current_tick = current_tick;
        Ok(amount_out_calculated)
    }
}

} // verus!
