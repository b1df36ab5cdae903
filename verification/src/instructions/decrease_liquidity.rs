use crate::states::address::Address;
use crate::states::pool::Pool;
use crate::states::position::Position;
use crate::states::tick_array::{apply_to_range, spec_apply_to_range, TickArray};
use crate::utils::error::ErrorCode;
use crate::utils::range::{
    is_valid_tick_range, liquidity_delta, spec_liquidity_delta, valid_tick_range,
};
use vstd::prelude::*;

verus! {

/// The records that withdrawing liquidity from a position works on.
#[derive(Clone, Copy, Debug, PartialEq, Eq)]
pub struct DecreaseLiquidity {
    /// The caller, who receives the tokens.
    pub payer: Address,
    /// Address of the pool.
    pub pool_key: Address,
    pub pool: Pool,
    /// The array that keeps the lower tick.
    pub lower_tick_array: TickArray,
    /// The array that keeps the upper tick.
    pub uppar_tick_array: TickArray,
    pub position: Position,
}

impl DecreaseLiquidity {
    /// The reason, if there is one, to refuse the request as it stands, before
    /// anything is computed.
    pub open spec fn refusal(
        self,
        liquidity_amount: u128,
        lower_tick: i32,
        uppar_tick: i32,
    ) -> Option<ErrorCode> {
        if self.position.pool != self.pool_key {
            Some(ErrorCode::InvalidTickRange)
        } else if self.position.owner != self.payer {
            Some(ErrorCode::Unauthorized)
        } else if !valid_tick_range(
            lower_tick as int,
            uppar_tick as int,
            self.pool.tick_spacing as int,
        ) {
            Some(ErrorCode::InvalidTickRange)
        } else if liquidity_amount == 0 {
            Some(ErrorCode::InsufficentAmount)
        } else if !self.position.has_range(lower_tick, uppar_tick) {
            Some(ErrorCode::InvalidPositionRange)
        } else {
            None
        }
    }

    /// What withdrawing `liquidity_amount` from the position from `lower_tick`
    /// to `uppar_tick` leads to: the records afterwards and the amounts of
    /// token 0 and token 1 that the pool owes the caller, or the reason for
    /// which nothing is done.
    ///
    /// A request that is not refused as it stands records the withdrawal at
    /// both ticks; the position and the pool's active liquidity shrink by the
    /// same amount.
    pub open spec fn spec_new(
        self,
        liquidity_amount: u128,
        lower_tick: i32,
        uppar_tick: i32,
    ) -> Result<(DecreaseLiquidity, (u64, u64)), ErrorCode> {
        let delta = spec_liquidity_delta(liquidity_amount, false);
        let arrays = spec_apply_to_range(
            self.lower_tick_array,
            self.uppar_tick_array,
            lower_tick,
            uppar_tick,
            self.pool.tick_spacing,
            -(liquidity_amount as int),
        );
        let amounts = self.pool.spec_amounts_for(lower_tick, uppar_tick, liquidity_amount);
        if self.refusal(liquidity_amount, lower_tick, uppar_tick) is Some {
            Err(self.refusal(liquidity_amount, lower_tick, uppar_tick).unwrap())
        } else if delta is None || arrays is None || amounts is None || self.position.liquidity
            < liquidity_amount || self.pool.global_liquidity < liquidity_amount {
            Err(ErrorCode::ArithmeticOverflow)
        } else {
            Ok(
                (
                    DecreaseLiquidity {
                        pool: Pool {
                            global_liquidity: (self.pool.global_liquidity
                                - liquidity_amount) as u128,
                            ..self.pool
                        },
                        lower_tick_array: arrays.unwrap().0,
                        uppar_tick_array: arrays.unwrap().1,
                        position: Position {
                            liquidity: (self.position.liquidity - liquidity_amount) as u128,
                            ..self.position
                        },
                        ..self
                    },
                    amounts.unwrap(),
                ),
            )
        }
    }

    /// Withdraws `liquidity_amount` from the caller's position from
    /// `lower_tick` to `uppar_tick`.
    ///
    /// On success the records are updated and the amounts of token 0 and
    /// token 1 that have to move from the pool to the caller are returned. On
    /// failure nothing has changed.
    pub fn new(&mut self, liquidity_amount: u128, lower_tick: i32, uppar_tick: i32) -> (r: Result<
        (u64, u64),
        ErrorCode,
    >)
        ensures
            match r {
                Ok(amounts) => old(self).spec_new(liquidity_amount, lower_tick, uppar_tick) == Ok::<
                    (DecreaseLiquidity, (u64, u64)),
                    ErrorCode,
                >((*final(self), amounts)),
                Err(e) => old(self).spec_new(liquidity_amount, lower_tick, uppar_tick) == Err::<
                    (DecreaseLiquidity, (u64, u64)),
                    ErrorCode,
                >(e) && *final(self) == *old(self),
            },
            old(self).pool.wf() ==> final(self).pool.wf(),
            final(self).lower_tick_array.keeps_history_of(old(self).lower_tick_array),
            final(self).uppar_tick_array.keeps_history_of(old(self).uppar_tick_array),
    {
        if !self.position.pool.matches(&self.pool_key) {
            return Err(ErrorCode::InvalidTickRange);
        }
        if !self.position.owner.matches(&self.payer) {
            return Err(ErrorCode::Unauthorized);
        }
        if !is_valid_tick_range(lower_tick, uppar_tick, self.pool.tick_spacing) {
            return Err(ErrorCode::InvalidTickRange);
        }
        if liquidity_amount == 0 {
            return Err(ErrorCode::InsufficentAmount);
        }
        if !self.position.has_range(lower_tick, uppar_tick) {
            return Err(ErrorCode::InvalidPositionRange);
        }
        let mut lower_tick_array = self.lower_tick_array;
        let mut uppar_tick_array = self.uppar_tick_array;
        let delta = liquidity_delta(liquidity_amount, false)?;
        apply_to_range(
            &mut lower_tick_array,
            &mut uppar_tick_array,
            lower_tick,
            uppar_tick,
            self.pool.tick_spacing,
            delta,
        )?;
        let liquidity = match self.position.liquidity.checked_sub(liquidity_amount) {
            Some(liquidity) => liquidity,
            None => {
                return Err(ErrorCode::ArithmeticOverflow);
            },
        };
        let amounts = self.pool.amounts_for(lower_tick, uppar_tick, liquidity_amount)?;
        let global_liquidity = match self.pool.global_liquidity.checked_sub(liquidity_amount) {
            Some(liquidity) => liquidity,
            None => {
                return Err(ErrorCode::ArithmeticOverflow);
            },
        };

        self.lower_tick_array = lower_tick_array;
        self.uppar_tick_array = uppar_tick_array;
        self.position.liquidity = liquidity;
        self.pool.global_liquidity = global_liquidity;
        Ok(amounts)
    }
}

} // verus!
