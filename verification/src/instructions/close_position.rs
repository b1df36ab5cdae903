use crate::states::pool::Pool;
use crate::states::position::Position;
use crate::states::tick_array::{apply_to_range, spec_apply_to_range, TickArray};
use crate::utils::error::ErrorCode;
use crate::utils::range::{
    is_valid_tick_range, liquidity_delta, spec_liquidity_delta, valid_tick_range,
};
use vstd::prelude::*;

verus! {

/// The records that closing a position works on.
#[derive(Clone, Copy, Debug, PartialEq, Eq)]
pub struct ClosePosition {
    pub pool: Pool,
    /// The array that keeps the lower tick.
    pub lower_tick_array: TickArray,
    /// The array that keeps the upper tick.
    pub upper_tick_array: TickArray,
    pub position: Position,
}

impl ClosePosition {
    /// The reason, if there is one, to refuse the request as it stands, before
    /// anything is computed.
    pub open spec fn refusal(self, lower_tick: i32, uppar_tick: i32) -> Option<ErrorCode> {
        if self.position.liquidity == 0 {
            Some(ErrorCode::NoLiquidityToRemove)
        } else if !valid_tick_range(
            lower_tick as int,
            uppar_tick as int,
            self.pool.tick_spacing as int,
        ) {
            Some(ErrorCode::InvalidTickRange)
        } else {
            None
        }
    }

    /// What closing the position from `lower_tick` to `uppar_tick` leads to:
    /// the records afterwards and the amounts of token 0 and token 1 that the
    /// pool owes the owner, or the reason for which nothing is done.
    ///
    /// A request that is not refused as it stands withdraws all of the
    /// position's liquidity: the withdrawal is recorded at both ticks, the
    /// pool's active liquidity shrinks by the same amount, and the record of
    /// the position is left vacant.
    pub open spec fn spec_new(self, lower_tick: i32, uppar_tick: i32) -> Result<
        (ClosePosition, (u64, u64)),
        ErrorCode,
    > {
        let liquidity = self.position.liquidity;
        let delta = spec_liquidity_delta(liquidity, false);
        let arrays = spec_apply_to_range(
            self.lower_tick_array,
            self.upper_tick_array,
            lower_tick,
            uppar_tick,
            self.pool.tick_spacing,
            -(liquidity as int),
        );
        let amounts = self.pool.spec_amounts_for(lower_tick, uppar_tick, liquidity);
        if self.refusal(lower_tick, uppar_tick) is Some {
            Err(self.refusal(lower_tick, uppar_tick).unwrap())
        } else if delta is None || arrays is None || amounts is None || self.pool.global_liquidity
            < liquidity {
            Err(ErrorCode::ArithmeticOverflow)
        } else {
            Ok(
                (
                    ClosePosition {
                        pool: Pool {
                            global_liquidity: (self.pool.global_liquidity - liquidity) as u128,
                            ..self.pool
                        },
                        lower_tick_array: arrays.unwrap().0,
                        upper_tick_array: arrays.unwrap().1,
                        position: Position::vacant(),
                    },
                    amounts.unwrap(),
                ),
            )
        }
    }

    /// Closes the position from `lower_tick` to `uppar_tick`, withdrawing all
    /// of its liquidity.
    ///
    /// On success the records are updated, the record of the position is left
    /// vacant, and the amounts of token 0 and token 1 that have to move from
    /// the pool to the owner are returned. On failure nothing has changed.
    ///
    /// The last two arguments name the first ticks of the two arrays. The
    /// arrays are among the records, so the arguments are not read.
    pub fn new(
        &mut self,
        lower_tick: i32,
        uppar_tick: i32,
        _tick_array_lower_start_index: i32,
        _tick_array_uppar_start_index: i32,
    ) -> (r: Result<(u64, u64), ErrorCode>)
        ensures
            match r {
                Ok(amounts) => old(self).spec_new(lower_tick, uppar_tick) == Ok::<
                    (ClosePosition, (u64, u64)),
                    ErrorCode,
                >((*final(self), amounts)),
                Err(e) => old(self).spec_new(lower_tick, uppar_tick) == Err::<
                    (ClosePosition, (u64, u64)),
                    ErrorCode,
                >(e) && *final(self) == *old(self),
            },
            old(self).pool.wf() ==> final(self).pool.wf(),
            final(self).lower_tick_array.keeps_history_of(old(self).lower_tick_array),
            final(self).upper_tick_array.keeps_history_of(old(self).upper_tick_array),
    {
        let liquidity_to_remove = self.position.liquidity;
        if liquidity_to_remove == 0 {
            return Err(ErrorCode::NoLiquidityToRemove);
        }
        if !is_valid_tick_range(lower_tick, uppar_tick, self.pool.tick_spacing) {
            return Err(ErrorCode::InvalidTickRange);
        }
        let amounts = self.pool.amounts_for(lower_tick, uppar_tick, liquidity_to_remove)?;
        let mut lower_tick_array = self.lower_tick_array;
        let mut upper_tick_array = self.upper_tick_array;
        let delta = liquidity_delta(liquidity_to_remove, false)?;
        apply_to_range(
            &mut lower_tick_array,
            &mut upper_tick_array,
            lower_tick,
            uppar_tick,
            self.pool.tick_spacing,
            delta,
        )?;
        let global_liquidity = match self.pool.global_liquidity.checked_sub(liquidity_to_remove) {
            Some(liquidity) => liquidity,
            None => {
                return Err(ErrorCode::ArithmeticOverflow);
            },
        };

        self.lower_tick_array = lower_tick_array;
        self.upper_tick_array = upper_tick_array;
        self.position = Position::default();
        self.pool.global_liquidity = global_liquidity;
        Ok(amounts)
    }
}

} // verus!
