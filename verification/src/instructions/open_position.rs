use crate::states::address::Address;
use crate::states::pool::Pool;
use crate::states::position::Position;
use crate::states::tick_array::{apply_to_range, spec_apply_to_range, TickArray};
use crate::states::token_account::TokenAccount;
use crate::utils::error::ErrorCode;
use crate::utils::range::{
    is_valid_tick_range, liquidity_delta, range_covers, spec_liquidity_delta, valid_tick_range,
};
use vstd::prelude::*;

verus! {

/// The records that opening a position works on.
#[derive(Clone, Copy, Debug, PartialEq, Eq)]
pub struct OpenPosition {
    /// Address of the pool.
    pub pool_key: Address,
    pub pool: Pool,
    /// The array that keeps the lower tick.
    pub lower_tick_array: TickArray,
    /// The array that keeps the upper tick.
    pub uppar_tick_array: TickArray,
    /// The record of the position, vacant if the position is new.
    pub position: Position,
    pub token_mint_0: Address,
    pub token_mint_1: Address,
    /// The depositor's account of token 0.
    pub user_token_0: TokenAccount,
    /// The depositor's account of token 1.
    pub user_token_1: TokenAccount,
}

impl OpenPosition {
    /// The reason, if there is one, to refuse the request as it stands, before
    /// anything is computed.
    pub open spec fn refusal(
        self,
        owner: Address,
        lower_tick: i32,
        uppar_tick: i32,
        liquidity_amount: u128,
    ) -> Option<ErrorCode> {
        if self.user_token_0.mint != self.token_mint_0 || self.user_token_1.mint
            != self.token_mint_1 {
            Some(ErrorCode::InvalidMint)
        } else if self.user_token_0.owner != owner || self.user_token_1.owner != owner {
            Some(ErrorCode::Unauthorized)
        } else if !valid_tick_range(
            lower_tick as int,
            uppar_tick as int,
            self.pool.tick_spacing as int,
        ) {
            Some(ErrorCode::InvalidTickRange)
        } else if liquidity_amount == 0 {
            Some(ErrorCode::InsufficentAmount)
        } else if !range_covers(
            lower_tick as int,
            uppar_tick as int,
            self.pool.current_tick as int,
        ) {
            Some(ErrorCode::MintRangeMustCoverCurrentPrice)
        } else {
            None
        }
    }

    /// What opening a position from `lower_tick` to `uppar_tick` with
    /// `liquidity_amount` for `owner` leads to: the records afterwards and the
    /// amounts of token 0 and token 1 that the depositor owes the pool, or the
    /// reason for which nothing is done.
    ///
    /// A request that is not refused as it stands claims the two tick arrays
    /// where they are unclaimed and records the liquidity at both ticks. A
    /// vacant record then becomes the new position. A record in use must
    /// belong to `owner` and cover the same range, and gains the liquidity.
    /// The pool's active liquidity grows by the same amount.
    pub open spec fn spec_new(
        self,
        owner: Address,
        lower_tick: i32,
        uppar_tick: i32,
        liquidity_amount: u128,
        tick_array_lower_start_index: i32,
        tick_array_uppar_start_index: i32,
        bump: u8,
    ) -> Result<(OpenPosition, (u64, u64)), ErrorCode> {
        let delta = spec_liquidity_delta(liquidity_amount, true);
        let arrays = spec_apply_to_range(
            self.lower_tick_array.spec_claimed(self.pool_key, tick_array_lower_start_index),
            self.uppar_tick_array.spec_claimed(self.pool_key, tick_array_uppar_start_index),
            lower_tick,
            uppar_tick,
            self.pool.tick_spacing,
            liquidity_amount as int,
        );
        let amounts = self.pool.spec_amounts_for(lower_tick, uppar_tick, liquidity_amount);
        let vacant = self.position.is_vacant();
        if self.refusal(owner, lower_tick, uppar_tick, liquidity_amount) is Some {
            Err(self.refusal(owner, lower_tick, uppar_tick, liquidity_amount).unwrap())
        } else if delta is None || arrays is None || amounts is None {
            Err(ErrorCode::ArithmeticOverflow)
        } else if !vacant && self.position.owner != owner {
            Err(ErrorCode::Unauthorized)
        } else if !vacant && !self.position.has_range(lower_tick, uppar_tick) {
            Err(ErrorCode::InvalidPositionRange)
        } else if (!vacant && self.position.liquidity + liquidity_amount > u128::MAX)
            || self.pool.global_liquidity + liquidity_amount > u128::MAX {
            Err(ErrorCode::ArithmeticOverflow)
        } else {
            Ok(
                (
                    OpenPosition {
                        pool: Pool {
                            global_liquidity: (self.pool.global_liquidity
                                + liquidity_amount) as u128,
                            ..self.pool
                        },
                        lower_tick_array: arrays.unwrap().0,
                        uppar_tick_array: arrays.unwrap().1,
                        position: if vacant {
                            Position {
                                liquidity: liquidity_amount,
                                tick_lower: lower_tick,
                                tick_uppar: uppar_tick,
                                owner,
                                pool: self.pool_key,
                                bump,
                            }
                        } else {
                            Position {
                                liquidity: (self.position.liquidity + liquidity_amount) as u128,
                                ..self.position
                            }
                        },
                        ..self
                    },
                    amounts.unwrap(),
                ),
            )
        }
    }

    /// Opens a position from `lower_tick` to `uppar_tick` with
    /// `liquidity_amount` for `owner`, or adds that liquidity to the position
    /// if it exists.
    ///
    /// On success the records are updated and the amounts of token 0 and
    /// token 1 that have to move from the depositor to the pool are returned.
    /// On failure nothing has changed.
    pub fn new(
        &mut self,
        owner: Address,
        lower_tick: i32,
        uppar_tick: i32,
        liquidity_amount: u128,
        tick_array_lower_start_index: i32,
        tick_array_uppar_start_index: i32,
        bump: u8,
    ) -> (r: Result<(u64, u64), ErrorCode>)
        ensures
            match r {
                Ok(amounts) => old(self).spec_new(
                    owner,
                    lower_tick,
                    uppar_tick,
                    liquidity_amount,
                    tick_array_lower_start_index,
                    tick_array_uppar_start_index,
                    bump,
                ) == Ok::<(OpenPosition, (u64, u64)), ErrorCode>((*final(self), amounts)),
                Err(e) => old(self).spec_new(
                    owner,
                    lower_tick,
                    uppar_tick,
                    liquidity_amount,
                    tick_array_lower_start_index,
                    tick_array_uppar_start_index,
                    bump,
                ) == Err::<(OpenPosition, (u64, u64)), ErrorCode>(e) && *final(self) == *old(self),
            },
            old(self).pool.wf() ==> final(self).pool.wf(),
            final(self).lower_tick_array.keeps_history_of(old(self).lower_tick_array),
            final(self).uppar_tick_array.keeps_history_of(old(self).uppar_tick_array),
    {
        if !self.user_token_0.mint.matches(&self.token_mint_0) || !self.user_token_1.mint.matches(
            &self.token_mint_1,
        ) {
            return Err(ErrorCode::InvalidMint);
        }
        if !self.user_token_0.owner.matches(&owner) || !self.user_token_1.owner.matches(&owner) {
            return Err(ErrorCode::Unauthorized);
        }
        if !is_valid_tick_range(lower_tick, uppar_tick, self.pool.tick_spacing) {
            return Err(ErrorCode::InvalidTickRange);
        }
        if liquidity_amount == 0 {
            return Err(ErrorCode::InsufficentAmount);
        }
        if !(self.pool.current_tick >= lower_tick && self.pool.current_tick < uppar_tick) {
            return Err(ErrorCode::MintRangeMustCoverCurrentPrice);
        }
        let mut lower_tick_array = self.lower_tick_array;
        let mut uppar_tick_array = self.uppar_tick_array;
        lower_tick_array.claim(self.pool_key, tick_array_lower_start_index);
        uppar_tick_array.claim(self.pool_key, tick_array_uppar_start_index);

        let delta = liquidity_delta(liquidity_amount, true)?;
        apply_to_range(
            &mut lower_tick_array,
            &mut uppar_tick_array,
            lower_tick,
            uppar_tick,
            self.pool.tick_spacing,
            delta,
        )?;
        let amounts = self.pool.amounts_for(lower_tick, uppar_tick, liquidity_amount)?;

        let mut position = self.position;
        if position.is_vacant() {
            position.owner = owner;
            position.pool = self.pool_key;
            position.tick_uppar = uppar_tick;
            position.tick_lower = lower_tick;
            position.liquidity = liquidity_amount;
            position.bump = bump;
        } else {
            if !position.owner.matches(&owner) {
                return Err(ErrorCode::Unauthorized);
            }
            if !position.has_range(lower_tick, uppar_tick) {
                return Err(ErrorCode::InvalidPositionRange);
            }
            position.liquidity = match position.liquidity.checked_add(liquidity_amount) {
                Some(liquidity) => liquidity,
                None => {
                    return Err(ErrorCode::ArithmeticOverflow);
                },
            };
        }
        let global_liquidity = match self.pool.global_liquidity.checked_add(liquidity_amount) {
            Some(liquidity) => liquidity,
            None => {
                return Err(ErrorCode::ArithmeticOverflow);
            },
        };

        self.lower_tick_array = lower_tick_array;
        self.uppar_tick_array = uppar_tick_array;
        self.position = position;
        self.pool.global_liquidity = global_liquidity;
        Ok(amounts)
    }
}

/// A range whose bounds are equal is refused as an invalid tick range,
/// whatever else is asked, once the depositor's token accounts are accepted.
pub proof fn lemma_open_refuses_empty_range(
    open: OpenPosition,
    owner: Address,
    tick: i32,
    liquidity_amount: u128,
    tick_array_lower_start_index: i32,
    tick_array_uppar_start_index: i32,
    bump: u8,
)
    requires
        open.user_token_0.mint == open.token_mint_0,
        open.user_token_1.mint == open.token_mint_1,
        open.user_token_0.owner == owner,
        open.user_token_1.owner == owner,
    ensures
        open.spec_new(
            owner,
            tick,
            tick,
            liquidity_amount,
            tick_array_lower_start_index,
            tick_array_uppar_start_index,
            bump,
        ) == Err::<(OpenPosition, (u64, u64)), ErrorCode>(ErrorCode::InvalidTickRange),
{
}

/// A deposit of no liquidity into a valid range is refused as an
/// insufficient amount, once the depositor's token accounts are accepted.
pub proof fn lemma_open_refuses_zero_liquidity(
    open: OpenPosition,
    owner: Address,
    lower_tick: i32,
    uppar_tick: i32,
    tick_array_lower_start_index: i32,
    tick_array_uppar_start_index: i32,
    bump: u8,
)
    requires
        open.user_token_0.mint == open.token_mint_0,
        open.user_token_1.mint == open.token_mint_1,
        open.user_token_0.owner == owner,
        open.user_token_1.owner == owner,
        valid_tick_range(lower_tick as int, uppar_tick as int, open.pool.tick_spacing as int),
    ensures
        open.spec_new(
            owner,
            lower_tick,
            uppar_tick,
            0,
            tick_array_lower_start_index,
            tick_array_uppar_start_index,
            bump,
        ) == Err::<(OpenPosition, (u64, u64)), ErrorCode>(ErrorCode::InsufficentAmount),
{
}

} // verus!
