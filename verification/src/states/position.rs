use crate::states::address::Address;
use vstd::prelude::*;

verus! {

/// The liquidity that one owner holds in one pool over one tick range.
#[derive(Clone, Copy, Debug, PartialEq, Eq)]
pub struct Position {
    pub liquidity: u128,
    pub tick_lower: i32,
    pub tick_uppar: i32,
    pub owner: Address,
    pub pool: Address,
    pub bump: u8,
}

impl Position {
    /// A record that holds no position: every field is zero.
    pub open spec fn vacant() -> Position {
        Position {
            liquidity: 0,
            tick_lower: 0,
            tick_uppar: 0,
            owner: Address::zero(),
            pool: Address::zero(),
            bump: 0,
        }
    }

    /// The record was never opened, or was closed: it holds no liquidity and
    /// names no owner.
    pub open spec fn spec_is_vacant(&self) -> bool {
        self.liquidity == 0 && self.owner == Address::zero()
    }

    /// Tells whether the record was never opened, or was closed.
    #[verifier::when_used_as_spec(spec_is_vacant)]
    pub fn is_vacant(&self) -> (r: bool)
        ensures
            r == self.spec_is_vacant(),
    {
        self.liquidity == 0 && self.owner.is_zero()
    }

    /// Tells whether the record covers exactly the range from `tick_lower` to
    /// `tick_uppar`.
    pub open spec fn spec_has_range(&self, tick_lower: i32, tick_uppar: i32) -> bool {
        self.tick_lower == tick_lower && self.tick_uppar == tick_uppar
    }

    /// Tells whether the record covers exactly the range from `tick_lower` to
    /// `tick_uppar`.
    #[verifier::when_used_as_spec(spec_has_range)]
    pub fn has_range(&self, tick_lower: i32, tick_uppar: i32) -> (r: bool)
        ensures
            r == self.spec_has_range(tick_lower, tick_uppar),
    {
        self.tick_lower == tick_lower && self.tick_uppar == tick_uppar
    }
}

impl Default for Position {
    /// A record that holds no position.
    fn default() -> (r: Position)
        ensures
            r == Position::vacant(),
    {
        Position {
            liquidity: 0,
            tick_lower: 0,
            tick_uppar: 0,
            owner: Address::default(),
            pool: Address::default(),
            bump: 0,
        }
    }
}

} // verus!
