//! State engine of a concentrated-liquidity market maker.
//!
//! The crate keeps the books of one liquidity pool: the pool's price and
//! active liquidity, the net and gross liquidity recorded at each tick, and
//! the positions of the liquidity providers.
//!
//! * [`utils`] holds the error kinds, the arithmetic that ties prices to
//!   ticks and liquidity to token amounts, and the rules for tick ranges.
//! * [`states`] holds the records: pools, positions and arrays of ticks.
//! * [`instructions`] holds the operations. Each one is a type that gathers
//!   the records it works on, with a method `new` that carries it out.
//!
//! Every operation is a total function on plain values. It either succeeds,
//! updates its records and says how much of each token has to move, or it
//! reports an [`ErrorCode`] and leaves every record as it was. Storing the
//! records and moving the tokens is left to the caller.
pub mod instructions;
pub mod states;
pub mod utils;

pub use instructions::{
    ClosePosition, DecreaseLiquidity, IncreaseLiquidity, InistalsiePool, OpenPosition, Swap,
};
pub use states::{Address, Pool, Position, TickArray, TickInfo, TokenAccount, TICKS_PER_ARRAY};
pub use utils::{
    get_amount_for_liquidity, get_sqrt_price_from_tick, get_tick_at_sqrt_price, swap_segment,
    ErrorCode,
};
