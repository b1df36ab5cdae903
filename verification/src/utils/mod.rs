//! Error kinds, the fixed-point price arithmetic and tick ranges.
pub mod error;
pub mod math;
pub mod range;

pub use error::ErrorCode;
pub use math::{
    get_amount_for_liquidity, get_sqrt_price_from_tick, get_tick_at_sqrt_price, swap_segment,
};
