//! The operations on a pool, each on the records that it needs.
pub mod close_position;
pub mod conservation;
pub mod decrease_liquidity;
pub mod increase_liquidity;
pub mod initalise_pool;
pub mod open_position;
pub mod swap;

pub use close_position::ClosePosition;
pub use decrease_liquidity::DecreaseLiquidity;
pub use increase_liquidity::IncreaseLiquidity;
pub use initalise_pool::InistalsiePool;
pub use open_position::OpenPosition;
pub use swap::Swap;
