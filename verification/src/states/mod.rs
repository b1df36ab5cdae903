//! The records the engine keeps: addresses, the pool, positions and ticks.
pub mod address;
pub mod pool;
pub mod position;
pub mod tick_array;
pub mod token_account;

pub use address::Address;
pub use pool::Pool;
pub use position::Position;
pub use tick_array::{TickArray, TickInfo, TICKS_PER_ARRAY};
pub use token_account::TokenAccount;
