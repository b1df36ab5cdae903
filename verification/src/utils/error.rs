use vstd::prelude::*;

verus! {

/// Why an operation was refused. Every failure is final: the operation that
/// reports it has changed nothing.
#[derive(Clone, Copy, Debug, PartialEq, Eq, Hash, Structural)]
pub enum ErrorCode {
    /// A sum, difference, product or quotient left its integer type, or a
    /// divisor was zero.
    ArithmeticOverflow,
    /// The requested amount is zero, or a swap met a pool without active
    /// liquidity.
    InsufficentAmount,
    /// The caller is not the owner on record.
    Unauthorized,
    /// The range given does not match the range of the existing position.
    InvalidPositionRange,
    /// A token account holds another mint than the one named.
    InvalidMint,
    /// The tick bounds are inverted, equal, or not multiples of the spacing.
    /// Also reported where liquidity is withdrawn from a position that does
    /// not belong to the pool.
    InvalidTickRange,
    /// Liquidity is added to a position that does not belong to the pool.
    InvalidRange,
    /// Liquidity was offered for a range that does not contain the current
    /// tick.
    MintRangeMustCoverCurrentPrice,
    /// The position holds no liquidity that could be withdrawn.
    NoLiquidityToRemove,
    /// A swap would pay out less than the caller's minimum.
    SlippageExceeded,
}

} // verus!
