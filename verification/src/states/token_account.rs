use crate::states::address::Address;
use vstd::prelude::*;

verus! {

/// What the engine reads of a token account: the mint of the token it holds
/// and the owner who may spend from it.
#[derive(Clone, Copy, Debug, PartialEq, Eq)]
pub struct TokenAccount {
    pub mint: Address,
    pub owner: Address,
}

} // verus!
