use vstd::array::spec_array_fill_for_copy_type;
use vstd::prelude::*;

verus! {

/// Identifier of an account: an owner, a pool, a token mint or a vault.
///
/// Two addresses are the same when their 32 bytes agree.
#[derive(Clone, Copy, Debug, PartialEq, Eq, Hash)]
pub struct Address {
    pub bytes: [u8; 32],
}

impl Address {
    /// The address of 32 zero bytes, which marks a field that was never set.
    pub open spec fn zero() -> Address {
        Address { bytes: spec_array_fill_for_copy_type::<u8, 32>(0u8) }
    }

    /// Makes an address from its bytes.
    pub fn new(bytes: [u8; 32]) -> (r: Address)
        ensures
            r.bytes == bytes,
    {
        Address { bytes }
    }

    /// Tells whether two addresses are the same.
    pub fn matches(&self, other: &Address) -> (r: bool)
        ensures
            r == (*self == *other),
    {
        let mut i: usize = 0;
        while i < 32
            invariant
                i <= 32,
                forall|j: int| 0 <= j < i ==> self.bytes[j] == other.bytes[j],
            decreases 32 - i,
        {
            if self.bytes[i] != other.bytes[i] {
                return false;
            }
            i += 1;
        }
        assert(self.bytes =~= other.bytes);
        true
    }

    /// Tells whether this is the address of 32 zero bytes.
    pub fn is_zero(&self) -> (r: bool)
        ensures
            r == (*self == Address::zero()),
    {
        let mut i: usize = 0;
        while i < 32
            invariant
                i <= 32,
                forall|j: int| 0 <= j < i ==> self.bytes[j] == 0,
            decreases 32 - i,
        {
            if self.bytes[i] != 0 {
                return false;
            }
            i += 1;
        }
        assert(self.bytes =~= Address::zero().bytes);
        true
    }
}

impl Default for Address {
    /// The address of 32 zero bytes.
    fn default() -> (r: Address)
        ensures
            r == Address::zero(),
    {
        Address { bytes: [0u8; 32] }
    }
}

} // verus!
