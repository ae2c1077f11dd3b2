//! Account identities.

use vstd::prelude::*;
use vstd::std_specs::cmp::PartialEqSpecImpl;

verus! {

/// The bytes of the null identity: the tenant of a room nobody lives in.
pub const ZERO_ADDRESS: [u8; 32] = [
    255, 255, 255, 255, 255, 255, 255, 255,
    255, 255, 255, 255, 255, 255, 255, 255,
    255, 255, 255, 255, 255, 255, 255, 255,
    255, 255, 255, 255, 255, 255, 255, 255,
];

/// A 32-byte account identity. Two identities are the same party exactly when
/// their bytes agree.
#[derive(Clone, Copy, Debug, Eq, Hash)]
pub struct AccountId(pub [u8; 32]);

impl PartialEq for AccountId {
    fn eq(&self, other: &Self) -> (r: bool) {
        let mut i: usize = 0;
        while i < 32
            invariant
                i <= 32,
                forall|j: int| 0 <= j < i ==> self.0[j] == other.0[j],
            decreases 32 - i,
        {
            if self.0[i] != other.0[i] {
                return false;
            }
            i += 1;
        }
        assert(self.0 =~= other.0);
        true
    }
}

impl PartialEqSpecImpl for AccountId {
    open spec fn obeys_eq_spec() -> bool {
        true
    }

    open spec fn eq_spec(&self, other: &Self) -> bool {
        *self == *other
    }
}

impl AccountId {
    /// The null identity, for use in contracts.
    pub open spec fn null() -> AccountId {
        AccountId(ZERO_ADDRESS)
    }

    /// Whether this identity is the null identity.
    pub open spec fn is_null(&self) -> bool {
        *self == Self::null()
    }

    /// The null identity.
    pub fn zero() -> (id: AccountId)
        ensures
            id == Self::null(),
            forall|i: int| 0 <= i < 32 ==> id.0[i] == 255u8,
    {
        AccountId(ZERO_ADDRESS)
    }

    /// Tells whether this identity is the null identity.
    pub fn is_zero(&self) -> (r: bool)
        ensures
            r == self.is_null(),
    {
        *self == Self::zero()
    }
}

} // verus!
