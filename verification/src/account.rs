use vstd::prelude::*;

verus! {

broadcast use vstd::array::group_array_axioms;

/// An opaque principal identity: a 32-byte account address.
///
/// The game logic reads nothing of an identity but equality and whether it
/// is the all-zero sentinel, which stands for "no identity assigned yet".
#[verifier::ext_equal]
#[derive(Clone, Copy, Debug)]
pub struct AccountId {
    pub bytes: [u8; 32],
}

impl AccountId {
    /// The sentinel: every byte of the address is zero.
    pub open spec fn spec_is_zero(&self) -> bool {
        forall|i: int| 0 <= i < 32 ==> self.bytes@[i] == 0
    }

    /// Whether this identity is the all-zero sentinel.
    #[verifier::when_used_as_spec(spec_is_zero)]
    pub fn is_zero(&self) -> (r: bool)
        ensures
            r == self.spec_is_zero(),
    {
        let mut i: usize = 0;
        while i < 32
            invariant
                0 <= i <= 32,
                forall|j: int| 0 <= j < i ==> self.bytes@[j] == 0,
            decreases 32 - i,
        {
            if self.bytes[i] != 0 {
                return false;
            }
            i = i + 1;
        }
        true
    }

    /// The all-zero sentinel identity.
    pub fn zero() -> (r: AccountId)
        ensures
            r.spec_is_zero(),
    {
        AccountId { bytes: [0u8; 32] }
    }
}

/// Two identities with all-zero bytes are the same identity, so the
/// contract of `zero` pins its result down to a single value.
pub proof fn lemma_zero_unique(a: AccountId, b: AccountId)
    requires
        a.spec_is_zero(),
        b.spec_is_zero(),
    ensures
        a == b,
{
    assert(a.bytes =~= b.bytes);
    assert(a =~= b);
}

impl PartialEq for AccountId {
    /// Identities are equal exactly when their addresses agree byte for byte.
    fn eq(&self, other: &AccountId) -> (r: bool) {
        let mut i: usize = 0;
        while i < 32
            invariant
                0 <= i <= 32,
                forall|j: int| 0 <= j < i ==> self.bytes@[j] == other.bytes@[j],
            decreases 32 - i,
        {
            if self.bytes[i] != other.bytes[i] {
                return false;
            }
            i = i + 1;
        }
        proof {
            assert(self.bytes =~= other.bytes);
            assert(*self =~= *other);
        }
        true
    }
}

impl vstd::std_specs::cmp::PartialEqSpecImpl for AccountId {
    open spec fn obeys_eq_spec() -> bool {
        true
    }

    open spec fn eq_spec(&self, other: &AccountId) -> bool {
        *self == *other
    }
}

impl From<[u8; 32]> for AccountId {
    /// Builds the identity with exactly the given address bytes.
    fn from(bytes: [u8; 32]) -> (r: AccountId) {
        AccountId { bytes }
    }
}

impl vstd::std_specs::convert::FromSpecImpl<[u8; 32]> for AccountId {
    open spec fn obeys_from_spec() -> bool {
        true
    }

    open spec fn from_spec(bytes: [u8; 32]) -> AccountId {
        AccountId { bytes }
    }
}

} // verus!
