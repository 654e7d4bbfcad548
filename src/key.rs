use vstd::prelude::*;

verus! {

broadcast use vstd::array::group_array_axioms;

/// A 32-byte account identity (a wallet, a loan, a token mint).
#[derive(Clone, Copy, Debug)]
pub struct AccountKey {
    pub bytes: [u8; 32],
}

impl AccountKey {
    /// The key whose 32 bytes are the given ones.
    pub fn new(bytes: [u8; 32]) -> (r: AccountKey)
        ensures
            r.bytes == bytes,
    {
        AccountKey { bytes }
    }

    /// Whether two keys are the same identity.
    pub fn same(&self, other: &AccountKey) -> (r: bool)
        ensures
            r == (*self == *other),
    {
        let mut i: usize = 0;
        while i < 32
            invariant
                0 <= i <= 32,
                forall|j: int| 0 <= j < i ==> self.bytes[j] == other.bytes[j],
            decreases 32 - i,
        {
            if self.bytes[i] != other.bytes[i] {
                return false;
            }
            i = i + 1;
        }
        assert(self.bytes =~= other.bytes);
        true
    }
}

impl PartialEq for AccountKey {
    fn eq(&self, other: &AccountKey) -> (r: bool) {
        self.same(other)
    }
}

impl vstd::std_specs::cmp::PartialEqSpecImpl for AccountKey {
    open spec fn obeys_eq_spec() -> bool {
        true
    }

    open spec fn eq_spec(&self, other: &AccountKey) -> bool {
        *self == *other
    }
}

impl Eq for AccountKey {}

} // verus!
