//! Principals: accounts and contract packages, each named by a 32-byte hash.

use vstd::prelude::*;

verus! {

/// A principal of the ledger.
///
/// Equality is by the full tagged value: an account and a contract package
/// with the same 32-byte hash are different addresses.
#[derive(Clone, Copy, Debug, Eq)]
pub enum Address {
    /// An account, named by its account hash.
    Account([u8; 32]),
    /// A contract, named by its contract package hash.
    Contract([u8; 32]),
}

/// Whether two 32-byte hashes are equal, compared byte by byte.
fn same_hash(a: &[u8; 32], b: &[u8; 32]) -> (r: bool)
    ensures
        r <==> *a == *b,
{
    let mut i: usize = 0;
    while i < 32
        invariant
            i <= 32,
            forall|j: int| 0 <= j < i ==> a@[j] == b@[j],
        decreases 32 - i,
    {
        if a[i] != b[i] {
            return false;
        }
        i = i + 1;
    }
    assert(*a =~= *b);
    true
}

impl PartialEq for Address {
    fn eq(&self, other: &Address) -> (r: bool) {
        self.same(other)
    }
}

impl vstd::std_specs::cmp::PartialEqSpecImpl for Address {
    open spec fn obeys_eq_spec() -> bool {
        true
    }

    open spec fn eq_spec(&self, other: &Address) -> bool {
        *self == *other
    }
}

impl Address {
    /// Whether `self` and `other` are the same address.
    pub fn same(&self, other: &Address) -> (r: bool)
        ensures
            r <==> *self == *other,
    {
        match (self, other) {
            (Address::Account(a), Address::Account(b)) => same_hash(a, b),
            (Address::Contract(a), Address::Contract(b)) => same_hash(a, b),
            _ => false,
        }
    }
}

} // verus!
