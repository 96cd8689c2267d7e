//! Account identifiers: opaque, immutable string-like tokens naming a party.

use vstd::prelude::*;

verus! {

/// An opaque account identifier. Once created it is never mutated; it is
/// used as the key of every per-account mapping in the contract.
#[derive(Debug)]
pub struct AccountId {
    id: String,
}

impl View for AccountId {
    type V = Seq<char>;

    closed spec fn view(&self) -> Seq<char> {
        self.id@
    }
}

impl DeepView for AccountId {
    type V = Seq<char>;

    open spec fn deep_view(&self) -> Seq<char> {
        self@
    }
}

impl AccountId {
    /// Wraps a raw string as an account identifier.
    pub fn new(id: String) -> (r: AccountId)
        ensures
            r@ == id@,
    {
        AccountId { id }
    }

    /// The raw identifier, for display by unverified callers.
    pub fn as_str(&self) -> (r: &str)
        ensures
            r@ == self@,
    {
        self.id.as_str()
    }
}

impl Clone for AccountId {
    fn clone(&self) -> (r: Self)
        ensures
            r == *self,
            r@ == self@,
    {
        AccountId { id: self.id.clone() }
    }
}

impl PartialEq for AccountId {
    fn eq(&self, other: &AccountId) -> (r: bool) {
        self.id == other.id
    }
}

impl vstd::std_specs::cmp::PartialEqSpecImpl for AccountId {
    open spec fn obeys_eq_spec() -> bool {
        true
    }

    open spec fn eq_spec(&self, other: &AccountId) -> bool {
        self@ == other@
    }
}

} // verus!
