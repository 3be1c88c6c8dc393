//! Identities: who requests funds, who votes, who administers the ledger.

use vstd::prelude::*;
use vstd::std_specs::cmp::PartialEqSpecImpl;

verus! {

/// An identity, named by its key in text form. Two addresses are the same identity
/// exactly when their keys are the same text.
#[derive(Debug, Eq)]
pub struct Address {
    key: String,
}

impl View for Address {
    type V = Seq<char>;

    closed spec fn view(&self) -> Seq<char> {
        self.key@
    }
}

impl Address {
    /// The identity named by `key`.
    pub fn new(key: String) -> (address: Address)
        ensures
            address@ == key@,
    {
        Address { key }
    }

    /// The key that names this identity.
    pub fn key(&self) -> (key: &String)
        ensures
            key@ == self@,
    {
        &self.key
    }
}

impl Clone for Address {
    fn clone(&self) -> (copy: Address)
        ensures
            copy@ == self@,
    {
        Address { key: self.key.clone() }
    }
}

impl PartialEq for Address {
    fn eq(&self, other: &Address) -> (same: bool) {
        self.key == other.key
    }
}

impl PartialEqSpecImpl for Address {
    open spec fn obeys_eq_spec() -> bool {
        true
    }

    open spec fn eq_spec(&self, other: &Address) -> bool {
        self@ == other@
    }
}

/// An identity that the host has proven to be the caller of the current operation.
/// The ledger trusts this proof and never checks it again.
#[derive(Debug)]
pub struct AuthenticatedCaller {
    address: Address,
}

impl View for AuthenticatedCaller {
    type V = Seq<char>;

    closed spec fn view(&self) -> Seq<char> {
        self.address@
    }
}

impl AuthenticatedCaller {
    /// Records that the host has authenticated `address` as the caller.
    pub fn new(address: Address) -> (caller: AuthenticatedCaller)
        ensures
            caller@ == address@,
    {
        AuthenticatedCaller { address }
    }

    /// The identity that was authenticated.
    pub fn address(&self) -> (address: &Address)
        ensures
            address@ == self@,
    {
        &self.address
    }
}

} // verus!
