//! Identities: opaque principals used as storage keys and authorization subjects.

use vstd::prelude::*;

verus! {

/// An account or contract, named by the text form of its address.
///
/// Two identities are the same principal exactly when their texts are equal.
#[derive(Clone, Debug)]
pub struct Identity {
    pub strkey: String,
}

impl View for Identity {
    type V = Seq<char>;

    open spec fn view(&self) -> Seq<char> {
        self.strkey@
    }
}

impl PartialEq for Identity {
    fn eq(&self, other: &Self) -> (r: bool) {
        self.strkey == other.strkey
    }
}

impl Eq for Identity {}

impl vstd::std_specs::cmp::PartialEqSpecImpl for Identity {
    open spec fn obeys_eq_spec() -> bool {
        true
    }

    open spec fn eq_spec(&self, other: &Self) -> bool {
        self@ == other@
    }
}

impl Identity {
    /// Names the principal whose address has the text `strkey`.
    pub fn new(strkey: String) -> (id: Identity)
        ensures
            id@ == strkey@,
    {
        Identity { strkey }
    }

    /// The text form of the address.
    pub fn as_str(&self) -> (s: &str)
        ensures
            s@ == self@,
    {
        self.strkey.as_str()
    }

    /// Whether `self` and `other` name the same principal.
    pub fn same(&self, other: &Identity) -> (r: bool)
        ensures
            r == (self@ == other@),
    {
        self.strkey == other.strkey
    }

    /// A second handle on the same principal.
    pub fn duplicate(&self) -> (id: Identity)
        ensures
            id@ == self@,
    {
        Identity { strkey: self.strkey.clone() }
    }
}

} // verus!
