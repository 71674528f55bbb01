//! Caller identities: opaque names of principals, compared only for equality.

use vstd::prelude::*;

verus! {

/// The principal on whose behalf an operation runs, or who is recorded on a
/// record. Its view is the text of its name.
#[derive(Debug)]
pub struct Identity {
    name: String,
}

impl View for Identity {
    type V = Seq<char>;

    closed spec fn view(&self) -> Seq<char> {
        self.name@
    }
}

impl Identity {
    /// The identity with the given name.
    pub fn new(name: &str) -> (id: Identity)
        ensures
            id@ == name@,
    {
        Identity { name: name.to_owned() }
    }

    /// The name of this identity.
    pub fn name(&self) -> (name: &str)
        ensures
            name@ == self@,
    {
        self.name.as_str()
    }

    /// Whether two identities name the same principal.
    pub fn same_as(&self, other: &Identity) -> (same: bool)
        ensures
            same == (self@ == other@),
    {
        self.name == other.name
    }
}

impl Clone for Identity {
    fn clone(&self) -> (copy: Identity)
        ensures
            copy == *self,
    {
        Identity { name: self.name.clone() }
    }
}

impl PartialEq for Identity {
    fn eq(&self, other: &Identity) -> (same: bool) {
        self.name == other.name
    }
}

impl vstd::std_specs::cmp::PartialEqSpecImpl for Identity {
    open spec fn obeys_eq_spec() -> bool {
        true
    }

    open spec fn eq_spec(&self, other: &Identity) -> bool {
        self@ == other@
    }
}

} // verus!
