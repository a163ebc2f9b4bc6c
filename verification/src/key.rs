use vstd::prelude::*;

verus! {

/// A service key: the runtime type identity of a service together with
/// its instance name (empty for the unnamed registration).
///
/// The embedding runtime derives the numeric `tag` from the concrete
/// Rust type of the service, one tag per type, so equal tags mean equal
/// types. At most one registration exists per key over all three
/// lifecycle categories together.
#[derive(Debug, PartialEq, Eq, Hash)]
pub struct ServiceKey {
    /// The type identity, as the numeric tag the runtime assigned to
    /// the service's concrete type.
    pub tag: u64,
    /// The instance name; empty for the unnamed registration.
    pub name: String,
}

impl View for ServiceKey {
    type V = (u64, Seq<char>);

    open spec fn view(&self) -> (u64, Seq<char>) {
        (self.tag, self.name@)
    }
}

impl ServiceKey {
    /// A key for a named registration of the type behind `tag`.
    pub fn new(tag: u64, name: String) -> (k: ServiceKey)
        ensures
            k@ == (tag, name@),
    {
        ServiceKey { tag, name }
    }

    /// The key of the unnamed registration of the type behind `tag`.
    pub fn unnamed(tag: u64) -> (k: ServiceKey)
        ensures
            k@ == (tag, Seq::<char>::empty()),
    {
        ServiceKey { tag, name: String::new() }
    }

    /// An owned copy of the key, equal to it in the model.
    pub fn dup(&self) -> (k: ServiceKey)
        ensures
            k@ == self@,
            k.tag == self.tag,
    {
        ServiceKey { tag: self.tag, name: self.name.clone() }
    }
}

} // verus!
