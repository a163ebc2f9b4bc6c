use vstd::prelude::*;

use crate::errors::DiError;

verus! {

/// The type-erasure boundary of the engine, seen from the verified
/// side.
///
/// Heterogeneously typed service instances share one storage
/// structure; inside the engine an instance is therefore only its
/// identity (`id`, assigned by the runtime when the constructor
/// completed) together with the type tag it was constructed under.
/// The runtime keeps the actual shared-ownership, read/write-locked
/// value and finds it again by `id`; `tag` is what guards the
/// conversion back to a concrete typed handle.
#[derive(Debug, Clone, Copy, PartialEq, Eq, Structural)]
pub struct Holder {
    /// The type tag the instance was constructed under.
    pub tag: u64,
    /// The identity of the instance, unique per construction.
    pub id: u64,
}

impl Holder {
    /// Wraps an instance identity under the given type tag.
    pub fn new(tag: u64, id: u64) -> (h: Holder)
        ensures
            h == (Holder { tag, id }),
    {
        Holder { tag, id }
    }

    /// Converts the type-erased holder back to the identity of a
    /// concrete typed handle: succeeds exactly when the recorded tag is
    /// the tag the caller asked for. A mismatch indicates a
    /// registration or key-derivation bug and is surfaced as an error,
    /// never an unchecked cast.
    pub fn downcast(&self, expected_tag: u64) -> (r: Result<u64, DiError>)
        ensures
            self.tag == expected_tag ==> r == Ok::<u64, DiError>(self.id),
            self.tag != expected_tag ==> r == Err::<u64, DiError>(DiError::TypeMismatch),
    {
        if self.tag == expected_tag {
            Ok(self.id)
        } else {
            Err(DiError::TypeMismatch)
        }
    }
}

} // verus!
