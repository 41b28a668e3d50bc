use vstd::prelude::*;

verus! {

/// An HTTP request method.
#[derive(Clone, Copy, Debug, PartialEq, Eq, Structural)]
pub enum HttpMethod {
    /// Requests a representation of the target resource.
    Get,
    /// Submits an entity to the target resource.
    Post,
    /// Replaces the target resource with the request payload.
    Put,
    /// Deletes the target resource.
    Delete,
    /// Applies a partial modification to the target resource.
    Patch,
}

} // verus!
