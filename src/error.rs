use vstd::prelude::*;

verus! {

/// Why an operation of the catalog failed.
#[derive(Debug, Clone, Copy, PartialEq, Eq, Structural)]
pub enum CatalogError {
    /// Malformed or out-of-range input; nothing was changed.
    Validation,
    /// The referenced id or slug does not exist.
    NotFound,
    /// The administrator credential is missing or wrong.
    Unauthorized,
    /// The underlying store cannot hold the result.
    Store,
}

} // verus!
