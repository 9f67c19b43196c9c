use vstd::prelude::*;

use crate::error::CatalogError;
use crate::status::str_equal;

verus! {

/// The shared administrator secret, configured once at startup and handed to
/// whatever serves admin-scoped operations.
pub struct AdminGate {
    secret: String,
}

impl AdminGate {
    pub closed spec fn secret(&self) -> Seq<char> {
        self.secret@
    }

    pub fn new(secret: String) -> (r: AdminGate)
        ensures
            r.secret() == secret@,
    {
        AdminGate { secret }
    }

    /// Whether the supplied key is exactly the secret (case-sensitive).
    pub open spec fn admits(&self, supplied: Option<&str>) -> bool {
        match supplied {
            Some(k) => k@ == self.secret(),
            None => false,
        }
    }

    pub fn check_admin_auth(&self, supplied: Option<&str>) -> (r: bool)
        ensures
            r == self.admits(supplied),
    {
        match supplied {
            Some(k) => str_equal(k, self.secret.as_str()),
            None => false,
        }
    }

    /// The check that precedes every admin-scoped operation.
    pub fn authorize(&self, supplied: Option<&str>) -> (r: Result<(), CatalogError>)
        ensures
            r == (if self.admits(supplied) {
                Ok(())
            } else {
                Err(CatalogError::Unauthorized)
            }),
    {
        if self.check_admin_auth(supplied) {
            Ok(())
        } else {
            Err(CatalogError::Unauthorized)
        }
    }
}

} // verus!
