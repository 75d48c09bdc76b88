//! A platform's own record of an account, an instance or an asset.

use vstd::prelude::*;

verus! {

/// A record as the platform sent it: the id that the platform filed it under
/// and the document that describes it. The core reads the id and carries the
/// document along untouched.
#[derive(Debug, PartialEq, Eq, Hash)]
pub struct PlatformRecord {
    /// The platform's id of the record
    pub id: String,
    /// The record in the platform's own textual form
    pub document: String,
}

impl Clone for PlatformRecord {
    fn clone(&self) -> (res: Self)
        ensures
            res == *self,
    {
        PlatformRecord { id: self.id.clone(), document: self.document.clone() }
    }
}

} // verus!
