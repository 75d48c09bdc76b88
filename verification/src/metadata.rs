//! The envelope that every fetched record travels in: the record itself, the
//! instant it was fetched at and the account that fetched it.
//!
//! Instants are nanoseconds since the Unix epoch, in UTC.

use vstd::prelude::*;
use crate::ids::{PlatformAccountId, PlatformIdView};
use crate::platform::PlatformType;

verus! {

/// Metadata about the data from a platform
#[derive(Debug, PartialEq, Eq, Hash)]
pub struct PlatformDataMetadata<Id> {
    /// When the data was fetched
    pub updated_at: i128,
    /// Which account was used to fetch the data
    pub updated_by: Id,
}

/// Metadata about the data from a platform with the data
#[derive(Debug, PartialEq, Eq)]
pub struct PlatformDataAndMetadata<T, Id> {
    /// The actual data itself
    pub data: T,
    /// The metadata about the data
    pub metadata: PlatformDataMetadata<Id>,
}

/// Reads the system clock through `time::OffsetDateTime::now_utc` and gives
/// the instant as nanoseconds since the Unix epoch. The value is whatever the
/// clock says, so nothing is claimed of it.
#[verifier::external_body]
fn now_utc() -> (now: i128) {
    time::OffsetDateTime::now_utc().unix_timestamp_nanos()
}

impl<Id: Clone> Clone for PlatformDataMetadata<Id> {
    fn clone(&self) -> (res: Self)
        ensures
            res.updated_at == self.updated_at,
            cloned(self.updated_by, res.updated_by),
    {
        PlatformDataMetadata { updated_at: self.updated_at, updated_by: self.updated_by.clone() }
    }
}

impl<T: Clone, Id: Clone> Clone for PlatformDataAndMetadata<T, Id> {
    fn clone(&self) -> (res: Self)
        ensures
            cloned(self.data, res.data),
            res.metadata.updated_at == self.metadata.updated_at,
            cloned(self.metadata.updated_by, res.metadata.updated_by),
    {
        PlatformDataAndMetadata { data: self.data.clone(), metadata: self.metadata.clone() }
    }
}

impl PlatformDataMetadata<String> {
    /// The same metadata with the fetching account tagged by its platform.
    pub open spec fn on(&self, platform: PlatformType) -> PlatformDataMetadataView {
        PlatformDataMetadataView {
            updated_at: self.updated_at as int,
            updated_by: PlatformIdView { platform, id: self.updated_by@ },
        }
    }

    /// Copies the platform metadata into the form that is shared by all
    /// platforms.
    pub fn generalize(&self, platform: PlatformType) -> (general: PlatformDataMetadata<
        PlatformAccountId,
    >)
        ensures
            general@ == self.on(platform),
    {
        PlatformDataMetadata {
            updated_at: self.updated_at,
            updated_by: PlatformAccountId::on(platform, self.updated_by.clone()),
        }
    }
}

/// What generalized metadata stands for.
pub struct PlatformDataMetadataView {
    pub updated_at: int,
    pub updated_by: PlatformIdView,
}

impl View for PlatformDataMetadata<PlatformAccountId> {
    type V = PlatformDataMetadataView;

    open spec fn view(&self) -> PlatformDataMetadataView {
        PlatformDataMetadataView { updated_at: self.updated_at as int, updated_by: self.updated_by@ }
    }
}

impl<T, Id> PlatformDataAndMetadata<T, Id> {
    /// Wraps the data with the instant it was fetched at and the account that
    /// fetched it.
    pub fn new_at(data: T, updated_by: Id, updated_at: i128) -> (wrapped: Self)
        ensures
            wrapped.data == data,
            wrapped.metadata.updated_by == updated_by,
            wrapped.metadata.updated_at == updated_at,
    {
        PlatformDataAndMetadata { data, metadata: PlatformDataMetadata { updated_at, updated_by } }
    }

    /// Creates a new instance of this with the current timestamp
    pub fn new_now(data: T, updated_by: Id) -> (wrapped: Self)
        ensures
            wrapped.data == data,
            wrapped.metadata.updated_by == updated_by,
    {
        Self::new_at(data, updated_by, now_utc())
    }

    /// Borrows the data and metadata as a tuple
    pub fn as_tuple(&self) -> (parts: (&T, &PlatformDataMetadata<Id>))
        ensures
            *parts.0 == self.data,
            *parts.1 == self.metadata,
    {
        (&self.data, &self.metadata)
    }

    /// Puts data and its metadata into one envelope.
    pub fn from_tuple(value: (T, PlatformDataMetadata<Id>)) -> (wrapped: Self)
        ensures
            wrapped.data == value.0,
            wrapped.metadata == value.1,
    {
        PlatformDataAndMetadata { data: value.0, metadata: value.1 }
    }

    /// Takes the envelope apart again.
    pub fn into_tuple(self) -> (parts: (T, PlatformDataMetadata<Id>))
        ensures
            parts.0 == self.data,
            parts.1 == self.metadata,
    {
        (self.data, self.metadata)
    }
}

} // verus!
