//! Platform accounts and the friends of an account.

use vstd::prelude::*;
use vstd::std_specs::convert::FromSpecImpl;
use crate::ids::{PlatformAccountId, PlatformIdView};
use crate::metadata::{PlatformDataAndMetadata, PlatformDataMetadata, PlatformDataMetadataView};
use crate::platform::PlatformType;
use crate::record::PlatformRecord;
use crate::storage::Keyed;

verus! {

/// Details of a platform account
#[derive(Debug, PartialEq, Eq)]
pub enum PlatformAccount {
    /// VRChat variant
    VRChat(PlatformDataAndMetadata<PlatformRecord, String>),
    /// ChilloutVR variant
    ChilloutVR(PlatformDataAndMetadata<PlatformRecord, String>),
    /// Resonite variant
    Resonite(PlatformDataAndMetadata<PlatformRecord, String>),
}

impl PlatformAccount {
    /// The record and its metadata, whatever the platform.
    pub open spec fn envelope(&self) -> PlatformDataAndMetadata<PlatformRecord, String> {
        match self {
            PlatformAccount::VRChat(v) => *v,
            PlatformAccount::ChilloutVR(v) => *v,
            PlatformAccount::Resonite(v) => *v,
        }
    }

    /// The platform of the variant.
    pub open spec fn spec_platform(&self) -> PlatformType {
        match self {
            PlatformAccount::VRChat(_) => PlatformType::VRChat,
            PlatformAccount::ChilloutVR(_) => PlatformType::ChilloutVR,
            PlatformAccount::Resonite(_) => PlatformType::Resonite,
        }
    }

    /// The id: the variant's platform and the id of the record.
    pub open spec fn spec_id(&self) -> PlatformIdView {
        PlatformIdView { platform: self.spec_platform(), id: self.envelope().data.id@ }
    }

    /// The metadata with the fetching account tagged by the variant's
    /// platform.
    pub open spec fn spec_metadata(&self) -> PlatformDataMetadataView {
        self.envelope().metadata.on(self.spec_platform())
    }

    /// The record of the given platform, wrapped.
    pub open spec fn spec_on(
        platform: PlatformType,
        envelope: PlatformDataAndMetadata<PlatformRecord, String>,
    ) -> Self {
        match platform {
            PlatformType::VRChat => PlatformAccount::VRChat(envelope),
            PlatformType::ChilloutVR => PlatformAccount::ChilloutVR(envelope),
            PlatformType::Resonite => PlatformAccount::Resonite(envelope),
        }
    }

    /// Wraps a record of the given platform.
    pub fn on(
        platform: PlatformType,
        envelope: PlatformDataAndMetadata<PlatformRecord, String>,
    ) -> (wrapped: Self)
        ensures
            wrapped == Self::spec_on(platform, envelope),
    {
        match platform {
            PlatformType::VRChat => PlatformAccount::VRChat(envelope),
            PlatformType::ChilloutVR => PlatformAccount::ChilloutVR(envelope),
            PlatformType::Resonite => PlatformAccount::Resonite(envelope),
        }
    }

    /// Gets the platform type
    pub fn platform(&self) -> (p: PlatformType)
        ensures
            p == self.spec_platform(),
    {
        match self {
            PlatformAccount::VRChat(_) => PlatformType::VRChat,
            PlatformAccount::ChilloutVR(_) => PlatformType::ChilloutVR,
            PlatformAccount::Resonite(_) => PlatformType::Resonite,
        }
    }

    /// Gets the ID
    pub fn id(&self) -> (id: PlatformAccountId)
        ensures
            id@ == self.spec_id(),
            id@.platform == self.spec_platform(),
    {
        match self {
            PlatformAccount::VRChat(v) => PlatformAccountId::VRChat(v.data.id.clone()),
            PlatformAccount::ChilloutVR(v) => PlatformAccountId::ChilloutVR(v.data.id.clone()),
            PlatformAccount::Resonite(v) => PlatformAccountId::Resonite(v.data.id.clone()),
        }
    }

    /// Copies the platform metadata into a more generic format
    pub fn metadata(&self) -> (general: PlatformDataMetadata<PlatformAccountId>)
        ensures
            general@ == self.spec_metadata(),
            general@.updated_by.platform == self.spec_platform(),
    {
        match self {
            PlatformAccount::VRChat(v) => v.metadata.generalize(PlatformType::VRChat),
            PlatformAccount::ChilloutVR(v) => v.metadata.generalize(PlatformType::ChilloutVR),
            PlatformAccount::Resonite(v) => v.metadata.generalize(PlatformType::Resonite),
        }
    }

    /// When the record was fetched.
    pub fn updated_at(&self) -> (at: i128)
        ensures
            at == self.envelope().metadata.updated_at,
    {
        match self {
            PlatformAccount::VRChat(v) => v.metadata.updated_at,
            PlatformAccount::ChilloutVR(v) => v.metadata.updated_at,
            PlatformAccount::Resonite(v) => v.metadata.updated_at,
        }
    }
}

impl Keyed for PlatformAccount {
    type Id = PlatformAccountId;

    open spec fn key(&self) -> PlatformIdView {
        self.spec_id()
    }

    fn id(&self) -> (id: PlatformAccountId) {
        PlatformAccount::id(self)
    }

    fn has_id(&self, id: &PlatformAccountId) -> (same: bool) {
        match (self, id) {
            (PlatformAccount::VRChat(v), PlatformAccountId::VRChat(i)) => v.data.id == *i,
            (PlatformAccount::ChilloutVR(v), PlatformAccountId::ChilloutVR(i)) => v.data.id == *i,
            (PlatformAccount::Resonite(v), PlatformAccountId::Resonite(i)) => v.data.id == *i,
            _ => false,
        }
    }
}

impl Clone for PlatformAccount {
    fn clone(&self) -> (res: Self)
        ensures
            res == *self,
    {
        match self {
            PlatformAccount::VRChat(v) => PlatformAccount::VRChat(v.clone()),
            PlatformAccount::ChilloutVR(v) => PlatformAccount::ChilloutVR(v.clone()),
            PlatformAccount::Resonite(v) => PlatformAccount::Resonite(v.clone()),
        }
    }
}

/// Details of a platform account friend
#[derive(Debug, PartialEq, Eq)]
pub enum PlatformFriend {
    /// VRChat variant
    VRChat(PlatformDataAndMetadata<PlatformRecord, String>),
    /// ChilloutVR variant
    ChilloutVR(PlatformDataAndMetadata<PlatformRecord, String>),
    /// Resonite variant
    Resonite(PlatformDataAndMetadata<PlatformRecord, String>),
}

impl PlatformFriend {
    /// The record and its metadata, whatever the platform.
    pub open spec fn envelope(&self) -> PlatformDataAndMetadata<PlatformRecord, String> {
        match self {
            PlatformFriend::VRChat(v) => *v,
            PlatformFriend::ChilloutVR(v) => *v,
            PlatformFriend::Resonite(v) => *v,
        }
    }

    /// The platform of the variant.
    pub open spec fn spec_platform(&self) -> PlatformType {
        match self {
            PlatformFriend::VRChat(_) => PlatformType::VRChat,
            PlatformFriend::ChilloutVR(_) => PlatformType::ChilloutVR,
            PlatformFriend::Resonite(_) => PlatformType::Resonite,
        }
    }

    /// The id: the variant's platform and the id of the record.
    pub open spec fn spec_id(&self) -> PlatformIdView {
        PlatformIdView { platform: self.spec_platform(), id: self.envelope().data.id@ }
    }

    /// The metadata with the fetching account tagged by the variant's
    /// platform.
    pub open spec fn spec_metadata(&self) -> PlatformDataMetadataView {
        self.envelope().metadata.on(self.spec_platform())
    }

    /// The record of the given platform, wrapped.
    pub open spec fn spec_on(
        platform: PlatformType,
        envelope: PlatformDataAndMetadata<PlatformRecord, String>,
    ) -> Self {
        match platform {
            PlatformType::VRChat => PlatformFriend::VRChat(envelope),
            PlatformType::ChilloutVR => PlatformFriend::ChilloutVR(envelope),
            PlatformType::Resonite => PlatformFriend::Resonite(envelope),
        }
    }

    /// Wraps a record of the given platform.
    pub fn on(
        platform: PlatformType,
        envelope: PlatformDataAndMetadata<PlatformRecord, String>,
    ) -> (wrapped: Self)
        ensures
            wrapped == Self::spec_on(platform, envelope),
    {
        match platform {
            PlatformType::VRChat => PlatformFriend::VRChat(envelope),
            PlatformType::ChilloutVR => PlatformFriend::ChilloutVR(envelope),
            PlatformType::Resonite => PlatformFriend::Resonite(envelope),
        }
    }

    /// Gets the platform type
    pub fn platform(&self) -> (p: PlatformType)
        ensures
            p == self.spec_platform(),
    {
        match self {
            PlatformFriend::VRChat(_) => PlatformType::VRChat,
            PlatformFriend::ChilloutVR(_) => PlatformType::ChilloutVR,
            PlatformFriend::Resonite(_) => PlatformType::Resonite,
        }
    }

    /// Gets the ID
    pub fn id(&self) -> (id: PlatformAccountId)
        ensures
            id@ == self.spec_id(),
            id@.platform == self.spec_platform(),
    {
        match self {
            PlatformFriend::VRChat(v) => PlatformAccountId::VRChat(v.data.id.clone()),
            PlatformFriend::ChilloutVR(v) => PlatformAccountId::ChilloutVR(v.data.id.clone()),
            PlatformFriend::Resonite(v) => PlatformAccountId::Resonite(v.data.id.clone()),
        }
    }

    /// Copies the platform metadata into a more generic format
    pub fn metadata(&self) -> (general: PlatformDataMetadata<PlatformAccountId>)
        ensures
            general@ == self.spec_metadata(),
            general@.updated_by.platform == self.spec_platform(),
    {
        match self {
            PlatformFriend::VRChat(v) => v.metadata.generalize(PlatformType::VRChat),
            PlatformFriend::ChilloutVR(v) => v.metadata.generalize(PlatformType::ChilloutVR),
            PlatformFriend::Resonite(v) => v.metadata.generalize(PlatformType::Resonite),
        }
    }

    /// When the record was fetched.
    pub fn updated_at(&self) -> (at: i128)
        ensures
            at == self.envelope().metadata.updated_at,
    {
        match self {
            PlatformFriend::VRChat(v) => v.metadata.updated_at,
            PlatformFriend::ChilloutVR(v) => v.metadata.updated_at,
            PlatformFriend::Resonite(v) => v.metadata.updated_at,
        }
    }
}

impl Keyed for PlatformFriend {
    type Id = PlatformAccountId;

    open spec fn key(&self) -> PlatformIdView {
        self.spec_id()
    }

    fn id(&self) -> (id: PlatformAccountId) {
        PlatformFriend::id(self)
    }

    fn has_id(&self, id: &PlatformAccountId) -> (same: bool) {
        match (self, id) {
            (PlatformFriend::VRChat(v), PlatformAccountId::VRChat(i)) => v.data.id == *i,
            (PlatformFriend::ChilloutVR(v), PlatformAccountId::ChilloutVR(i)) => v.data.id == *i,
            (PlatformFriend::Resonite(v), PlatformAccountId::Resonite(i)) => v.data.id == *i,
            _ => false,
        }
    }
}

impl Clone for PlatformFriend {
    fn clone(&self) -> (res: Self)
        ensures
            res == *self,
    {
        match self {
            PlatformFriend::VRChat(v) => PlatformFriend::VRChat(v.clone()),
            PlatformFriend::ChilloutVR(v) => PlatformFriend::ChilloutVR(v.clone()),
            PlatformFriend::Resonite(v) => PlatformFriend::Resonite(v.clone()),
        }
    }
}

impl From<&PlatformAccount> for PlatformType {
    fn from(value: &PlatformAccount) -> (platform: PlatformType) {
        value.platform()
    }
}

impl FromSpecImpl<&PlatformAccount> for PlatformType {
    open spec fn obeys_from_spec() -> bool {
        true
    }

    open spec fn from_spec(value: &PlatformAccount) -> PlatformType {
        value.spec_platform()
    }
}

impl From<PlatformAccount> for PlatformType {
    fn from(value: PlatformAccount) -> (platform: PlatformType) {
        value.platform()
    }
}

impl FromSpecImpl<PlatformAccount> for PlatformType {
    open spec fn obeys_from_spec() -> bool {
        true
    }

    open spec fn from_spec(value: PlatformAccount) -> PlatformType {
        value.spec_platform()
    }
}

impl From<&PlatformFriend> for PlatformType {
    fn from(value: &PlatformFriend) -> (platform: PlatformType) {
        value.platform()
    }
}

impl FromSpecImpl<&PlatformFriend> for PlatformType {
    open spec fn obeys_from_spec() -> bool {
        true
    }

    open spec fn from_spec(value: &PlatformFriend) -> PlatformType {
        value.spec_platform()
    }
}

impl From<PlatformFriend> for PlatformType {
    fn from(value: PlatformFriend) -> (platform: PlatformType) {
        value.platform()
    }
}

impl FromSpecImpl<PlatformFriend> for PlatformType {
    open spec fn obeys_from_spec() -> bool {
        true
    }

    open spec fn from_spec(value: PlatformFriend) -> PlatformType {
        value.spec_platform()
    }
}

} // verus!
