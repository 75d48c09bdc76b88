//! Instances: the running worlds and sessions of a platform.

use vstd::prelude::*;
use vstd::std_specs::convert::FromSpecImpl;
use crate::ids::{PlatformAccountId, PlatformIdView};
use crate::metadata::{PlatformDataAndMetadata, PlatformDataMetadata, PlatformDataMetadataView};
use crate::platform::PlatformType;
use crate::record::PlatformRecord;
use crate::storage::Keyed;
use vstd::std_specs::cmp::PartialEqSpecImpl;

verus! {

/// The platform specific instance/session ID.
#[derive(Debug, Eq, Hash)]
pub enum InstanceId {
    /// VRChat variant of the ID
    VRChat(String),
    /// ChilloutVR variant of the ID
    ChilloutVR(String),
    /// Resonite variant of the ID
    Resonite(String),
}

impl View for InstanceId {
    type V = PlatformIdView;

    open spec fn view(&self) -> PlatformIdView {
        match self {
            InstanceId::VRChat(v) => PlatformIdView { platform: PlatformType::VRChat, id: v@ },
            InstanceId::ChilloutVR(v) => PlatformIdView {
                platform: PlatformType::ChilloutVR,
                id: v@,
            },
            InstanceId::Resonite(v) => PlatformIdView {
                platform: PlatformType::Resonite,
                id: v@,
            },
        }
    }
}

impl InstanceId {
    /// Gets the platform type
    pub fn platform(&self) -> (p: PlatformType)
        ensures
            p == self@.platform,
    {
        match self {
            InstanceId::VRChat(_) => PlatformType::VRChat,
            InstanceId::ChilloutVR(_) => PlatformType::ChilloutVR,
            InstanceId::Resonite(_) => PlatformType::Resonite,
        }
    }

    /// The platform's own id inside.
    pub open spec fn text(&self) -> String {
        match self {
            InstanceId::VRChat(v) => *v,
            InstanceId::ChilloutVR(v) => *v,
            InstanceId::Resonite(v) => *v,
        }
    }

    /// Gets the string representation of the internal platform specific ID
    pub fn id_as_string(&self) -> (s: String)
        ensures
            s == self.text(),
            s@ == self@.id,
    {
        match self {
            InstanceId::VRChat(v) => v.clone(),
            InstanceId::ChilloutVR(v) => v.clone(),
            InstanceId::Resonite(v) => v.clone(),
        }
    }

    /// The platform's own id text, tagged with that platform.
    pub open spec fn spec_on(platform: PlatformType, id: String) -> Self {
        match platform {
            PlatformType::VRChat => InstanceId::VRChat(id),
            PlatformType::ChilloutVR => InstanceId::ChilloutVR(id),
            PlatformType::Resonite => InstanceId::Resonite(id),
        }
    }

    /// Tags a platform's own id text with that platform.
    pub fn on(platform: PlatformType, id: String) -> (tagged: Self)
        ensures
            tagged == Self::spec_on(platform, id),
            tagged@ == (PlatformIdView { platform, id: id@ }),
    {
        match platform {
            PlatformType::VRChat => InstanceId::VRChat(id),
            PlatformType::ChilloutVR => InstanceId::ChilloutVR(id),
            PlatformType::Resonite => InstanceId::Resonite(id),
        }
    }
}

impl Clone for InstanceId {
    fn clone(&self) -> (res: Self)
        ensures
            res == *self,
    {
        match self {
            InstanceId::VRChat(v) => InstanceId::VRChat(v.clone()),
            InstanceId::ChilloutVR(v) => InstanceId::ChilloutVR(v.clone()),
            InstanceId::Resonite(v) => InstanceId::Resonite(v.clone()),
        }
    }
}

impl PartialEq for InstanceId {
    fn eq(&self, other: &Self) -> (r: bool) {
        match (self, other) {
            (InstanceId::VRChat(a), InstanceId::VRChat(b)) => *a == *b,
            (InstanceId::ChilloutVR(a), InstanceId::ChilloutVR(b)) => *a == *b,
            (InstanceId::Resonite(a), InstanceId::Resonite(b)) => *a == *b,
            _ => false,
        }
    }
}

impl PartialEqSpecImpl for InstanceId {
    open spec fn obeys_eq_spec() -> bool {
        true
    }

    open spec fn eq_spec(&self, other: &Self) -> bool {
        self@ == other@
    }
}

/// The platform specific instance/session.
#[derive(Debug, PartialEq, Eq)]
pub enum Instance {
    /// VRChat variant
    VRChat(PlatformDataAndMetadata<PlatformRecord, String>),
    /// ChilloutVR variant
    ChilloutVR(PlatformDataAndMetadata<PlatformRecord, String>),
    /// Resonite variant
    Resonite(PlatformDataAndMetadata<PlatformRecord, String>),
}

impl Instance {
    /// The record and its metadata, whatever the platform.
    pub open spec fn envelope(&self) -> PlatformDataAndMetadata<PlatformRecord, String> {
        match self {
            Instance::VRChat(v) => *v,
            Instance::ChilloutVR(v) => *v,
            Instance::Resonite(v) => *v,
        }
    }

    /// The platform of the variant.
    pub open spec fn spec_platform(&self) -> PlatformType {
        match self {
            Instance::VRChat(_) => PlatformType::VRChat,
            Instance::ChilloutVR(_) => PlatformType::ChilloutVR,
            Instance::Resonite(_) => PlatformType::Resonite,
        }
    }

    /// The id: the variant's platform and the id of the record.
    pub open spec fn spec_id(&self) -> PlatformIdView {
        PlatformIdView { platform: self.spec_platform(), id: self.envelope().data.id@ }
    }

    /// The metadata with the fetching account tagged by the variant's
    /// platform.
    pub open spec fn spec_metadata(&self) -> PlatformDataMetadataView {
        self.envelope().metadata.on(self.spec_platform())
    }

    /// The record of the given platform, wrapped.
    pub open spec fn spec_on(
        platform: PlatformType,
        envelope: PlatformDataAndMetadata<PlatformRecord, String>,
    ) -> Self {
        match platform {
            PlatformType::VRChat => Instance::VRChat(envelope),
            PlatformType::ChilloutVR => Instance::ChilloutVR(envelope),
            PlatformType::Resonite => Instance::Resonite(envelope),
        }
    }

    /// Wraps a record of the given platform.
    pub fn on(
        platform: PlatformType,
        envelope: PlatformDataAndMetadata<PlatformRecord, String>,
    ) -> (wrapped: Self)
        ensures
            wrapped == Self::spec_on(platform, envelope),
    {
        match platform {
            PlatformType::VRChat => Instance::VRChat(envelope),
            PlatformType::ChilloutVR => Instance::ChilloutVR(envelope),
            PlatformType::Resonite => Instance::Resonite(envelope),
        }
    }

    /// Gets the platform type
    pub fn platform(&self) -> (p: PlatformType)
        ensures
            p == self.spec_platform(),
    {
        match self {
            Instance::VRChat(_) => PlatformType::VRChat,
            Instance::ChilloutVR(_) => PlatformType::ChilloutVR,
            Instance::Resonite(_) => PlatformType::Resonite,
        }
    }

    /// Gets the ID
    pub fn id(&self) -> (id: InstanceId)
        ensures
            id@ == self.spec_id(),
            id@.platform == self.spec_platform(),
    {
        match self {
            Instance::VRChat(v) => InstanceId::VRChat(v.data.id.clone()),
            Instance::ChilloutVR(v) => InstanceId::ChilloutVR(v.data.id.clone()),
            Instance::Resonite(v) => InstanceId::Resonite(v.data.id.clone()),
        }
    }

    /// Copies the platform metadata into a more generic format
    pub fn metadata(&self) -> (general: PlatformDataMetadata<PlatformAccountId>)
        ensures
            general@ == self.spec_metadata(),
            general@.updated_by.platform == self.spec_platform(),
    {
        match self {
            Instance::VRChat(v) => v.metadata.generalize(PlatformType::VRChat),
            Instance::ChilloutVR(v) => v.metadata.generalize(PlatformType::ChilloutVR),
            Instance::Resonite(v) => v.metadata.generalize(PlatformType::Resonite),
        }
    }

    /// When the record was fetched.
    pub fn updated_at(&self) -> (at: i128)
        ensures
            at == self.envelope().metadata.updated_at,
    {
        match self {
            Instance::VRChat(v) => v.metadata.updated_at,
            Instance::ChilloutVR(v) => v.metadata.updated_at,
            Instance::Resonite(v) => v.metadata.updated_at,
        }
    }
}

impl Keyed for Instance {
    type Id = InstanceId;

    open spec fn key(&self) -> PlatformIdView {
        self.spec_id()
    }

    fn id(&self) -> (id: InstanceId) {
        Instance::id(self)
    }

    fn has_id(&self, id: &InstanceId) -> (same: bool) {
        match (self, id) {
            (Instance::VRChat(v), InstanceId::VRChat(i)) => v.data.id == *i,
            (Instance::ChilloutVR(v), InstanceId::ChilloutVR(i)) => v.data.id == *i,
            (Instance::Resonite(v), InstanceId::Resonite(i)) => v.data.id == *i,
            _ => false,
        }
    }
}

impl Clone for Instance {
    fn clone(&self) -> (res: Self)
        ensures
            res == *self,
    {
        match self {
            Instance::VRChat(v) => Instance::VRChat(v.clone()),
            Instance::ChilloutVR(v) => Instance::ChilloutVR(v.clone()),
            Instance::Resonite(v) => Instance::Resonite(v.clone()),
        }
    }
}

impl From<&InstanceId> for PlatformType {
    fn from(value: &InstanceId) -> (platform: PlatformType) {
        value.platform()
    }
}

impl FromSpecImpl<&InstanceId> for PlatformType {
    open spec fn obeys_from_spec() -> bool {
        true
    }

    open spec fn from_spec(value: &InstanceId) -> PlatformType {
        value@.platform
    }
}

impl From<InstanceId> for PlatformType {
    fn from(value: InstanceId) -> (platform: PlatformType) {
        value.platform()
    }
}

impl FromSpecImpl<InstanceId> for PlatformType {
    open spec fn obeys_from_spec() -> bool {
        true
    }

    open spec fn from_spec(value: InstanceId) -> PlatformType {
        value@.platform
    }
}

impl From<&Instance> for PlatformType {
    fn from(value: &Instance) -> (platform: PlatformType) {
        value.platform()
    }
}

impl FromSpecImpl<&Instance> for PlatformType {
    open spec fn obeys_from_spec() -> bool {
        true
    }

    open spec fn from_spec(value: &Instance) -> PlatformType {
        value.spec_platform()
    }
}

impl From<Instance> for PlatformType {
    fn from(value: Instance) -> (platform: PlatformType) {
        value.platform()
    }
}

impl FromSpecImpl<Instance> for PlatformType {
    open spec fn obeys_from_spec() -> bool {
        true
    }

    open spec fn from_spec(value: Instance) -> PlatformType {
        value.spec_platform()
    }
}

} // verus!
