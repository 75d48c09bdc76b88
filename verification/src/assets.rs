//! Worlds and avatars.

use vstd::prelude::*;
use vstd::std_specs::convert::FromSpecImpl;
use crate::ids::{PlatformAccountId, PlatformIdView};
use crate::metadata::{PlatformDataAndMetadata, PlatformDataMetadata, PlatformDataMetadataView};
use crate::platform::PlatformType;
use crate::record::PlatformRecord;
use crate::storage::Keyed;
use vstd::std_specs::cmp::PartialEqSpecImpl;

verus! {

/// The platform specific world ID.
#[derive(Debug, Eq, Hash)]
pub enum WorldId {
    /// VRChat variant of the ID
    VRChat(String),
    /// ChilloutVR variant of the ID
    ChilloutVR(String),
    /// Resonite variant of the ID
    Resonite(String),
}

impl View for WorldId {
    type V = PlatformIdView;

    open spec fn view(&self) -> PlatformIdView {
        match self {
            WorldId::VRChat(v) => PlatformIdView { platform: PlatformType::VRChat, id: v@ },
            WorldId::ChilloutVR(v) => PlatformIdView {
                platform: PlatformType::ChilloutVR,
                id: v@,
            },
            WorldId::Resonite(v) => PlatformIdView {
                platform: PlatformType::Resonite,
                id: v@,
            },
        }
    }
}

impl WorldId {
    /// Gets the platform type
    pub fn platform(&self) -> (p: PlatformType)
        ensures
            p == self@.platform,
    {
        match self {
            WorldId::VRChat(_) => PlatformType::VRChat,
            WorldId::ChilloutVR(_) => PlatformType::ChilloutVR,
            WorldId::Resonite(_) => PlatformType::Resonite,
        }
    }

    /// The platform's own id inside.
    pub open spec fn text(&self) -> String {
        match self {
            WorldId::VRChat(v) => *v,
            WorldId::ChilloutVR(v) => *v,
            WorldId::Resonite(v) => *v,
        }
    }

    /// Gets the string representation of the internal platform specific ID
    pub fn id_as_string(&self) -> (s: String)
        ensures
            s == self.text(),
            s@ == self@.id,
    {
        match self {
            WorldId::VRChat(v) => v.clone(),
            WorldId::ChilloutVR(v) => v.clone(),
            WorldId::Resonite(v) => v.clone(),
        }
    }

    /// The platform's own id text, tagged with that platform.
    pub open spec fn spec_on(platform: PlatformType, id: String) -> Self {
        match platform {
            PlatformType::VRChat => WorldId::VRChat(id),
            PlatformType::ChilloutVR => WorldId::ChilloutVR(id),
            PlatformType::Resonite => WorldId::Resonite(id),
        }
    }

    /// Tags a platform's own id text with that platform.
    pub fn on(platform: PlatformType, id: String) -> (tagged: Self)
        ensures
            tagged == Self::spec_on(platform, id),
            tagged@ == (PlatformIdView { platform, id: id@ }),
    {
        match platform {
            PlatformType::VRChat => WorldId::VRChat(id),
            PlatformType::ChilloutVR => WorldId::ChilloutVR(id),
            PlatformType::Resonite => WorldId::Resonite(id),
        }
    }
}

impl Clone for WorldId {
    fn clone(&self) -> (res: Self)
        ensures
            res == *self,
    {
        match self {
            WorldId::VRChat(v) => WorldId::VRChat(v.clone()),
            WorldId::ChilloutVR(v) => WorldId::ChilloutVR(v.clone()),
            WorldId::Resonite(v) => WorldId::Resonite(v.clone()),
        }
    }
}

impl PartialEq for WorldId {
    fn eq(&self, other: &Self) -> (r: bool) {
        match (self, other) {
            (WorldId::VRChat(a), WorldId::VRChat(b)) => *a == *b,
            (WorldId::ChilloutVR(a), WorldId::ChilloutVR(b)) => *a == *b,
            (WorldId::Resonite(a), WorldId::Resonite(b)) => *a == *b,
            _ => false,
        }
    }
}

impl PartialEqSpecImpl for WorldId {
    open spec fn obeys_eq_spec() -> bool {
        true
    }

    open spec fn eq_spec(&self, other: &Self) -> bool {
        self@ == other@
    }
}

/// The platform specific world.
#[derive(Debug, PartialEq, Eq)]
pub enum World {
    /// VRChat variant
    VRChat(PlatformDataAndMetadata<PlatformRecord, String>),
    /// ChilloutVR variant
    ChilloutVR(PlatformDataAndMetadata<PlatformRecord, String>),
    /// Resonite variant
    Resonite(PlatformDataAndMetadata<PlatformRecord, String>),
}

impl World {
    /// The record and its metadata, whatever the platform.
    pub open spec fn envelope(&self) -> PlatformDataAndMetadata<PlatformRecord, String> {
        match self {
            World::VRChat(v) => *v,
            World::ChilloutVR(v) => *v,
            World::Resonite(v) => *v,
        }
    }

    /// The platform of the variant.
    pub open spec fn spec_platform(&self) -> PlatformType {
        match self {
            World::VRChat(_) => PlatformType::VRChat,
            World::ChilloutVR(_) => PlatformType::ChilloutVR,
            World::Resonite(_) => PlatformType::Resonite,
        }
    }

    /// The id: the variant's platform and the id of the record.
    pub open spec fn spec_id(&self) -> PlatformIdView {
        PlatformIdView { platform: self.spec_platform(), id: self.envelope().data.id@ }
    }

    /// The metadata with the fetching account tagged by the variant's
    /// platform.
    pub open spec fn spec_metadata(&self) -> PlatformDataMetadataView {
        self.envelope().metadata.on(self.spec_platform())
    }

    /// The record of the given platform, wrapped.
    pub open spec fn spec_on(
        platform: PlatformType,
        envelope: PlatformDataAndMetadata<PlatformRecord, String>,
    ) -> Self {
        match platform {
            PlatformType::VRChat => World::VRChat(envelope),
            PlatformType::ChilloutVR => World::ChilloutVR(envelope),
            PlatformType::Resonite => World::Resonite(envelope),
        }
    }

    /// Wraps a record of the given platform.
    pub fn on(
        platform: PlatformType,
        envelope: PlatformDataAndMetadata<PlatformRecord, String>,
    ) -> (wrapped: Self)
        ensures
            wrapped == Self::spec_on(platform, envelope),
    {
        match platform {
            PlatformType::VRChat => World::VRChat(envelope),
            PlatformType::ChilloutVR => World::ChilloutVR(envelope),
            PlatformType::Resonite => World::Resonite(envelope),
        }
    }

    /// Gets the platform type
    pub fn platform(&self) -> (p: PlatformType)
        ensures
            p == self.spec_platform(),
    {
        match self {
            World::VRChat(_) => PlatformType::VRChat,
            World::ChilloutVR(_) => PlatformType::ChilloutVR,
            World::Resonite(_) => PlatformType::Resonite,
        }
    }

    /// Gets the ID
    pub fn id(&self) -> (id: WorldId)
        ensures
            id@ == self.spec_id(),
            id@.platform == self.spec_platform(),
    {
        match self {
            World::VRChat(v) => WorldId::VRChat(v.data.id.clone()),
            World::ChilloutVR(v) => WorldId::ChilloutVR(v.data.id.clone()),
            World::Resonite(v) => WorldId::Resonite(v.data.id.clone()),
        }
    }

    /// Copies the platform metadata into a more generic format
    pub fn metadata(&self) -> (general: PlatformDataMetadata<PlatformAccountId>)
        ensures
            general@ == self.spec_metadata(),
            general@.updated_by.platform == self.spec_platform(),
    {
        match self {
            World::VRChat(v) => v.metadata.generalize(PlatformType::VRChat),
            World::ChilloutVR(v) => v.metadata.generalize(PlatformType::ChilloutVR),
            World::Resonite(v) => v.metadata.generalize(PlatformType::Resonite),
        }
    }

    /// When the record was fetched.
    pub fn updated_at(&self) -> (at: i128)
        ensures
            at == self.envelope().metadata.updated_at,
    {
        match self {
            World::VRChat(v) => v.metadata.updated_at,
            World::ChilloutVR(v) => v.metadata.updated_at,
            World::Resonite(v) => v.metadata.updated_at,
        }
    }
}

impl Keyed for World {
    type Id = WorldId;

    open spec fn key(&self) -> PlatformIdView {
        self.spec_id()
    }

    fn id(&self) -> (id: WorldId) {
        World::id(self)
    }

    fn has_id(&self, id: &WorldId) -> (same: bool) {
        match (self, id) {
            (World::VRChat(v), WorldId::VRChat(i)) => v.data.id == *i,
            (World::ChilloutVR(v), WorldId::ChilloutVR(i)) => v.data.id == *i,
            (World::Resonite(v), WorldId::Resonite(i)) => v.data.id == *i,
            _ => false,
        }
    }
}

impl Clone for World {
    fn clone(&self) -> (res: Self)
        ensures
            res == *self,
    {
        match self {
            World::VRChat(v) => World::VRChat(v.clone()),
            World::ChilloutVR(v) => World::ChilloutVR(v.clone()),
            World::Resonite(v) => World::Resonite(v.clone()),
        }
    }
}

/// The platform specific avatar ID.
#[derive(Debug, Eq, Hash)]
pub enum AvatarId {
    /// VRChat variant of the ID
    VRChat(String),
    /// ChilloutVR variant of the ID
    ChilloutVR(String),
    /// Resonite variant of the ID
    Resonite(String),
}

impl View for AvatarId {
    type V = PlatformIdView;

    open spec fn view(&self) -> PlatformIdView {
        match self {
            AvatarId::VRChat(v) => PlatformIdView { platform: PlatformType::VRChat, id: v@ },
            AvatarId::ChilloutVR(v) => PlatformIdView {
                platform: PlatformType::ChilloutVR,
                id: v@,
            },
            AvatarId::Resonite(v) => PlatformIdView {
                platform: PlatformType::Resonite,
                id: v@,
            },
        }
    }
}

impl AvatarId {
    /// Gets the platform type
    pub fn platform(&self) -> (p: PlatformType)
        ensures
            p == self@.platform,
    {
        match self {
            AvatarId::VRChat(_) => PlatformType::VRChat,
            AvatarId::ChilloutVR(_) => PlatformType::ChilloutVR,
            AvatarId::Resonite(_) => PlatformType::Resonite,
        }
    }

    /// The platform's own id inside.
    pub open spec fn text(&self) -> String {
        match self {
            AvatarId::VRChat(v) => *v,
            AvatarId::ChilloutVR(v) => *v,
            AvatarId::Resonite(v) => *v,
        }
    }

    /// Gets the string representation of the internal platform specific ID
    pub fn id_as_string(&self) -> (s: String)
        ensures
            s == self.text(),
            s@ == self@.id,
    {
        match self {
            AvatarId::VRChat(v) => v.clone(),
            AvatarId::ChilloutVR(v) => v.clone(),
            AvatarId::Resonite(v) => v.clone(),
        }
    }

    /// The platform's own id text, tagged with that platform.
    pub open spec fn spec_on(platform: PlatformType, id: String) -> Self {
        match platform {
            PlatformType::VRChat => AvatarId::VRChat(id),
            PlatformType::ChilloutVR => AvatarId::ChilloutVR(id),
            PlatformType::Resonite => AvatarId::Resonite(id),
        }
    }

    /// Tags a platform's own id text with that platform.
    pub fn on(platform: PlatformType, id: String) -> (tagged: Self)
        ensures
            tagged == Self::spec_on(platform, id),
            tagged@ == (PlatformIdView { platform, id: id@ }),
    {
        match platform {
            PlatformType::VRChat => AvatarId::VRChat(id),
            PlatformType::ChilloutVR => AvatarId::ChilloutVR(id),
            PlatformType::Resonite => AvatarId::Resonite(id),
        }
    }
}

impl Clone for AvatarId {
    fn clone(&self) -> (res: Self)
        ensures
            res == *self,
    {
        match self {
            AvatarId::VRChat(v) => AvatarId::VRChat(v.clone()),
            AvatarId::ChilloutVR(v) => AvatarId::ChilloutVR(v.clone()),
            AvatarId::Resonite(v) => AvatarId::Resonite(v.clone()),
        }
    }
}

impl PartialEq for AvatarId {
    fn eq(&self, other: &Self) -> (r: bool) {
        match (self, other) {
            (AvatarId::VRChat(a), AvatarId::VRChat(b)) => *a == *b,
            (AvatarId::ChilloutVR(a), AvatarId::ChilloutVR(b)) => *a == *b,
            (AvatarId::Resonite(a), AvatarId::Resonite(b)) => *a == *b,
            _ => false,
        }
    }
}

impl PartialEqSpecImpl for AvatarId {
    open spec fn obeys_eq_spec() -> bool {
        true
    }

    open spec fn eq_spec(&self, other: &Self) -> bool {
        self@ == other@
    }
}

/// The platform specific avatar.
#[derive(Debug, PartialEq, Eq)]
pub enum Avatar {
    /// VRChat variant
    VRChat(PlatformDataAndMetadata<PlatformRecord, String>),
    /// ChilloutVR variant
    ChilloutVR(PlatformDataAndMetadata<PlatformRecord, String>),
    /// Resonite variant
    Resonite(PlatformDataAndMetadata<PlatformRecord, String>),
}

impl Avatar {
    /// The record and its metadata, whatever the platform.
    pub open spec fn envelope(&self) -> PlatformDataAndMetadata<PlatformRecord, String> {
        match self {
            Avatar::VRChat(v) => *v,
            Avatar::ChilloutVR(v) => *v,
            Avatar::Resonite(v) => *v,
        }
    }

    /// The platform of the variant.
    pub open spec fn spec_platform(&self) -> PlatformType {
        match self {
            Avatar::VRChat(_) => PlatformType::VRChat,
            Avatar::ChilloutVR(_) => PlatformType::ChilloutVR,
            Avatar::Resonite(_) => PlatformType::Resonite,
        }
    }

    /// The id: the variant's platform and the id of the record.
    pub open spec fn spec_id(&self) -> PlatformIdView {
        PlatformIdView { platform: self.spec_platform(), id: self.envelope().data.id@ }
    }

    /// The metadata with the fetching account tagged by the variant's
    /// platform.
    pub open spec fn spec_metadata(&self) -> PlatformDataMetadataView {
        self.envelope().metadata.on(self.spec_platform())
    }

    /// The record of the given platform, wrapped.
    pub open spec fn spec_on(
        platform: PlatformType,
        envelope: PlatformDataAndMetadata<PlatformRecord, String>,
    ) -> Self {
        match platform {
            PlatformType::VRChat => Avatar::VRChat(envelope),
            PlatformType::ChilloutVR => Avatar::ChilloutVR(envelope),
            PlatformType::Resonite => Avatar::Resonite(envelope),
        }
    }

    /// Wraps a record of the given platform.
    pub fn on(
        platform: PlatformType,
        envelope: PlatformDataAndMetadata<PlatformRecord, String>,
    ) -> (wrapped: Self)
        ensures
            wrapped == Self::spec_on(platform, envelope),
    {
        match platform {
            PlatformType::VRChat => Avatar::VRChat(envelope),
            PlatformType::ChilloutVR => Avatar::ChilloutVR(envelope),
            PlatformType::Resonite => Avatar::Resonite(envelope),
        }
    }

    /// Gets the platform type
    pub fn platform(&self) -> (p: PlatformType)
        ensures
            p == self.spec_platform(),
    {
        match self {
            Avatar::VRChat(_) => PlatformType::VRChat,
            Avatar::ChilloutVR(_) => PlatformType::ChilloutVR,
            Avatar::Resonite(_) => PlatformType::Resonite,
        }
    }

    /// Gets the ID
    pub fn id(&self) -> (id: AvatarId)
        ensures
            id@ == self.spec_id(),
            id@.platform == self.spec_platform(),
    {
        match self {
            Avatar::VRChat(v) => AvatarId::VRChat(v.data.id.clone()),
            Avatar::ChilloutVR(v) => AvatarId::ChilloutVR(v.data.id.clone()),
            Avatar::Resonite(v) => AvatarId::Resonite(v.data.id.clone()),
        }
    }

    /// Copies the platform metadata into a more generic format
    pub fn metadata(&self) -> (general: PlatformDataMetadata<PlatformAccountId>)
        ensures
            general@ == self.spec_metadata(),
            general@.updated_by.platform == self.spec_platform(),
    {
        match self {
            Avatar::VRChat(v) => v.metadata.generalize(PlatformType::VRChat),
            Avatar::ChilloutVR(v) => v.metadata.generalize(PlatformType::ChilloutVR),
            Avatar::Resonite(v) => v.metadata.generalize(PlatformType::Resonite),
        }
    }

    /// When the record was fetched.
    pub fn updated_at(&self) -> (at: i128)
        ensures
            at == self.envelope().metadata.updated_at,
    {
        match self {
            Avatar::VRChat(v) => v.metadata.updated_at,
            Avatar::ChilloutVR(v) => v.metadata.updated_at,
            Avatar::Resonite(v) => v.metadata.updated_at,
        }
    }
}

impl Keyed for Avatar {
    type Id = AvatarId;

    open spec fn key(&self) -> PlatformIdView {
        self.spec_id()
    }

    fn id(&self) -> (id: AvatarId) {
        Avatar::id(self)
    }

    fn has_id(&self, id: &AvatarId) -> (same: bool) {
        match (self, id) {
            (Avatar::VRChat(v), AvatarId::VRChat(i)) => v.data.id == *i,
            (Avatar::ChilloutVR(v), AvatarId::ChilloutVR(i)) => v.data.id == *i,
            (Avatar::Resonite(v), AvatarId::Resonite(i)) => v.data.id == *i,
            _ => false,
        }
    }
}

impl Clone for Avatar {
    fn clone(&self) -> (res: Self)
        ensures
            res == *self,
    {
        match self {
            Avatar::VRChat(v) => Avatar::VRChat(v.clone()),
            Avatar::ChilloutVR(v) => Avatar::ChilloutVR(v.clone()),
            Avatar::Resonite(v) => Avatar::Resonite(v.clone()),
        }
    }
}

impl From<&WorldId> for PlatformType {
    fn from(value: &WorldId) -> (platform: PlatformType) {
        value.platform()
    }
}

impl FromSpecImpl<&WorldId> for PlatformType {
    open spec fn obeys_from_spec() -> bool {
        true
    }

    open spec fn from_spec(value: &WorldId) -> PlatformType {
        value@.platform
    }
}

impl From<WorldId> for PlatformType {
    fn from(value: WorldId) -> (platform: PlatformType) {
        value.platform()
    }
}

impl FromSpecImpl<WorldId> for PlatformType {
    open spec fn obeys_from_spec() -> bool {
        true
    }

    open spec fn from_spec(value: WorldId) -> PlatformType {
        value@.platform
    }
}

impl From<&World> for PlatformType {
    fn from(value: &World) -> (platform: PlatformType) {
        value.platform()
    }
}

impl FromSpecImpl<&World> for PlatformType {
    open spec fn obeys_from_spec() -> bool {
        true
    }

    open spec fn from_spec(value: &World) -> PlatformType {
        value.spec_platform()
    }
}

impl From<World> for PlatformType {
    fn from(value: World) -> (platform: PlatformType) {
        value.platform()
    }
}

impl FromSpecImpl<World> for PlatformType {
    open spec fn obeys_from_spec() -> bool {
        true
    }

    open spec fn from_spec(value: World) -> PlatformType {
        value.spec_platform()
    }
}

impl From<&AvatarId> for PlatformType {
    fn from(value: &AvatarId) -> (platform: PlatformType) {
        value.platform()
    }
}

impl FromSpecImpl<&AvatarId> for PlatformType {
    open spec fn obeys_from_spec() -> bool {
        true
    }

    open spec fn from_spec(value: &AvatarId) -> PlatformType {
        value@.platform
    }
}

impl From<AvatarId> for PlatformType {
    fn from(value: AvatarId) -> (platform: PlatformType) {
        value.platform()
    }
}

impl FromSpecImpl<AvatarId> for PlatformType {
    open spec fn obeys_from_spec() -> bool {
        true
    }

    open spec fn from_spec(value: AvatarId) -> PlatformType {
        value@.platform
    }
}

impl From<&Avatar> for PlatformType {
    fn from(value: &Avatar) -> (platform: PlatformType) {
        value.platform()
    }
}

impl FromSpecImpl<&Avatar> for PlatformType {
    open spec fn obeys_from_spec() -> bool {
        true
    }

    open spec fn from_spec(value: &Avatar) -> PlatformType {
        value.spec_platform()
    }
}

impl From<Avatar> for PlatformType {
    fn from(value: Avatar) -> (platform: PlatformType) {
        value.platform()
    }
}

impl FromSpecImpl<Avatar> for PlatformType {
    open spec fn obeys_from_spec() -> bool {
        true
    }

    open spec fn from_spec(value: Avatar) -> PlatformType {
        value.spec_platform()
    }
}

} // verus!
