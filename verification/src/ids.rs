//! Platform-tagged identifiers.
//!
//! An identifier is a platform tag together with the textual id that the
//! platform itself hands out. Two identifiers are the same exactly when both
//! parts agree, which is what the view captures.

use vstd::prelude::*;
use vstd::std_specs::convert::FromSpecImpl;
use vstd::std_specs::cmp::PartialEqSpecImpl;
use crate::platform::PlatformType;

verus! {

/// What an identifier stands for: the platform and the text of the id.
pub struct PlatformIdView {
    pub platform: PlatformType,
    pub id: Seq<char>,
}

/// The platform specific username/id/account.
#[derive(Debug, Eq, Hash)]
pub enum PlatformAccountId {
    /// VRChat variant of the ID
    VRChat(String),
    /// ChilloutVR variant of the ID
    ChilloutVR(String),
    /// Resonite variant of the ID
    Resonite(String),
}

impl View for PlatformAccountId {
    type V = PlatformIdView;

    open spec fn view(&self) -> PlatformIdView {
        match self {
            PlatformAccountId::VRChat(v) => PlatformIdView { platform: PlatformType::VRChat, id: v@ },
            PlatformAccountId::ChilloutVR(v) => PlatformIdView {
                platform: PlatformType::ChilloutVR,
                id: v@,
            },
            PlatformAccountId::Resonite(v) => PlatformIdView {
                platform: PlatformType::Resonite,
                id: v@,
            },
        }
    }
}

impl PlatformAccountId {
    /// Gets the platform type
    pub fn platform(&self) -> (p: PlatformType)
        ensures
            p == self@.platform,
    {
        match self {
            PlatformAccountId::VRChat(_) => PlatformType::VRChat,
            PlatformAccountId::ChilloutVR(_) => PlatformType::ChilloutVR,
            PlatformAccountId::Resonite(_) => PlatformType::Resonite,
        }
    }

    /// The platform's own id inside.
    pub open spec fn text(&self) -> String {
        match self {
            PlatformAccountId::VRChat(v) => *v,
            PlatformAccountId::ChilloutVR(v) => *v,
            PlatformAccountId::Resonite(v) => *v,
        }
    }

    /// Gets the string representation of the internal platform specific ID
    pub fn id_as_string(&self) -> (s: String)
        ensures
            s == self.text(),
            s@ == self@.id,
    {
        match self {
            PlatformAccountId::VRChat(v) => v.clone(),
            PlatformAccountId::ChilloutVR(v) => v.clone(),
            PlatformAccountId::Resonite(v) => v.clone(),
        }
    }

    /// The platform's own id text, tagged with that platform.
    pub open spec fn spec_on(platform: PlatformType, id: String) -> Self {
        match platform {
            PlatformType::VRChat => PlatformAccountId::VRChat(id),
            PlatformType::ChilloutVR => PlatformAccountId::ChilloutVR(id),
            PlatformType::Resonite => PlatformAccountId::Resonite(id),
        }
    }

    /// Tags a platform's own id text with that platform.
    pub fn on(platform: PlatformType, id: String) -> (tagged: Self)
        ensures
            tagged == Self::spec_on(platform, id),
            tagged@ == (PlatformIdView { platform, id: id@ }),
    {
        match platform {
            PlatformType::VRChat => PlatformAccountId::VRChat(id),
            PlatformType::ChilloutVR => PlatformAccountId::ChilloutVR(id),
            PlatformType::Resonite => PlatformAccountId::Resonite(id),
        }
    }
}

impl Clone for PlatformAccountId {
    fn clone(&self) -> (res: Self)
        ensures
            res == *self,
    {
        match self {
            PlatformAccountId::VRChat(v) => PlatformAccountId::VRChat(v.clone()),
            PlatformAccountId::ChilloutVR(v) => PlatformAccountId::ChilloutVR(v.clone()),
            PlatformAccountId::Resonite(v) => PlatformAccountId::Resonite(v.clone()),
        }
    }
}

impl PartialEq for PlatformAccountId {
    fn eq(&self, other: &Self) -> (r: bool) {
        match (self, other) {
            (PlatformAccountId::VRChat(a), PlatformAccountId::VRChat(b)) => *a == *b,
            (PlatformAccountId::ChilloutVR(a), PlatformAccountId::ChilloutVR(b)) => *a == *b,
            (PlatformAccountId::Resonite(a), PlatformAccountId::Resonite(b)) => *a == *b,
            _ => false,
        }
    }
}

impl PartialEqSpecImpl for PlatformAccountId {
    open spec fn obeys_eq_spec() -> bool {
        true
    }

    open spec fn eq_spec(&self, other: &Self) -> bool {
        self@ == other@
    }
}

impl From<&PlatformAccountId> for PlatformType {
    fn from(value: &PlatformAccountId) -> (platform: PlatformType) {
        value.platform()
    }
}

impl FromSpecImpl<&PlatformAccountId> for PlatformType {
    open spec fn obeys_from_spec() -> bool {
        true
    }

    open spec fn from_spec(value: &PlatformAccountId) -> PlatformType {
        value@.platform
    }
}

impl From<PlatformAccountId> for PlatformType {
    fn from(value: PlatformAccountId) -> (platform: PlatformType) {
        value.platform()
    }
}

impl FromSpecImpl<PlatformAccountId> for PlatformType {
    open spec fn obeys_from_spec() -> bool {
        true
    }

    open spec fn from_spec(value: PlatformAccountId) -> PlatformType {
        value@.platform
    }
}

} // verus!
