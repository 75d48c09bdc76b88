//! The platforms that the core knows, and the fixed order they are walked in.

use vstd::prelude::*;

verus! {

/// The type of the platform/service/game.
#[derive(Debug, Clone, Copy, PartialEq, Eq, Hash, Structural)]
pub enum PlatformType {
    /// It's VRC
    VRChat,
    /// It's CVR
    ChilloutVR,
    /// It's Resonite
    Resonite,
}

/// Every platform, each exactly once, in declaration order.
pub open spec fn all_platforms() -> Seq<PlatformType> {
    seq![PlatformType::VRChat, PlatformType::ChilloutVR, PlatformType::Resonite]
}

/// Gets all the platforms.
pub fn platforms() -> (all: Vec<PlatformType>)
    ensures
        all@ == all_platforms(),
{
    let mut all: Vec<PlatformType> = Vec::new();
    all.push(PlatformType::VRChat);
    all.push(PlatformType::ChilloutVR);
    all.push(PlatformType::Resonite);
    assert(all@ =~= all_platforms());
    all
}

/// The enumeration misses no platform and repeats none.
pub proof fn platforms_are_complete(p: PlatformType)
    ensures
        all_platforms().contains(p),
        all_platforms().no_duplicates(),
{
    let s = all_platforms();
    assert(s[0] == PlatformType::VRChat);
    assert(s[1] == PlatformType::ChilloutVR);
    assert(s[2] == PlatformType::Resonite);
}

} // verus!
