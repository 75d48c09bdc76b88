//! Profiles: the user's own grouping of the accounts of one person.

use vstd::prelude::*;
use crate::storage::Keyed;

verus! {

/// An ID of a profile
#[derive(Debug, Clone, Copy, PartialEq, Eq, Hash, Structural)]
pub struct ProfileId(pub u128);

impl View for ProfileId {
    type V = u128;

    open spec fn view(&self) -> u128 {
        self.0
    }
}

/// Whether the 128 bits are a UUID of version 4 in the standard variant: the
/// version field holds 4 and the variant field starts with the bits 1 and 0.
pub open spec fn is_version_4(bits: u128) -> bool {
    (bits >> 76) & 0xf == 4 && (bits >> 62) & 0x3 == 2
}

/// Draws a random UUID with `uuid::Uuid::new_v4` and gives its 128 bits as
/// `Uuid::as_u128` packs them. The bits are random but for the version and
/// the variant, which the crate sets to those of a version 4 UUID.
#[verifier::external_body]
fn random_uuid() -> (bits: u128)
    ensures
        is_version_4(bits),
{
    uuid::Uuid::new_v4().as_u128()
}

impl ProfileId {
    /// Creates a new profile ID: a random UUID of version 4.
    pub fn new() -> (id: Self)
        ensures
            is_version_4(id@),
    {
        ProfileId(random_uuid())
    }
}

/// A profile of "this is someone".
#[derive(Debug, PartialEq, Eq)]
pub struct Profile {
    /// Used for mapping/importing/exporting profiles
    pub sharing_id: ProfileId,
    /// Nickname of the peep
    pub nick: Option<String>,
    /// Notes about the peep
    pub notes: Option<String>,
    /// A custom profile picture about the peep
    pub pfp_url: Option<String>,
}

impl Profile {
    /// Creates a new profile with a fresh id and nothing else set.
    pub fn new() -> (profile: Self)
        ensures
            is_version_4(profile.sharing_id@),
            profile.nick is None,
            profile.notes is None,
            profile.pfp_url is None,
    {
        Profile { sharing_id: ProfileId::new(), nick: None, notes: None, pfp_url: None }
    }
}

impl Keyed for Profile {
    type Id = ProfileId;

    open spec fn key(&self) -> u128 {
        self.sharing_id@
    }

    fn id(&self) -> (id: ProfileId) {
        self.sharing_id
    }

    fn has_id(&self, id: &ProfileId) -> (same: bool) {
        self.sharing_id.0 == id.0
    }
}

fn clone_text(text: &Option<String>) -> (res: Option<String>)
    ensures
        res == *text,
{
    match text {
        Some(t) => Some(t.clone()),
        None => None,
    }
}

impl Clone for Profile {
    fn clone(&self) -> (res: Self)
        ensures
            res == *self,
    {
        Profile {
            sharing_id: self.sharing_id,
            nick: clone_text(&self.nick),
            notes: clone_text(&self.notes),
            pfp_url: clone_text(&self.pfp_url),
        }
    }
}

} // verus!
