use onlivfe::accounts::{PlatformAccount, PlatformFriend};
use onlivfe::assets::{Avatar, AvatarId, World, WorldId};
use onlivfe::auth::Authentication;
use onlivfe::cvr::SavedLoginCredentials;
use onlivfe::ids::PlatformAccountId;
use onlivfe::instances::{Instance, InstanceId};
use onlivfe::metadata::{PlatformDataAndMetadata, PlatformDataMetadata};
use onlivfe::platform::PlatformType;
use onlivfe::profile::{Profile, ProfileId};
use onlivfe::record::PlatformRecord;
use onlivfe::storage::Keyed;

fn envelope(id: &str, by: &str, at: i128) -> PlatformDataAndMetadata<PlatformRecord, String> {
    PlatformDataAndMetadata::new_at(
        PlatformRecord { id: id.to_owned(), document: "{}".to_owned() },
        by.to_owned(),
        at,
    )
}

#[test]
fn account_id_knows_its_platform_and_text() {
    let id = PlatformAccountId::VRChat("usr_alice".to_owned());
    assert_eq!(id.platform(), PlatformType::VRChat);
    assert_eq!(id.id_as_string(), "usr_alice");
    let id = PlatformAccountId::ChilloutVR("c-1".to_owned());
    assert_eq!(id.platform(), PlatformType::ChilloutVR);
    assert_eq!(id.id_as_string(), "c-1");
    let id = PlatformAccountId::Resonite("U-bob".to_owned());
    assert_eq!(id.platform(), PlatformType::Resonite);
    assert_eq!(id.id_as_string(), "U-bob");
}

#[test]
fn ids_are_equal_when_platform_and_text_agree() {
    let a = PlatformAccountId::VRChat("same".to_owned());
    assert_eq!(a, PlatformAccountId::VRChat("same".to_owned()));
    assert_ne!(a, PlatformAccountId::VRChat("other".to_owned()));
    assert_ne!(a, PlatformAccountId::ChilloutVR("same".to_owned()));
    assert_eq!(a.clone(), a);
    assert_eq!(PlatformAccountId::on(PlatformType::Resonite, "U-1".to_owned()),
        PlatformAccountId::Resonite("U-1".to_owned()));
}

#[test]
fn other_id_kinds_know_their_platform_and_text() {
    let i = InstanceId::ChilloutVR("i+1".to_owned());
    assert_eq!(i.platform(), PlatformType::ChilloutVR);
    assert_eq!(i.id_as_string(), "i+1");
    assert_ne!(i, InstanceId::VRChat("i+1".to_owned()));
    let w = WorldId::VRChat("wrld_1".to_owned());
    assert_eq!(w.platform(), PlatformType::VRChat);
    assert_eq!(w.id_as_string(), "wrld_1");
    let a = AvatarId::Resonite("R-1".to_owned());
    assert_eq!(a.platform(), PlatformType::Resonite);
    assert_eq!(a.id_as_string(), "R-1");
    assert_eq!(a.clone(), a);
}

#[test]
fn every_entity_id_is_of_the_entity_platform() {
    for platform in [PlatformType::VRChat, PlatformType::ChilloutVR, PlatformType::Resonite] {
        let account = PlatformAccount::on(platform, envelope("a", "me", 1));
        assert_eq!(account.id().platform(), account.platform());
        assert_eq!(account.platform(), platform);
        let friend = PlatformFriend::on(platform, envelope("f", "me", 1));
        assert_eq!(friend.id().platform(), friend.platform());
        let instance = Instance::on(platform, envelope("i", "me", 1));
        assert_eq!(instance.id().platform(), instance.platform());
        let world = World::on(platform, envelope("w", "me", 1));
        assert_eq!(world.id().platform(), world.platform());
        let avatar = Avatar::on(platform, envelope("v", "me", 1));
        assert_eq!(avatar.id().platform(), avatar.platform());
    }
}

#[test]
fn entity_exposes_id_and_generalized_metadata() {
    let friend = PlatformFriend::ChilloutVR(envelope("friend-1", "me-1", 77));
    assert_eq!(friend.id(), PlatformAccountId::ChilloutVR("friend-1".to_owned()));
    assert_eq!(
        friend.metadata(),
        PlatformDataMetadata {
            updated_at: 77,
            updated_by: PlatformAccountId::ChilloutVR("me-1".to_owned()),
        }
    );
    assert_eq!(friend.updated_at(), 77);
    assert!(friend.has_id(&PlatformAccountId::ChilloutVR("friend-1".to_owned())));
    assert!(!friend.has_id(&PlatformAccountId::VRChat("friend-1".to_owned())));
    assert!(!friend.has_id(&PlatformAccountId::ChilloutVR("friend-2".to_owned())));
    assert_eq!(friend.clone(), friend);
}

#[test]
fn authentication_id_follows_the_platform_rule() {
    let vrc = Authentication::VRChat(PlatformDataAndMetadata::new_at(
        onlivfe::vrchat::Authentication { token: "t".to_owned(), second_factor_token: None },
        "usr_alice".to_owned(),
        5,
    ));
    assert_eq!(vrc.id(), PlatformAccountId::VRChat("usr_alice".to_owned()));
    assert_eq!(vrc.id().platform(), vrc.platform());
    let cvr = Authentication::ChilloutVR(PlatformDataAndMetadata::new_at(
        SavedLoginCredentials { username: "bob".to_owned(), access_key: "k".to_owned() },
        "cvr-bob".to_owned(),
        6,
    ));
    assert_eq!(cvr.id(), PlatformAccountId::ChilloutVR("cvr-bob".to_owned()));
    assert_eq!(cvr.id().platform(), cvr.platform());
    // On Resonite the session names its user, whoever stored it.
    let resonite = Authentication::Resonite(PlatformDataAndMetadata::new_at(
        onlivfe::resonite::Authentication { token: "s".to_owned(), user_id: "U-carol".to_owned() },
        "U-someone".to_owned(),
        7,
    ));
    assert_eq!(resonite.id(), PlatformAccountId::Resonite("U-carol".to_owned()));
    assert_eq!(resonite.id().platform(), resonite.platform());
    assert_eq!(resonite.metadata().updated_by, PlatformAccountId::Resonite("U-someone".to_owned()));
    assert_eq!(resonite.metadata().updated_by.platform(), resonite.platform());
    assert_eq!(resonite.updated_at(), 7);
}

#[test]
fn envelope_parts_come_apart_and_together() {
    let e = envelope("x", "me", 3);
    let (data, metadata) = e.as_tuple();
    assert_eq!(data.id, "x");
    assert_eq!(metadata.updated_at, 3);
    assert_eq!(metadata.updated_by, "me");
    let (data, metadata) = e.into_tuple();
    let again = PlatformDataAndMetadata::from_tuple((data, metadata));
    assert_eq!(again, envelope("x", "me", 3));
}

#[test]
fn new_now_stamps_with_the_clock() {
    // 2020-01-01T00:00:00Z in nanoseconds; any working clock is later.
    let after_2020: i128 = 1_577_836_800_000_000_000;
    let first = PlatformDataAndMetadata::new_now(1u8, "me".to_owned());
    let second = PlatformDataAndMetadata::new_now(2u8, "me".to_owned());
    assert_eq!(first.data, 1);
    assert_eq!(first.metadata.updated_by, "me");
    assert!(first.metadata.updated_at > after_2020);
    assert!(second.metadata.updated_at >= first.metadata.updated_at);
}

#[test]
fn metadata_generalizes_to_the_given_platform() {
    let m = PlatformDataMetadata { updated_at: 9, updated_by: "U-1".to_owned() };
    assert_eq!(
        m.generalize(PlatformType::Resonite),
        PlatformDataMetadata {
            updated_at: 9,
            updated_by: PlatformAccountId::Resonite("U-1".to_owned()),
        }
    );
}

#[test]
fn new_profiles_get_distinct_ids_and_are_blank() {
    let a = Profile::new();
    let b = Profile::new();
    assert_ne!(a.sharing_id, b.sharing_id);
    assert_eq!(a.nick, None);
    assert_eq!(a.notes, None);
    assert_eq!(a.pfp_url, None);
    assert_ne!(ProfileId::new(), ProfileId::new());
    // A version 4 UUID carries its version in the high nibble of byte 6 and
    // the variant in the two high bits of byte 8.
    for _ in 0..64 {
        let id = ProfileId::new().0;
        assert_eq!((id >> 76) & 0xf, 4);
        assert_eq!((id >> 62) & 0x3, 2);
    }
}

#[test]
fn platform_tag_converts_from_everything_that_has_one() {
    let id = PlatformAccountId::ChilloutVR("c".to_owned());
    assert_eq!(PlatformType::from(&id), PlatformType::ChilloutVR);
    assert_eq!(PlatformType::from(id), PlatformType::ChilloutVR);
    assert_eq!(PlatformType::from(&InstanceId::Resonite("S-1".to_owned())), PlatformType::Resonite);
    assert_eq!(PlatformType::from(WorldId::VRChat("w".to_owned())), PlatformType::VRChat);
    assert_eq!(PlatformType::from(&AvatarId::VRChat("a".to_owned())), PlatformType::VRChat);
    assert_eq!(
        PlatformType::from(&PlatformAccount::Resonite(envelope("U-1", "U-2", 0))),
        PlatformType::Resonite
    );
    assert_eq!(
        PlatformType::from(PlatformFriend::VRChat(envelope("f", "me", 0))),
        PlatformType::VRChat
    );
    assert_eq!(
        PlatformType::from(&Instance::ChilloutVR(envelope("i", "me", 0))),
        PlatformType::ChilloutVR
    );
    assert_eq!(PlatformType::from(&World::VRChat(envelope("w", "me", 0))), PlatformType::VRChat);
    assert_eq!(PlatformType::from(Avatar::Resonite(envelope("R-1", "U-1", 0))), PlatformType::Resonite);
}
