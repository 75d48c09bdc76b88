use std::cell::RefCell;

use onlivfe::accounts::PlatformAccount;
use onlivfe::auth::Authentication;
use onlivfe::cache_store::{DeleteProfileError, OnlivfeCacheStorageBackend};
use onlivfe::ids::PlatformAccountId;
use onlivfe::instances::{Instance, InstanceId};
use onlivfe::assets::{Avatar, AvatarId, World, WorldId};
use onlivfe::accounts::PlatformFriend;
use onlivfe::mappings::MappingRow;
use onlivfe::metadata::PlatformDataAndMetadata;
use onlivfe::profile::{Profile, ProfileId};
use onlivfe::record::PlatformRecord;
use onlivfe::storage::{Collection, StorageError};

fn account(id: &str, document: &str, at: i128) -> PlatformAccount {
    PlatformAccount::VRChat(PlatformDataAndMetadata::new_at(
        PlatformRecord { id: id.to_owned(), document: document.to_owned() },
        "usr_me".to_owned(),
        at,
    ))
}

fn vrc(id: &str) -> PlatformAccountId {
    PlatformAccountId::VRChat(id.to_owned())
}

fn auth(user: &str, token: &str, at: i128) -> Authentication {
    Authentication::VRChat(PlatformDataAndMetadata::new_at(
        onlivfe::vrchat::Authentication { token: token.to_owned(), second_factor_token: None },
        user.to_owned(),
        at,
    ))
}

fn profile(id: u128, nick: &str) -> Profile {
    Profile { sharing_id: ProfileId(id), nick: Some(nick.to_owned()), notes: None, pfp_url: None }
}

fn empty_store() -> OnlivfeCacheStorageBackend {
    OnlivfeCacheStorageBackend::new(vec![], vec![], vec![])
}

fn ok<T>(_: &Vec<T>) -> Result<(), StorageError> {
    Ok(())
}

fn io_failure<T>(_: &Vec<T>) -> Result<(), StorageError> {
    Err(StorageError::Io("disk full".to_owned()))
}

fn not_serializable<T>(_: &Vec<T>) -> Result<(), StorageError> {
    Err(StorageError::Serialization("bad value".to_owned()))
}

#[test]
fn upsert_then_get_returns_the_entity() {
    let mut store = empty_store();
    assert_eq!(store.update_account(account("a", "one", 1)), false);
    assert_eq!(store.account(vrc("a")), Ok(account("a", "one", 1)));
    // Newer replaces older, under the same id.
    assert_eq!(store.update_account(account("a", "two", 2)), true);
    assert_eq!(store.account(vrc("a")), Ok(account("a", "two", 2)));
    assert_eq!(store.account_ids(10), vec![vrc("a")]);
    assert_eq!(store.update_account(account("b", "three", 3)), false);
    assert_eq!(store.account(vrc("a")), Ok(account("a", "two", 2)));
    assert_eq!(store.account(vrc("b")), Ok(account("b", "three", 3)));
}

#[test]
fn get_of_an_absent_id_is_not_found() {
    let mut store = empty_store();
    assert_eq!(store.account(vrc("a")), Err(StorageError::NotFound));
    store.update_account(account("a", "one", 1));
    assert_eq!(store.account(vrc("b")), Err(StorageError::NotFound));
    // The same text on another platform is another id.
    assert_eq!(
        store.account(PlatformAccountId::ChilloutVR("a".to_owned())),
        Err(StorageError::NotFound)
    );
    assert_eq!(store.profile(ProfileId(1)), Err(StorageError::NotFound));
    assert_eq!(
        store.instance(InstanceId::VRChat("i".to_owned())),
        Err(StorageError::NotFound)
    );
    assert_eq!(store.world(WorldId::VRChat("w".to_owned())), Err(StorageError::NotFound));
    assert_eq!(store.avatar(AvatarId::VRChat("v".to_owned())), Err(StorageError::NotFound));
    assert_eq!(store.friend(vrc("f")), Err(StorageError::NotFound));
}

#[test]
fn list_ids_with_limit_zero_is_empty() {
    let mut store = empty_store();
    assert_eq!(store.account_ids(0), Vec::<PlatformAccountId>::new());
    store.update_account(account("a", "one", 1));
    store.update_account(account("b", "two", 2));
    assert_eq!(store.account_ids(0), Vec::<PlatformAccountId>::new());
    assert_eq!(store.accounts(0), Vec::<PlatformAccount>::new());
    assert_eq!(store.friend_ids(0), Vec::<PlatformAccountId>::new());
    assert_eq!(store.instance_ids(0), Vec::<InstanceId>::new());
    assert_eq!(store.world_ids(0), Vec::<WorldId>::new());
    assert_eq!(store.avatar_ids(0), Vec::<AvatarId>::new());
}

#[test]
fn list_ids_returns_up_to_limit_in_stored_order() {
    let mut store = empty_store();
    store.update_account(account("a", "one", 1));
    store.update_account(account("b", "two", 2));
    store.update_account(account("c", "three", 3));
    assert_eq!(store.account_ids(2), vec![vrc("a"), vrc("b")]);
    assert_eq!(store.account_ids(3), vec![vrc("a"), vrc("b"), vrc("c")]);
    assert_eq!(store.account_ids(usize::MAX), vec![vrc("a"), vrc("b"), vrc("c")]);
    assert_eq!(store.accounts(1), vec![account("a", "one", 1)]);
    // Replacing keeps the place.
    store.update_account(account("a", "again", 4));
    assert_eq!(store.account_ids(5), vec![vrc("a"), vrc("b"), vrc("c")]);
}

#[test]
fn upsert_many_returns_the_replaced_ids() {
    let mut store = empty_store();
    store.update_account(account("a", "old", 1));
    let replaced = store.update_accounts(vec![
        account("b", "new", 2),
        account("a", "new", 2),
        account("b", "newer", 3),
        account("c", "new", 2),
    ]);
    assert_eq!(replaced, vec![vrc("a"), vrc("b")]);
    assert_eq!(store.account_ids(10), vec![vrc("a"), vrc("b"), vrc("c")]);
    assert_eq!(store.account(vrc("b")), Ok(account("b", "newer", 3)));
    assert_eq!(store.update_accounts(vec![]), Vec::<PlatformAccountId>::new());
}

#[test]
fn every_in_memory_kind_stores_and_lists() {
    let mut store = empty_store();
    let e = |id: &str| {
        PlatformDataAndMetadata::new_at(
            PlatformRecord { id: id.to_owned(), document: "d".to_owned() },
            "me".to_owned(),
            1,
        )
    };
    assert_eq!(store.update_friend(PlatformFriend::ChilloutVR(e("f"))), false);
    assert_eq!(store.update_friend(PlatformFriend::ChilloutVR(e("f"))), true);
    assert_eq!(store.friend_ids(5), vec![PlatformAccountId::ChilloutVR("f".to_owned())]);
    assert_eq!(store.friends(5), vec![PlatformFriend::ChilloutVR(e("f"))]);
    assert_eq!(store.update_instance(Instance::Resonite(e("S-1"))), false);
    assert_eq!(store.instance(InstanceId::Resonite("S-1".to_owned())), Ok(Instance::Resonite(e("S-1"))));
    assert_eq!(store.instances(5), vec![Instance::Resonite(e("S-1"))]);
    assert_eq!(store.update_world(World::VRChat(e("w"))), false);
    assert_eq!(store.world(WorldId::VRChat("w".to_owned())), Ok(World::VRChat(e("w"))));
    assert_eq!(store.worlds(5), vec![World::VRChat(e("w"))]);
    assert_eq!(store.update_avatar(Avatar::VRChat(e("v"))), false);
    assert_eq!(store.avatar(AvatarId::VRChat("v".to_owned())), Ok(Avatar::VRChat(e("v"))));
    assert_eq!(store.avatars(5), vec![Avatar::VRChat(e("v"))]);
    assert_eq!(
        store.update_friends(vec![PlatformFriend::ChilloutVR(e("f")), PlatformFriend::VRChat(e("f"))]),
        vec![PlatformAccountId::ChilloutVR("f".to_owned())]
    );
    assert_eq!(
        store.update_instances(vec![Instance::Resonite(e("S-1"))]),
        vec![InstanceId::Resonite("S-1".to_owned())]
    );
    assert_eq!(store.update_worlds(vec![World::VRChat(e("w2"))]), Vec::<WorldId>::new());
    assert_eq!(
        store.update_avatars(vec![Avatar::VRChat(e("v"))]),
        vec![AvatarId::VRChat("v".to_owned())]
    );
}

#[test]
fn durable_upsert_hands_the_changed_collection_to_persist() {
    let mut store = empty_store();
    let seen: RefCell<Vec<Vec<Authentication>>> = RefCell::new(vec![]);
    let record = |all: &Vec<Authentication>| {
        seen.borrow_mut().push(all.clone());
        Ok(())
    };
    assert_eq!(store.update_authentication(auth("u1", "t1", 1), &record), Ok(false));
    assert_eq!(store.update_authentication(auth("u2", "t2", 2), &record), Ok(false));
    assert_eq!(store.update_authentication(auth("u1", "t3", 3), &record), Ok(true));
    assert_eq!(store.remove_authentication(vrc("u2"), &record), Ok(true));
    assert_eq!(store.remove_authentication(vrc("u2"), &record), Ok(false));
    let seen = seen.into_inner();
    assert_eq!(
        seen,
        vec![
            vec![auth("u1", "t1", 1)],
            vec![auth("u1", "t1", 1), auth("u2", "t2", 2)],
            vec![auth("u1", "t3", 3), auth("u2", "t2", 2)],
            vec![auth("u1", "t3", 3)],
            vec![auth("u1", "t3", 3)],
        ]
    );
    // What was persisted last is what memory holds.
    assert_eq!(store.authentications(), seen[4]);
}

#[test]
fn atomic_swap_rollback() {
    // An authentication that was not there before: the failed write leaves
    // no trace of it.
    let mut store = empty_store();
    store.update_authentication(auth("u0", "t0", 0), &ok).unwrap();
    let before = store.authentications();
    let a = auth("u1", "t1", 1);
    assert_eq!(
        store.update_authentication(a, &io_failure),
        Err(StorageError::Io("disk full".to_owned()))
    );
    assert_eq!(store.authentications(), before);
    assert_eq!(store.authentications(), vec![auth("u0", "t0", 0)]);
}

#[test]
fn failed_replacement_puts_the_older_value_back() {
    let mut store = empty_store();
    store.update_authentication(auth("u1", "old", 1), &ok).unwrap();
    store.update_authentication(auth("u2", "other", 1), &ok).unwrap();
    assert_eq!(
        store.update_authentication(auth("u1", "new", 2), &not_serializable),
        Err(StorageError::Serialization("bad value".to_owned()))
    );
    assert_eq!(store.authentications(), vec![auth("u1", "old", 1), auth("u2", "other", 1)]);
}

#[test]
fn failed_removal_puts_the_entry_back_in_place() {
    let mut store = empty_store();
    store.update_authentication(auth("u1", "a", 1), &ok).unwrap();
    store.update_authentication(auth("u2", "b", 1), &ok).unwrap();
    store.update_authentication(auth("u3", "c", 1), &ok).unwrap();
    assert_eq!(
        store.remove_authentication(vrc("u2"), &io_failure),
        Err(StorageError::Io("disk full".to_owned()))
    );
    assert_eq!(
        store.authentications(),
        vec![auth("u1", "a", 1), auth("u2", "b", 1), auth("u3", "c", 1)]
    );
    assert_eq!(store.remove_authentication(vrc("nobody"), &io_failure),
        Err(StorageError::Io("disk full".to_owned())));
    assert_eq!(store.authentications().len(), 3);
}

#[test]
fn persist_sees_the_change_before_it_is_taken_back() {
    let mut store = empty_store();
    store.update_authentication(auth("u1", "old", 1), &ok).unwrap();
    let seen: RefCell<Vec<Vec<Authentication>>> = RefCell::new(vec![]);
    let refuse = |all: &Vec<Authentication>| {
        seen.borrow_mut().push(all.clone());
        Err(StorageError::Conflict("no".to_owned()))
    };
    assert_eq!(
        store.update_authentication(auth("u1", "new", 2), &refuse),
        Err(StorageError::Conflict("no".to_owned()))
    );
    assert_eq!(seen.into_inner(), vec![vec![auth("u1", "new", 2)]]);
    assert_eq!(store.authentications(), vec![auth("u1", "old", 1)]);
}

#[test]
fn durable_upsert_many_goes_on_after_a_failure() {
    let mut store = empty_store();
    store.update_authentication(auth("u1", "old", 1), &ok).unwrap();
    let calls = RefCell::new(0);
    let second_fails = |_: &Vec<Authentication>| {
        *calls.borrow_mut() += 1;
        if *calls.borrow() == 2 {
            Err(StorageError::Io("once".to_owned()))
        } else {
            Ok(())
        }
    };
    let outcomes = store.update_authentications(
        vec![auth("u1", "new", 2), auth("u2", "x", 2), auth("u3", "y", 2)],
        &second_fails,
    );
    assert_eq!(
        outcomes,
        vec![
            (vrc("u1"), Ok(true)),
            (vrc("u2"), Err(StorageError::Io("once".to_owned()))),
            (vrc("u3"), Ok(false)),
        ]
    );
    assert_eq!(store.authentications(), vec![auth("u1", "new", 2), auth("u3", "y", 2)]);
}

#[test]
fn profiles_are_durable_like_authentications() {
    let mut store = empty_store();
    assert_eq!(store.update_profile(profile(1, "one"), &ok), Ok(false));
    assert_eq!(store.update_profile(profile(1, "uno"), &ok), Ok(true));
    assert_eq!(store.profile(ProfileId(1)), Ok(profile(1, "uno")));
    assert_eq!(
        store.update_profile(profile(1, "eins"), &io_failure),
        Err(StorageError::Io("disk full".to_owned()))
    );
    assert_eq!(store.profile(ProfileId(1)), Ok(profile(1, "uno")));
    assert_eq!(
        store.update_profile(profile(2, "two"), &io_failure),
        Err(StorageError::Io("disk full".to_owned()))
    );
    assert_eq!(store.profile(ProfileId(2)), Err(StorageError::NotFound));
    let outcomes = store.update_profiles(vec![profile(2, "two"), profile(1, "ichi")], &ok);
    assert_eq!(outcomes, vec![(ProfileId(2), Ok(false)), (ProfileId(1), Ok(true))]);
    assert_eq!(store.profile(ProfileId(1)), Ok(profile(1, "ichi")));
}

#[test]
fn loading_keeps_the_later_of_two_entries_with_one_id() {
    let rows: Vec<MappingRow> = vec![
        (vrc("a"), ProfileId(1)),
        (vrc("a"), ProfileId(1)),
        (vrc("b"), ProfileId(1)),
    ];
    let store = OnlivfeCacheStorageBackend::new(
        vec![auth("u1", "first", 1), auth("u2", "other", 1), auth("u1", "second", 2)],
        vec![profile(7, "old"), profile(7, "new")],
        rows,
    );
    assert_eq!(store.authentications(), vec![auth("u1", "second", 2), auth("u2", "other", 1)]);
    assert_eq!(store.profile(ProfileId(7)), Ok(profile(7, "new")));
    assert_eq!(store.profile_account_ids(ProfileId(1)), vec![vrc("a"), vrc("b")]);
    assert_eq!(store.account_ids(10), Vec::<PlatformAccountId>::new());
}

#[test]
fn delete_profile_removes_its_rows_and_the_profile() {
    let mut store = empty_store();
    store.update_profile(profile(1, "one"), &ok).unwrap();
    store.update_profile(profile(2, "two"), &ok).unwrap();
    store.update_profile_account_ids(ProfileId(1), vec![vrc("a"), vrc("b")], &ok).unwrap();
    store.update_profile_account_ids(ProfileId(2), vec![vrc("a")], &ok).unwrap();
    assert_eq!(store.delete_profile(ProfileId(1), &ok, &ok), Ok(()));
    assert_eq!(store.profile_account_ids(ProfileId(1)), Vec::<PlatformAccountId>::new());
    assert_eq!(store.profile(ProfileId(1)), Err(StorageError::NotFound));
    assert_eq!(store.account_profile_ids(vrc("a")), vec![ProfileId(2)]);
    assert_eq!(store.account_profile_ids(vrc("b")), Vec::<ProfileId>::new());
    assert_eq!(store.profile(ProfileId(2)), Ok(profile(2, "two")));
    // Deleting what is not there changes nothing.
    assert_eq!(store.delete_profile(ProfileId(1), &ok, &ok), Ok(()));
    assert_eq!(store.account_profile_ids(vrc("a")), vec![ProfileId(2)]);
}

#[test]
fn delete_profile_says_which_write_failed() {
    let mut store = empty_store();
    store.update_profile(profile(1, "one"), &ok).unwrap();
    store.update_profile_account_ids(ProfileId(1), vec![vrc("a")], &ok).unwrap();
    assert_eq!(
        store.delete_profile(ProfileId(1), &io_failure, &ok),
        Err(DeleteProfileError::Mappings(StorageError::Io("disk full".to_owned())))
    );
    assert_eq!(store.profile_account_ids(ProfileId(1)), vec![vrc("a")]);
    assert_eq!(store.profile(ProfileId(1)), Ok(profile(1, "one")));
    assert_eq!(
        store.delete_profile(ProfileId(1), &ok, &io_failure),
        Err(DeleteProfileError::Profiles(StorageError::Io("disk full".to_owned())))
    );
    assert_eq!(store.profile_account_ids(ProfileId(1)), Vec::<PlatformAccountId>::new());
    assert_eq!(store.profile(ProfileId(1)), Ok(profile(1, "one")));
    assert_eq!(
        DeleteProfileError::Profiles(StorageError::NotFound).into_inner(),
        StorageError::NotFound
    );
}

#[test]
fn derived_reads_follow_the_mapping() {
    let mut store = empty_store();
    store.update_profile(profile(1, "one"), &ok).unwrap();
    store.update_profile(profile(2, "two"), &ok).unwrap();
    store.update_account(account("a", "A", 1));
    store.update_account(account("b", "B", 1));
    store.update_account_profile_ids(vrc("a"), vec![ProfileId(2), ProfileId(1)], &ok).unwrap();
    store.update_account_profile_ids(vrc("b"), vec![ProfileId(1)], &ok).unwrap();
    assert_eq!(store.account_profiles(vrc("a")), Ok(vec![profile(2, "two"), profile(1, "one")]));
    assert_eq!(
        store.profile_accounts(ProfileId(1)),
        Ok(vec![account("a", "A", 1), account("b", "B", 1)])
    );
    assert_eq!(store.account_profiles(vrc("nobody")), Ok(vec![]));
    // A row that points at something that is not stored makes the read fail.
    store.update_account_profile_ids(vrc("c"), vec![ProfileId(1), ProfileId(9)], &ok).unwrap();
    assert_eq!(store.account_profiles(vrc("c")), Err(StorageError::NotFound));
    assert_eq!(store.profile_accounts(ProfileId(1)), Err(StorageError::NotFound));
}

#[test]
fn storage_errors_say_what_went_wrong() {
    assert_eq!(StorageError::NotFound.message(), "Not found");
    assert_eq!(StorageError::Io("io".to_owned()).message(), "io");
    assert_eq!(StorageError::Serialization("ser".to_owned()).message(), "ser");
    assert_eq!(StorageError::Conflict("con".to_owned()).message(), "con");
}

#[test]
fn collection_on_its_own() {
    let mut c: Collection<Profile> = Collection::new();
    assert_eq!(c.len(), 0);
    assert_eq!(c.ids(3), Vec::<ProfileId>::new());
    assert_eq!(c.update(profile(1, "a")), false);
    assert_eq!(c.update(profile(2, "b")), false);
    assert_eq!(c.get(&ProfileId(2)), Ok(&profile(2, "b")));
    assert_eq!(c.get(&ProfileId(3)), Err(StorageError::NotFound));
    assert_eq!(c.get_all(&vec![ProfileId(2), ProfileId(1), ProfileId(2)]),
        Ok(vec![profile(2, "b"), profile(1, "a"), profile(2, "b")]));
    assert_eq!(c.get_all(&vec![ProfileId(2), ProfileId(3)]), Err(StorageError::NotFound));
    assert_eq!(c.remove(&ProfileId(1)), Some(profile(1, "a")));
    assert_eq!(c.remove(&ProfileId(1)), None);
    assert_eq!(c.entries(), &vec![profile(2, "b")]);
    let loaded = Collection::load(vec![profile(1, "x"), profile(1, "y")]);
    assert_eq!(loaded.list(9), vec![profile(1, "y")]);
}
