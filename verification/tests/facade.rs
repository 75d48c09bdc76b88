use std::cell::RefCell;

use onlivfe::accounts::{PlatformAccount, PlatformFriend};
use onlivfe::auth::{Authentication, LoginError};
use onlivfe::cache_store::OnlivfeCacheStorageBackend;
use onlivfe::cvr::SavedLoginCredentials;
use onlivfe::ids::PlatformAccountId;
use onlivfe::instances::{Instance, InstanceId};
use onlivfe::mappings::MappingRow;
use onlivfe::metadata::PlatformDataAndMetadata;
use onlivfe::net::login::{CvrLoginOutcome, LoginEvent, ResoniteLoginOutcome, VrcLoginOutcome, VrcSecondFactorOutcome};
use onlivfe::net::restore::{ReauthEvent, ResoniteReauthOutcome, VrcReauthOutcome};
use onlivfe::net::{ClientRef, LoggedOut, VRChatClientState};
use onlivfe::platform::PlatformType;
use onlivfe::profile::{Profile, ProfileId};
use onlivfe::record::PlatformRecord;
use onlivfe::resonite;
use onlivfe::storage::StorageError;
use onlivfe::vrchat;
use onlivfe::wrapper::{fresh, re_authenticated, user_agent, Onlivfe, ReauthError, FRIENDS_LIMIT, REFRESH_INTERVAL};

type Core = Onlivfe<&'static str, &'static str, &'static str>;

const T: i128 = 1_700_000_000_000_000_000;
const MINUTE: i128 = 60_000_000_000;

fn new_hub() -> Core {
    Onlivfe::new(
        OnlivfeCacheStorageBackend::new(vec![], vec![], vec![]),
        user_agent("Onlivfe", "0.1.0", "https://onlivfe.com"),
    )
}

fn ok<X>(_: &Vec<X>) -> Result<(), StorageError> {
    Ok(())
}

fn fail<X>(_: &Vec<X>) -> Result<(), StorageError> {
    Err(StorageError::Io("read-only file system".to_owned()))
}

fn vrc(id: &str) -> PlatformAccountId {
    PlatformAccountId::VRChat(id.to_owned())
}

fn cvr(id: &str) -> PlatformAccountId {
    PlatformAccountId::ChilloutVR(id.to_owned())
}

fn res(id: &str) -> PlatformAccountId {
    PlatformAccountId::Resonite(id.to_owned())
}

fn record(id: &str, document: &str) -> PlatformRecord {
    PlatformRecord { id: id.to_owned(), document: document.to_owned() }
}

fn friend(id: &str, document: &str, by: &str, at: i128) -> PlatformFriend {
    PlatformFriend::VRChat(PlatformDataAndMetadata::new_at(record(id, document), by.to_owned(), at))
}

fn vrc_auth(user: &str, token: &str, second: Option<&str>, at: i128) -> Authentication {
    Authentication::VRChat(PlatformDataAndMetadata::new_at(
        vrchat::Authentication {
            token: token.to_owned(),
            second_factor_token: second.map(str::to_owned),
        },
        user.to_owned(),
        at,
    ))
}

fn cvr_auth(user: &str, key: &str, at: i128) -> Authentication {
    Authentication::ChilloutVR(PlatformDataAndMetadata::new_at(
        SavedLoginCredentials { username: "name".to_owned(), access_key: key.to_owned() },
        user.to_owned(),
        at,
    ))
}

fn res_auth(user: &str, at: i128) -> Authentication {
    Authentication::Resonite(PlatformDataAndMetadata::new_at(
        resonite::Authentication { token: "tok".to_owned(), user_id: user.to_owned() },
        user.to_owned(),
        at,
    ))
}

fn login_vrc(hub: &mut Core, user: &str, client: &'static str) {
    let event = LoginEvent::VRChat(VrcLoginOutcome::LoggedIn {
        client,
        user_id: user.to_owned(),
        token: "t".to_owned(),
        required_factors: vec![],
    });
    assert_eq!(hub.login(event, T, &ok), Ok(vrc(user)));
}

#[test]
fn user_agent_has_name_version_and_homepage() {
    assert_eq!(
        user_agent("Onlivfe", "0.1.0", "https://onlivfe.com"),
        "Onlivfe/0.1.0 (https://onlivfe.com)"
    );
    assert_eq!(user_agent("", "", ""), "/ ()");
    assert_eq!(new_hub().api.user_agent(), "Onlivfe/0.1.0 (https://onlivfe.com)");
}

#[test]
fn refresh_interval_is_one_minute_and_exact() {
    assert_eq!(REFRESH_INTERVAL, MINUTE);
    assert_eq!(FRIENDS_LIMIT, 512);
    // One nanosecond before the interval is over the record is served, at
    // the interval and after it is not.
    assert!(fresh(T, T + MINUTE - 1));
    assert!(!fresh(T, T + MINUTE));
    assert!(!fresh(T, T + MINUTE + 1));
    assert!(fresh(T, T));
    // A record from the future is young.
    assert!(fresh(T, T - 1));
    // No overflow at the ends of the range.
    assert!(!fresh(i128::MIN, i128::MAX));
    assert!(fresh(i128::MAX, i128::MIN));
    assert!(fresh(i128::MAX, i128::MAX));
    assert!(!fresh(0, i128::MAX));
}

#[test]
fn login_persists_the_authentication() {
    let mut hub = new_hub();
    let seen: RefCell<Vec<Vec<Authentication>>> = RefCell::new(vec![]);
    let record = |all: &Vec<Authentication>| {
        seen.borrow_mut().push(all.clone());
        Ok(())
    };
    let event = LoginEvent::ChilloutVR(CvrLoginOutcome::LoggedIn {
        client: "c",
        user_id: "bob".to_owned(),
        credentials: SavedLoginCredentials { username: "name".to_owned(), access_key: "k".to_owned() },
    });
    assert_eq!(hub.login(event, T, &record), Ok(cvr("bob")));
    assert_eq!(seen.into_inner(), vec![vec![cvr_auth("bob", "k", T)]]);
    assert_eq!(hub.store.authentications(), vec![cvr_auth("bob", "k", T)]);
    assert_eq!(hub.authenticated_accounts(), vec![cvr("bob")]);
}

#[test]
fn failed_login_is_not_persisted() {
    let mut hub = new_hub();
    let called = RefCell::new(false);
    let record = |_: &Vec<Authentication>| {
        *called.borrow_mut() = true;
        Ok(())
    };
    assert_eq!(
        hub.login(LoginEvent::Resonite(ResoniteLoginOutcome::LoginFailed), T, &record),
        Err(LoginError::Message("Resonite authentication failed".to_owned()))
    );
    let parked = LoginEvent::VRChat(VrcLoginOutcome::LoggedIn {
        client: "half",
        user_id: "u".to_owned(),
        token: "t1".to_owned(),
        required_factors: vec!["totp".to_owned()],
    });
    assert_eq!(
        hub.login(parked, T, &record),
        Err(LoginError::RequiresAdditionalFactor(vrc("u")))
    );
    assert!(!*called.borrow());
    assert_eq!(hub.store.authentications(), vec![]);
    assert_eq!(hub.authenticated_accounts(), vec![]);
}

#[test]
fn login_that_cannot_be_persisted_stays_live() {
    let mut hub = new_hub();
    let event = LoginEvent::VRChat(VrcLoginOutcome::LoggedIn {
        client: "v",
        user_id: "u".to_owned(),
        token: "t".to_owned(),
        required_factors: vec![],
    });
    assert_eq!(
        hub.login(event, T, &fail),
        Err(LoginError::Message("read-only file system".to_owned()))
    );
    assert_eq!(hub.store.authentications(), vec![]);
    assert_eq!(hub.authenticated_accounts(), vec![vrc("u")]);
    assert_eq!(hub.api.client(&vrc("u")), Ok(ClientRef::VRChat(&"v")));
}

#[test]
fn two_stage_login_through_the_facade() {
    let mut hub = new_hub();
    let first = LoginEvent::VRChat(VrcLoginOutcome::LoggedIn {
        client: "half",
        user_id: "u_alice".to_owned(),
        token: "t1".to_owned(),
        required_factors: vec!["totp".to_owned()],
    });
    assert_eq!(
        hub.login(first, T, &ok),
        Err(LoginError::RequiresAdditionalFactor(vrc("u_alice")))
    );
    let second = LoginEvent::VRChatSecondFactor(
        "u_alice".to_owned(),
        VrcSecondFactorOutcome::Verified {
            client: "full",
            user_id: "u_alice".to_owned(),
            token: "sfx".to_owned(),
        },
    );
    assert_eq!(hub.login(second, T + 9, &ok), Ok(vrc("u_alice")));
    assert_eq!(hub.store.authentications(), vec![vrc_auth("u_alice", "t1", Some("sfx"), T + 9)]);
    assert_eq!(hub.authenticated_accounts(), vec![vrc("u_alice")]);
}

#[test]
fn login_then_logout_leaves_nothing_behind() {
    let mut hub = new_hub();
    login_vrc(&mut hub, "u", "v");
    assert_eq!(hub.logout(vrc("u"), false, &ok), Ok(()));
    assert_eq!(hub.authenticated_accounts(), vec![]);
    assert_eq!(hub.store.authentications(), vec![]);
    // Again: nothing to do, and no error.
    assert_eq!(hub.logout(vrc("u"), false, &ok), Ok(()));
    assert_eq!(hub.logout(res("U-never"), false, &ok), Ok(()));
    assert_eq!(hub.store.authentications(), vec![]);
}

#[test]
fn logout_hands_the_session_out_first() {
    let mut hub = new_hub();
    login_vrc(&mut hub, "u", "v");
    // The caller takes the session to tell the platform, then reports.
    assert_eq!(
        hub.api.logout(&vrc("u")),
        LoggedOut::VRChat(VRChatClientState::Authenticated("v"))
    );
    assert_eq!(hub.logout(vrc("u"), false, &ok), Ok(()));
    assert_eq!(hub.store.authentications(), vec![]);
}

#[test]
fn logout_removes_the_session_even_when_it_fails() {
    let mut hub = new_hub();
    login_vrc(&mut hub, "u", "v");
    // The platform could not be told: the row is gone, the stored
    // authentication stays.
    assert_eq!(hub.logout(vrc("u"), true, &ok), Err("Logout failed".to_owned()));
    assert_eq!(hub.authenticated_accounts(), vec![]);
    assert_eq!(hub.store.authentications(), vec![vrc_auth("u", "t", None, T)]);
    login_vrc(&mut hub, "u", "v");
    // The removal could not be persisted: same.
    assert_eq!(hub.logout(vrc("u"), false, &fail), Err("read-only file system".to_owned()));
    assert_eq!(hub.authenticated_accounts(), vec![]);
    assert_eq!(hub.store.authentications(), vec![vrc_auth("u", "t", None, T)]);
}

#[test]
fn stale_read_triggers_refresh() {
    let mut hub = new_hub();
    login_vrc(&mut hub, "u_alice", "v");
    hub.store.update_friend(friend("f1", "old", "u_alice", T - 5 * MINUTE));
    // The cached friend is five minutes old: one fetch is due.
    assert!(hub.friends_are_stale(T));
    assert!(hub.friend_is_stale(&vrc("f1"), T));
    let fetched = Some(vec![record("f1", "updated")]);
    let friends = hub.friends(&vrc("u_alice"), fetched, T);
    assert_eq!(friends, Ok(vec![friend("f1", "updated", "u_alice", T)]));
    assert_eq!(hub.store.friend(vrc("f1")), Ok(friend("f1", "updated", "u_alice", T)));
    // Now it is fresh: no fetch is due, and what a caller hands in anyway
    // is not looked at.
    assert!(!hub.friends_are_stale(T + MINUTE - 1));
    assert!(!hub.friend_is_stale(&vrc("f1"), T + MINUTE - 1));
    assert_eq!(
        hub.friends(&vrc("u_alice"), Some(vec![record("f1", "ignored")]), T + MINUTE - 1),
        Ok(vec![friend("f1", "updated", "u_alice", T)])
    );
    assert_eq!(
        hub.friend(&vrc("u_alice"), &vrc("f1"), Some(vec![record("f1", "ignored")]), T + 1),
        Ok(friend("f1", "updated", "u_alice", T))
    );
    // At the interval it is stale again.
    assert!(hub.friends_are_stale(T + MINUTE));
    assert!(hub.friend_is_stale(&vrc("f1"), T + MINUTE));
}

#[test]
fn failed_fetch_falls_back_to_the_cache() {
    let mut hub = new_hub();
    login_vrc(&mut hub, "me", "v");
    hub.store.update_friend(friend("f1", "old", "me", T - 5 * MINUTE));
    assert_eq!(hub.friend(&vrc("me"), &vrc("f1"), None, T), Ok(friend("f1", "old", "me", T - 5 * MINUTE)));
    assert_eq!(hub.friends(&vrc("me"), None, T), Ok(vec![friend("f1", "old", "me", T - 5 * MINUTE)]));
    // Also when the asking account has no session.
    assert_eq!(
        hub.friend(&vrc("stranger"), &vrc("f1"), Some(vec![record("f1", "new")]), T),
        Ok(friend("f1", "old", "me", T - 5 * MINUTE))
    );
    // The friend that the platform no longer lists is served from the cache.
    assert_eq!(
        hub.friend(&vrc("me"), &vrc("f1"), Some(vec![record("f2", "new")]), T),
        Ok(friend("f1", "old", "me", T - 5 * MINUTE))
    );
    assert_eq!(hub.store.friend(vrc("f2")), Ok(friend("f2", "new", "me", T)));
}

#[test]
fn read_without_cache_and_without_fetch_is_not_found() {
    let mut hub = new_hub();
    login_vrc(&mut hub, "me", "v");
    assert_eq!(hub.friend(&vrc("me"), &vrc("f1"), None, T), Err("Friend not found".to_owned()));
    assert_eq!(
        hub.friend(&vrc("me"), &vrc("f1"), Some(vec![record("f2", "x")]), T),
        Err("Friend not found".to_owned())
    );
    assert_eq!(
        hub.platform_account(&vrc("me"), &vrc("a"), None, T),
        Err("Platform account not found".to_owned())
    );
    assert_eq!(
        hub.instance(&vrc("me"), &InstanceId::VRChat("i".to_owned()), None, T),
        Err("Instance not found".to_owned())
    );
    assert_eq!(
        hub.instance(&vrc("me"), &InstanceId::ChilloutVR("i".to_owned()), Some(record("i", "x")), T),
        Err("Instance not found".to_owned())
    );
    let mut empty = Onlivfe::<u8, u8, u8>::new(
        OnlivfeCacheStorageBackend::new(vec![], vec![], vec![]),
        "ua".to_owned(),
    );
    assert_eq!(empty.friends(&vrc("me"), None, T), Err("VRChat API not authenticated".to_owned()));
    let mut hub = new_hub();
    login_vrc(&mut hub, "me", "v");
    assert_eq!(hub.friends(&vrc("me"), None, T), Err("VRChat friends query failed".to_owned()));
    assert_eq!(hub.friends(&vrc("me"), Some(vec![]), T), Ok(vec![]));
}

#[test]
fn account_and_instance_reads_follow_the_same_policy() {
    let mut hub = new_hub();
    login_vrc(&mut hub, "me", "v");
    let account = |doc: &str, at: i128| {
        PlatformAccount::VRChat(PlatformDataAndMetadata::new_at(record("a", doc), "me".to_owned(), at))
    };
    let instance = |doc: &str, at: i128| {
        Instance::VRChat(PlatformDataAndMetadata::new_at(record("i", doc), "me".to_owned(), at))
    };
    let iid = InstanceId::VRChat("i".to_owned());
    assert!(hub.platform_account_is_stale(&vrc("a"), T));
    assert!(hub.instance_is_stale(&iid, T));
    assert_eq!(hub.platform_account(&vrc("me"), &vrc("a"), Some(record("a", "1")), T), Ok(account("1", T)));
    assert_eq!(hub.instance(&vrc("me"), &iid, Some(record("i", "1")), T), Ok(instance("1", T)));
    assert!(!hub.platform_account_is_stale(&vrc("a"), T + MINUTE - 1));
    assert!(!hub.instance_is_stale(&iid, T + MINUTE - 1));
    assert_eq!(
        hub.platform_account(&vrc("me"), &vrc("a"), Some(record("a", "2")), T + MINUTE - 1),
        Ok(account("1", T))
    );
    assert_eq!(hub.instance(&vrc("me"), &iid, Some(record("i", "2")), T + MINUTE - 1), Ok(instance("1", T)));
    assert!(hub.platform_account_is_stale(&vrc("a"), T + MINUTE));
    assert!(hub.instance_is_stale(&iid, T + MINUTE));
    assert_eq!(
        hub.platform_account(&vrc("me"), &vrc("a"), Some(record("a", "2")), T + MINUTE),
        Ok(account("2", T + MINUTE))
    );
    assert_eq!(
        hub.instance(&vrc("me"), &iid, Some(record("i", "2")), T + MINUTE),
        Ok(instance("2", T + MINUTE))
    );
    assert_eq!(hub.instance(&vrc("me"), &iid, None, T + 3 * MINUTE), Ok(instance("2", T + MINUTE)));
    assert_eq!(hub.store.account(vrc("a")), Ok(account("2", T + MINUTE)));
}

#[test]
fn reauthenticate_all_partial_failure() {
    let stored = vec![vrc_auth("u1", "t", None, T - 10), cvr_auth("u2", "k", T - 10), res_auth("U-u3", T - 10)];
    let mut hub: Core = Onlivfe::new(
        OnlivfeCacheStorageBackend::new(stored.clone(), vec![], vec![]),
        "ua".to_owned(),
    );
    let waiting = hub.to_reauthenticate(false);
    assert_eq!(waiting, stored);
    let mut attempted = vec![];
    let mut failures = vec![];
    for auth in waiting {
        let id = auth.id();
        attempted.push(id.clone());
        // The platform confirms u1 and U-u3 and rejects u2.
        let event = match &auth {
            Authentication::VRChat(_) => ReauthEvent::VRChat(VrcReauthOutcome::Restored {
                client: "v",
                current_user_id: "u1".to_owned(),
            }),
            Authentication::ChilloutVR(_) => ReauthEvent::ChilloutVR(CvrLoginOutcome::LoginFailed),
            Authentication::Resonite(_) => ReauthEvent::Resonite(ResoniteReauthOutcome::Extended("r")),
        };
        if let Err(e) = hub.restore_login(auth, event, T, &ok) {
            failures.push((e, id));
        }
    }
    assert_eq!(
        re_authenticated(attempted, failures),
        Err(ReauthError::FailedToAuthenticate(vec![
            ("CVR authentication failed".to_owned(), cvr("u2"))
        ]))
    );
    assert_eq!(hub.authenticated_accounts(), vec![vrc("u1"), res("U-u3")]);
    assert_eq!(
        hub.store.authentications(),
        vec![vrc_auth("u1", "t", None, T), cvr_auth("u2", "k", T - 10), res_auth("U-u3", T)]
    );
}

#[test]
fn reauthenticate_skips_live_accounts_unless_told_otherwise() {
    let stored = vec![vrc_auth("u1", "t", None, T - 10), res_auth("U-u3", T - 10)];
    let mut hub: Core = Onlivfe::new(
        OnlivfeCacheStorageBackend::new(stored.clone(), vec![], vec![]),
        "ua".to_owned(),
    );
    let event = ReauthEvent::Resonite(ResoniteReauthOutcome::Extended("r"));
    assert_eq!(hub.restore_login(res_auth("U-u3", T - 10), event, T, &ok), Ok(()));
    assert_eq!(hub.to_reauthenticate(false), vec![vrc_auth("u1", "t", None, T - 10)]);
    assert_eq!(
        hub.to_reauthenticate(true),
        vec![vrc_auth("u1", "t", None, T - 10), res_auth("U-u3", T)]
    );
    // A parked login is not a live session.
    let parked = LoginEvent::VRChat(VrcLoginOutcome::LoggedIn {
        client: "half",
        user_id: "u1".to_owned(),
        token: "t1".to_owned(),
        required_factors: vec!["totp".to_owned()],
    });
    let _ = hub.login(parked, T, &ok);
    assert_eq!(hub.to_reauthenticate(false), vec![vrc_auth("u1", "t", None, T - 10)]);
    assert_eq!(
        re_authenticated(vec![vrc("u1")], vec![]),
        Ok(vec![vrc("u1")])
    );
    assert_eq!(re_authenticated(vec![], vec![]), Ok(vec![]));
}

#[test]
fn restore_that_cannot_be_persisted_reports_the_storage_error() {
    let mut hub: Core = Onlivfe::new(
        OnlivfeCacheStorageBackend::new(vec![res_auth("U-u3", T - 10)], vec![], vec![]),
        "ua".to_owned(),
    );
    let event = ReauthEvent::Resonite(ResoniteReauthOutcome::Extended("r"));
    assert_eq!(
        hub.restore_login(res_auth("U-u3", T - 10), event, T, &fail),
        Err("read-only file system".to_owned())
    );
    assert_eq!(hub.store.authentications(), vec![res_auth("U-u3", T - 10)]);
    assert_eq!(hub.authenticated_accounts(), vec![res("U-u3")]);
    let event = ReauthEvent::Resonite(ResoniteReauthOutcome::ProbeFailed);
    assert_eq!(
        hub.restore_login(res_auth("U-u3", T - 10), event, T, &ok),
        Err("Reauthentication failed".to_owned())
    );
    assert_eq!(hub.authenticated_accounts(), vec![]);
}

#[test]
fn authenticated_accounts_walk_the_platforms_in_order() {
    let mut hub = new_hub();
    let r = LoginEvent::Resonite(ResoniteLoginOutcome::LoggedIn {
        client: "r",
        session: resonite::Authentication { token: "t".to_owned(), user_id: "U-r".to_owned() },
    });
    hub.login(r, T, &ok).unwrap();
    login_vrc(&mut hub, "v2", "v");
    login_vrc(&mut hub, "v1", "v");
    assert_eq!(hub.authenticated_accounts(), vec![vrc("v2"), vrc("v1"), res("U-r")]);
    assert_eq!(hub.api.authenticated_clients(PlatformType::ChilloutVR), vec![]);
}

#[test]
fn profile_operations_through_the_facade() {
    let mut hub = new_hub();
    let p = |id: u128, nick: &str| Profile {
        sharing_id: ProfileId(id),
        nick: Some(nick.to_owned()),
        notes: Some("n".to_owned()),
        pfp_url: None,
    };
    assert_eq!(hub.update_profile(p(1, "one"), &ok), Ok(false));
    assert_eq!(hub.update_profile(p(1, "uno"), &ok), Ok(true));
    assert_eq!(hub.update_profile(p(2, "two"), &fail), Err("Failed to update profile".to_owned()));
    assert_eq!(hub.update_profile_accounts(ProfileId(1), vec![vrc("a"), cvr("b")], &ok), Ok(()));
    assert_eq!(hub.profile_accounts(ProfileId(1)), vec![vrc("a"), cvr("b")]);
    assert_eq!(hub.account_profiles(vrc("a")), vec![ProfileId(1)]);
    assert_eq!(hub.profiles(vrc("a")), Ok(vec![p(1, "uno")]));
    assert_eq!(
        hub.update_profile_accounts(ProfileId(1), vec![], &fail),
        Err("Failed to update profile account mappings".to_owned())
    );
    assert_eq!(
        hub.update_account_profiles(vrc("a"), vec![ProfileId(2)], &fail),
        Err("Failed to update account profile mappings".to_owned())
    );
    // A failed edit leaves the same pairs, in whatever order.
    let accounts = hub.profile_accounts(ProfileId(1));
    assert_eq!(accounts.len(), 2);
    assert!(accounts.contains(&vrc("a")) && accounts.contains(&cvr("b")));
    assert_eq!(hub.update_account_profiles(vrc("a"), vec![ProfileId(2)], &ok), Ok(()));
    assert_eq!(hub.account_profiles(vrc("a")), vec![ProfileId(2)]);
    // Profile 2 was never stored.
    assert_eq!(hub.profiles(vrc("a")), Err("Failed to retrieve account profiles".to_owned()));
    let no_mappings = |_: &Vec<MappingRow>| Err(StorageError::Io("x".to_owned()));
    assert_eq!(
        hub.delete_profile(ProfileId(1), &no_mappings, &ok),
        Err("Failed to delete profile".to_owned())
    );
    assert_eq!(hub.profile_accounts(ProfileId(1)), vec![cvr("b")]);
    assert_eq!(hub.delete_profile(ProfileId(1), &ok, &ok), Ok(()));
    assert_eq!(hub.profile_accounts(ProfileId(1)), vec![]);
    assert_eq!(hub.store.profile(ProfileId(1)), Err(StorageError::NotFound));
    assert_eq!(hub.account_profiles(cvr("b")), vec![]);
}
