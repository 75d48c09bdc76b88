use onlivfe::auth::{Authentication, LoginError};
use onlivfe::cvr::SavedLoginCredentials;
use onlivfe::ids::PlatformAccountId;
use onlivfe::instances::{Instance, InstanceId};
use onlivfe::accounts::{PlatformAccount, PlatformFriend};
use onlivfe::metadata::PlatformDataAndMetadata;
use onlivfe::net::login::{
    CvrLoginOutcome,
    LoginEvent,
    ResoniteLoginOutcome,
    VrcLoginOutcome,
    VrcSecondFactorOutcome,
};
use onlivfe::net::restore::{ReauthEvent, ResoniteReauthOutcome, VrcReauthOutcome};
use onlivfe::net::{ClientRef, LoggedOut, OnlivfeApiClient, VRChatClientState};
use onlivfe::platform::PlatformType;
use onlivfe::record::PlatformRecord;
use onlivfe::resonite::{self, LoginCredentialsIdentifier};
use onlivfe::vrchat;

type Api = OnlivfeApiClient<&'static str, &'static str, &'static str>;

const NOW: i128 = 1_700_000_000_000_000_000;

fn api() -> Api {
    OnlivfeApiClient::new("Onlivfe/1.0 (onlivfe.com)".to_owned())
}

fn vrc(id: &str) -> PlatformAccountId {
    PlatformAccountId::VRChat(id.to_owned())
}

fn cvr(id: &str) -> PlatformAccountId {
    PlatformAccountId::ChilloutVR(id.to_owned())
}

fn res(id: &str) -> PlatformAccountId {
    PlatformAccountId::Resonite(id.to_owned())
}

fn vrc_auth(user: &str, token: &str, second: Option<&str>, at: i128) -> Authentication {
    Authentication::VRChat(PlatformDataAndMetadata::new_at(
        vrchat::Authentication {
            token: token.to_owned(),
            second_factor_token: second.map(str::to_owned),
        },
        user.to_owned(),
        at,
    ))
}

fn vrc_logged_in(client: &'static str, user: &str, token: &str, factors: &[&str]) -> VrcLoginOutcome<&'static str> {
    VrcLoginOutcome::LoggedIn {
        client,
        user_id: user.to_owned(),
        token: token.to_owned(),
        required_factors: factors.iter().map(|f| (*f).to_owned()).collect(),
    }
}

fn cvr_logged_in(client: &'static str, user: &str) -> CvrLoginOutcome<&'static str> {
    CvrLoginOutcome::LoggedIn {
        client,
        user_id: user.to_owned(),
        credentials: SavedLoginCredentials {
            username: "name".to_owned(),
            access_key: "key".to_owned(),
        },
    }
}

fn resonite_logged_in(client: &'static str, user: &str) -> ResoniteLoginOutcome<&'static str> {
    ResoniteLoginOutcome::LoggedIn {
        client,
        session: resonite::Authentication { token: "tok".to_owned(), user_id: user.to_owned() },
    }
}

fn message(text: &str) -> LoginError {
    LoginError::Message(text.to_owned())
}

#[test]
fn has_authenticated_client_looks_at_one_platform() {
    let mut api = api();
    assert!(!api.has_authenticated_client(PlatformType::VRChat));
    let _ = api.login_vrchat(vrc_logged_in("half", "u", "t1", &["totp"]), NOW);
    // A parked login is no authenticated client.
    assert!(!api.has_authenticated_client(PlatformType::VRChat));
    api.login_chilloutvr(cvr_logged_in("c", "bob"), NOW).unwrap();
    assert!(api.has_authenticated_client(PlatformType::ChilloutVR));
    assert!(!api.has_authenticated_client(PlatformType::VRChat));
    assert!(!api.has_authenticated_client(PlatformType::Resonite));
}

#[test]
fn new_tables_are_empty_and_keep_the_user_agent() {
    let api = api();
    assert_eq!(api.user_agent(), "Onlivfe/1.0 (onlivfe.com)");
    for platform in [PlatformType::VRChat, PlatformType::ChilloutVR, PlatformType::Resonite] {
        assert_eq!(api.authenticated_clients(platform), Vec::<PlatformAccountId>::new());
    }
    assert_eq!(api.client(&vrc("u")), Err("VRChat API not authenticated".to_owned()));
    assert_eq!(api.client(&cvr("u")), Err("CVR API not authenticated".to_owned()));
    assert_eq!(api.client(&res("U-u")), Err("Resonite API not authenticated".to_owned()));
}

#[test]
fn vrchat_two_stage_happy_path() {
    let mut api = api();
    let first = api.login(
        LoginEvent::VRChat(vrc_logged_in("half", "u_alice", "t1", &["totp"])),
        NOW,
    );
    assert_eq!(first, Err(LoginError::RequiresAdditionalFactor(vrc("u_alice"))));
    // The login is parked: no requests can be made with it yet, but the
    // second factor finds its client.
    assert_eq!(api.authenticated_clients(PlatformType::VRChat), Vec::<PlatformAccountId>::new());
    assert_eq!(api.client(&vrc("u_alice")), Err("VRChat API not authenticated".to_owned()));
    assert_eq!(
        api.second_factor_client(&"u_alice".to_owned()),
        Ok(&("half", vrchat::Authentication { token: "t1".to_owned(), second_factor_token: None }))
    );

    let second = api.login(
        LoginEvent::VRChatSecondFactor(
            "u_alice".to_owned(),
            VrcSecondFactorOutcome::Verified {
                client: "full",
                user_id: "u_alice".to_owned(),
                token: "sfx".to_owned(),
            },
        ),
        NOW + 5,
    );
    assert_eq!(second, Ok(vrc_auth("u_alice", "t1", Some("sfx"), NOW + 5)));
    assert_eq!(api.authenticated_clients(PlatformType::VRChat), vec![vrc("u_alice")]);
    assert_eq!(api.client(&vrc("u_alice")), Ok(ClientRef::VRChat(&"full")));
    assert_eq!(
        api.second_factor_client(&"u_alice".to_owned()),
        Err(message("VRC authentication not in progress for user"))
    );
}

#[test]
fn parked_login_keeps_the_first_token() {
    let mut api = api();
    let _ = api.login_vrchat(vrc_logged_in("half", "u", "t1", &["emailOtp", "otp"]), NOW);
    assert_eq!(
        api.take_vrchat_client(&"u".to_owned()),
        Some(VRChatClientState::Authenticating((
            "half",
            vrchat::Authentication { token: "t1".to_owned(), second_factor_token: None }
        )))
    );
    assert_eq!(api.take_vrchat_client(&"u".to_owned()), None);
}

#[test]
fn vrchat_login_without_second_factor_is_complete_at_once() {
    let mut api = api();
    let result = api.login_vrchat(vrc_logged_in("c", "u1", "t", &[]), NOW);
    assert_eq!(result, Ok(vrc_auth("u1", "t", None, NOW)));
    assert_eq!(api.authenticated_clients(PlatformType::VRChat), vec![vrc("u1")]);
    assert_eq!(api.client(&vrc("u1")), Ok(ClientRef::VRChat(&"c")));
}

#[test]
fn failed_first_stage_changes_nothing() {
    let mut api = api();
    api.login_vrchat(vrc_logged_in("c", "u1", "t", &[]), NOW).unwrap();
    assert_eq!(
        api.login_vrchat(VrcLoginOutcome::ClientCreationFailed, NOW),
        Err(message("Internal error, VRC API client creation failed"))
    );
    assert_eq!(
        api.login_vrchat(VrcLoginOutcome::LoginFailed, NOW),
        Err(message("VRC authentication failed"))
    );
    assert_eq!(
        api.login_vrchat(VrcLoginOutcome::UpgradeFailed, NOW),
        Err(message("Internal error, authenticated VRC API client's creation failed"))
    );
    assert_eq!(
        api.login_vrchat(VrcLoginOutcome::CurrentUserFailed, NOW),
        Err(message("Couldn't get VRC user after authenticating"))
    );
    assert_eq!(api.authenticated_clients(PlatformType::VRChat), vec![vrc("u1")]);
}

#[test]
fn second_factor_without_a_parked_login_fails_with_a_message() {
    let mut api = api();
    let verified = || VrcSecondFactorOutcome::Verified {
        client: "full",
        user_id: "u".to_owned(),
        token: "sfx".to_owned(),
    };
    // No row at all.
    assert_eq!(
        api.login_vrchat_second_factor(&"u".to_owned(), verified(), NOW),
        Err(message("VRC authentication not in progress for user"))
    );
    assert_eq!(api.authenticated_clients(PlatformType::VRChat), Vec::<PlatformAccountId>::new());
    // A row whose login is complete already.
    api.login_vrchat(vrc_logged_in("c", "u", "t", &[]), NOW).unwrap();
    assert_eq!(
        api.login_vrchat_second_factor(&"u".to_owned(), verified(), NOW),
        Err(message("VRC authentication not in progress for user"))
    );
    assert_eq!(api.client(&vrc("u")), Ok(ClientRef::VRChat(&"c")));
    // A parked login of somebody else.
    let _ = api.login_vrchat(vrc_logged_in("h", "other", "t", &["totp"]), NOW);
    assert_eq!(
        api.login_vrchat_second_factor(&"u".to_owned(), VrcSecondFactorOutcome::NotVerified, NOW),
        Err(message("VRC authentication not in progress for user"))
    );
}

#[test]
fn refused_second_factor_can_be_retried() {
    let mut api = api();
    let id = "u".to_owned();
    let _ = api.login_vrchat(vrc_logged_in("half", "u", "t1", &["totp"]), NOW);
    assert_eq!(
        api.login_vrchat_second_factor(&id, VrcSecondFactorOutcome::NotVerified, NOW),
        Err(message("VRC 2FA token is not valid"))
    );
    assert_eq!(api.second_factor_client(&id).map(|parked| parked.0), Ok("half"));
    assert_eq!(
        api.login_vrchat_second_factor(&id, VrcSecondFactorOutcome::VerificationFailed, NOW),
        Err(message("VRC 2FA verification failed"))
    );
    assert_eq!(
        api.login_vrchat_second_factor(&id, VrcSecondFactorOutcome::UpgradeFailed, NOW),
        Err(message("Internal error, authenticated VRC API client's creation failed"))
    );
    assert_eq!(
        api.login_vrchat_second_factor(&id, VrcSecondFactorOutcome::CurrentUserFailed, NOW),
        Err(message("Couldn't get VRC user after authenticating"))
    );
    assert_eq!(api.second_factor_client(&id).map(|parked| parked.0), Ok("half"));
    assert_eq!(
        api.login_vrchat_second_factor(
            &id,
            VrcSecondFactorOutcome::Verified {
                client: "full",
                user_id: "u".to_owned(),
                token: "sfx".to_owned()
            },
            NOW
        ),
        Ok(vrc_auth("u", "t1", Some("sfx"), NOW))
    );
}

#[test]
fn each_user_has_one_row_however_often_it_logs_in() {
    let mut api = api();
    api.login_vrchat(vrc_logged_in("c1", "u", "t", &[]), NOW).unwrap();
    api.login_vrchat(vrc_logged_in("c2", "u", "t", &[]), NOW).unwrap();
    api.login_chilloutvr(cvr_logged_in("c1", "u"), NOW).unwrap();
    api.login_chilloutvr(cvr_logged_in("c2", "u"), NOW).unwrap();
    api.login_resonite(resonite_logged_in("c1", "U-u"), NOW).unwrap();
    api.login_resonite(resonite_logged_in("c2", "U-u"), NOW).unwrap();
    assert_eq!(api.authenticated_clients(PlatformType::VRChat), vec![vrc("u")]);
    assert_eq!(api.authenticated_clients(PlatformType::ChilloutVR), vec![cvr("u")]);
    assert_eq!(api.authenticated_clients(PlatformType::Resonite), vec![res("U-u")]);
    // The newer client took the place of the older.
    assert_eq!(api.client(&vrc("u")), Ok(ClientRef::VRChat(&"c2")));
    assert_eq!(api.client(&cvr("u")), Ok(ClientRef::ChilloutVR(&"c2")));
    assert_eq!(api.client(&res("U-u")), Ok(ClientRef::Resonite(&"c2")));
}

#[test]
fn chilloutvr_login_stores_the_client_and_returns_the_credentials() {
    let mut api = api();
    assert_eq!(api.take_chilloutvr_client(None), None);
    let result = api.login(LoginEvent::ChilloutVR(cvr_logged_in("c", "bob")), NOW);
    assert_eq!(
        result,
        Ok(Authentication::ChilloutVR(PlatformDataAndMetadata::new_at(
            SavedLoginCredentials { username: "name".to_owned(), access_key: "key".to_owned() },
            "bob".to_owned(),
            NOW
        )))
    );
    assert_eq!(api.authenticated_clients(PlatformType::ChilloutVR), vec![cvr("bob")]);
    assert_eq!(
        api.login(LoginEvent::ChilloutVR(CvrLoginOutcome::ClientCreationFailed), NOW),
        Err(message("Internal error, CVR API client creation failed"))
    );
    assert_eq!(
        api.login(LoginEvent::ChilloutVR(CvrLoginOutcome::LoginFailed), NOW),
        Err(message("CVR authentication failed"))
    );
    assert_eq!(
        api.login(LoginEvent::ChilloutVR(CvrLoginOutcome::UpgradeFailed), NOW),
        Err(message("Internal error, authenticated CVR API client's creation failed"))
    );
    assert_eq!(api.authenticated_clients(PlatformType::ChilloutVR), vec![cvr("bob")]);
    assert_eq!(api.take_chilloutvr_client(Some(&"bob".to_owned())), Some("c"));
    assert_eq!(api.take_chilloutvr_client(Some(&"bob".to_owned())), None);
}

#[test]
fn resonite_login_reuses_only_the_client_of_an_owner_id() {
    let mut api = api();
    let result = api.login(LoginEvent::Resonite(resonite_logged_in("c", "U-carol")), NOW);
    assert_eq!(
        result,
        Ok(Authentication::Resonite(PlatformDataAndMetadata::new_at(
            resonite::Authentication { token: "tok".to_owned(), user_id: "U-carol".to_owned() },
            "U-carol".to_owned(),
            NOW
        )))
    );
    // A username or an email names no row, even when it reads like an id.
    assert_eq!(
        api.take_resonite_client(&LoginCredentialsIdentifier::Username("U-carol".to_owned())),
        None
    );
    assert_eq!(
        api.take_resonite_client(&LoginCredentialsIdentifier::Email("U-carol".to_owned())),
        None
    );
    assert_eq!(api.authenticated_clients(PlatformType::Resonite), vec![res("U-carol")]);
    assert_eq!(
        api.take_resonite_client(&LoginCredentialsIdentifier::OwnerID("U-dave".to_owned())),
        None
    );
    assert_eq!(
        api.take_resonite_client(&LoginCredentialsIdentifier::OwnerID("U-carol".to_owned())),
        Some("c")
    );
    assert_eq!(api.authenticated_clients(PlatformType::Resonite), Vec::<PlatformAccountId>::new());
    assert_eq!(
        api.login(LoginEvent::Resonite(ResoniteLoginOutcome::ClientCreationFailed), NOW),
        Err(message("Internal error, Resonite API client creation failed"))
    );
    assert_eq!(
        api.login(LoginEvent::Resonite(ResoniteLoginOutcome::LoginFailed), NOW),
        Err(message("Resonite authentication failed"))
    );
    assert_eq!(
        api.login(LoginEvent::Resonite(ResoniteLoginOutcome::UpgradeFailed), NOW),
        Err(message("Internal error, authenticated Resonite API client's creation failed"))
    );
}

#[test]
fn an_owner_id_that_is_no_user_id_names_no_row() {
    // Rows can only be found under what the platform itself would accept as
    // a user id: one that starts with `U-`.
    let mut api = api();
    api.login_resonite(resonite_logged_in("c", "carol"), NOW).unwrap();
    assert_eq!(
        api.take_resonite_client(&LoginCredentialsIdentifier::OwnerID("carol".to_owned())),
        None
    );
    assert_eq!(api.authenticated_clients(PlatformType::Resonite), vec![res("carol")]);
    assert_eq!(api.take_resonite_session(&"carol".to_owned()), Some("c"));
}

#[test]
fn logout_removes_the_row_and_is_a_no_op_when_repeated() {
    let mut api = api();
    api.login_vrchat(vrc_logged_in("v", "u", "t", &[]), NOW).unwrap();
    api.login_chilloutvr(cvr_logged_in("c", "u"), NOW).unwrap();
    api.login_resonite(resonite_logged_in("r", "U-u"), NOW).unwrap();
    assert_eq!(api.logout(&vrc("u")), LoggedOut::VRChat(VRChatClientState::Authenticated("v")));
    assert_eq!(api.logout(&vrc("u")), LoggedOut::Nothing);
    assert_eq!(api.authenticated_clients(PlatformType::VRChat), Vec::<PlatformAccountId>::new());
    // The other platforms' rows of the same id text stay.
    assert_eq!(api.authenticated_clients(PlatformType::ChilloutVR), vec![cvr("u")]);
    assert_eq!(api.logout(&cvr("u")), LoggedOut::ChilloutVR("c"));
    assert_eq!(api.logout(&cvr("u")), LoggedOut::Nothing);
    assert_eq!(api.logout(&res("U-u")), LoggedOut::Resonite("r"));
    assert_eq!(api.logout(&res("U-u")), LoggedOut::Nothing);
    assert_eq!(api.logout(&res("U-never")), LoggedOut::Nothing);
}

#[test]
fn only_vrchat_is_told_of_a_logout() {
    let parked: LoggedOut<&str, &str, &str> = LoggedOut::VRChat(VRChatClientState::Authenticating((
        "half",
        vrchat::Authentication { token: "t".to_owned(), second_factor_token: None },
    )));
    assert_eq!(parked.client_to_tell(), Some("half"));
    let complete: LoggedOut<&str, &str, &str> =
        LoggedOut::VRChat(VRChatClientState::Authenticated("full"));
    assert_eq!(complete.client_to_tell(), Some("full"));
    assert_eq!(LoggedOut::<&str, &str, &str>::ChilloutVR("c").client_to_tell(), None);
    assert_eq!(LoggedOut::<&str, &str, &str>::Resonite("r").client_to_tell(), None);
    assert_eq!(LoggedOut::<&str, &str, &str>::Nothing.client_to_tell(), None);
    assert_eq!(VRChatClientState::Authenticated(7).into_client(), 7);
    assert_eq!(
        VRChatClientState::Authenticating((
            8,
            vrchat::Authentication { token: "t".to_owned(), second_factor_token: None }
        ))
        .into_client(),
        8
    );
}

#[test]
fn logout_also_drops_a_parked_login() {
    let mut api = api();
    let _ = api.login_vrchat(vrc_logged_in("half", "u", "t1", &["totp"]), NOW);
    assert_eq!(
        api.logout(&vrc("u")),
        LoggedOut::VRChat(VRChatClientState::Authenticating((
            "half",
            vrchat::Authentication { token: "t1".to_owned(), second_factor_token: None }
        )))
    );
    assert_eq!(
        api.second_factor_client(&"u".to_owned()),
        Err(message("VRC authentication not in progress for user"))
    );
}

#[test]
fn platform_mismatch_rejection() {
    let mut api = api();
    api.login_vrchat(vrc_logged_in("v", "u", "t", &[]), NOW).unwrap();
    let record = PlatformRecord { id: "x".to_owned(), document: "{}".to_owned() };
    // The mismatch is found before any client is handed out.
    assert_eq!(
        api.instance_client(&vrc("u"), &InstanceId::ChilloutVR("x".to_owned())),
        Err("Auth and platform types don't match!".to_owned())
    );
    assert_eq!(
        api.instance(&vrc("u"), &InstanceId::ChilloutVR("x".to_owned()), Some(record), NOW),
        Err("Auth and platform types don't match!".to_owned())
    );
    assert_eq!(
        api.platform_account_client(&vrc("u"), &res("U-x")),
        Err("Auth and platform types don't match!".to_owned())
    );
    assert_eq!(
        api.platform_account(&vrc("u"), &cvr("x"), None, NOW),
        Err("Auth and platform types don't match!".to_owned())
    );
    // Even for an account without a session the mismatch comes first.
    assert_eq!(
        api.instance_client(&cvr("nobody"), &InstanceId::VRChat("x".to_owned())),
        Err("Auth and platform types don't match!".to_owned())
    );
}

#[test]
fn queries_need_a_session_and_an_answer() {
    let mut api = api();
    let record = |id: &str| PlatformRecord { id: id.to_owned(), document: "doc".to_owned() };
    let iid = InstanceId::VRChat("wrld_1:1".to_owned());
    assert_eq!(
        api.instance(&vrc("u"), &iid, Some(record("wrld_1:1")), NOW),
        Err("VRChat API not authenticated".to_owned())
    );
    assert_eq!(
        api.friends(&cvr("u"), Some(vec![]), NOW),
        Err("CVR API not authenticated".to_owned())
    );
    assert_eq!(
        api.platform_account(&res("U-u"), &res("U-x"), Some(record("U-x")), NOW),
        Err("Resonite API not authenticated".to_owned())
    );
    api.login_vrchat(vrc_logged_in("v", "u", "t", &[]), NOW).unwrap();
    api.login_chilloutvr(cvr_logged_in("c", "u"), NOW).unwrap();
    api.login_resonite(resonite_logged_in("r", "U-u"), NOW).unwrap();
    assert_eq!(api.instance_client(&vrc("u"), &iid), Ok(ClientRef::VRChat(&"v")));
    assert_eq!(api.platform_account_client(&cvr("u"), &cvr("x")), Ok(ClientRef::ChilloutVR(&"c")));
    for (get_as, friends, instance, user) in [
        (vrc("u"), "VRChat friends query failed", "VRChat instance query failed", "VRChat user query failed"),
        (cvr("u"), "CVR friends query failed", "CVR instance query failed", "CVR user query failed"),
        (res("U-u"), "Resonite Contacts query failed", "Resonite instance query failed", "Resonite user query failed"),
    ] {
        let instance_id = match get_as.platform() {
            PlatformType::VRChat => InstanceId::VRChat("i".to_owned()),
            PlatformType::ChilloutVR => InstanceId::ChilloutVR("i".to_owned()),
            PlatformType::Resonite => InstanceId::Resonite("i".to_owned()),
        };
        assert_eq!(api.friends(&get_as, None, NOW), Err(friends.to_owned()));
        assert_eq!(api.instance(&get_as, &instance_id, None, NOW), Err(instance.to_owned()));
        assert_eq!(api.platform_account(&get_as, &get_as, None, NOW), Err(user.to_owned()));
    }
}

#[test]
fn fetched_records_are_stamped_with_the_instant_and_the_asking_account() {
    let mut api = api();
    api.login_chilloutvr(cvr_logged_in("c", "me"), NOW).unwrap();
    let record = |id: &str| PlatformRecord { id: id.to_owned(), document: "doc".to_owned() };
    let stamped = |id: &str| PlatformDataAndMetadata::new_at(record(id), "me".to_owned(), NOW + 1);
    assert_eq!(
        api.friends(&cvr("me"), Some(vec![record("f1"), record("f2")]), NOW + 1),
        Ok(vec![PlatformFriend::ChilloutVR(stamped("f1")), PlatformFriend::ChilloutVR(stamped("f2"))])
    );
    assert_eq!(api.friends(&cvr("me"), Some(vec![]), NOW + 1), Ok(vec![]));
    assert_eq!(
        api.instance(&cvr("me"), &InstanceId::ChilloutVR("i".to_owned()), Some(record("i")), NOW + 1),
        Ok(Instance::ChilloutVR(stamped("i")))
    );
    assert_eq!(
        api.platform_account(&cvr("me"), &cvr("x"), Some(record("x")), NOW + 1),
        Ok(PlatformAccount::ChilloutVR(stamped("x")))
    );
}

#[test]
fn restoring_a_vrchat_session() {
    let mut api = api();
    let stored = || PlatformDataAndMetadata::new_at(
        vrchat::Authentication { token: "t".to_owned(), second_factor_token: Some("s".to_owned()) },
        "u1".to_owned(),
        NOW - 1000,
    );
    let restored = api.reauthenticate(
        Authentication::VRChat(stored()),
        ReauthEvent::VRChat(VrcReauthOutcome::Restored { client: "v", current_user_id: "u1".to_owned() }),
        NOW,
    );
    assert_eq!(restored, Ok(vrc_auth("u1", "t", Some("s"), NOW)));
    assert_eq!(api.client(&vrc("u1")), Ok(ClientRef::VRChat(&"v")));
    // A failed restore leaves the account without a row.
    assert_eq!(
        api.reauthenticate_vrchat(stored(), VrcReauthOutcome::ProbeFailed, NOW),
        Err("Reauthentication failed".to_owned())
    );
    assert_eq!(api.authenticated_clients(PlatformType::VRChat), Vec::<PlatformAccountId>::new());
    assert_eq!(
        api.reauthenticate_vrchat(stored(), VrcReauthOutcome::ClientCreationFailed, NOW),
        Err("Internal error, VRChat API client creation failed".to_owned())
    );
}

#[test]
fn restoring_a_chilloutvr_session_is_a_fresh_login() {
    let mut api = api();
    api.login_chilloutvr(cvr_logged_in("old", "bob"), NOW).unwrap();
    let stored = || PlatformDataAndMetadata::new_at(
        SavedLoginCredentials { username: "name".to_owned(), access_key: "old".to_owned() },
        "bob".to_owned(),
        NOW - 1000,
    );
    let restored = api.reauthenticate(
        Authentication::ChilloutVR(stored()),
        ReauthEvent::ChilloutVR(cvr_logged_in("new", "bob")),
        NOW,
    );
    assert_eq!(
        restored,
        Ok(Authentication::ChilloutVR(PlatformDataAndMetadata::new_at(
            SavedLoginCredentials { username: "name".to_owned(), access_key: "key".to_owned() },
            "bob".to_owned(),
            NOW
        )))
    );
    assert_eq!(api.client(&cvr("bob")), Ok(ClientRef::ChilloutVR(&"new")));
    assert_eq!(
        api.reauthenticate_chilloutvr(stored(), CvrLoginOutcome::LoginFailed, NOW),
        Err("CVR authentication failed".to_owned())
    );
    assert_eq!(api.authenticated_clients(PlatformType::ChilloutVR), Vec::<PlatformAccountId>::new());
}

#[test]
fn restoring_a_resonite_session_keeps_the_data_and_stamps_the_instant() {
    let mut api = api();
    let stored = || PlatformDataAndMetadata::new_at(
        resonite::Authentication { token: "tok".to_owned(), user_id: "U-c".to_owned() },
        "U-c".to_owned(),
        NOW - 1000,
    );
    let restored = api.reauthenticate(
        Authentication::Resonite(stored()),
        ReauthEvent::Resonite(ResoniteReauthOutcome::Extended("r")),
        NOW,
    );
    assert_eq!(
        restored,
        Ok(Authentication::Resonite(PlatformDataAndMetadata::new_at(
            resonite::Authentication { token: "tok".to_owned(), user_id: "U-c".to_owned() },
            "U-c".to_owned(),
            NOW
        )))
    );
    assert_eq!(api.client(&res("U-c")), Ok(ClientRef::Resonite(&"r")));
    assert_eq!(
        api.reauthenticate_resonite(stored(), ResoniteReauthOutcome::ProbeFailed, NOW),
        Err("Reauthentication failed".to_owned())
    );
    assert_eq!(api.client(&res("U-c")), Err("Resonite API not authenticated".to_owned()));
    assert_eq!(
        api.reauthenticate_resonite(stored(), ResoniteReauthOutcome::ClientCreationFailed, NOW),
        Err("Internal error, Resonite API client creation failed".to_owned())
    );
}

#[test]
fn restore_with_an_event_of_another_platform_is_refused() {
    let mut api = api();
    api.login_vrchat(vrc_logged_in("v", "u1", "t", &[]), NOW).unwrap();
    let result = api.reauthenticate(
        vrc_auth("u1", "t", None, NOW),
        ReauthEvent::Resonite(ResoniteReauthOutcome::Extended("r")),
        NOW,
    );
    assert_eq!(result, Err("Auth and platform types don't match!".to_owned()));
    assert_eq!(api.client(&vrc("u1")), Ok(ClientRef::VRChat(&"v")));
    assert_eq!(api.authenticated_clients(PlatformType::Resonite), Vec::<PlatformAccountId>::new());
}
