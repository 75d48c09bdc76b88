//! Logging in. Each platform has its own requests; how they ended is
//! reported here, and the tables take the new session in.

use vstd::prelude::*;
use crate::auth::{Authentication, LoginError};
use crate::cvr;
use crate::ids::PlatformIdView;
use crate::metadata::{PlatformDataAndMetadata, PlatformDataMetadata};
use crate::net::{kept_for, OnlivfeApiClient, Session, SessionsView, VRChatClientState};
use crate::platform::PlatformType;
use crate::resonite;
use crate::storage::{upserted, without};
use crate::vrchat;

verus! {

/// How the first stage of a VRChat login ended.
pub enum VrcLoginOutcome<V> {
    /// No client could be created for the credentials.
    ClientCreationFailed,
    /// The platform refused the login, or could not be reached.
    LoginFailed,
    /// No authenticated client could be created from the session.
    UpgradeFailed,
    /// The platform logged the user in but would not say who it is.
    CurrentUserFailed,
    /// The platform logged the user in.
    LoggedIn {
        /// The authenticated client
        client: V,
        /// Who the platform says the user is
        user_id: String,
        /// The session's auth cookie
        token: String,
        /// The kinds of second factor that the platform still asks for
        required_factors: Vec<String>,
    },
}

/// How the second stage of a VRChat login ended.
pub enum VrcSecondFactorOutcome<V> {
    /// The verification request failed.
    VerificationFailed,
    /// The platform did not accept the code.
    NotVerified,
    /// No client could be created with the second factor's cookie.
    UpgradeFailed,
    /// The platform accepted the code but would not say who the user is.
    CurrentUserFailed,
    /// The platform accepted the code.
    Verified {
        /// The client that carries the second factor's cookie
        client: V,
        /// Who the platform says the user is
        user_id: String,
        /// The second factor's cookie
        token: String,
    },
}

/// How a ChilloutVR login ended.
pub enum CvrLoginOutcome<C> {
    /// No client could be created.
    ClientCreationFailed,
    /// The platform refused the login, or could not be reached.
    LoginFailed,
    /// No authenticated client could be created from the credentials.
    UpgradeFailed,
    /// The platform logged the user in.
    LoggedIn {
        /// The authenticated client
        client: C,
        /// Who the platform says the user is
        user_id: String,
        /// The durable credentials that the platform issued
        credentials: cvr::SavedLoginCredentials,
    },
}

/// How a Resonite login ended.
pub enum ResoniteLoginOutcome<R> {
    /// No client could be created.
    ClientCreationFailed,
    /// The platform refused the login, or could not be reached.
    LoginFailed,
    /// No authenticated client could be created from the session.
    UpgradeFailed,
    /// The platform logged the user in.
    LoggedIn {
        /// The authenticated client
        client: R,
        /// The session that the platform issued
        session: resonite::Authentication,
    },
}

/// What a caller reports of a login.
pub enum LoginEvent<V, C, R> {
    /// The first stage of a VRChat login
    VRChat(VrcLoginOutcome<V>),
    /// The second stage of the VRChat login of the given user
    VRChatSecondFactor(String, VrcSecondFactorOutcome<V>),
    /// A ChilloutVR login
    ChilloutVR(CvrLoginOutcome<C>),
    /// A Resonite login
    Resonite(ResoniteLoginOutcome<R>),
}

impl<V> VrcLoginOutcome<V> {
    /// What went wrong, if anything did.
    pub open spec fn failure(&self) -> Option<Seq<char>> {
        match self {
            VrcLoginOutcome::ClientCreationFailed => Some(
                "Internal error, VRC API client creation failed"@,
            ),
            VrcLoginOutcome::LoginFailed => Some("VRC authentication failed"@),
            VrcLoginOutcome::UpgradeFailed => Some(
                "Internal error, authenticated VRC API client's creation failed"@,
            ),
            VrcLoginOutcome::CurrentUserFailed => Some(
                "Couldn't get VRC user after authenticating"@,
            ),
            VrcLoginOutcome::LoggedIn { .. } => None,
        }
    }
}

impl<V> VrcSecondFactorOutcome<V> {
    /// What went wrong, if anything did.
    pub open spec fn failure(&self) -> Option<Seq<char>> {
        match self {
            VrcSecondFactorOutcome::VerificationFailed => Some("VRC 2FA verification failed"@),
            VrcSecondFactorOutcome::NotVerified => Some("VRC 2FA token is not valid"@),
            VrcSecondFactorOutcome::UpgradeFailed => Some(
                "Internal error, authenticated VRC API client's creation failed"@,
            ),
            VrcSecondFactorOutcome::CurrentUserFailed => Some(
                "Couldn't get VRC user after authenticating"@,
            ),
            VrcSecondFactorOutcome::Verified { .. } => None,
        }
    }
}

impl<C> CvrLoginOutcome<C> {
    /// What went wrong, if anything did.
    pub open spec fn failure(&self) -> Option<Seq<char>> {
        match self {
            CvrLoginOutcome::ClientCreationFailed => Some(
                "Internal error, CVR API client creation failed"@,
            ),
            CvrLoginOutcome::LoginFailed => Some("CVR authentication failed"@),
            CvrLoginOutcome::UpgradeFailed => Some(
                "Internal error, authenticated CVR API client's creation failed"@,
            ),
            CvrLoginOutcome::LoggedIn { .. } => None,
        }
    }
}

impl<R> ResoniteLoginOutcome<R> {
    /// What went wrong, if anything did.
    pub open spec fn failure(&self) -> Option<Seq<char>> {
        match self {
            ResoniteLoginOutcome::ClientCreationFailed => Some(
                "Internal error, Resonite API client creation failed"@,
            ),
            ResoniteLoginOutcome::LoginFailed => Some("Resonite authentication failed"@),
            ResoniteLoginOutcome::UpgradeFailed => Some(
                "Internal error, authenticated Resonite API client's creation failed"@,
            ),
            ResoniteLoginOutcome::LoggedIn { .. } => None,
        }
    }
}

/// The message for a second factor that no login is waiting for.
pub open spec fn not_in_progress() -> Seq<char> {
    "VRC authentication not in progress for user"@
}

/// A login failed with exactly this message.
pub open spec fn fails_with(result: Result<Authentication, LoginError>, message: Seq<char>) -> bool {
    result matches Err(LoginError::Message(m)) && m@ == message
}

/// The login result with the plain message in place of the login error. A
/// result that asks for a second factor has no such form.
pub open spec fn plain(result: Result<Authentication, LoginError>) -> Option<
    Result<Authentication, String>,
> {
    match result {
        Ok(authentication) => Some(Ok(authentication)),
        Err(LoginError::Message(message)) => Some(Err(message)),
        Err(LoginError::RequiresAdditionalFactor(_)) => None,
    }
}

/// The authentication of a VRChat session obtained at the given instant.
pub open spec fn vrchat_authentication(
    user_id: String,
    token: String,
    second_factor_token: Option<String>,
    now: i128,
) -> Authentication {
    Authentication::VRChat(
        PlatformDataAndMetadata {
            data: vrchat::Authentication { token, second_factor_token },
            metadata: PlatformDataMetadata { updated_at: now, updated_by: user_id },
        },
    )
}

/// How the first stage of a VRChat login moves the tables and what it
/// returns: a failed login changes nothing; a login that still needs a
/// second factor is parked under the user's id and reported as such; a
/// complete login is stored and its authentication returned.
pub open spec fn vrchat_login_ends<V, C, R>(
    before: SessionsView<V, C, R>,
    outcome: VrcLoginOutcome<V>,
    now: i128,
    after: SessionsView<V, C, R>,
    result: Result<Authentication, LoginError>,
) -> bool {
    match outcome {
        VrcLoginOutcome::LoggedIn { client, user_id, token, required_factors } => {
            if required_factors@.len() > 0 {
                &&& after == (SessionsView {
                    vrc: upserted(
                        before.vrc,
                        Session {
                            user: user_id,
                            client: VRChatClientState::Authenticating(
                                (client, vrchat::Authentication { token, second_factor_token: None }),
                            ),
                        },
                    ),
                    ..before
                })
                &&& result matches Err(LoginError::RequiresAdditionalFactor(account))
                &&& (result->Err_0->RequiresAdditionalFactor_0)@ == (PlatformIdView {
                    platform: PlatformType::VRChat,
                    id: user_id@,
                })
            } else {
                &&& after == (SessionsView {
                    vrc: upserted(
                        before.vrc,
                        Session { user: user_id, client: VRChatClientState::Authenticated(client) },
                    ),
                    ..before
                })
                &&& result == Ok::<Authentication, LoginError>(
                    vrchat_authentication(user_id, token, None, now),
                )
            }
        },
        _ => after == before && fails_with(result, outcome.failure().unwrap()),
    }
}

/// How the second stage of a VRChat login moves the tables and what it
/// returns: without a parked login for the user, and on every failure, the
/// tables stay as they are; once the code is accepted the parked row gives
/// way to the complete session, and the authentication carries both cookies.
pub open spec fn vrchat_second_factor_ends<V, C, R>(
    before: SessionsView<V, C, R>,
    id: Seq<char>,
    outcome: VrcSecondFactorOutcome<V>,
    now: i128,
    after: SessionsView<V, C, R>,
    result: Result<Authentication, LoginError>,
) -> bool {
    match kept_for(before.vrc, id) {
        Some(VRChatClientState::Authenticating((_, partial))) => match outcome {
            VrcSecondFactorOutcome::Verified { client, user_id, token } => {
                &&& after == (SessionsView {
                    vrc: upserted(
                        without(before.vrc, id),
                        Session { user: user_id, client: VRChatClientState::Authenticated(client) },
                    ),
                    ..before
                })
                &&& result == Ok::<Authentication, LoginError>(
                    vrchat_authentication(user_id, partial.token, Some(token), now),
                )
            },
            _ => after == before && fails_with(result, outcome.failure().unwrap()),
        },
        _ => after == before && fails_with(result, not_in_progress()),
    }
}

/// How a ChilloutVR login moves the tables and what it returns.
pub open spec fn chilloutvr_login_ends<V, C, R>(
    before: SessionsView<V, C, R>,
    outcome: CvrLoginOutcome<C>,
    now: i128,
    after: SessionsView<V, C, R>,
    result: Result<Authentication, String>,
) -> bool {
    match outcome {
        CvrLoginOutcome::LoggedIn { client, user_id, credentials } => {
            &&& after == (SessionsView {
                cvr: upserted(before.cvr, Session { user: user_id, client }),
                ..before
            })
            &&& result == Ok::<Authentication, String>(
                Authentication::ChilloutVR(
                    PlatformDataAndMetadata {
                        data: credentials,
                        metadata: PlatformDataMetadata { updated_at: now, updated_by: user_id },
                    },
                ),
            )
        },
        _ => after == before && (result matches Err(m) && m@ == outcome.failure().unwrap()),
    }
}

/// How a Resonite login moves the tables and what it returns.
pub open spec fn resonite_login_ends<V, C, R>(
    before: SessionsView<V, C, R>,
    outcome: ResoniteLoginOutcome<R>,
    now: i128,
    after: SessionsView<V, C, R>,
    result: Result<Authentication, String>,
) -> bool {
    match outcome {
        ResoniteLoginOutcome::LoggedIn { client, session } => {
            &&& after == (SessionsView {
                resonite: upserted(before.resonite, Session { user: session.user_id, client }),
                ..before
            })
            &&& result == Ok::<Authentication, String>(
                Authentication::Resonite(
                    PlatformDataAndMetadata {
                        data: session,
                        metadata: PlatformDataMetadata {
                            updated_at: now,
                            updated_by: session.user_id,
                        },
                    },
                ),
            )
        },
        _ => after == before && (result matches Err(m) && m@ == outcome.failure().unwrap()),
    }
}

/// How a login moves the tables and what it returns, whatever the platform.
/// Only the first stage of a VRChat login can end by asking for a second
/// factor.
pub open spec fn login_ends<V, C, R>(
    before: SessionsView<V, C, R>,
    event: LoginEvent<V, C, R>,
    now: i128,
    after: SessionsView<V, C, R>,
    result: Result<Authentication, LoginError>,
) -> bool {
    match event {
        LoginEvent::VRChat(outcome) => vrchat_login_ends(before, outcome, now, after, result),
        LoginEvent::VRChatSecondFactor(id, outcome) => vrchat_second_factor_ends(
            before,
            id@,
            outcome,
            now,
            after,
            result,
        ),
        LoginEvent::ChilloutVR(outcome) => plain(result) matches Some(ended)
            && chilloutvr_login_ends(before, outcome, now, after, ended),
        LoginEvent::Resonite(outcome) => plain(result) matches Some(ended) && resonite_login_ends(
            before,
            outcome,
            now,
            after,
            ended,
        ),
    }
}

impl<V, C, R> OnlivfeApiClient<V, C, R> {
    /// Takes in how the first stage of a VRChat login ended.
    pub fn login_vrchat(&mut self, outcome: VrcLoginOutcome<V>, now: i128) -> (result: Result<
        Authentication,
        LoginError,
    >)
        ensures
            final(self).agent() == old(self).agent(),
            vrchat_login_ends(old(self)@, outcome, now, final(self)@, result),
    {
        match outcome {
            VrcLoginOutcome::ClientCreationFailed => Err(
                LoginError::Message("Internal error, VRC API client creation failed".to_owned()),
            ),
            VrcLoginOutcome::LoginFailed => Err(
                LoginError::Message("VRC authentication failed".to_owned()),
            ),
            VrcLoginOutcome::UpgradeFailed => Err(
                LoginError::Message(
                    "Internal error, authenticated VRC API client's creation failed".to_owned(),
                ),
            ),
            VrcLoginOutcome::CurrentUserFailed => Err(
                LoginError::Message("Couldn't get VRC user after authenticating".to_owned()),
            ),
            VrcLoginOutcome::LoggedIn { client, user_id, token, required_factors } => {
                if required_factors.len() > 0 {
                    let partial = vrchat::Authentication { token, second_factor_token: None };
                    self.vrc.update(
                        Session {
                            user: user_id.clone(),
                            client: VRChatClientState::Authenticating((client, partial)),
                        },
                    );
                    Err(
                        LoginError::RequiresAdditionalFactor(
                            crate::ids::PlatformAccountId::VRChat(user_id),
                        ),
                    )
                } else {
                    self.vrc.update(
                        Session {
                            user: user_id.clone(),
                            client: VRChatClientState::Authenticated(client),
                        },
                    );
                    Ok(
                        Authentication::VRChat(
                            PlatformDataAndMetadata::new_at(
                                vrchat::Authentication { token, second_factor_token: None },
                                user_id,
                                now,
                            ),
                        ),
                    )
                }
            },
        }
    }

    /// The parked login of the user: the client that the second factor is
    /// to be verified with and the session of the first stage. Or the
    /// reason why there is none.
    pub fn second_factor_client(&self, id: &String) -> (found: Result<
        &(V, vrchat::Authentication),
        LoginError,
    >)
        ensures
            match kept_for(self@.vrc, id@) {
                Some(VRChatClientState::Authenticating(parked)) => found matches Ok(p) && *p
                    == parked,
                _ => found matches Err(LoginError::Message(m)) && m@ == not_in_progress(),
            },
    {
        match self.vrc.get(id) {
            Ok(session) => match &session.client {
                VRChatClientState::Authenticating(parked) => Ok(parked),
                VRChatClientState::Authenticated(_) => Err(
                    LoginError::Message("VRC authentication not in progress for user".to_owned()),
                ),
            },
            Err(_) => Err(
                LoginError::Message("VRC authentication not in progress for user".to_owned()),
            ),
        }
    }

    /// Takes in how the second stage of the user's VRChat login ended.
    pub fn login_vrchat_second_factor(
        &mut self,
        id: &String,
        outcome: VrcSecondFactorOutcome<V>,
        now: i128,
    ) -> (result: Result<Authentication, LoginError>)
        ensures
            final(self).agent() == old(self).agent(),
            vrchat_second_factor_ends(old(self)@, id@, outcome, now, final(self)@, result),
    {
        let parked = match self.vrc.get(id) {
            Ok(session) => match &session.client {
                VRChatClientState::Authenticating(_) => true,
                VRChatClientState::Authenticated(_) => false,
            },
            Err(_) => false,
        };
        if !parked {
            return Err(
                LoginError::Message("VRC authentication not in progress for user".to_owned()),
            );
        }
        match outcome {
            VrcSecondFactorOutcome::VerificationFailed => Err(
                LoginError::Message("VRC 2FA verification failed".to_owned()),
            ),
            VrcSecondFactorOutcome::NotVerified => Err(
                LoginError::Message("VRC 2FA token is not valid".to_owned()),
            ),
            VrcSecondFactorOutcome::UpgradeFailed => Err(
                LoginError::Message(
                    "Internal error, authenticated VRC API client's creation failed".to_owned(),
                ),
            ),
            VrcSecondFactorOutcome::CurrentUserFailed => Err(
                LoginError::Message("Couldn't get VRC user after authenticating".to_owned()),
            ),
            VrcSecondFactorOutcome::Verified { client, user_id, token } => {
                let removed = self.vrc.remove(id);
                let first_token = match removed {
                    Some(
                        Session { client: VRChatClientState::Authenticating((_, partial)), .. },
                    ) => partial.token,
                    _ => {
                        proof {
                            assert(false);
                        }
                        String::new()
                    },
                };
                self.vrc.update(
                    Session { user: user_id.clone(), client: VRChatClientState::Authenticated(client) },
                );
                Ok(
                    Authentication::VRChat(
                        PlatformDataAndMetadata::new_at(
                            vrchat::Authentication {
                                token: first_token,
                                second_factor_token: Some(token),
                            },
                            user_id,
                            now,
                        ),
                    ),
                )
            },
        }
    }

    /// Takes the client of the given ChilloutVR user out of the tables, so
    /// that a new login can reuse it.
    pub fn take_chilloutvr_client(&mut self, possible_existing: Option<&String>) -> (taken: Option<
        C,
    >)
        ensures
            final(self).agent() == old(self).agent(),
            match possible_existing {
                Some(id) => final(self)@ == (SessionsView {
                    cvr: without(old(self)@.cvr, id@),
                    ..old(self)@
                }) && taken == kept_for(old(self)@.cvr, id@),
                None => final(self)@ == old(self)@ && taken is None,
            },
    {
        match possible_existing {
            Some(id) => match self.cvr.remove(id) {
                Some(session) => Some(session.client),
                None => None,
            },
            None => None,
        }
    }

    /// Takes in how a ChilloutVR login ended.
    pub fn login_chilloutvr(&mut self, outcome: CvrLoginOutcome<C>, now: i128) -> (result: Result<
        Authentication,
        String,
    >)
        ensures
            final(self).agent() == old(self).agent(),
            chilloutvr_login_ends(old(self)@, outcome, now, final(self)@, result),
    {
        match outcome {
            CvrLoginOutcome::ClientCreationFailed => Err(
                "Internal error, CVR API client creation failed".to_owned(),
            ),
            CvrLoginOutcome::LoginFailed => Err("CVR authentication failed".to_owned()),
            CvrLoginOutcome::UpgradeFailed => Err(
                "Internal error, authenticated CVR API client's creation failed".to_owned(),
            ),
            CvrLoginOutcome::LoggedIn { client, user_id, credentials } => {
                self.cvr.update(Session { user: user_id.clone(), client });
                Ok(
                    Authentication::ChilloutVR(
                        PlatformDataAndMetadata::new_at(credentials, user_id, now),
                    ),
                )
            },
        }
    }

    /// Takes the client of the user that the identifier names out of the
    /// tables, so that a new login can reuse it. Only an owner id that is a
    /// Resonite user id names a user.
    pub fn take_resonite_client(&mut self, identifier: &resonite::LoginCredentialsIdentifier) -> (taken:
        Option<R>)
        ensures
            final(self).agent() == old(self).agent(),
            match identifier {
                resonite::LoginCredentialsIdentifier::OwnerID(text) if resonite::is_user_id(
                    text@,
                ) => final(self)@ == (SessionsView {
                    resonite: without(old(self)@.resonite, text@),
                    ..old(self)@
                }) && taken == kept_for(old(self)@.resonite, text@),
                _ => final(self)@ == old(self)@ && taken is None,
            },
    {
        match identifier {
            resonite::LoginCredentialsIdentifier::OwnerID(text) => match resonite::parse_user_id(
                text,
            ) {
                Some(id) => match self.resonite.remove(&id) {
                    Some(session) => Some(session.client),
                    None => None,
                },
                None => None,
            },
            _ => None,
        }
    }

    /// Takes in how a Resonite login ended.
    pub fn login_resonite(&mut self, outcome: ResoniteLoginOutcome<R>, now: i128) -> (result:
        Result<Authentication, String>)
        ensures
            final(self).agent() == old(self).agent(),
            resonite_login_ends(old(self)@, outcome, now, final(self)@, result),
    {
        match outcome {
            ResoniteLoginOutcome::ClientCreationFailed => Err(
                "Internal error, Resonite API client creation failed".to_owned(),
            ),
            ResoniteLoginOutcome::LoginFailed => Err("Resonite authentication failed".to_owned()),
            ResoniteLoginOutcome::UpgradeFailed => Err(
                "Internal error, authenticated Resonite API client's creation failed".to_owned(),
            ),
            ResoniteLoginOutcome::LoggedIn { client, session } => {
                let user_id = session.user_id.clone();
                self.resonite.update(Session { user: session.user_id.clone(), client });
                Ok(Authentication::Resonite(PlatformDataAndMetadata::new_at(session, user_id, now)))
            },
        }
    }

    /// Tries to log in to a certain platform using the provided information
    ///
    /// Takes in how the platform's requests ended, and hands back the
    /// authentication that should be stored for possible future use.
    pub fn login(&mut self, event: LoginEvent<V, C, R>, now: i128) -> (result: Result<
        Authentication,
        LoginError,
    >)
        ensures
            final(self).agent() == old(self).agent(),
            login_ends(old(self)@, event, now, final(self)@, result),
    {
        match event {
            LoginEvent::VRChat(outcome) => self.login_vrchat(outcome, now),
            LoginEvent::VRChatSecondFactor(id, outcome) => self.login_vrchat_second_factor(
                &id,
                outcome,
                now,
            ),
            LoginEvent::ChilloutVR(outcome) => match self.login_chilloutvr(outcome, now) {
                Ok(authentication) => Ok(authentication),
                Err(message) => Err(LoginError::Message(message)),
            },
            LoginEvent::Resonite(outcome) => match self.login_resonite(outcome, now) {
                Ok(authentication) => Ok(authentication),
                Err(message) => Err(LoginError::Message(message)),
            },
        }
    }
}

} // verus!
