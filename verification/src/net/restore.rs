//! Restoring sessions from stored authentications, for example on startup.

use vstd::prelude::*;
use crate::auth::Authentication;
use crate::cvr;
use crate::metadata::{PlatformDataAndMetadata, PlatformDataMetadata};
use crate::net::login::CvrLoginOutcome;
use crate::net::{
    kept_for,
    platform_mismatch,
    OnlivfeApiClient,
    Session,
    SessionsView,
    VRChatClientState,
};
use crate::resonite;
use crate::storage::{upserted, without};
use crate::vrchat;

verus! {

/// How restoring a VRChat session ended.
pub enum VrcReauthOutcome<V> {
    /// No client could be created from the stored session.
    ClientCreationFailed,
    /// The platform did not confirm the session, or could not be reached.
    ProbeFailed,
    /// The platform confirmed the session.
    Restored {
        /// The client that carries the session
        client: V,
        /// Who the platform says the user is
        current_user_id: String,
    },
}

/// How restoring a Resonite session ended.
pub enum ResoniteReauthOutcome<R> {
    /// No client could be created from the stored session.
    ClientCreationFailed,
    /// The platform did not extend the session, or could not be reached.
    ProbeFailed,
    /// The platform extended the session of this client.
    Extended(R),
}

/// What a caller reports of restoring a session.
pub enum ReauthEvent<V, C, R> {
    /// A VRChat session
    VRChat(VrcReauthOutcome<V>),
    /// A ChilloutVR session, which is restored by logging in anew
    ChilloutVR(CvrLoginOutcome<C>),
    /// A Resonite session
    Resonite(ResoniteReauthOutcome<R>),
}

impl<V> VrcReauthOutcome<V> {
    /// What went wrong, if anything did.
    pub open spec fn failure(&self) -> Option<Seq<char>> {
        match self {
            VrcReauthOutcome::ClientCreationFailed => Some(
                "Internal error, VRChat API client creation failed"@,
            ),
            VrcReauthOutcome::ProbeFailed => Some("Reauthentication failed"@),
            VrcReauthOutcome::Restored { .. } => None,
        }
    }
}

impl<R> ResoniteReauthOutcome<R> {
    /// What went wrong, if anything did.
    pub open spec fn failure(&self) -> Option<Seq<char>> {
        match self {
            ResoniteReauthOutcome::ClientCreationFailed => Some(
                "Internal error, Resonite API client creation failed"@,
            ),
            ResoniteReauthOutcome::ProbeFailed => Some("Reauthentication failed"@),
            ResoniteReauthOutcome::Extended(_) => None,
        }
    }
}

/// Restoring failed with exactly this message.
pub open spec fn restore_fails_with(result: Result<Authentication, String>, message: Seq<char>) -> bool {
    result matches Err(m) && m@ == message
}

/// How restoring a VRChat session moves the tables and what it returns: a
/// confirmed session is stored as complete under the account that the
/// authentication was stored for, and the authentication comes back stamped
/// with the instant and the user that the platform named; on failure the
/// account is left without a row.
pub open spec fn vrchat_restore_ends<V, C, R>(
    before: SessionsView<V, C, R>,
    auth: PlatformDataAndMetadata<vrchat::Authentication, String>,
    outcome: VrcReauthOutcome<V>,
    now: i128,
    after: SessionsView<V, C, R>,
    result: Result<Authentication, String>,
) -> bool {
    match outcome {
        VrcReauthOutcome::Restored { client, current_user_id } => {
            &&& after == (SessionsView {
                vrc: upserted(
                    before.vrc,
                    Session {
                        user: auth.metadata.updated_by,
                        client: VRChatClientState::Authenticated(client),
                    },
                ),
                ..before
            })
            &&& result == Ok::<Authentication, String>(
                Authentication::VRChat(
                    PlatformDataAndMetadata {
                        data: auth.data,
                        metadata: PlatformDataMetadata {
                            updated_at: now,
                            updated_by: current_user_id,
                        },
                    },
                ),
            )
        },
        _ => {
            &&& after == (SessionsView {
                vrc: without(before.vrc, auth.metadata.updated_by@),
                ..before
            })
            &&& restore_fails_with(result, outcome.failure().unwrap())
        },
    }
}

/// How restoring a ChilloutVR session moves the tables and what it returns:
/// the old row of the account gives way to the row of the fresh login, and
/// the fresh credentials come back; on failure the account is left without a
/// row.
pub open spec fn chilloutvr_restore_ends<V, C, R>(
    before: SessionsView<V, C, R>,
    auth: PlatformDataAndMetadata<cvr::SavedLoginCredentials, String>,
    outcome: CvrLoginOutcome<C>,
    now: i128,
    after: SessionsView<V, C, R>,
    result: Result<Authentication, String>,
) -> bool {
    match outcome {
        CvrLoginOutcome::LoggedIn { client, user_id, credentials } => {
            &&& after == (SessionsView {
                cvr: upserted(
                    without(before.cvr, auth.metadata.updated_by@),
                    Session { user: user_id, client },
                ),
                ..before
            })
            &&& result == Ok::<Authentication, String>(
                Authentication::ChilloutVR(
                    PlatformDataAndMetadata {
                        data: credentials,
                        metadata: PlatformDataMetadata { updated_at: now, updated_by: user_id },
                    },
                ),
            )
        },
        _ => {
            &&& after == (SessionsView {
                cvr: without(before.cvr, auth.metadata.updated_by@),
                ..before
            })
            &&& restore_fails_with(result, outcome.failure().unwrap())
        },
    }
}

/// How restoring a Resonite session moves the tables and what it returns: an
/// extended session is stored under the session's user, and the same
/// authentication comes back stamped with the instant; on failure the user
/// is left without a row.
pub open spec fn resonite_restore_ends<V, C, R>(
    before: SessionsView<V, C, R>,
    auth: PlatformDataAndMetadata<resonite::Authentication, String>,
    outcome: ResoniteReauthOutcome<R>,
    now: i128,
    after: SessionsView<V, C, R>,
    result: Result<Authentication, String>,
) -> bool {
    match outcome {
        ResoniteReauthOutcome::Extended(client) => {
            &&& after == (SessionsView {
                resonite: upserted(before.resonite, Session { user: auth.data.user_id, client }),
                ..before
            })
            &&& result == Ok::<Authentication, String>(
                Authentication::Resonite(
                    PlatformDataAndMetadata {
                        data: auth.data,
                        metadata: PlatformDataMetadata {
                            updated_at: now,
                            updated_by: auth.metadata.updated_by,
                        },
                    },
                ),
            )
        },
        _ => {
            &&& after == (SessionsView {
                resonite: without(before.resonite, auth.data.user_id@),
                ..before
            })
            &&& restore_fails_with(result, outcome.failure().unwrap())
        },
    }
}

/// How restoring a session moves the tables and what it returns, whatever
/// the platform. An event of another platform than the authentication's is
/// refused and changes nothing.
pub open spec fn restore_ends<V, C, R>(
    before: SessionsView<V, C, R>,
    auth: Authentication,
    event: ReauthEvent<V, C, R>,
    now: i128,
    after: SessionsView<V, C, R>,
    result: Result<Authentication, String>,
) -> bool {
    match (auth, event) {
        (Authentication::VRChat(stored), ReauthEvent::VRChat(outcome)) => vrchat_restore_ends(
            before,
            stored,
            outcome,
            now,
            after,
            result,
        ),
        (
            Authentication::ChilloutVR(stored),
            ReauthEvent::ChilloutVR(outcome),
        ) => chilloutvr_restore_ends(before, stored, outcome, now, after, result),
        (Authentication::Resonite(stored), ReauthEvent::Resonite(outcome)) => resonite_restore_ends(
            before,
            stored,
            outcome,
            now,
            after,
            result,
        ),
        _ => after == before && restore_fails_with(result, platform_mismatch()),
    }
}

impl<V, C, R> OnlivfeApiClient<V, C, R> {
    /// Takes whatever the tables keep for the VRChat user out of them, so
    /// that its client can be reused.
    pub fn take_vrchat_client(&mut self, id: &String) -> (taken: Option<VRChatClientState<V>>)
        ensures
            final(self).agent() == old(self).agent(),
            final(self)@ == (SessionsView { vrc: without(old(self)@.vrc, id@), ..old(self)@ }),
            taken == kept_for(old(self)@.vrc, id@),
    {
        match self.vrc.remove(id) {
            Some(session) => Some(session.client),
            None => None,
        }
    }

    /// Takes the client of the Resonite user out of the tables, so that its
    /// session can be extended.
    pub fn take_resonite_session(&mut self, id: &String) -> (taken: Option<R>)
        ensures
            final(self).agent() == old(self).agent(),
            final(self)@ == (SessionsView {
                resonite: without(old(self)@.resonite, id@),
                ..old(self)@
            }),
            taken == kept_for(old(self)@.resonite, id@),
    {
        match self.resonite.remove(id) {
            Some(session) => Some(session.client),
            None => None,
        }
    }

    /// Takes in how restoring a VRChat session ended.
    pub fn reauthenticate_vrchat(
        &mut self,
        auth: PlatformDataAndMetadata<vrchat::Authentication, String>,
        outcome: VrcReauthOutcome<V>,
        now: i128,
    ) -> (result: Result<Authentication, String>)
        ensures
            final(self).agent() == old(self).agent(),
            vrchat_restore_ends(old(self)@, auth, outcome, now, final(self)@, result),
    {
        match outcome {
            VrcReauthOutcome::ClientCreationFailed => {
                self.vrc.remove(&auth.metadata.updated_by);
                Err("Internal error, VRChat API client creation failed".to_owned())
            },
            VrcReauthOutcome::ProbeFailed => {
                self.vrc.remove(&auth.metadata.updated_by);
                Err("Reauthentication failed".to_owned())
            },
            VrcReauthOutcome::Restored { client, current_user_id } => {
                self.vrc.update(
                    Session {
                        user: auth.metadata.updated_by,
                        client: VRChatClientState::Authenticated(client),
                    },
                );
                Ok(
                    Authentication::VRChat(
                        PlatformDataAndMetadata::new_at(auth.data, current_user_id, now),
                    ),
                )
            },
        }
    }

    /// Takes in how the fresh login that restores a ChilloutVR session ended.
    pub fn reauthenticate_chilloutvr(
        &mut self,
        auth: PlatformDataAndMetadata<cvr::SavedLoginCredentials, String>,
        outcome: CvrLoginOutcome<C>,
        now: i128,
    ) -> (result: Result<Authentication, String>)
        ensures
            final(self).agent() == old(self).agent(),
            chilloutvr_restore_ends(old(self)@, auth, outcome, now, final(self)@, result),
    {
        self.cvr.remove(&auth.metadata.updated_by);
        self.login_chilloutvr(outcome, now)
    }

    /// Takes in how restoring a Resonite session ended.
    pub fn reauthenticate_resonite(
        &mut self,
        auth: PlatformDataAndMetadata<resonite::Authentication, String>,
        outcome: ResoniteReauthOutcome<R>,
        now: i128,
    ) -> (result: Result<Authentication, String>)
        ensures
            final(self).agent() == old(self).agent(),
            resonite_restore_ends(old(self)@, auth, outcome, now, final(self)@, result),
    {
        match outcome {
            ResoniteReauthOutcome::ClientCreationFailed => {
                self.resonite.remove(&auth.data.user_id);
                Err("Internal error, Resonite API client creation failed".to_owned())
            },
            ResoniteReauthOutcome::ProbeFailed => {
                self.resonite.remove(&auth.data.user_id);
                Err("Reauthentication failed".to_owned())
            },
            ResoniteReauthOutcome::Extended(client) => {
                self.resonite.update(Session { user: auth.data.user_id.clone(), client });
                Ok(
                    Authentication::Resonite(
                        PlatformDataAndMetadata {
                            data: auth.data,
                            metadata: PlatformDataMetadata {
                                updated_at: now,
                                updated_by: auth.metadata.updated_by,
                            },
                        },
                    ),
                )
            },
        }
    }

    /// Used to restore authentication for example on app startup
    ///
    /// Takes in how the platform's requests ended. An event of another
    /// platform than the authentication's is refused and changes nothing.
    pub fn reauthenticate(
        &mut self,
        auth: Authentication,
        event: ReauthEvent<V, C, R>,
        now: i128,
    ) -> (result: Result<Authentication, String>)
        ensures
            final(self).agent() == old(self).agent(),
            restore_ends(old(self)@, auth, event, now, final(self)@, result),
    {
        match (auth, event) {
            (Authentication::VRChat(stored), ReauthEvent::VRChat(outcome)) => self.reauthenticate_vrchat(
                stored,
                outcome,
                now,
            ),
            (
                Authentication::ChilloutVR(stored),
                ReauthEvent::ChilloutVR(outcome),
            ) => self.reauthenticate_chilloutvr(stored, outcome, now),
            (
                Authentication::Resonite(stored),
                ReauthEvent::Resonite(outcome),
            ) => self.reauthenticate_resonite(stored, outcome, now),
            _ => Err("Auth and platform types don't match!".to_owned()),
        }
    }
}

} // verus!
