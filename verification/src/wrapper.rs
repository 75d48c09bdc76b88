//! The single entry point: the session tables and the repository together,
//! with the policy that decides when a cached record is fresh enough.
//!
//! A record is served from the repository while it is younger than
//! `REFRESH_INTERVAL`. Otherwise the caller fetches it and hands in what
//! came back; that is stored, and the read returns what the repository then
//! holds. A failed fetch therefore falls back to the cached record.

use vstd::prelude::*;
use vstd::string::*;
use crate::accounts::{PlatformAccount, PlatformFriend};
use crate::auth::{Authentication, LoginError};
use crate::cache_store::{DeleteProfileError, OnlivfeCacheStorageBackend, RepositoryView};
use crate::ids::{PlatformAccountId, PlatformIdView};
use crate::instances::{Instance, InstanceId};
use crate::mappings::{
    accounts_in_rows,
    accounts_of,
    listed_accounts,
    listed_profiles,
    pairs_of,
    profiles_in_rows,
    profiles_of,
    with_accounts_of_profile,
    with_profiles_of_account,
    MappingRow,
};
use crate::net::login::{login_ends, LoginEvent};
use crate::net::queries::{
    friends_fetched,
    friends_query_failed,
    instance_fetched,
    platform_account_fetched,
};
use crate::net::restore::{restore_ends, ReauthEvent};
use crate::net::{not_authenticated, OnlivfeApiClient, SessionsView};
use crate::platform::{all_platforms, platforms, PlatformType};
use crate::profile::{Profile, ProfileId};
use crate::record::PlatformRecord;
use crate::storage::{
    accepted_by,
    at_most,
    holds,
    lookup,
    refused_by,
    stored_in_turn,
    upserted,
    without,
    Keyed,
    StorageError,
};

verus! {

/// For how long a fetched record is served from the repository: one minute,
/// in nanoseconds.
pub const REFRESH_INTERVAL: i128 = 60_000_000_000;

/// How many friends a read of the friends list looks at.
pub const FRIENDS_LIMIT: usize = 512;

/// Whether a record fetched at `updated_at` may still be served at `now`.
pub open spec fn is_fresh(updated_at: int, now: int) -> bool {
    now - updated_at < REFRESH_INTERVAL
}

/// Whether a record fetched at `updated_at` may still be served at `now`.
pub fn fresh(updated_at: i128, now: i128) -> (served: bool)
    ensures
        served == is_fresh(updated_at as int, now as int),
{
    match now.checked_sub(updated_at) {
        Some(age) => age < REFRESH_INTERVAL,
        None => now < updated_at,
    }
}

/// The user agent of an application: its name, a slash, its version, and its
/// homepage in brackets.
pub open spec fn spec_user_agent(app_name: Seq<char>, version: Seq<char>, homepage: Seq<char>) -> Seq<
    char,
> {
    app_name + "/"@ + version + " ("@ + homepage + ")"@
}

/// Assembles the user agent that every client is created with.
pub fn user_agent(app_name: &str, version: &str, homepage: &str) -> (agent: String)
    ensures
        agent@ == spec_user_agent(app_name@, version@, homepage@),
{
    String::from_str(app_name).concat("/").concat(version).concat(" (").concat(homepage).concat(
        ")",
    )
}

/// An error that happened with reauthenticating multiple accounts
#[derive(Debug, PartialEq, Eq)]
pub enum ReauthError {
    /// Some accounts failed to authenticate: each with what went wrong
    FailedToAuthenticate(Vec<(String, PlatformAccountId)>),
}

/// The stored authentications that are to be restored: all of them, or only
/// those whose account holds no usable session.
pub open spec fn awaiting_restore<V, C, R>(
    stored: Seq<Authentication>,
    sessions: SessionsView<V, C, R>,
    include_already_in_api: bool,
) -> Seq<Authentication>
    decreases stored.len(),
{
    if stored.len() == 0 {
        Seq::empty()
    } else {
        let earlier = awaiting_restore(stored.drop_last(), sessions, include_already_in_api);
        if include_already_in_api || !sessions.is_authenticated(stored.last().key()) {
            earlier.push(stored.last())
        } else {
            earlier
        }
    }
}

/// The accounts that requests can be made with, platform by platform.
pub open spec fn authenticated_on<V, C, R>(
    sessions: SessionsView<V, C, R>,
    platforms: Seq<PlatformType>,
) -> Seq<PlatformAccountId>
    decreases platforms.len(),
{
    if platforms.len() == 0 {
        Seq::empty()
    } else {
        authenticated_on(sessions, platforms.drop_last()) + sessions.authenticated(
            platforms.last(),
        )
    }
}

/// Sums up a run of restores: the attempted ids if none failed, else the
/// failures, each with its message.
pub fn re_authenticated(
    attempted: Vec<PlatformAccountId>,
    failures: Vec<(String, PlatformAccountId)>,
) -> (summary: Result<Vec<PlatformAccountId>, ReauthError>)
    ensures
        summary == if failures@.len() == 0 {
            Ok::<Vec<PlatformAccountId>, ReauthError>(attempted)
        } else {
            Err(ReauthError::FailedToAuthenticate(failures))
        },
{
    if failures.len() == 0 {
        Ok(attempted)
    } else {
        Err(ReauthError::FailedToAuthenticate(failures))
    }
}

/// The friends that a read of the friends list looks at and returns.
pub open spec fn first_friends(friends: Seq<PlatformFriend>) -> Seq<PlatformFriend> {
    friends.take(at_most(FRIENDS_LIMIT, friends.len()))
}

/// Whether one of the friends is fresh.
pub open spec fn any_fresh(friends: Seq<PlatformFriend>, now: int) -> bool {
    exists|i: int|
        0 <= i < friends.len() && is_fresh(
            (#[trigger] friends[i]).envelope().metadata.updated_at as int,
            now,
        )
}

/// Whether the friend is in the repository and fresh.
pub open spec fn has_fresh_friend(friends: Seq<PlatformFriend>, id: PlatformIdView, now: int) -> bool {
    lookup(friends, id) matches Some(friend) && is_fresh(
        friend.envelope().metadata.updated_at as int,
        now,
    )
}

/// Whether the account is in the repository and fresh.
pub open spec fn has_fresh_account(accounts: Seq<PlatformAccount>, id: PlatformIdView, now: int) -> bool {
    lookup(accounts, id) matches Some(account) && is_fresh(
        account.envelope().metadata.updated_at as int,
        now,
    )
}

/// Whether the instance is in the repository and fresh.
pub open spec fn has_fresh_instance(instances: Seq<Instance>, id: PlatformIdView, now: int) -> bool {
    lookup(instances, id) matches Some(instance) && is_fresh(
        instance.envelope().metadata.updated_at as int,
        now,
    )
}

/// The message of a storage failure behind a login or a restore.
pub open spec fn refused_with<T, F: Fn(&Vec<T>) -> Result<(), StorageError>>(
    persist: &F,
    entries: Seq<T>,
    message: Seq<char>,
) -> bool {
    exists|cause: StorageError| #[trigger]
        refused_by(persist, entries, cause) && message == cause.spec_message()
}

/// The core struct that is used by apps/shells/clients to fetch data and invoke
/// actions.
pub struct Onlivfe<V, C, R> {
    /// The local cache storage of data that is used before network requests
    pub store: OnlivfeCacheStorageBackend,
    /// The unified API client
    pub api: OnlivfeApiClient<V, C, R>,
}

impl<V, C, R> Onlivfe<V, C, R> {
    /// Creates a new onlivfe client
    ///
    /// Remember to restore the stored sessions afterwards, to set the API
    /// client up properly.
    pub fn new(store: OnlivfeCacheStorageBackend, user_agent: String) -> (core: Self)
        ensures
            core.store == store,
            core.api.agent() == user_agent,
            core.api@.vrc.len() == 0,
            core.api@.cvr.len() == 0,
            core.api@.resonite.len() == 0,
    {
        Onlivfe { store, api: OnlivfeApiClient::new(user_agent) }
    }

    /// Gets currently authenticated API user IDs.
    pub fn authenticated_accounts(&self) -> (ids: Vec<PlatformAccountId>)
        ensures
            ids@ == authenticated_on(self.api@, all_platforms()),
            forall|a: int, b: int| 0 <= a < b < ids@.len() ==> ids@[a]@ != ids@[b]@,
            forall|i: int| 0 <= i < ids@.len() ==> self.api@.is_authenticated((#[trigger] ids@[i])@),
            forall|account: PlatformIdView| #[trigger]
                self.api@.is_authenticated(account) ==> exists|i: int|
                    0 <= i < ids@.len() && (#[trigger] ids@[i])@ == account,
    {
        let all = platforms();
        let mut ids: Vec<PlatformAccountId> = Vec::new();
        let mut p: usize = 0;
        proof {
            crate::platform::platforms_are_complete(PlatformType::VRChat);
        }
        while p < all.len()
            invariant
                p <= all@.len(),
                all@ == all_platforms(),
                all@.no_duplicates(),
                forall|a: int, b: int| 0 <= a < b < ids@.len() ==> ids@[a]@ != ids@[b]@,
                forall|i: int|
                    0 <= i < ids@.len() ==> self.api@.is_authenticated((#[trigger] ids@[i])@)
                        && exists|q: int| 0 <= q < p && #[trigger] all@[q] == ids@[i]@.platform,
                forall|account: PlatformIdView, q: int|
                    #[trigger] self.api@.is_authenticated(account) && 0 <= q < p && #[trigger] all@[q]
                        == account.platform ==> exists|i: int|
                        0 <= i < ids@.len() && (#[trigger] ids@[i])@ == account,
                ids@ == authenticated_on(self.api@, all@.take(p as int)),
            decreases all@.len() - p,
        {
            let ghost earlier = ids@;
            proof {
                assert(all@.take(p + 1).drop_last() =~= all@.take(p as int));
                assert(all@.take(p + 1).last() == all@[p as int]);
            }
            let mut more = self.api.authenticated_clients(all[p]);
            let ghost added = more@;
            ids.append(&mut more);
            proof {
                assert(ids@ =~= earlier + added);
                assert forall|i: int| 0 <= i < ids@.len() implies self.api@.is_authenticated(
                    (#[trigger] ids@[i])@,
                ) && exists|q: int| 0 <= q < p + 1 && #[trigger] all@[q] == ids@[i]@.platform by {
                    if i < earlier.len() {
                        assert(ids@[i] == earlier[i]);
                        let q = choose|q: int|
                            0 <= q < p && #[trigger] all@[q] == earlier[i]@.platform;
                        assert(0 <= q < p + 1 && all@[q] == ids@[i]@.platform);
                    } else {
                        assert(ids@[i] == added[i - earlier.len()]);
                        assert(all@[p as int] == ids@[i]@.platform);
                    }
                }
                assert forall|a: int, b: int| 0 <= a < b < ids@.len() implies ids@[a]@
                    != ids@[b]@ by {
                    if b < earlier.len() {
                        assert(ids@[a] == earlier[a] && ids@[b] == earlier[b]);
                    } else if a >= earlier.len() {
                        assert(ids@[a] == added[a - earlier.len()]);
                        assert(ids@[b] == added[b - earlier.len()]);
                    } else {
                        assert(ids@[a] == earlier[a]);
                        assert(ids@[b] == added[b - earlier.len()]);
                        assert(ids@[b]@.platform == all@[p as int]);
                        let q = choose|q: int|
                            0 <= q < p && #[trigger] all@[q] == earlier[a]@.platform;
                        assert(all@[q] != all@[p as int]);
                    }
                }
                assert forall|account: PlatformIdView, q: int|
                    #[trigger] self.api@.is_authenticated(account) && 0 <= q < p + 1
                        && #[trigger] all@[q] == account.platform implies exists|i: int|
                    0 <= i < ids@.len() && (#[trigger] ids@[i])@ == account by {
                    if q < p {
                        let i = choose|i: int|
                            0 <= i < earlier.len() && (#[trigger] earlier[i])@ == account;
                        assert(ids@[i] == earlier[i]);
                    } else {
                        let i = choose|i: int|
                            0 <= i < added.len() && (#[trigger] added[i])@ == account;
                        assert(ids@[earlier.len() + i] == added[i]);
                    }
                }
            }
            p += 1;
        }
        proof {
            assert(all@.take(p as int) =~= all@);
            assert forall|account: PlatformIdView| #[trigger]
                self.api@.is_authenticated(account) implies exists|i: int|
                0 <= i < ids@.len() && (#[trigger] ids@[i])@ == account by {
                crate::platform::platforms_are_complete(account.platform);
                let q = choose|q: int| 0 <= q < all@.len() && all@[q] == account.platform;
                assert(all@[q] == account.platform);
            }
        }
        ids
    }

    /// The stored authentications to restore: all of them, or only those
    /// whose account holds no usable session.
    pub fn to_reauthenticate(&self, include_already_in_api: bool) -> (waiting: Vec<Authentication>)
        ensures
            waiting@ == awaiting_restore(
                self.store@.authentications,
                self.api@,
                include_already_in_api,
            ),
    {
        let stored = self.store.authentications.entries();
        let mut waiting: Vec<Authentication> = Vec::new();
        let mut i: usize = 0;
        assert(stored@.take(0) =~= Seq::<Authentication>::empty());
        while i < stored.len()
            invariant
                i <= stored@.len(),
                stored@ == self.store@.authentications,
                waiting@ == awaiting_restore(
                    stored@.take(i as int),
                    self.api@,
                    include_already_in_api,
                ),
            decreases stored@.len() - i,
        {
            proof {
                assert(stored@.take(i + 1).drop_last() =~= stored@.take(i as int));
                assert(stored@.take(i + 1).last() == stored@[i as int]);
            }
            let live = match self.api.client(&stored[i].id()) {
                Ok(_) => true,
                Err(_) => false,
            };
            if include_already_in_api || !live {
                waiting.push(stored[i].clone());
            }
            i += 1;
        }
        assert(stored@.take(i as int) =~= stored@);
        waiting
    }

    /// Logs in to a platform
    ///
    /// Takes in how the platform's requests ended. A login that succeeded is
    /// persisted; if that fails the session stays live all the same, only
    /// the error is returned.
    pub fn login<F: Fn(&Vec<Authentication>) -> Result<(), StorageError>>(
        &mut self,
        event: LoginEvent<V, C, R>,
        now: i128,
        persist: &F,
    ) -> (result: Result<PlatformAccountId, LoginError>)
        requires
            forall|v: &Vec<Authentication>| call_requires(persist, (v,)),
        ensures
            final(self).api.agent() == old(self).api.agent(),
            exists|logged_in: Result<Authentication, LoginError>| #[trigger]
                login_ends(old(self).api@, event, now, final(self).api@, logged_in)
                    && match logged_in {
                    Err(e) => final(self).store@ == old(self).store@ && result == Err::<
                        PlatformAccountId,
                        LoginError,
                    >(e),
                    Ok(auth) => match result {
                        Ok(id) => {
                            &&& id@ == auth.key()
                            &&& final(self).store@ == (RepositoryView {
                                authentications: upserted(old(self).store@.authentications, auth),
                                ..old(self).store@
                            })
                            &&& accepted_by(persist, final(self).store@.authentications)
                        },
                        Err(e) => {
                            &&& final(self).store@ == old(self).store@
                            &&& e matches LoginError::Message(m) && refused_with(
                                persist,
                                upserted(old(self).store@.authentications, auth),
                                m@,
                            )
                        },
                    },
                },
    {
        let logged_in = self.api.login(event, now);
        let ghost ended = logged_in;
        let result = match logged_in {
            Err(e) => Err(e),
            Ok(auth) => {
                let id = auth.id();
                match self.store.update_authentication(auth, persist) {
                    Ok(_) => Ok(id),
                    Err(cause) => {
                        let message = cause.message();
                        assert(refused_with(
                            persist,
                            upserted(old(self).store@.authentications, auth),
                            message@,
                        ));
                        Err(LoginError::Message(message))
                    },
                }
            },
        };
        assert(login_ends(old(self).api@, event, now, self.api@, ended));
        result
    }

    /// Logs in to a platform from a previous authentication
    ///
    /// Takes in how the platform's requests ended. A restored
    /// authentication is persisted with its new timestamp.
    pub fn restore_login<F: Fn(&Vec<Authentication>) -> Result<(), StorageError>>(
        &mut self,
        login: Authentication,
        event: ReauthEvent<V, C, R>,
        now: i128,
        persist: &F,
    ) -> (result: Result<(), String>)
        requires
            forall|v: &Vec<Authentication>| call_requires(persist, (v,)),
        ensures
            final(self).api.agent() == old(self).api.agent(),
            exists|restored: Result<Authentication, String>| #[trigger]
                restore_ends(old(self).api@, login, event, now, final(self).api@, restored)
                    && match restored {
                    Err(e) => final(self).store@ == old(self).store@ && result == Err::<(), String>(
                        e,
                    ),
                    Ok(auth) => match result {
                        Ok(_) => {
                            &&& final(self).store@ == (RepositoryView {
                                authentications: upserted(old(self).store@.authentications, auth),
                                ..old(self).store@
                            })
                            &&& accepted_by(persist, final(self).store@.authentications)
                        },
                        Err(m) => {
                            &&& final(self).store@ == old(self).store@
                            &&& refused_with(
                                persist,
                                upserted(old(self).store@.authentications, auth),
                                m@,
                            )
                        },
                    },
                },
    {
        let restored = self.api.reauthenticate(login, event, now);
        let ghost ended = restored;
        let result = match restored {
            Err(e) => Err(e),
            Ok(auth) => match self.store.update_authentication(auth, persist) {
                Ok(_) => Ok(()),
                Err(cause) => {
                    let message = cause.message();
                    assert(refused_with(
                        persist,
                        upserted(old(self).store@.authentications, auth),
                        message@,
                    ));
                    Err(message)
                },
            },
        };
        assert(restore_ends(old(self).api@, login, event, now, self.api@, ended));
        result
    }

    /// Removes authentication
    ///
    /// The account's session is gone afterwards in any case. If telling the
    /// platform failed, that is the error and the stored authentication
    /// stays; else the stored authentication is removed and persisted.
    pub fn logout<F: Fn(&Vec<Authentication>) -> Result<(), StorageError>>(
        &mut self,
        id: PlatformAccountId,
        platform_logout_failed: bool,
        persist: &F,
    ) -> (result: Result<(), String>)
        requires
            forall|v: &Vec<Authentication>| call_requires(persist, (v,)),
        ensures
            final(self).api.agent() == old(self).api.agent(),
            final(self).api@ == old(self).api@.without_session(id@),
            !final(self).api@.has_session(id@),
            if platform_logout_failed {
                final(self).store@ == old(self).store@ && (result matches Err(m) && m@
                    == "Logout failed"@)
            } else {
                match result {
                    Ok(_) => {
                        &&& final(self).store@ == (RepositoryView {
                            authentications: without(old(self).store@.authentications, id@),
                            ..old(self).store@
                        })
                        &&& accepted_by(persist, final(self).store@.authentications)
                    },
                    Err(m) => {
                        &&& final(self).store@ == old(self).store@
                        &&& refused_with(
                            persist,
                            without(old(self).store@.authentications, id@),
                            m@,
                        )
                    },
                }
            },
    {
        self.api.logout(&id);
        if platform_logout_failed {
            return Err("Logout failed".to_owned());
        }
        match self.store.remove_authentication(id, persist) {
            Ok(_) => Ok(()),
            Err(cause) => Err(cause.message()),
        }
    }

    /// Whether the friend has to be fetched before it is read: it is not in
    /// the repository, or what is there is no longer fresh.
    pub fn friend_is_stale(&self, friend_id: &PlatformAccountId, now: i128) -> (stale: bool)
        ensures
            stale == !has_fresh_friend(self.store@.friends, friend_id@, now as int),
    {
        match self.store.friends.get(friend_id) {
            Ok(friend) => !fresh(friend.updated_at(), now),
            Err(_) => true,
        }
    }

    /// Gets a friend of an account
    ///
    /// `fetched` is the friends list that the platform sent back, `None` if
    /// it was not asked or did not answer. A fresh friend is served as it is
    /// stored. Else what was fetched is stored first, and the friend is
    /// served as it is stored then.
    pub fn friend(
        &mut self,
        get_as: &PlatformAccountId,
        friend_id: &PlatformAccountId,
        fetched: Option<Vec<PlatformRecord>>,
        now: i128,
    ) -> (friend: Result<PlatformFriend, String>)
        ensures
            final(self).api == old(self).api,
            final(self).store@ == (RepositoryView {
                friends: if has_fresh_friend(old(self).store@.friends, friend_id@, now as int) {
                    old(self).store@.friends
                } else {
                    match friends_fetched(old(self).api@, *get_as, fetched, now) {
                        Some(list) => stored_in_turn(old(self).store@.friends, list),
                        None => old(self).store@.friends,
                    }
                },
                ..old(self).store@
            }),
            match friend {
                Ok(found) => lookup(final(self).store@.friends, friend_id@) == Some(found),
                Err(message) => lookup(final(self).store@.friends, friend_id@) is None && message@
                    == "Friend not found"@,
            },
    {
        if self.friend_is_stale(friend_id, now) {
            match self.api.friends(get_as, fetched, now) {
                Ok(list) => {
                    self.store.update_friends(list);
                },
                Err(_) => {},
            }
        }
        match self.store.friends.get(friend_id) {
            Ok(found) => Ok(found.clone()),
            Err(_) => Err("Friend not found".to_owned()),
        }
    }

    /// Whether the friends have to be fetched before they are read: none of
    /// the stored friends is fresh.
    pub fn friends_are_stale(&self, now: i128) -> (stale: bool)
        ensures
            stale == !any_fresh(first_friends(self.store@.friends), now as int),
    {
        let stored = self.store.friends.entries();
        let mut i: usize = 0;
        while i < stored.len() && i < FRIENDS_LIMIT
            invariant
                i <= stored@.len(),
                i <= FRIENDS_LIMIT,
                stored@ == self.store@.friends,
                forall|k: int|
                    0 <= k < i ==> !is_fresh(
                        (#[trigger] stored@[k]).envelope().metadata.updated_at as int,
                        now as int,
                    ),
            decreases stored@.len() - i,
        {
            if fresh(stored[i].updated_at(), now) {
                assert(first_friends(stored@)[i as int] == stored@[i as int]);
                return false;
            }
            i += 1;
        }
        proof {
            let first = first_friends(stored@);
            assert forall|k: int| 0 <= k < first.len() implies !is_fresh(
                (#[trigger] first[k]).envelope().metadata.updated_at as int,
                now as int,
            ) by {
                assert(first[k] == stored@[k]);
            }
        }
        true
    }

    /// Gets friends of an account
    ///
    /// `fetched` is the friends list that the platform sent back, `None` if
    /// it was not asked or did not answer. While one of the stored friends
    /// is fresh, the stored friends are served. Else what was fetched is
    /// stored first. Only when nothing was fetched and nothing is stored is
    /// there an error.
    pub fn friends(
        &mut self,
        id: &PlatformAccountId,
        fetched: Option<Vec<PlatformRecord>>,
        now: i128,
    ) -> (friends: Result<Vec<PlatformFriend>, String>)
        ensures
            final(self).api == old(self).api,
            final(self).store@ == (RepositoryView {
                friends: if any_fresh(first_friends(old(self).store@.friends), now as int) {
                    old(self).store@.friends
                } else {
                    match friends_fetched(old(self).api@, *id, fetched, now) {
                        Some(list) => stored_in_turn(old(self).store@.friends, list),
                        None => old(self).store@.friends,
                    }
                },
                ..old(self).store@
            }),
            friends is Err <==> !any_fresh(first_friends(old(self).store@.friends), now as int)
                && friends_fetched(old(self).api@, *id, fetched, now) is None
                && old(self).store@.friends.len() == 0,
            match friends {
                Ok(list) => list@ == first_friends(final(self).store@.friends),
                Err(message) => message@ == if !old(self).api@.is_authenticated(id@) {
                    not_authenticated(id@.platform)
                } else {
                    friends_query_failed(id@.platform)
                },
            },
    {
        if self.friends_are_stale(now) {
            match self.api.friends(id, fetched, now) {
                Ok(list) => {
                    self.store.update_friends(list);
                },
                Err(message) => {
                    if self.store.friends.len() == 0 {
                        return Err(message);
                    }
                },
            }
        }
        Ok(self.store.friends(FRIENDS_LIMIT))
    }

    /// Whether the account has to be fetched before it is read: it is not in
    /// the repository, or what is there is no longer fresh.
    pub fn platform_account_is_stale(&self, account_id: &PlatformAccountId, now: i128) -> (stale:
        bool)
        ensures
            stale == !has_fresh_account(self.store@.accounts, account_id@, now as int),
    {
        match self.store.accounts.get(account_id) {
            Ok(account) => !fresh(account.updated_at(), now),
            Err(_) => true,
        }
    }

    /// Gets a platform account
    ///
    /// `fetched` is the account that the platform sent back, `None` if it
    /// was not asked or did not answer. A fresh account is served as it is
    /// stored. Else what was fetched is stored first, and the account is
    /// served as it is stored then.
    pub fn platform_account(
        &mut self,
        get_as: &PlatformAccountId,
        account_id: &PlatformAccountId,
        fetched: Option<PlatformRecord>,
        now: i128,
    ) -> (account: Result<PlatformAccount, String>)
        ensures
            final(self).api == old(self).api,
            final(self).store@ == (RepositoryView {
                accounts: if has_fresh_account(old(self).store@.accounts, account_id@, now as int) {
                    old(self).store@.accounts
                } else {
                    match platform_account_fetched(
                        old(self).api@,
                        *get_as,
                        *account_id,
                        fetched,
                        now,
                    ) {
                        Some(found) => upserted(old(self).store@.accounts, found),
                        None => old(self).store@.accounts,
                    }
                },
                ..old(self).store@
            }),
            match account {
                Ok(found) => lookup(final(self).store@.accounts, account_id@) == Some(found),
                Err(message) => lookup(final(self).store@.accounts, account_id@) is None
                    && message@ == "Platform account not found"@,
            },
    {
        if self.platform_account_is_stale(account_id, now) {
            match self.api.platform_account(get_as, account_id, fetched, now) {
                Ok(found) => {
                    self.store.update_account(found);
                },
                Err(_) => {},
            }
        }
        match self.store.accounts.get(account_id) {
            Ok(found) => Ok(found.clone()),
            Err(_) => Err("Platform account not found".to_owned()),
        }
    }

    /// Whether the instance has to be fetched before it is read: it is not
    /// in the repository, or what is there is no longer fresh.
    pub fn instance_is_stale(&self, instance_id: &InstanceId, now: i128) -> (stale: bool)
        ensures
            stale == !has_fresh_instance(self.store@.instances, instance_id@, now as int),
    {
        match self.store.instances.get(instance_id) {
            Ok(instance) => !fresh(instance.updated_at(), now),
            Err(_) => true,
        }
    }

    /// Gets details about an instance
    ///
    /// `fetched` is the instance that the platform sent back, `None` if it
    /// was not asked or did not answer. A fresh instance is served as it is
    /// stored. Else what was fetched is stored first, and the instance is
    /// served as it is stored then.
    pub fn instance(
        &mut self,
        get_as: &PlatformAccountId,
        instance_id: &InstanceId,
        fetched: Option<PlatformRecord>,
        now: i128,
    ) -> (instance: Result<Instance, String>)
        ensures
            final(self).api == old(self).api,
            final(self).store@ == (RepositoryView {
                instances: if has_fresh_instance(
                    old(self).store@.instances,
                    instance_id@,
                    now as int,
                ) {
                    old(self).store@.instances
                } else {
                    match instance_fetched(old(self).api@, *get_as, *instance_id, fetched, now) {
                        Some(found) => upserted(old(self).store@.instances, found),
                        None => old(self).store@.instances,
                    }
                },
                ..old(self).store@
            }),
            match instance {
                Ok(found) => lookup(final(self).store@.instances, instance_id@) == Some(found),
                Err(message) => lookup(final(self).store@.instances, instance_id@) is None
                    && message@ == "Instance not found"@,
            },
    {
        if self.instance_is_stale(instance_id, now) {
            match self.api.instance(get_as, instance_id, fetched, now) {
                Ok(found) => {
                    self.store.update_instance(found);
                },
                Err(_) => {},
            }
        }
        match self.store.instances.get(instance_id) {
            Ok(found) => Ok(found.clone()),
            Err(_) => Err("Instance not found".to_owned()),
        }
    }

    /// Gets a platform account's profiles
    pub fn profiles(&self, account_id: PlatformAccountId) -> (found: Result<Vec<Profile>, String>)
        ensures
            found is Ok <==> forall|profile: u128|
                profiles_of(self.store@.mappings, account_id@).contains(profile) ==> holds(
                    self.store@.profiles,
                    profile,
                ),
            found matches Ok(profiles) ==> {
                &&& profiles@.len() == profiles_in_rows(
                    self.store.profiles_to_accounts.rows(),
                    account_id@,
                ).len()
                &&& forall|i: int|
                    0 <= i < profiles@.len() ==> (#[trigger] profiles@[i]).key()
                        == profiles_in_rows(
                        self.store.profiles_to_accounts.rows(),
                        account_id@,
                    )[i]@
                &&& forall|i: int|
                    0 <= i < profiles@.len() ==> profiles_of(
                        self.store@.mappings,
                        account_id@,
                    ).contains((#[trigger] profiles@[i]).key()) && lookup(
                        self.store@.profiles,
                        profiles@[i].key(),
                    ) == Some(profiles@[i])
                &&& forall|profile: u128|
                    profiles_of(self.store@.mappings, account_id@).contains(profile) ==> exists|
                        i: int,
                    | 0 <= i < profiles@.len() && (#[trigger] profiles@[i]).key() == profile
                &&& forall|a: int, b: int|
                    0 <= a < b < profiles@.len() ==> profiles@[a].key() != profiles@[b].key()
            },
            found matches Err(message) ==> message@ == "Failed to retrieve account profiles"@,
    {
        match self.store.account_profiles(account_id) {
            Ok(profiles) => Ok(profiles),
            Err(_) => Err("Failed to retrieve account profiles".to_owned()),
        }
    }

    /// Updates a profile, returning a bool indicating if an existing one was
    /// updated, which gives false the meaning of the profile was now created.
    pub fn update_profile<F: Fn(&Vec<Profile>) -> Result<(), StorageError>>(
        &mut self,
        profile: Profile,
        persist: &F,
    ) -> (outcome: Result<bool, String>)
        requires
            forall|v: &Vec<Profile>| call_requires(persist, (v,)),
        ensures
            final(self).api == old(self).api,
            match outcome {
                Ok(replaced) => {
                    &&& final(self).store@ == (RepositoryView {
                        profiles: upserted(old(self).store@.profiles, profile),
                        ..old(self).store@
                    })
                    &&& replaced == holds(old(self).store@.profiles, profile.key())
                    &&& accepted_by(persist, final(self).store@.profiles)
                },
                Err(message) => {
                    &&& final(self).store@ == old(self).store@
                    &&& message@ == "Failed to update profile"@
                    &&& exists|cause: StorageError| #[trigger]
                        refused_by(persist, upserted(old(self).store@.profiles, profile), cause)
                },
            },
    {
        match self.store.update_profile(profile, persist) {
            Ok(replaced) => Ok(replaced),
            Err(_) => Err("Failed to update profile".to_owned()),
        }
    }

    /// Gets the profile's mapped accounts
    pub fn profile_accounts(&self, profile_id: ProfileId) -> (ids: Vec<PlatformAccountId>)
        ensures
            ids@ == accounts_in_rows(self.store.profiles_to_accounts.rows(), profile_id@),
            listed_accounts(ids@) == accounts_of(self.store@.mappings, profile_id@),
            forall|a: int, b: int| 0 <= a < b < ids@.len() ==> ids@[a]@ != ids@[b]@,
    {
        self.store.profile_account_ids(profile_id)
    }

    /// Updates the profile's mapped accounts
    pub fn update_profile_accounts<F: Fn(&Vec<MappingRow>) -> Result<(), StorageError>>(
        &mut self,
        profile_id: ProfileId,
        account_ids: Vec<PlatformAccountId>,
        persist: &F,
    ) -> (outcome: Result<(), String>)
        requires
            forall|v: &Vec<MappingRow>| call_requires(persist, (v,)),
        ensures
            final(self).api == old(self).api,
            match outcome {
                Ok(_) => {
                    &&& final(self).store@ == (RepositoryView {
                        mappings: with_accounts_of_profile(
                            old(self).store@.mappings,
                            profile_id@,
                            listed_accounts(account_ids@),
                        ),
                        ..old(self).store@
                    })
                    &&& accepted_by(persist, final(self).store.profiles_to_accounts.rows())
                },
                Err(message) => {
                    &&& final(self).store@ == old(self).store@
                    &&& message@ == "Failed to update profile account mappings"@
                    &&& exists|tried: Seq<MappingRow>, cause: StorageError|
                        pairs_of(tried) == with_accounts_of_profile(
                            old(self).store@.mappings,
                            profile_id@,
                            listed_accounts(account_ids@),
                        ) && #[trigger] refused_by(persist, tried, cause)
                },
            },
    {
        match self.store.update_profile_account_ids(profile_id, account_ids, persist) {
            Ok(_) => Ok(()),
            Err(cause) => {
                proof {
                    let tried = choose|tried: Seq<MappingRow>|
                        pairs_of(tried) == with_accounts_of_profile(
                            old(self).store@.mappings,
                            profile_id@,
                            listed_accounts(account_ids@),
                        ) && #[trigger] refused_by(persist, tried, cause);
                    assert(refused_by(persist, tried, cause));
                }
                Err("Failed to update profile account mappings".to_owned())
            },
        }
    }

    /// Gets the accounts's mapped profiles
    pub fn account_profiles(&self, account_id: PlatformAccountId) -> (ids: Vec<ProfileId>)
        ensures
            ids@ == profiles_in_rows(self.store.profiles_to_accounts.rows(), account_id@),
            listed_profiles(ids@) == profiles_of(self.store@.mappings, account_id@),
            forall|a: int, b: int| 0 <= a < b < ids@.len() ==> ids@[a]@ != ids@[b]@,
    {
        self.store.account_profile_ids(account_id)
    }

    /// Updates the account's mapped profiles
    pub fn update_account_profiles<F: Fn(&Vec<MappingRow>) -> Result<(), StorageError>>(
        &mut self,
        account_id: PlatformAccountId,
        profile_ids: Vec<ProfileId>,
        persist: &F,
    ) -> (outcome: Result<(), String>)
        requires
            forall|v: &Vec<MappingRow>| call_requires(persist, (v,)),
        ensures
            final(self).api == old(self).api,
            match outcome {
                Ok(_) => {
                    &&& final(self).store@ == (RepositoryView {
                        mappings: with_profiles_of_account(
                            old(self).store@.mappings,
                            account_id@,
                            listed_profiles(profile_ids@),
                        ),
                        ..old(self).store@
                    })
                    &&& accepted_by(persist, final(self).store.profiles_to_accounts.rows())
                },
                Err(message) => {
                    &&& final(self).store@ == old(self).store@
                    &&& message@ == "Failed to update account profile mappings"@
                    &&& exists|tried: Seq<MappingRow>, cause: StorageError|
                        pairs_of(tried) == with_profiles_of_account(
                            old(self).store@.mappings,
                            account_id@,
                            listed_profiles(profile_ids@),
                        ) && #[trigger] refused_by(persist, tried, cause)
                },
            },
    {
        match self.store.update_account_profile_ids(account_id, profile_ids, persist) {
            Ok(_) => Ok(()),
            Err(cause) => {
                proof {
                    let tried = choose|tried: Seq<MappingRow>|
                        pairs_of(tried) == with_profiles_of_account(
                            old(self).store@.mappings,
                            account_id@,
                            listed_profiles(profile_ids@),
                        ) && #[trigger] refused_by(persist, tried, cause);
                    assert(refused_by(persist, tried, cause));
                }
                Err("Failed to update account profile mappings".to_owned())
            },
        }
    }

    /// Removes a profile fully.
    ///
    /// The profile's rows in the relation go first, then the profile. If
    /// the relation cannot be persisted, nothing has changed; if only the
    /// profiles cannot, the profile is still there without its rows.
    pub fn delete_profile<
        FM: Fn(&Vec<MappingRow>) -> Result<(), StorageError>,
        FP: Fn(&Vec<Profile>) -> Result<(), StorageError>,
    >(&mut self, profile_id: ProfileId, persist_mappings: &FM, persist_profiles: &FP) -> (outcome:
        Result<(), String>)
        requires
            forall|v: &Vec<MappingRow>| call_requires(persist_mappings, (v,)),
            forall|v: &Vec<Profile>| call_requires(persist_profiles, (v,)),
        ensures
            final(self).api == old(self).api,
            match outcome {
                Ok(_) => {
                    &&& final(self).store@ == (RepositoryView {
                        mappings: with_accounts_of_profile(
                            old(self).store@.mappings,
                            profile_id@,
                            Set::<PlatformIdView>::empty(),
                        ),
                        profiles: without(old(self).store@.profiles, profile_id@),
                        ..old(self).store@
                    })
                    &&& accepted_by(persist_mappings, final(self).store.profiles_to_accounts.rows())
                    &&& accepted_by(persist_profiles, final(self).store@.profiles)
                },
                Err(message) => {
                    &&& message@ == "Failed to delete profile"@
                    &&& {
                        ||| {
                            &&& final(self).store@ == old(self).store@
                            &&& exists|tried: Seq<MappingRow>, cause: StorageError|
                                pairs_of(tried) == with_accounts_of_profile(
                                    old(self).store@.mappings,
                                    profile_id@,
                                    Set::<PlatformIdView>::empty(),
                                ) && #[trigger] refused_by(persist_mappings, tried, cause)
                        }
                        ||| {
                            &&& final(self).store@ == (RepositoryView {
                                mappings: with_accounts_of_profile(
                                    old(self).store@.mappings,
                                    profile_id@,
                                    Set::<PlatformIdView>::empty(),
                                ),
                                ..old(self).store@
                            })
                            &&& accepted_by(
                                persist_mappings,
                                final(self).store.profiles_to_accounts.rows(),
                            )
                            &&& exists|cause: StorageError| #[trigger]
                                refused_by(
                                    persist_profiles,
                                    without(old(self).store@.profiles, profile_id@),
                                    cause,
                                )
                        }
                    }
                },
            },
    {
        match self.store.delete_profile(profile_id, persist_mappings, persist_profiles) {
            Ok(_) => Ok(()),
            Err(DeleteProfileError::Mappings(cause)) => {
                proof {
                    let tried = choose|tried: Seq<MappingRow>|
                        pairs_of(tried) == with_accounts_of_profile(
                            old(self).store@.mappings,
                            profile_id@,
                            Set::<PlatformIdView>::empty(),
                        ) && #[trigger] refused_by(persist_mappings, tried, cause);
                    assert(refused_by(persist_mappings, tried, cause));
                }
                Err("Failed to delete profile".to_owned())
            },
            Err(DeleteProfileError::Profiles(cause)) => {
                assert(refused_by(
                    persist_profiles,
                    without(old(self).store@.profiles, profile_id@),
                    cause,
                ));
                Err("Failed to delete profile".to_owned())
            },
        }
    }
}

} // verus!
