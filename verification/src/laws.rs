//! What holds of the core as a whole: the laws that tie its operations
//! together, each proved from the operations' own contracts.

use vstd::prelude::*;
use crate::accounts::{PlatformAccount, PlatformFriend};
use crate::assets::{Avatar, World};
use crate::auth::{Authentication, LoginError};
use crate::ids::PlatformIdView;
use crate::instances::Instance;
use crate::mappings::{accounts_of, profiles_of, with_accounts_of_profile, with_profiles_of_account};
use crate::net::login::{
    vrchat_login_ends,
    vrchat_second_factor_ends,
    VrcLoginOutcome,
    VrcSecondFactorOutcome,
};
use crate::net::{kept_for, SessionsView, VRChatClientState};
use crate::platform::PlatformType;
use crate::storage::{
    distinct_keys,
    holds,
    index_is_unique,
    index_of,
    lookup,
    removal_keeps_keys_distinct,
    upserted,
    without,
    Keyed,
};
use crate::wrapper::{is_fresh, REFRESH_INTERVAL};

verus! {

/// The id of an entity is an id of the entity's own platform, for every kind
/// of entity.
pub proof fn entity_ids_are_of_the_entity_platform(
    account: PlatformAccount,
    friend: PlatformFriend,
    instance: Instance,
    world: World,
    avatar: Avatar,
)
    ensures
        account.spec_id().platform == account.spec_platform(),
        friend.spec_id().platform == friend.spec_platform(),
        instance.spec_id().platform == instance.spec_platform(),
        world.spec_id().platform == world.spec_platform(),
        avatar.spec_id().platform == avatar.spec_platform(),
{
}

/// The account of an authentication, and the account in its metadata, are
/// accounts of the authentication's own platform.
pub proof fn authentication_ids_are_of_its_platform(authentication: Authentication)
    ensures
        authentication.spec_id().platform == authentication.spec_platform(),
        authentication.spec_metadata().updated_by.platform == authentication.spec_platform(),
{
}

/// What was stored is what is found: after an entry is stored, a lookup of
/// its id gives that very entry, every other id gives what it gave before,
/// and still no two entries share an id.
pub proof fn stored_entry_is_found<E: Keyed>(entries: Seq<E>, entry: E)
    requires
        distinct_keys(entries),
    ensures
        lookup(upserted(entries, entry), entry.key()) == Some(entry),
        distinct_keys(upserted(entries, entry)),
        forall|key: <E::Id as View>::V|
            key != entry.key() ==> #[trigger] lookup(upserted(entries, entry), key) == lookup(
                entries,
                key,
            ),
{
    let after = upserted(entries, entry);
    if holds(entries, entry.key()) {
        let at = index_of(entries, entry.key());
        assert(after[at] == entry);
        assert forall|i: int, j: int| 0 <= i < j < after.len() implies (#[trigger] after[i]).key()
            != (#[trigger] after[j]).key() by {
            assert(after[i].key() == entries[i].key());
            assert(after[j].key() == entries[j].key());
        }
        index_is_unique(after, at);
        assert forall|key: <E::Id as View>::V| key != entry.key() implies #[trigger] lookup(
            after,
            key,
        ) == lookup(entries, key) by {
            if holds(entries, key) {
                let i = index_of(entries, key);
                assert(after[i] == entries[i]);
                index_is_unique(after, i);
                index_is_unique(entries, i);
            } else if holds(after, key) {
                let i = index_of(after, key);
                assert(after[i] == entries[i]);
            }
        }
    } else {
        let at = entries.len() as int;
        assert(after[at] == entry);
        assert forall|i: int, j: int| 0 <= i < j < after.len() implies (#[trigger] after[i]).key()
            != (#[trigger] after[j]).key() by {
            assert(after[i] == entries[i]);
            if j < at {
                assert(after[j] == entries[j]);
            }
        }
        index_is_unique(after, at);
        assert forall|key: <E::Id as View>::V| key != entry.key() implies #[trigger] lookup(
            after,
            key,
        ) == lookup(entries, key) by {
            if holds(entries, key) {
                let i = index_of(entries, key);
                assert(after[i] == entries[i]);
                index_is_unique(after, i);
                index_is_unique(entries, i);
            } else if holds(after, key) {
                let i = index_of(after, key);
                assert(after[i] == entries[i]);
            }
        }
    }
}

/// What was removed is gone: after the entry under an id is taken out, a
/// lookup of that id finds nothing, and taking it out once more changes
/// nothing.
pub proof fn removed_entry_is_gone<E: Keyed>(entries: Seq<E>, key: <E::Id as View>::V)
    requires
        distinct_keys(entries),
    ensures
        lookup(without(entries, key), key) is None,
        without(without(entries, key), key) == without(entries, key),
        distinct_keys(without(entries, key)),
{
    removal_keeps_keys_distinct(entries, key);
}

/// After the accounts of a profile were set, the profile has exactly those
/// accounts, and the other profiles have what they had.
pub proof fn profile_has_the_accounts_it_was_given(
    pairs: Set<(PlatformIdView, u128)>,
    profile: u128,
    accounts: Set<PlatformIdView>,
    other: u128,
)
    ensures
        accounts_of(with_accounts_of_profile(pairs, profile, accounts), profile) == accounts,
        other != profile ==> accounts_of(with_accounts_of_profile(pairs, profile, accounts), other)
            == accounts_of(pairs, other),
{
    assert(accounts_of(with_accounts_of_profile(pairs, profile, accounts), profile) =~= accounts);
    if other != profile {
        assert(accounts_of(with_accounts_of_profile(pairs, profile, accounts), other)
            =~= accounts_of(pairs, other));
    }
}

/// After the profiles of an account were set, the account has exactly those
/// profiles, and the other accounts have what they had.
pub proof fn account_has_the_profiles_it_was_given(
    pairs: Set<(PlatformIdView, u128)>,
    account: PlatformIdView,
    profiles: Set<u128>,
    other: PlatformIdView,
)
    ensures
        profiles_of(with_profiles_of_account(pairs, account, profiles), account) == profiles,
        other != account ==> profiles_of(with_profiles_of_account(pairs, account, profiles), other)
            == profiles_of(pairs, other),
{
    assert(profiles_of(with_profiles_of_account(pairs, account, profiles), account) =~= profiles);
    if other != account {
        assert(profiles_of(with_profiles_of_account(pairs, account, profiles), other)
            =~= profiles_of(pairs, other));
    }
}

/// The relation reads the same from both sides: after the accounts of a
/// profile were set, an account has the profile exactly if it is one of
/// them, and its other profiles are untouched.
pub proof fn mapping_is_symmetric(
    pairs: Set<(PlatformIdView, u128)>,
    profile: u128,
    accounts: Set<PlatformIdView>,
    account: PlatformIdView,
)
    ensures
        profiles_of(with_accounts_of_profile(pairs, profile, accounts), account) == if accounts.contains(
            account,
        ) {
            profiles_of(pairs, account).insert(profile)
        } else {
            profiles_of(pairs, account).remove(profile)
        },
{
    let after = profiles_of(with_accounts_of_profile(pairs, profile, accounts), account);
    if accounts.contains(account) {
        assert(after =~= profiles_of(pairs, account).insert(profile));
    } else {
        assert(after =~= profiles_of(pairs, account).remove(profile));
    }
}

/// After a profile was deleted it has no accounts, no account has it, and a
/// lookup of the profile finds nothing.
pub proof fn deleted_profile_is_gone<P: Keyed>(
    pairs: Set<(PlatformIdView, u128)>,
    profiles: Seq<P>,
    profile: u128,
    key: <P::Id as View>::V,
    account: PlatformIdView,
)
    requires
        distinct_keys(profiles),
    ensures
        accounts_of(
            with_accounts_of_profile(pairs, profile, Set::<PlatformIdView>::empty()),
            profile,
        ) == Set::<PlatformIdView>::empty(),
        !profiles_of(
            with_accounts_of_profile(pairs, profile, Set::<PlatformIdView>::empty()),
            account,
        ).contains(profile),
        lookup(without(profiles, key), key) is None,
{
    assert(accounts_of(
        with_accounts_of_profile(pairs, profile, Set::<PlatformIdView>::empty()),
        profile,
    ) =~= Set::<PlatformIdView>::empty());
    removal_keeps_keys_distinct(profiles, key);
}

/// The freshness window is exact: a record is served from the repository at
/// every instant before its age reaches the refresh interval, and at no
/// instant from there on.
pub proof fn refresh_interval_is_exact(updated_at: int, now: int)
    ensures
        now < updated_at + REFRESH_INTERVAL ==> is_fresh(updated_at, now),
        now >= updated_at + REFRESH_INTERVAL ==> !is_fresh(updated_at, now),
{
}

/// The first stage of a VRChat login that still needs a second factor ends
/// by asking for it, naming the account, and leaves that account's login
/// parked in the table.
pub proof fn unfinished_login_is_parked<V, C, R>(
    before: SessionsView<V, C, R>,
    outcome: VrcLoginOutcome<V>,
    now: i128,
    after: SessionsView<V, C, R>,
    result: Result<Authentication, LoginError>,
)
    requires
        distinct_keys(before.vrc),
        outcome matches VrcLoginOutcome::LoggedIn { required_factors, .. }
            && required_factors@.len() > 0,
        vrchat_login_ends(before, outcome, now, after, result),
    ensures
        result matches Err(LoginError::RequiresAdditionalFactor(account)) && account@ == (
        PlatformIdView {
            platform: PlatformType::VRChat,
            id: outcome->LoggedIn_user_id@,
        }),
        kept_for(after.vrc, outcome->LoggedIn_user_id@) matches Some(
            VRChatClientState::Authenticating((_, partial)),
        ) && partial.token == outcome->LoggedIn_token && partial.second_factor_token is None,
        distinct_keys(after.vrc),
{
    let user_id = outcome->LoggedIn_user_id;
    let row = crate::net::Session {
        user: user_id,
        client: VRChatClientState::Authenticating(
            (
                outcome->LoggedIn_client,
                crate::vrchat::Authentication {
                    token: outcome->LoggedIn_token,
                    second_factor_token: None,
                },
            ),
        ),
    };
    stored_entry_is_found(before.vrc, row);
}

/// A second factor for an account whose login is not parked fails with a
/// message, never by asking for a second factor again, and changes nothing.
pub proof fn second_factor_needs_a_parked_login<V, C, R>(
    before: SessionsView<V, C, R>,
    id: Seq<char>,
    outcome: VrcSecondFactorOutcome<V>,
    now: i128,
    after: SessionsView<V, C, R>,
    result: Result<Authentication, LoginError>,
)
    requires
        !(kept_for(before.vrc, id) matches Some(VRChatClientState::Authenticating(_))),
        vrchat_second_factor_ends(before, id, outcome, now, after, result),
    ensures
        result matches Err(LoginError::Message(_)),
        after == before,
{
}

/// A second factor that the platform did not accept leaves the login parked
/// as it was, so that another code can be tried.
pub proof fn refused_second_factor_keeps_the_login_parked<V, C, R>(
    before: SessionsView<V, C, R>,
    id: Seq<char>,
    outcome: VrcSecondFactorOutcome<V>,
    now: i128,
    after: SessionsView<V, C, R>,
    result: Result<Authentication, LoginError>,
)
    requires
        !(outcome is Verified),
        vrchat_second_factor_ends(before, id, outcome, now, after, result),
    ensures
        result matches Err(LoginError::Message(_)),
        after == before,
{
}

/// Logging out leaves the account without a row, whatever was there, and
/// logging out once more changes nothing.
pub proof fn logged_out_account_has_no_session<V, C, R>(
    before: SessionsView<V, C, R>,
    account: PlatformIdView,
)
    requires
        distinct_keys(before.vrc),
        distinct_keys(before.cvr),
        distinct_keys(before.resonite),
    ensures
        !before.without_session(account).has_session(account),
        !before.without_session(account).is_authenticated(account),
        before.without_session(account).without_session(account) == before.without_session(
            account,
        ),
{
    removal_keeps_keys_distinct(before.vrc, account.id);
    removal_keeps_keys_distinct(before.cvr, account.id);
    removal_keeps_keys_distinct(before.resonite, account.id);
}

} // verus!
