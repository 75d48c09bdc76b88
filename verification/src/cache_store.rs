//! The repository: every collection of the core in one place, with the
//! durable ones handed to the caller's `persist` callbacks on each change.
//!
//! Authentications, profiles and the profile-account relation are durable.
//! A change to one of them goes to its `persist` callback before the call
//! returns, and is taken back if the callback fails: whenever a call has
//! returned, memory holds what was last persisted successfully.

use vstd::prelude::*;
use crate::accounts::{PlatformAccount, PlatformFriend};
use crate::assets::{Avatar, AvatarId, World, WorldId};
use crate::auth::Authentication;
use crate::ids::{PlatformAccountId, PlatformIdView};
use crate::instances::{Instance, InstanceId};
use crate::mappings::{
    accounts_in_rows,
    accounts_of,
    listed_accounts,
    listed_profiles,
    pairs_of,
    profiles_in_rows,
    profiles_of,
    with_accounts_of_profile,
    with_profiles_of_account,
    MappingRow,
    ProfileAccountMappings,
};
use crate::profile::{Profile, ProfileId};
use crate::storage::{
    accepted_by,
    at_most,
    holds,
    index_of,
    lookup,
    refused_by,
    replaced_in_turn,
    results_of,
    settled_in_turn,
    stored_in_turn,
    upserted,
    without,
    Collection,
    Keyed,
    StorageError,
};

verus! {

/// What the repository holds.
pub struct RepositoryView {
    pub profiles: Seq<Profile>,
    pub accounts: Seq<PlatformAccount>,
    pub friends: Seq<PlatformFriend>,
    pub mappings: Set<(PlatformIdView, u128)>,
    pub authentications: Seq<Authentication>,
    pub instances: Seq<Instance>,
    pub worlds: Seq<World>,
    pub avatars: Seq<Avatar>,
}

/// An in-memory cache storage backend for onlivfe
///
/// Built for simplicity & quick iterating, not for efficiency.
pub struct OnlivfeCacheStorageBackend {
    pub profiles: Collection<Profile>,
    pub accounts: Collection<PlatformAccount>,
    pub friends: Collection<PlatformFriend>,
    pub profiles_to_accounts: ProfileAccountMappings,
    pub authentications: Collection<Authentication>,
    pub instances: Collection<Instance>,
    pub worlds: Collection<World>,
    pub avatars: Collection<Avatar>,
}

impl View for OnlivfeCacheStorageBackend {
    type V = RepositoryView;

    open spec fn view(&self) -> RepositoryView {
        RepositoryView {
            profiles: self.profiles@,
            accounts: self.accounts@,
            friends: self.friends@,
            mappings: self.profiles_to_accounts@,
            authentications: self.authentications@,
            instances: self.instances@,
            worlds: self.worlds@,
            avatars: self.avatars@,
        }
    }
}

/// How deleting a profile can fail.
#[derive(Debug, PartialEq, Eq)]
pub enum DeleteProfileError {
    /// The relation could not be persisted; nothing was changed.
    Mappings(StorageError),
    /// The profiles could not be persisted: the profile is still there, its
    /// rows in the relation are gone, in memory as in what was persisted.
    Profiles(StorageError),
}

impl DeleteProfileError {
    /// The storage error inside.
    pub fn into_inner(self) -> (e: StorageError)
        ensures
            e == match self {
                DeleteProfileError::Mappings(e) => e,
                DeleteProfileError::Profiles(e) => e,
            },
    {
        match self {
            DeleteProfileError::Mappings(e) => e,
            DeleteProfileError::Profiles(e) => e,
        }
    }
}

impl OnlivfeCacheStorageBackend {
    /// Creates a new onlivfe cache storage backend from what was persisted
    /// earlier. Where the loaded data repeats an id or a pair, the later
    /// entry wins. Everything that is not durable starts empty.
    pub fn new(
        authentications: Vec<Authentication>,
        profiles: Vec<Profile>,
        profiles_to_accounts: Vec<MappingRow>,
    ) -> (store: Self)
        ensures
            store@ == (RepositoryView {
                profiles: stored_in_turn(Seq::<Profile>::empty(), profiles@),
                accounts: Seq::<PlatformAccount>::empty(),
                friends: Seq::<PlatformFriend>::empty(),
                mappings: pairs_of(profiles_to_accounts@),
                authentications: stored_in_turn(Seq::<Authentication>::empty(), authentications@),
                instances: Seq::<Instance>::empty(),
                worlds: Seq::<World>::empty(),
                avatars: Seq::<Avatar>::empty(),
            }),
    {
        OnlivfeCacheStorageBackend {
            profiles: Collection::load(profiles),
            accounts: Collection::new(),
            friends: Collection::new(),
            profiles_to_accounts: ProfileAccountMappings::load(profiles_to_accounts),
            authentications: Collection::load(authentications),
            instances: Collection::new(),
            worlds: Collection::new(),
            avatars: Collection::new(),
        }
    }

    /// Retrieves a list of account ids
    pub fn account_ids(&self, max: usize) -> (ids: Vec<PlatformAccountId>)
        ensures
            ids@.len() == at_most(max, self@.accounts.len()),
            forall|i: int| 0 <= i < ids@.len() ==> (#[trigger] ids@[i])@ == self@.accounts[i].key(),
    {
        self.accounts.ids(max)
    }

    /// Retrieves a list of accounts
    pub fn accounts(&self, max: usize) -> (listed: Vec<PlatformAccount>)
        ensures
            listed@ == self@.accounts.take(at_most(max, self@.accounts.len())),
    {
        let listed = self.accounts.list(max);
        assert(listed@ =~= self@.accounts.take(listed@.len() as int));
        listed
    }

    /// Retrieves the details for an account
    pub fn account(&self, account_id: PlatformAccountId) -> (found: Result<PlatformAccount, StorageError>)
        ensures
            match found {
                Ok(entry) => lookup(self@.accounts, account_id@) == Some(entry),
                Err(e) => e == StorageError::NotFound && lookup(self@.accounts, account_id@) is None,
            },
    {
        match self.accounts.get(&account_id) {
            Ok(entry) => Ok(entry.clone()),
            Err(e) => Err(e),
        }
    }

    /// Update or store a new platform account,
    /// returning if an existing one was updated
    pub fn update_account(&mut self, account: PlatformAccount) -> (replaced: bool)
        ensures
            final(self)@ == (RepositoryView {
                accounts: upserted(old(self)@.accounts, account),
                ..old(self)@
            }),
            replaced == holds(old(self)@.accounts, account.key()),
    {
        self.accounts.update(account)
    }

    /// Update or store new accounts,
    /// returning the IDs of updated accounts
    pub fn update_accounts(&mut self, accounts: Vec<PlatformAccount>) -> (replaced: Vec<PlatformAccountId>)
        ensures
            final(self)@ == (RepositoryView {
                accounts: stored_in_turn(old(self)@.accounts, accounts@),
                ..old(self)@
            }),
            replaced@.len() == replaced_in_turn(old(self)@.accounts, accounts@).len(),
            forall|i: int|
                0 <= i < replaced@.len() ==> (#[trigger] replaced@[i])@ == replaced_in_turn(
                    old(self)@.accounts,
                    accounts@,
                )[i],
    {
        self.accounts.update_many(accounts)
    }

    /// Retrieves a list of friend ids
    pub fn friend_ids(&self, max: usize) -> (ids: Vec<PlatformAccountId>)
        ensures
            ids@.len() == at_most(max, self@.friends.len()),
            forall|i: int| 0 <= i < ids@.len() ==> (#[trigger] ids@[i])@ == self@.friends[i].key(),
    {
        self.friends.ids(max)
    }

    /// Retrieves a list of friends
    pub fn friends(&self, max: usize) -> (listed: Vec<PlatformFriend>)
        ensures
            listed@ == self@.friends.take(at_most(max, self@.friends.len())),
    {
        let listed = self.friends.list(max);
        assert(listed@ =~= self@.friends.take(listed@.len() as int));
        listed
    }

    /// Retrieves the details for a friend
    pub fn friend(&self, friend_id: PlatformAccountId) -> (found: Result<PlatformFriend, StorageError>)
        ensures
            match found {
                Ok(entry) => lookup(self@.friends, friend_id@) == Some(entry),
                Err(e) => e == StorageError::NotFound && lookup(self@.friends, friend_id@) is None,
            },
    {
        match self.friends.get(&friend_id) {
            Ok(entry) => Ok(entry.clone()),
            Err(e) => Err(e),
        }
    }

    /// Update or store a new friend,
    /// returning if an existing one was updated
    pub fn update_friend(&mut self, friend: PlatformFriend) -> (replaced: bool)
        ensures
            final(self)@ == (RepositoryView {
                friends: upserted(old(self)@.friends, friend),
                ..old(self)@
            }),
            replaced == holds(old(self)@.friends, friend.key()),
    {
        self.friends.update(friend)
    }

    /// Update or store new friends,
    /// returning the IDs of updated friends
    pub fn update_friends(&mut self, friends: Vec<PlatformFriend>) -> (replaced: Vec<PlatformAccountId>)
        ensures
            final(self)@ == (RepositoryView {
                friends: stored_in_turn(old(self)@.friends, friends@),
                ..old(self)@
            }),
            replaced@.len() == replaced_in_turn(old(self)@.friends, friends@).len(),
            forall|i: int|
                0 <= i < replaced@.len() ==> (#[trigger] replaced@[i])@ == replaced_in_turn(
                    old(self)@.friends,
                    friends@,
                )[i],
    {
        self.friends.update_many(friends)
    }

    /// Retrieves a list of instance ids
    pub fn instance_ids(&self, max: usize) -> (ids: Vec<InstanceId>)
        ensures
            ids@.len() == at_most(max, self@.instances.len()),
            forall|i: int| 0 <= i < ids@.len() ==> (#[trigger] ids@[i])@ == self@.instances[i].key(),
    {
        self.instances.ids(max)
    }

    /// Retrieves a list of instances
    pub fn instances(&self, max: usize) -> (listed: Vec<Instance>)
        ensures
            listed@ == self@.instances.take(at_most(max, self@.instances.len())),
    {
        let listed = self.instances.list(max);
        assert(listed@ =~= self@.instances.take(listed@.len() as int));
        listed
    }

    /// Retrieves the details for an instance
    pub fn instance(&self, instance_id: InstanceId) -> (found: Result<Instance, StorageError>)
        ensures
            match found {
                Ok(entry) => lookup(self@.instances, instance_id@) == Some(entry),
                Err(e) => e == StorageError::NotFound && lookup(self@.instances, instance_id@) is None,
            },
    {
        match self.instances.get(&instance_id) {
            Ok(entry) => Ok(entry.clone()),
            Err(e) => Err(e),
        }
    }

    /// Update or store a new instance,
    /// returning if an existing one was updated
    pub fn update_instance(&mut self, instance: Instance) -> (replaced: bool)
        ensures
            final(self)@ == (RepositoryView {
                instances: upserted(old(self)@.instances, instance),
                ..old(self)@
            }),
            replaced == holds(old(self)@.instances, instance.key()),
    {
        self.instances.update(instance)
    }

    /// Update or store new instances,
    /// returning the IDs of updated instances
    pub fn update_instances(&mut self, instances: Vec<Instance>) -> (replaced: Vec<InstanceId>)
        ensures
            final(self)@ == (RepositoryView {
                instances: stored_in_turn(old(self)@.instances, instances@),
                ..old(self)@
            }),
            replaced@.len() == replaced_in_turn(old(self)@.instances, instances@).len(),
            forall|i: int|
                0 <= i < replaced@.len() ==> (#[trigger] replaced@[i])@ == replaced_in_turn(
                    old(self)@.instances,
                    instances@,
                )[i],
    {
        self.instances.update_many(instances)
    }

    /// Retrieves a list of world ids
    pub fn world_ids(&self, max: usize) -> (ids: Vec<WorldId>)
        ensures
            ids@.len() == at_most(max, self@.worlds.len()),
            forall|i: int| 0 <= i < ids@.len() ==> (#[trigger] ids@[i])@ == self@.worlds[i].key(),
    {
        self.worlds.ids(max)
    }

    /// Retrieves a list of worlds
    pub fn worlds(&self, max: usize) -> (listed: Vec<World>)
        ensures
            listed@ == self@.worlds.take(at_most(max, self@.worlds.len())),
    {
        let listed = self.worlds.list(max);
        assert(listed@ =~= self@.worlds.take(listed@.len() as int));
        listed
    }

    /// Retrieves the details for a world
    pub fn world(&self, world_id: WorldId) -> (found: Result<World, StorageError>)
        ensures
            match found {
                Ok(entry) => lookup(self@.worlds, world_id@) == Some(entry),
                Err(e) => e == StorageError::NotFound && lookup(self@.worlds, world_id@) is None,
            },
    {
        match self.worlds.get(&world_id) {
            Ok(entry) => Ok(entry.clone()),
            Err(e) => Err(e),
        }
    }

    /// Update or store a new world,
    /// returning if an existing one was updated
    pub fn update_world(&mut self, world: World) -> (replaced: bool)
        ensures
            final(self)@ == (RepositoryView {
                worlds: upserted(old(self)@.worlds, world),
                ..old(self)@
            }),
            replaced == holds(old(self)@.worlds, world.key()),
    {
        self.worlds.update(world)
    }

    /// Update or store new worlds,
    /// returning the IDs of updated worlds
    pub fn update_worlds(&mut self, worlds: Vec<World>) -> (replaced: Vec<WorldId>)
        ensures
            final(self)@ == (RepositoryView {
                worlds: stored_in_turn(old(self)@.worlds, worlds@),
                ..old(self)@
            }),
            replaced@.len() == replaced_in_turn(old(self)@.worlds, worlds@).len(),
            forall|i: int|
                0 <= i < replaced@.len() ==> (#[trigger] replaced@[i])@ == replaced_in_turn(
                    old(self)@.worlds,
                    worlds@,
                )[i],
    {
        self.worlds.update_many(worlds)
    }

    /// Retrieves a list of avatar ids
    pub fn avatar_ids(&self, max: usize) -> (ids: Vec<AvatarId>)
        ensures
            ids@.len() == at_most(max, self@.avatars.len()),
            forall|i: int| 0 <= i < ids@.len() ==> (#[trigger] ids@[i])@ == self@.avatars[i].key(),
    {
        self.avatars.ids(max)
    }

    /// Retrieves a list of avatars
    pub fn avatars(&self, max: usize) -> (listed: Vec<Avatar>)
        ensures
            listed@ == self@.avatars.take(at_most(max, self@.avatars.len())),
    {
        let listed = self.avatars.list(max);
        assert(listed@ =~= self@.avatars.take(listed@.len() as int));
        listed
    }

    /// Retrieves the details for an avatar
    pub fn avatar(&self, avatar_id: AvatarId) -> (found: Result<Avatar, StorageError>)
        ensures
            match found {
                Ok(entry) => lookup(self@.avatars, avatar_id@) == Some(entry),
                Err(e) => e == StorageError::NotFound && lookup(self@.avatars, avatar_id@) is None,
            },
    {
        match self.avatars.get(&avatar_id) {
            Ok(entry) => Ok(entry.clone()),
            Err(e) => Err(e),
        }
    }

    /// Update or store a new avatar,
    /// returning if an existing one was updated
    pub fn update_avatar(&mut self, avatar: Avatar) -> (replaced: bool)
        ensures
            final(self)@ == (RepositoryView {
                avatars: upserted(old(self)@.avatars, avatar),
                ..old(self)@
            }),
            replaced == holds(old(self)@.avatars, avatar.key()),
    {
        self.avatars.update(avatar)
    }

    /// Update or store new avatars,
    /// returning the IDs of updated avatars
    pub fn update_avatars(&mut self, avatars: Vec<Avatar>) -> (replaced: Vec<AvatarId>)
        ensures
            final(self)@ == (RepositoryView {
                avatars: stored_in_turn(old(self)@.avatars, avatars@),
                ..old(self)@
            }),
            replaced@.len() == replaced_in_turn(old(self)@.avatars, avatars@).len(),
            forall|i: int|
                0 <= i < replaced@.len() ==> (#[trigger] replaced@[i])@ == replaced_in_turn(
                    old(self)@.avatars,
                    avatars@,
                )[i],
    {
        self.avatars.update_many(avatars)
    }

    /// Retrieves the profile IDs for an account
    pub fn account_profile_ids(&self, account_id: PlatformAccountId) -> (ids: Vec<ProfileId>)
        ensures
            ids@ == profiles_in_rows(self.profiles_to_accounts.rows(), account_id@),
            listed_profiles(ids@) == profiles_of(self@.mappings, account_id@),
            forall|a: int, b: int| 0 <= a < b < ids@.len() ==> ids@[a]@ != ids@[b]@,
    {
        self.profiles_to_accounts.account_profile_ids(&account_id)
    }

    /// Updates the profile IDs for an account
    pub fn update_account_profile_ids<F: Fn(&Vec<MappingRow>) -> Result<(), StorageError>>(
        &mut self,
        account_id: PlatformAccountId,
        profile_ids: Vec<ProfileId>,
        persist: &F,
    ) -> (outcome: Result<(), StorageError>)
        requires
            forall|v: &Vec<MappingRow>| call_requires(persist, (v,)),
        ensures
            match outcome {
                Ok(_) => {
                    &&& final(self)@ == (RepositoryView {
                        mappings: with_profiles_of_account(
                            old(self)@.mappings,
                            account_id@,
                            listed_profiles(profile_ids@),
                        ),
                        ..old(self)@
                    })
                    &&& accepted_by(persist, final(self).profiles_to_accounts.rows())
                },
                Err(e) => {
                    &&& final(self)@ == old(self)@
                    &&& exists|tried: Seq<MappingRow>|
                        pairs_of(tried) == with_profiles_of_account(
                            old(self)@.mappings,
                            account_id@,
                            listed_profiles(profile_ids@),
                        ) && #[trigger] refused_by(persist, tried, e)
                },
            },
    {
        self.profiles_to_accounts.update_account_profile_ids(account_id, profile_ids, persist)
    }

    /// Retrieves the profiles for an account, or `NotFound` if the account
    /// is mapped to a profile that is not stored.
    pub fn account_profiles(&self, account_id: PlatformAccountId) -> (found: Result<
        Vec<Profile>,
        StorageError,
    >)
        ensures
            found is Ok <==> forall|profile: u128|
                profiles_of(self@.mappings, account_id@).contains(profile) ==> holds(
                    self@.profiles,
                    profile,
                ),
            found matches Ok(profiles) ==> {
                &&& profiles@.len() == profiles_in_rows(
                    self.profiles_to_accounts.rows(),
                    account_id@,
                ).len()
                &&& forall|i: int|
                    0 <= i < profiles@.len() ==> (#[trigger] profiles@[i]).key()
                        == profiles_in_rows(self.profiles_to_accounts.rows(), account_id@)[i]@
                &&& forall|i: int|
                    0 <= i < profiles@.len() ==> profiles_of(self@.mappings, account_id@).contains(
                        (#[trigger] profiles@[i]).key(),
                    ) && lookup(self@.profiles, profiles@[i].key()) == Some(profiles@[i])
                &&& forall|profile: u128|
                    profiles_of(self@.mappings, account_id@).contains(profile) ==> exists|i: int|
                        0 <= i < profiles@.len() && (#[trigger] profiles@[i]).key() == profile
                &&& forall|a: int, b: int|
                    0 <= a < b < profiles@.len() ==> profiles@[a].key() != profiles@[b].key()
            },
            found matches Err(e) ==> e == StorageError::NotFound,
    {
        let ids = self.profiles_to_accounts.account_profile_ids(&account_id);
        let found = self.profiles.get_all(&ids);
        proof {
            let wanted = profiles_of(self@.mappings, account_id@);
            assert forall|i: int| 0 <= i < ids@.len() implies wanted.contains(
                (#[trigger] ids@[i])@,
            ) by {
                assert(listed_profiles(ids@).contains(ids@[i]@));
            }
            assert forall|profile: u128| wanted.contains(profile) implies exists|i: int|
                0 <= i < ids@.len() && (#[trigger] ids@[i])@ == profile by {
                assert(listed_profiles(ids@).contains(profile));
            }
            if found is Ok {
                let profiles = found->Ok_0;
                assert forall|i: int| 0 <= i < profiles@.len() implies (#[trigger] profiles@[i])
                    == self@.profiles[index_of(self@.profiles, ids@[i]@)] by {}
                assert forall|profile: u128| wanted.contains(profile) implies exists|i: int|
                    0 <= i < profiles@.len() && (#[trigger] profiles@[i]).key() == profile by {
                    let i = choose|i: int| 0 <= i < ids@.len() && (#[trigger] ids@[i])@ == profile;
                    assert(profiles@[i].key() == profile);
                }
            }
        }
        found
    }

    /// Retrieves the details for a profile
    pub fn profile(&self, profile_id: ProfileId) -> (found: Result<Profile, StorageError>)
        ensures
            match found {
                Ok(entry) => lookup(self@.profiles, profile_id@) == Some(entry),
                Err(e) => e == StorageError::NotFound && lookup(self@.profiles, profile_id@) is None,
            },
    {
        match self.profiles.get(&profile_id) {
            Ok(entry) => Ok(entry.clone()),
            Err(e) => Err(e),
        }
    }

    /// Retrieves the account IDs for a profile
    pub fn profile_account_ids(&self, profile_id: ProfileId) -> (ids: Vec<PlatformAccountId>)
        ensures
            ids@ == accounts_in_rows(self.profiles_to_accounts.rows(), profile_id@),
            listed_accounts(ids@) == accounts_of(self@.mappings, profile_id@),
            forall|a: int, b: int| 0 <= a < b < ids@.len() ==> ids@[a]@ != ids@[b]@,
    {
        self.profiles_to_accounts.profile_account_ids(&profile_id)
    }

    /// Updates the account IDs for a profile
    pub fn update_profile_account_ids<F: Fn(&Vec<MappingRow>) -> Result<(), StorageError>>(
        &mut self,
        profile_id: ProfileId,
        account_ids: Vec<PlatformAccountId>,
        persist: &F,
    ) -> (outcome: Result<(), StorageError>)
        requires
            forall|v: &Vec<MappingRow>| call_requires(persist, (v,)),
        ensures
            match outcome {
                Ok(_) => {
                    &&& final(self)@ == (RepositoryView {
                        mappings: with_accounts_of_profile(
                            old(self)@.mappings,
                            profile_id@,
                            listed_accounts(account_ids@),
                        ),
                        ..old(self)@
                    })
                    &&& accepted_by(persist, final(self).profiles_to_accounts.rows())
                },
                Err(e) => {
                    &&& final(self)@ == old(self)@
                    &&& exists|tried: Seq<MappingRow>|
                        pairs_of(tried) == with_accounts_of_profile(
                            old(self)@.mappings,
                            profile_id@,
                            listed_accounts(account_ids@),
                        ) && #[trigger] refused_by(persist, tried, e)
                },
            },
    {
        self.profiles_to_accounts.update_profile_account_ids(profile_id, account_ids, persist)
    }

    /// Update or store a new profile,
    /// returning if an existing one was updated
    pub fn update_profile<F: Fn(&Vec<Profile>) -> Result<(), StorageError>>(
        &mut self,
        profile: Profile,
        persist: &F,
    ) -> (outcome: Result<bool, StorageError>)
        requires
            forall|v: &Vec<Profile>| call_requires(persist, (v,)),
        ensures
            match outcome {
                Ok(replaced) => {
                    &&& final(self)@ == (RepositoryView {
                        profiles: upserted(old(self)@.profiles, profile),
                        ..old(self)@
                    })
                    &&& replaced == holds(old(self)@.profiles, profile.key())
                    &&& accepted_by(persist, final(self)@.profiles)
                },
                Err(e) => {
                    &&& final(self)@ == old(self)@
                    &&& refused_by(persist, upserted(old(self)@.profiles, profile), e)
                },
            },
    {
        self.profiles.update_persisted(profile, persist)
    }

    /// Update or store new profiles, each on its own: a profile that could
    /// not be persisted is left out and the others are still stored. Hands
    /// back, for every profile in turn, its id and how its store ended.
    pub fn update_profiles<F: Fn(&Vec<Profile>) -> Result<(), StorageError>>(
        &mut self,
        profiles: Vec<Profile>,
        persist: &F,
    ) -> (outcomes: Vec<(ProfileId, Result<bool, StorageError>)>)
        requires
            forall|v: &Vec<Profile>| call_requires(persist, (v,)),
        ensures
            outcomes@.len() == profiles@.len(),
            final(self)@ == (RepositoryView {
                profiles: settled_in_turn(old(self)@.profiles, profiles@, results_of(outcomes@)),
                ..old(self)@
            }),
            forall|i: int|
                0 <= i < outcomes@.len() ==> (#[trigger] outcomes@[i]).0@ == profiles@[i].key(),
            forall|i: int|
                0 <= i < outcomes@.len() ==> match (#[trigger] outcomes@[i]).1 {
                    Ok(replaced) => {
                        &&& replaced == holds(
                            settled_in_turn(
                                old(self)@.profiles,
                                profiles@.take(i),
                                results_of(outcomes@).take(i),
                            ),
                            profiles@[i].key(),
                        )
                        &&& accepted_by(
                            persist,
                            settled_in_turn(
                                old(self)@.profiles,
                                profiles@.take(i + 1),
                                results_of(outcomes@).take(i + 1),
                            ),
                        )
                    },
                    Err(e) => refused_by(
                        persist,
                        upserted(
                            settled_in_turn(
                                old(self)@.profiles,
                                profiles@.take(i),
                                results_of(outcomes@).take(i),
                            ),
                            profiles@[i],
                        ),
                        e,
                    ),
                },
    {
        self.profiles.update_many_persisted(profiles, persist)
    }

    /// Deletes a profile: first its rows in the relation, then the profile
    /// itself, each persisted on its own.
    pub fn delete_profile<
        FM: Fn(&Vec<MappingRow>) -> Result<(), StorageError>,
        FP: Fn(&Vec<Profile>) -> Result<(), StorageError>,
    >(&mut self, profile_id: ProfileId, persist_mappings: &FM, persist_profiles: &FP) -> (outcome:
        Result<(), DeleteProfileError>)
        requires
            forall|v: &Vec<MappingRow>| call_requires(persist_mappings, (v,)),
            forall|v: &Vec<Profile>| call_requires(persist_profiles, (v,)),
        ensures
            match outcome {
                Ok(_) => {
                    &&& final(self)@ == (RepositoryView {
                        mappings: with_accounts_of_profile(
                            old(self)@.mappings,
                            profile_id@,
                            Set::<PlatformIdView>::empty(),
                        ),
                        profiles: without(old(self)@.profiles, profile_id@),
                        ..old(self)@
                    })
                    &&& accepted_by(persist_mappings, final(self).profiles_to_accounts.rows())
                    &&& accepted_by(persist_profiles, final(self)@.profiles)
                },
                Err(DeleteProfileError::Mappings(e)) => {
                    &&& final(self)@ == old(self)@
                    &&& exists|tried: Seq<MappingRow>|
                        pairs_of(tried) == with_accounts_of_profile(
                            old(self)@.mappings,
                            profile_id@,
                            Set::<PlatformIdView>::empty(),
                        ) && #[trigger] refused_by(persist_mappings, tried, e)
                },
                Err(DeleteProfileError::Profiles(e)) => {
                    &&& final(self)@ == (RepositoryView {
                        mappings: with_accounts_of_profile(
                            old(self)@.mappings,
                            profile_id@,
                            Set::<PlatformIdView>::empty(),
                        ),
                        ..old(self)@
                    })
                    &&& accepted_by(persist_mappings, final(self).profiles_to_accounts.rows())
                    &&& refused_by(persist_profiles, without(old(self)@.profiles, profile_id@), e)
                },
            },
    {
        match self.profiles_to_accounts.delete_profile(profile_id, persist_mappings) {
            Err(e) => Err(DeleteProfileError::Mappings(e)),
            Ok(_) => match self.profiles.remove_persisted(&profile_id, persist_profiles) {
                Err(e) => Err(DeleteProfileError::Profiles(e)),
                Ok(_) => Ok(()),
            },
        }
    }

    /// Retrieves the accounts for a profile, or `NotFound` if the profile is
    /// mapped to an account that is not stored.
    pub fn profile_accounts(&self, profile_id: ProfileId) -> (found: Result<
        Vec<PlatformAccount>,
        StorageError,
    >)
        ensures
            found is Ok <==> forall|account: PlatformIdView|
                accounts_of(self@.mappings, profile_id@).contains(account) ==> holds(
                    self@.accounts,
                    account,
                ),
            found matches Ok(accounts) ==> {
                &&& accounts@.len() == accounts_in_rows(
                    self.profiles_to_accounts.rows(),
                    profile_id@,
                ).len()
                &&& forall|i: int|
                    0 <= i < accounts@.len() ==> (#[trigger] accounts@[i]).key()
                        == accounts_in_rows(self.profiles_to_accounts.rows(), profile_id@)[i]@
                &&& forall|i: int|
                    0 <= i < accounts@.len() ==> accounts_of(self@.mappings, profile_id@).contains(
                        (#[trigger] accounts@[i]).key(),
                    ) && lookup(self@.accounts, accounts@[i].key()) == Some(accounts@[i])
                &&& forall|account: PlatformIdView|
                    accounts_of(self@.mappings, profile_id@).contains(account) ==> exists|i: int|
                        0 <= i < accounts@.len() && (#[trigger] accounts@[i]).key() == account
                &&& forall|a: int, b: int|
                    0 <= a < b < accounts@.len() ==> accounts@[a].key() != accounts@[b].key()
            },
            found matches Err(e) ==> e == StorageError::NotFound,
    {
        let ids = self.profiles_to_accounts.profile_account_ids(&profile_id);
        let found = self.accounts.get_all(&ids);
        proof {
            let wanted = accounts_of(self@.mappings, profile_id@);
            assert forall|i: int| 0 <= i < ids@.len() implies wanted.contains(
                (#[trigger] ids@[i])@,
            ) by {
                assert(listed_accounts(ids@).contains(ids@[i]@));
            }
            assert forall|account: PlatformIdView| wanted.contains(account) implies exists|i: int|
                0 <= i < ids@.len() && (#[trigger] ids@[i])@ == account by {
                assert(listed_accounts(ids@).contains(account));
            }
            if found is Ok {
                let accounts = found->Ok_0;
                assert forall|i: int| 0 <= i < accounts@.len() implies (#[trigger] accounts@[i])
                    == self@.accounts[index_of(self@.accounts, ids@[i]@)] by {}
                assert forall|account: PlatformIdView| wanted.contains(account) implies exists|
                    i: int,
                | 0 <= i < accounts@.len() && (#[trigger] accounts@[i]).key() == account by {
                    let i = choose|i: int| 0 <= i < ids@.len() && (#[trigger] ids@[i])@ == account;
                    assert(accounts@[i].key() == account);
                }
            }
        }
        found
    }

    /// Retrieves platform authentications
    pub fn authentications(&self) -> (all: Vec<Authentication>)
        ensures
            all@ == self@.authentications,
    {
        let all = self.authentications.list(self.authentications.len());
        assert(all@ =~= self@.authentications);
        all
    }

    /// Update or store a platform's authentication,
    /// returning if an existing one was updated
    pub fn update_authentication<F: Fn(&Vec<Authentication>) -> Result<(), StorageError>>(
        &mut self,
        auth: Authentication,
        persist: &F,
    ) -> (outcome: Result<bool, StorageError>)
        requires
            forall|v: &Vec<Authentication>| call_requires(persist, (v,)),
        ensures
            match outcome {
                Ok(replaced) => {
                    &&& final(self)@ == (RepositoryView {
                        authentications: upserted(old(self)@.authentications, auth),
                        ..old(self)@
                    })
                    &&& replaced == holds(old(self)@.authentications, auth.key())
                    &&& accepted_by(persist, final(self)@.authentications)
                },
                Err(e) => {
                    &&& final(self)@ == old(self)@
                    &&& refused_by(persist, upserted(old(self)@.authentications, auth), e)
                },
            },
    {
        self.authentications.update_persisted(auth, persist)
    }

    /// Removes a platform's authentication,
    /// returning true if it happened or false if it didn't exist
    pub fn remove_authentication<F: Fn(&Vec<Authentication>) -> Result<(), StorageError>>(
        &mut self,
        auth: PlatformAccountId,
        persist: &F,
    ) -> (outcome: Result<bool, StorageError>)
        requires
            forall|v: &Vec<Authentication>| call_requires(persist, (v,)),
        ensures
            match outcome {
                Ok(existed) => {
                    &&& final(self)@ == (RepositoryView {
                        authentications: without(old(self)@.authentications, auth@),
                        ..old(self)@
                    })
                    &&& existed == holds(old(self)@.authentications, auth@)
                    &&& accepted_by(persist, final(self)@.authentications)
                },
                Err(e) => {
                    &&& final(self)@ == old(self)@
                    &&& refused_by(persist, without(old(self)@.authentications, auth@), e)
                },
            },
    {
        self.authentications.remove_persisted(&auth, persist)
    }

    /// Update or store authentications, each on its own: one that could not
    /// be persisted is left out and the others are still stored. Hands back,
    /// for every authentication in turn, its id and how its store ended.
    pub fn update_authentications<F: Fn(&Vec<Authentication>) -> Result<(), StorageError>>(
        &mut self,
        authentications: Vec<Authentication>,
        persist: &F,
    ) -> (outcomes: Vec<(PlatformAccountId, Result<bool, StorageError>)>)
        requires
            forall|v: &Vec<Authentication>| call_requires(persist, (v,)),
        ensures
            outcomes@.len() == authentications@.len(),
            final(self)@ == (RepositoryView {
                authentications: settled_in_turn(
                    old(self)@.authentications,
                    authentications@,
                    results_of(outcomes@),
                ),
                ..old(self)@
            }),
            forall|i: int|
                0 <= i < outcomes@.len() ==> (#[trigger] outcomes@[i]).0@
                    == authentications@[i].key(),
            forall|i: int|
                0 <= i < outcomes@.len() ==> match (#[trigger] outcomes@[i]).1 {
                    Ok(replaced) => {
                        &&& replaced == holds(
                            settled_in_turn(
                                old(self)@.authentications,
                                authentications@.take(i),
                                results_of(outcomes@).take(i),
                            ),
                            authentications@[i].key(),
                        )
                        &&& accepted_by(
                            persist,
                            settled_in_turn(
                                old(self)@.authentications,
                                authentications@.take(i + 1),
                                results_of(outcomes@).take(i + 1),
                            ),
                        )
                    },
                    Err(e) => refused_by(
                        persist,
                        upserted(
                            settled_in_turn(
                                old(self)@.authentications,
                                authentications@.take(i),
                                results_of(outcomes@).take(i),
                            ),
                            authentications@[i],
                        ),
                        e,
                    ),
                },
    {
        self.authentications.update_many_persisted(authentications, persist)
    }
}

} // verus!
