//! Requests on behalf of an account: which client serves them, and how what
//! the platform sent back is stamped.

use vstd::prelude::*;
use crate::accounts::{PlatformAccount, PlatformFriend};
use crate::ids::PlatformAccountId;
use crate::instances::{Instance, InstanceId};
use crate::metadata::{PlatformDataAndMetadata, PlatformDataMetadata};
use crate::net::{
    not_authenticated,
    platform_mismatch,
    ClientRef,
    OnlivfeApiClient,
    SessionsView,
};
use crate::platform::PlatformType;
use crate::record::PlatformRecord;

verus! {

/// The message for a friends request that the platform did not answer.
pub open spec fn friends_query_failed(platform: PlatformType) -> Seq<char> {
    match platform {
        PlatformType::VRChat => "VRChat friends query failed"@,
        PlatformType::ChilloutVR => "CVR friends query failed"@,
        PlatformType::Resonite => "Resonite Contacts query failed"@,
    }
}

/// The message for an instance request that the platform did not answer.
pub open spec fn instance_query_failed(platform: PlatformType) -> Seq<char> {
    match platform {
        PlatformType::VRChat => "VRChat instance query failed"@,
        PlatformType::ChilloutVR => "CVR instance query failed"@,
        PlatformType::Resonite => "Resonite instance query failed"@,
    }
}

/// The message for a user request that the platform did not answer.
pub open spec fn user_query_failed(platform: PlatformType) -> Seq<char> {
    match platform {
        PlatformType::VRChat => "VRChat user query failed"@,
        PlatformType::ChilloutVR => "CVR user query failed"@,
        PlatformType::Resonite => "Resonite user query failed"@,
    }
}

/// A record in its envelope: fetched at the given instant by the given
/// account.
pub open spec fn stamped(record: PlatformRecord, get_as: PlatformAccountId, now: i128)
    -> PlatformDataAndMetadata<PlatformRecord, String> {
    PlatformDataAndMetadata {
        data: record,
        metadata: PlatformDataMetadata { updated_at: now, updated_by: get_as.text() },
    }
}

/// The friends that a request on behalf of the account yields, if it yields
/// any: the account must hold a session and the platform must have answered.
pub open spec fn friends_fetched<V, C, R>(
    sessions: SessionsView<V, C, R>,
    get_as: PlatformAccountId,
    fetched: Option<Vec<PlatformRecord>>,
    now: i128,
) -> Option<Seq<PlatformFriend>> {
    if sessions.is_authenticated(get_as@) && fetched is Some {
        Some(
            Seq::new(
                fetched.unwrap()@.len(),
                |i: int|
                    PlatformFriend::spec_on(
                        get_as@.platform,
                        stamped(fetched.unwrap()@[i], get_as, now),
                    ),
            ),
        )
    } else {
        None
    }
}

/// The instance that a request on behalf of the account yields, if it
/// yields one: account and instance must be of one platform, the account
/// must hold a session and the platform must have answered.
pub open spec fn instance_fetched<V, C, R>(
    sessions: SessionsView<V, C, R>,
    get_as: PlatformAccountId,
    instance_id: InstanceId,
    fetched: Option<PlatformRecord>,
    now: i128,
) -> Option<Instance> {
    if instance_id@.platform == get_as@.platform && sessions.is_authenticated(get_as@)
        && fetched is Some {
        Some(Instance::spec_on(get_as@.platform, stamped(fetched.unwrap(), get_as, now)))
    } else {
        None
    }
}

/// The account that a request on behalf of another account yields, if it
/// yields one: both accounts must be of one platform, the asking account
/// must hold a session and the platform must have answered.
pub open spec fn platform_account_fetched<V, C, R>(
    sessions: SessionsView<V, C, R>,
    get_as: PlatformAccountId,
    account_id: PlatformAccountId,
    fetched: Option<PlatformRecord>,
    now: i128,
) -> Option<PlatformAccount> {
    if account_id@.platform == get_as@.platform && sessions.is_authenticated(get_as@)
        && fetched is Some {
        Some(PlatformAccount::spec_on(get_as@.platform, stamped(fetched.unwrap(), get_as, now)))
    } else {
        None
    }
}

fn stamp(record: PlatformRecord, get_as: &PlatformAccountId, now: i128) -> (envelope:
    PlatformDataAndMetadata<PlatformRecord, String>)
    ensures
        envelope == stamped(record, *get_as, now),
{
    PlatformDataAndMetadata::new_at(record, get_as.id_as_string(), now)
}

impl<V, C, R> OnlivfeApiClient<V, C, R> {
    /// The client to ask for an instance with. The account and the instance
    /// must be of one platform; that is looked at before anything else.
    pub fn instance_client(&self, get_as: &PlatformAccountId, instance_id: &InstanceId) -> (found:
        Result<ClientRef<'_, V, C, R>, String>)
        ensures
            found is Ok <==> instance_id@.platform == get_as@.platform && self@.is_authenticated(
                get_as@,
            ),
            match found {
                Ok(client) => self@.client_of(get_as@) == Some(client),
                Err(message) => message@ == if instance_id@.platform != get_as@.platform {
                    platform_mismatch()
                } else {
                    not_authenticated(get_as@.platform)
                },
            },
    {
        if !(instance_id.platform() == get_as.platform()) {
            return Err("Auth and platform types don't match!".to_owned());
        }
        self.client(get_as)
    }

    /// The client to ask for a platform account with. Both accounts must be
    /// of one platform; that is looked at before anything else.
    pub fn platform_account_client(
        &self,
        get_as: &PlatformAccountId,
        account_id: &PlatformAccountId,
    ) -> (found: Result<ClientRef<'_, V, C, R>, String>)
        ensures
            found is Ok <==> account_id@.platform == get_as@.platform && self@.is_authenticated(
                get_as@,
            ),
            match found {
                Ok(client) => self@.client_of(get_as@) == Some(client),
                Err(message) => message@ == if account_id@.platform != get_as@.platform {
                    platform_mismatch()
                } else {
                    not_authenticated(get_as@.platform)
                },
            },
    {
        if !(account_id.platform() == get_as.platform()) {
            return Err("Auth and platform types don't match!".to_owned());
        }
        self.client(get_as)
    }

    /// Retrieves the friends list from a platform
    ///
    /// Takes in what the platform sent back, `None` if the request failed,
    /// and stamps every record with the instant and the asking account.
    pub fn friends(
        &self,
        get_as: &PlatformAccountId,
        fetched: Option<Vec<PlatformRecord>>,
        now: i128,
    ) -> (friends: Result<Vec<PlatformFriend>, String>)
        ensures
            match friends {
                Ok(list) => friends_fetched(self@, *get_as, fetched, now) == Some(list@),
                Err(_) => friends_fetched(self@, *get_as, fetched, now) is None,
            },
            friends matches Err(message) ==> message@ == if !self@.is_authenticated(get_as@) {
                not_authenticated(get_as@.platform)
            } else {
                friends_query_failed(get_as@.platform)
            },
    {
        match self.client(get_as) {
            Err(message) => Err(message),
            Ok(_) => match fetched {
                None => Err(
                    match get_as.platform() {
                        PlatformType::VRChat => "VRChat friends query failed".to_owned(),
                        PlatformType::ChilloutVR => "CVR friends query failed".to_owned(),
                        PlatformType::Resonite => "Resonite Contacts query failed".to_owned(),
                    },
                ),
                Some(records) => {
                    let platform = get_as.platform();
                    let mut list: Vec<PlatformFriend> = Vec::new();
                    let mut i: usize = 0;
                    while i < records.len()
                        invariant
                            i <= records@.len(),
                            list@.len() == i,
                            platform == get_as@.platform,
                            forall|k: int|
                                0 <= k < i ==> #[trigger] list@[k] == PlatformFriend::spec_on(
                                    platform,
                                    stamped(records@[k], *get_as, now),
                                ),
                        decreases records@.len() - i,
                    {
                        list.push(
                            PlatformFriend::on(platform, stamp(records[i].clone(), get_as, now)),
                        );
                        i += 1;
                    }
                    assert(list@ =~= friends_fetched(self@, *get_as, fetched, now).unwrap());
                    Ok(list)
                },
            },
        }
    }

    /// Retrieves details about an instance from the platform
    ///
    /// Takes in what the platform sent back, `None` if the request failed,
    /// and stamps the record with the instant and the asking account.
    pub fn instance(
        &self,
        get_as: &PlatformAccountId,
        instance_id: &InstanceId,
        fetched: Option<PlatformRecord>,
        now: i128,
    ) -> (instance: Result<Instance, String>)
        ensures
            match instance {
                Ok(found) => instance_fetched(self@, *get_as, *instance_id, fetched, now) == Some(
                    found,
                ),
                Err(_) => instance_fetched(self@, *get_as, *instance_id, fetched, now) is None,
            },
            instance matches Err(message) ==> message@ == if instance_id@.platform
                != get_as@.platform {
                platform_mismatch()
            } else if !self@.is_authenticated(get_as@) {
                not_authenticated(get_as@.platform)
            } else {
                instance_query_failed(get_as@.platform)
            },
    {
        match self.instance_client(get_as, instance_id) {
            Err(message) => Err(message),
            Ok(_) => match fetched {
                None => Err(
                    match get_as.platform() {
                        PlatformType::VRChat => "VRChat instance query failed".to_owned(),
                        PlatformType::ChilloutVR => "CVR instance query failed".to_owned(),
                        PlatformType::Resonite => "Resonite instance query failed".to_owned(),
                    },
                ),
                Some(record) => Ok(Instance::on(get_as.platform(), stamp(record, get_as, now))),
            },
        }
    }

    /// Retrieves details about an account from the platform
    ///
    /// Takes in what the platform sent back, `None` if the request failed,
    /// and stamps the record with the instant and the asking account.
    pub fn platform_account(
        &self,
        get_as: &PlatformAccountId,
        account_id: &PlatformAccountId,
        fetched: Option<PlatformRecord>,
        now: i128,
    ) -> (account: Result<PlatformAccount, String>)
        ensures
            match account {
                Ok(found) => platform_account_fetched(self@, *get_as, *account_id, fetched, now)
                    == Some(found),
                Err(_) => platform_account_fetched(self@, *get_as, *account_id, fetched, now)
                    is None,
            },
            account matches Err(message) ==> message@ == if account_id@.platform
                != get_as@.platform {
                platform_mismatch()
            } else if !self@.is_authenticated(get_as@) {
                not_authenticated(get_as@.platform)
            } else {
                user_query_failed(get_as@.platform)
            },
    {
        match self.platform_account_client(get_as, account_id) {
            Err(message) => Err(message),
            Ok(_) => match fetched {
                None => Err(
                    match get_as.platform() {
                        PlatformType::VRChat => "VRChat user query failed".to_owned(),
                        PlatformType::ChilloutVR => "CVR user query failed".to_owned(),
                        PlatformType::Resonite => "Resonite user query failed".to_owned(),
                    },
                ),
                Some(record) => Ok(
                    PlatformAccount::on(get_as.platform(), stamp(record, get_as, now)),
                ),
            },
        }
    }
}

} // verus!
