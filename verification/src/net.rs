//! The session tables: which accounts hold a live client on which platform,
//! and how logging in, restoring a session and logging out move them.
//!
//! The tables keep the clients but never talk to a platform. A caller asks
//! the tables what to use, performs the platform's requests with it, and
//! reports how they ended; the tables then decide what is stored and what the
//! caller gets back. `V`, `C` and `R` are the client handles of VRChat,
//! ChilloutVR and Resonite.

use vstd::prelude::*;
use crate::ids::{PlatformAccountId, PlatformIdView};
use crate::platform::PlatformType;
use crate::storage::{
    distinct_keys,
    holds,
    index_is_unique,
    lookup,
    without,
    Collection,
    Keyed,
};
use crate::vrchat;

pub mod login;
pub mod queries;
pub mod restore;

verus! {

/// How far the login of a VRChat account has come.
#[derive(Debug, PartialEq, Eq)]
pub enum VRChatClientState<V> {
    /// Has authentication cookie saved from login but no 2FA cookie
    Authenticating((V, vrchat::Authentication)),
    /// Fully logged in
    Authenticated(V),
}

impl<V> VRChatClientState<V> {
    /// The client inside, however far the login has come.
    pub fn into_client(self) -> (client: V)
        ensures
            client == match self {
                VRChatClientState::Authenticating((c, _)) => c,
                VRChatClientState::Authenticated(c) => c,
            },
    {
        match self {
            VRChatClientState::Authenticating((c, _)) => c,
            VRChatClientState::Authenticated(c) => c,
        }
    }
}

/// A row of a session table: the platform's user id and what is kept for it.
#[derive(Debug, PartialEq, Eq)]
pub struct Session<T> {
    /// The platform's id of the user
    pub user: String,
    /// What the table keeps for the user
    pub client: T,
}

impl<T> Keyed for Session<T> {
    type Id = String;

    open spec fn key(&self) -> Seq<char> {
        self.user@
    }

    fn id(&self) -> (id: String) {
        self.user.clone()
    }

    fn has_id(&self, id: &String) -> (same: bool) {
        self.user == *id
    }
}

/// What a session table keeps for a user, if anything.
pub open spec fn kept_for<T>(table: Seq<Session<T>>, user: Seq<char>) -> Option<T> {
    match lookup(table, user) {
        Some(session) => Some(session.client),
        None => None,
    }
}

/// A borrowed client of one of the platforms.
#[derive(Debug, PartialEq, Eq)]
pub enum ClientRef<'a, V, C, R> {
    /// A VRChat client
    VRChat(&'a V),
    /// A ChilloutVR client
    ChilloutVR(&'a C),
    /// A Resonite client
    Resonite(&'a R),
}

/// What logging out took from the tables.
#[derive(Debug, PartialEq, Eq)]
pub enum LoggedOut<V, C, R> {
    /// The VRChat session; the platform should be told that it ends.
    VRChat(VRChatClientState<V>),
    /// The ChilloutVR client; the platform has no logout to call.
    ChilloutVR(C),
    /// The Resonite client.
    Resonite(R),
    /// The account had no session.
    Nothing,
}

impl<V, C, R> LoggedOut<V, C, R> {
    /// The client that the platform is to be told with that the session
    /// ends. Only VRChat is told, whether the login was complete or parked:
    /// ChilloutVR has no logout to call, and a Resonite session is left to
    /// run out.
    pub fn client_to_tell(self) -> (client: Option<V>)
        ensures
            client == match self {
                LoggedOut::VRChat(VRChatClientState::Authenticated(c)) => Some(c),
                LoggedOut::VRChat(VRChatClientState::Authenticating((c, _))) => Some(c),
                _ => None,
            },
    {
        match self {
            LoggedOut::VRChat(state) => Some(state.into_client()),
            _ => None,
        }
    }
}

/// The three session tables, each with one row per user at most.
pub struct SessionsView<V, C, R> {
    pub vrc: Seq<Session<VRChatClientState<V>>>,
    pub cvr: Seq<Session<C>>,
    pub resonite: Seq<Session<R>>,
}

impl<V, C, R> SessionsView<V, C, R> {
    /// Whether the account has a session that requests can be made with: a
    /// row on its platform and, on VRChat, one whose login is complete.
    pub open spec fn is_authenticated(&self, account: PlatformIdView) -> bool {
        match account.platform {
            PlatformType::VRChat => kept_for(self.vrc, account.id) matches Some(
                VRChatClientState::Authenticated(_),
            ),
            PlatformType::ChilloutVR => holds(self.cvr, account.id),
            PlatformType::Resonite => holds(self.resonite, account.id),
        }
    }

    /// Whether the tables have any row for the account.
    pub open spec fn has_session(&self, account: PlatformIdView) -> bool {
        match account.platform {
            PlatformType::VRChat => holds(self.vrc, account.id),
            PlatformType::ChilloutVR => holds(self.cvr, account.id),
            PlatformType::Resonite => holds(self.resonite, account.id),
        }
    }

    /// The client that requests on behalf of the account are made with.
    pub open spec fn client_of(&self, account: PlatformIdView) -> Option<ClientRef<'_, V, C, R>> {
        match account.platform {
            PlatformType::VRChat => match kept_for(self.vrc, account.id) {
                Some(VRChatClientState::Authenticated(client)) => Some(ClientRef::VRChat(&client)),
                _ => None,
            },
            PlatformType::ChilloutVR => match kept_for(self.cvr, account.id) {
                Some(client) => Some(ClientRef::ChilloutVR(&client)),
                None => None,
            },
            PlatformType::Resonite => match kept_for(self.resonite, account.id) {
                Some(client) => Some(ClientRef::Resonite(&client)),
                None => None,
            },
        }
    }

    /// The accounts of a platform that requests can be made with, in the
    /// order of the rows.
    pub open spec fn authenticated(self, platform: PlatformType) -> Seq<PlatformAccountId> {
        match platform {
            PlatformType::VRChat => complete_logins(self.vrc),
            PlatformType::ChilloutVR => accounts_in(self.cvr, PlatformType::ChilloutVR),
            PlatformType::Resonite => accounts_in(self.resonite, PlatformType::Resonite),
        }
    }

    /// The tables without the row of the account.
    pub open spec fn without_session(self, account: PlatformIdView) -> Self {
        match account.platform {
            PlatformType::VRChat => SessionsView { vrc: without(self.vrc, account.id), ..self },
            PlatformType::ChilloutVR => SessionsView { cvr: without(self.cvr, account.id), ..self },
            PlatformType::Resonite => SessionsView {
                resonite: without(self.resonite, account.id),
                ..self
            },
        }
    }

    /// What logging the account out takes from the tables.
    pub open spec fn session_of(self, account: PlatformIdView) -> LoggedOut<V, C, R> {
        match account.platform {
            PlatformType::VRChat => match kept_for(self.vrc, account.id) {
                Some(state) => LoggedOut::VRChat(state),
                None => LoggedOut::Nothing,
            },
            PlatformType::ChilloutVR => match kept_for(self.cvr, account.id) {
                Some(client) => LoggedOut::ChilloutVR(client),
                None => LoggedOut::Nothing,
            },
            PlatformType::Resonite => match kept_for(self.resonite, account.id) {
                Some(client) => LoggedOut::Resonite(client),
                None => LoggedOut::Nothing,
            },
        }
    }
}

/// An unified API client interface for the different platforms
pub struct OnlivfeApiClient<V, C, R> {
    user_agent: String,
    vrc: Collection<Session<VRChatClientState<V>>>,
    cvr: Collection<Session<C>>,
    resonite: Collection<Session<R>>,
}

impl<V, C, R> View for OnlivfeApiClient<V, C, R> {
    type V = SessionsView<V, C, R>;

    closed spec fn view(&self) -> SessionsView<V, C, R> {
        SessionsView { vrc: self.vrc@, cvr: self.cvr@, resonite: self.resonite@ }
    }
}

/// The message for a request whose parts name different platforms.
pub open spec fn platform_mismatch() -> Seq<char> {
    "Auth and platform types don't match!"@
}

/// The message for a request on behalf of an account without a session.
pub open spec fn not_authenticated(platform: PlatformType) -> Seq<char> {
    match platform {
        PlatformType::VRChat => "VRChat API not authenticated"@,
        PlatformType::ChilloutVR => "CVR API not authenticated"@,
        PlatformType::Resonite => "Resonite API not authenticated"@,
    }
}

/// The accounts of all users of a table, in the order of the rows.
pub open spec fn accounts_in<T>(table: Seq<Session<T>>, platform: PlatformType) -> Seq<
    PlatformAccountId,
> {
    Seq::new(table.len(), |i: int| PlatformAccountId::spec_on(platform, table[i].user))
}

/// The VRChat accounts whose login is complete, in the order of the rows.
pub open spec fn complete_logins<V>(table: Seq<Session<VRChatClientState<V>>>) -> Seq<
    PlatformAccountId,
>
    decreases table.len(),
{
    if table.len() == 0 {
        Seq::empty()
    } else {
        let earlier = complete_logins(table.drop_last());
        if table.last().client is Authenticated {
            earlier.push(PlatformAccountId::VRChat(table.last().user))
        } else {
            earlier
        }
    }
}

/// The ids of all users of a table, tagged with the table's platform.
fn users_of<T>(rows: &Vec<Session<T>>, platform: PlatformType) -> (ids: Vec<PlatformAccountId>)
    ensures
        ids@ == accounts_in(rows@, platform),
        ids@.len() == rows@.len(),
        forall|i: int|
            0 <= i < ids@.len() ==> (#[trigger] ids@[i])@ == (PlatformIdView {
                platform,
                id: rows@[i].user@,
            }),
{
    let mut ids: Vec<PlatformAccountId> = Vec::new();
    let mut i: usize = 0;
    while i < rows.len()
        invariant
            i <= rows@.len(),
            ids@.len() == i,
            forall|k: int|
                0 <= k < i ==> #[trigger] ids@[k] == PlatformAccountId::spec_on(
                    platform,
                    rows@[k].user,
                ),
        decreases rows@.len() - i,
    {
        ids.push(PlatformAccountId::on(platform, rows[i].user.clone()));
        i += 1;
    }
    assert(ids@ =~= accounts_in(rows@, platform));
    ids
}

impl<V, C, R> OnlivfeApiClient<V, C, R> {
    /// The user agent that every client is created with.
    pub closed spec fn agent(&self) -> String {
        self.user_agent
    }

    /// What the tables maintain: each of them is a well-formed collection.
    pub closed spec fn well_formed(&self) -> bool {
        self.vrc.well_formed() && self.cvr.well_formed() && self.resonite.well_formed()
    }

    /// In each of the three tables a user has one row at most.
    pub proof fn one_row_per_user(&self)
        requires
            self.well_formed(),
        ensures
            distinct_keys(self@.vrc),
            distinct_keys(self@.cvr),
            distinct_keys(self@.resonite),
    {
        self.vrc.keys_are_distinct();
        self.cvr.keys_are_distinct();
        self.resonite.keys_are_distinct();
    }

    /// Creates a new API client
    pub fn new(user_agent: String) -> (api: Self)
        ensures
            api.agent() == user_agent,
            api@.vrc == Seq::<Session<VRChatClientState<V>>>::empty(),
            api@.cvr == Seq::<Session<C>>::empty(),
            api@.resonite == Seq::<Session<R>>::empty(),
    {
        OnlivfeApiClient {
            user_agent,
            vrc: Collection::new(),
            cvr: Collection::new(),
            resonite: Collection::new(),
        }
    }

    /// The user agent that every client is to be created with.
    pub fn user_agent(&self) -> (agent: &String)
        ensures
            *agent == self.agent(),
    {
        &self.user_agent
    }

    /// Gets the fully authenticated user ID's from the clients for a platform
    pub fn authenticated_clients(&self, platform: PlatformType) -> (ids: Vec<PlatformAccountId>)
        ensures
            ids@ == self@.authenticated(platform),
            forall|a: int, b: int| 0 <= a < b < ids@.len() ==> ids@[a]@ != ids@[b]@,
            forall|i: int|
                0 <= i < ids@.len() ==> (#[trigger] ids@[i])@.platform == platform
                    && self@.is_authenticated(ids@[i]@),
            forall|account: PlatformIdView|
                account.platform == platform && #[trigger] self@.is_authenticated(account)
                    ==> exists|i: int| 0 <= i < ids@.len() && (#[trigger] ids@[i])@ == account,
    {
        match platform {
            PlatformType::VRChat => {
                proof {
                    use_type_invariant(&self.vrc);
                    self.vrc.keys_are_distinct();
                }
                let rows = self.vrc.entries();
                let mut ids: Vec<PlatformAccountId> = Vec::new();
                let ghost mut from: Seq<int> = Seq::empty();
                let mut i: usize = 0;
                while i < rows.len()
                    invariant
                        i <= rows@.len(),
                        from.len() == ids@.len(),
                        forall|k: int|
                            0 <= k < from.len() ==> 0 <= #[trigger] from[k] < i
                                && rows@[from[k]].client is Authenticated && ids@[k]@ == (
                            PlatformIdView { platform: PlatformType::VRChat, id: rows@[from[k]].user@ }),
                        forall|a: int, b: int| 0 <= a < b < from.len() ==> from[a] < from[b],
                        forall|j: int|
                            0 <= j < i && (#[trigger] rows@[j]).client is Authenticated ==> exists|
                                k: int,
                            | 0 <= k < from.len() && from[k] == j,
                        ids@ == complete_logins(rows@.take(i as int)),
                    decreases rows@.len() - i,
                {
                    let ghost earlier = from;
                    proof {
                        assert(rows@.take(i + 1).drop_last() =~= rows@.take(i as int));
                        assert(rows@.take(i + 1).last() == rows@[i as int]);
                    }
                    let complete = match &rows[i].client {
                        VRChatClientState::Authenticated(_) => true,
                        VRChatClientState::Authenticating(_) => false,
                    };
                    if complete {
                        ids.push(PlatformAccountId::VRChat(rows[i].user.clone()));
                        proof {
                            from = from.push(i as int);
                            assert(from[from.len() - 1] == i);
                        }
                    }
                    proof {
                        assert forall|j: int|
                            0 <= j < i + 1 && (
                            #[trigger] rows@[j]).client is Authenticated implies exists|k: int|
                            0 <= k < from.len() && from[k] == j by {
                            if j < i {
                                let k = choose|k: int| 0 <= k < earlier.len() && earlier[k] == j;
                                assert(from[k] == j);
                            } else {
                                assert(from[from.len() - 1] == j);
                            }
                        }
                    }
                    i += 1;
                }
                proof {
                    let table = self@.vrc;
                    assert(table == rows@);
                    assert(rows@.take(i as int) =~= rows@);
                    assert forall|a: int, b: int| 0 <= a < b < ids@.len() implies ids@[a]@
                        != ids@[b]@ by {
                        assert(table[from[a]].key() != table[from[b]].key());
                    }
                    assert forall|i: int| 0 <= i < ids@.len() implies (#[trigger] ids@[i])@.platform
                        == platform && self@.is_authenticated(ids@[i]@) by {
                        index_is_unique(table, from[i]);
                    }
                    assert forall|account: PlatformIdView|
                        account.platform == platform && #[trigger] self@.is_authenticated(
                            account,
                        ) implies exists|i: int|
                        0 <= i < ids@.len() && (#[trigger] ids@[i])@ == account by {
                        let j = crate::storage::index_of(table, account.id);
                        index_is_unique(table, j);
                        let k = choose|k: int| 0 <= k < from.len() && from[k] == j;
                        assert(ids@[k]@ == account);
                    }
                }
                ids
            },
            PlatformType::ChilloutVR => {
                proof {
                    use_type_invariant(&self.cvr);
                    self.cvr.keys_are_distinct();
                }
                let ids = users_of(self.cvr.entries(), PlatformType::ChilloutVR);
                proof {
                    let table = self@.cvr;
                    assert forall|a: int, b: int| 0 <= a < b < ids@.len() implies ids@[a]@
                        != ids@[b]@ by {
                        assert(table[a].key() != table[b].key());
                    }
                    assert forall|i: int| 0 <= i < ids@.len() implies (#[trigger] ids@[i])@.platform
                        == platform && self@.is_authenticated(ids@[i]@) by {
                        index_is_unique(table, i);
                    }
                    assert forall|account: PlatformIdView|
                        account.platform == platform && #[trigger] self@.is_authenticated(
                            account,
                        ) implies exists|i: int|
                        0 <= i < ids@.len() && (#[trigger] ids@[i])@ == account by {
                        let j = crate::storage::index_of(table, account.id);
                        assert(ids@[j]@ == account);
                    }
                }
                ids
            },
            PlatformType::Resonite => {
                proof {
                    use_type_invariant(&self.resonite);
                    self.resonite.keys_are_distinct();
                }
                let ids = users_of(self.resonite.entries(), PlatformType::Resonite);
                proof {
                    let table = self@.resonite;
                    assert forall|a: int, b: int| 0 <= a < b < ids@.len() implies ids@[a]@
                        != ids@[b]@ by {
                        assert(table[a].key() != table[b].key());
                    }
                    assert forall|i: int| 0 <= i < ids@.len() implies (#[trigger] ids@[i])@.platform
                        == platform && self@.is_authenticated(ids@[i]@) by {
                        index_is_unique(table, i);
                    }
                    assert forall|account: PlatformIdView|
                        account.platform == platform && #[trigger] self@.is_authenticated(
                            account,
                        ) implies exists|i: int|
                        0 <= i < ids@.len() && (#[trigger] ids@[i])@ == account by {
                        let j = crate::storage::index_of(table, account.id);
                        assert(ids@[j]@ == account);
                    }
                }
                ids
            },
        }
    }

    /// Whether some account of the platform holds a session that requests
    /// can be made with.
    pub fn has_authenticated_client(&self, platform: PlatformType) -> (any: bool)
        ensures
            any == exists|account: PlatformIdView|
                account.platform == platform && #[trigger] self@.is_authenticated(account),
    {
        let ids = self.authenticated_clients(platform);
        proof {
            if ids@.len() > 0 {
                assert(self@.is_authenticated(ids@[0]@));
            }
        }
        ids.len() > 0
    }

    /// The client to make requests with on behalf of the account, or the
    /// reason why there is none.
    pub fn client(&self, get_as: &PlatformAccountId) -> (found: Result<
        ClientRef<'_, V, C, R>,
        String,
    >)
        ensures
            match found {
                Ok(client) => self@.client_of(get_as@) == Some(client),
                Err(message) => self@.client_of(get_as@) is None && message@ == not_authenticated(
                    get_as@.platform,
                ),
            },
            found is Ok <==> self@.is_authenticated(get_as@),
    {
        match get_as {
            PlatformAccountId::VRChat(id) => match self.vrc.get(id) {
                Ok(session) => match &session.client {
                    VRChatClientState::Authenticated(client) => Ok(ClientRef::VRChat(client)),
                    VRChatClientState::Authenticating(_) => Err(
                        "VRChat API not authenticated".to_owned(),
                    ),
                },
                Err(_) => Err("VRChat API not authenticated".to_owned()),
            },
            PlatformAccountId::ChilloutVR(id) => match self.cvr.get(id) {
                Ok(session) => Ok(ClientRef::ChilloutVR(&session.client)),
                Err(_) => Err("CVR API not authenticated".to_owned()),
            },
            PlatformAccountId::Resonite(id) => match self.resonite.get(id) {
                Ok(session) => Ok(ClientRef::Resonite(&session.client)),
                Err(_) => Err("Resonite API not authenticated".to_owned()),
            },
        }
    }

    /// Logs out of a certain account, removing the authentication
    ///
    /// Hands back what the tables kept for the account, so that the caller
    /// can tell the platform. The row is gone whatever the platform answers,
    /// and logging out of an account without a session changes nothing.
    pub fn logout(&mut self, id: &PlatformAccountId) -> (taken: LoggedOut<V, C, R>)
        ensures
            final(self).agent() == old(self).agent(),
            final(self)@ == old(self)@.without_session(id@),
            taken == old(self)@.session_of(id@),
            !final(self)@.has_session(id@),
    {
        proof {
            use_type_invariant(&self.vrc);
            use_type_invariant(&self.cvr);
            use_type_invariant(&self.resonite);
            self.vrc.keys_are_distinct();
            self.cvr.keys_are_distinct();
            self.resonite.keys_are_distinct();
            crate::storage::removal_keeps_keys_distinct(self@.vrc, id@.id);
            crate::storage::removal_keeps_keys_distinct(self@.cvr, id@.id);
            crate::storage::removal_keeps_keys_distinct(self@.resonite, id@.id);
        }
        match id {
            PlatformAccountId::VRChat(id) => match self.vrc.remove(id) {
                Some(session) => LoggedOut::VRChat(session.client),
                None => LoggedOut::Nothing,
            },
            PlatformAccountId::ChilloutVR(id) => match self.cvr.remove(id) {
                Some(session) => LoggedOut::ChilloutVR(session.client),
                None => LoggedOut::Nothing,
            },
            PlatformAccountId::Resonite(id) => match self.resonite.remove(id) {
                Some(session) => LoggedOut::Resonite(session.client),
                None => LoggedOut::Nothing,
            },
        }
    }
}

} // verus!
