//! The subscription lifecycle manager.

use vstd::prelude::*;
use crate::error::{classify, communication_error, FailureClass, PushError};
use crate::machine::{
    begin_channel, changed_ids, commit, finish, keys_ok, lemma_advance_inv, lemma_start_inv,
    scheme_of, spec_advance, spec_apply, spec_decrypt, spec_deleted, spec_dispatch_info,
    spec_proceed, spec_reconcile, spec_subscribe, spec_unsubscribe, spec_unsubscribe_all,
    spec_update, spec_verify_connection, stored_ok, ConfigModel, ManagerModel,
};
use crate::protocol::{
    answers, Action, ActionModel, Change, Event, KeyMaterial, Next, Outcome, OutcomeModel,
    Pending, PendingModel, Request, RequestModel, Scheme,
};
use crate::record::{
    ConnectionIdentity, DispatchInfo, IdentityModel, PushSubscriptionChanged, SubscriptionRecord,
    AUTH_SECRET_LEN,
};
use crate::store::{channel_ids, distinct_channels, has_channel, position, SubscriptionStore};

verus! {

/// What the manager is set up with.
#[derive(Clone, Debug, PartialEq, Eq)]
pub struct PushConfiguration {
    /// The sender or application id.
    pub sender_id: String,
    /// The relay's host name.
    pub server_host: String,
    /// The protocol to reach the relay with.
    pub http_protocol: String,
    /// The kind of native push transport.
    pub bridge_type: String,
    /// The native transport's registration token.
    pub registration_id: String,
    /// Where the record store lives.
    pub database_path: String,
}

impl View for PushConfiguration {
    type V = ConfigModel;

    open spec fn view(&self) -> ConfigModel {
        ConfigModel {
            sender_id: self.sender_id@,
            server_host: self.server_host@,
            http_protocol: self.http_protocol@,
            bridge_type: self.bridge_type@,
            registration_id: self.registration_id@,
            database_path: self.database_path@,
        }
    }
}

/// What the record store held when the manager was started.
#[derive(Clone, Debug, PartialEq, Eq)]
pub struct StoredState {
    pub identity: Option<ConnectionIdentity>,
    pub records: Vec<SubscriptionRecord>,
}

/// The model of an identity that may be absent.
pub open spec fn identity_model(identity: Option<ConnectionIdentity>) -> Option<IdentityModel> {
    match identity {
        Some(i) => Some(i@),
        None => None,
    }
}

/// Whether two texts are the same.
fn same_text(a: &str, b: &str) -> (same: bool)
    ensures
        same == (a@ == b@),
{
    a.to_owned() == b.to_owned()
}

/// The channel ids of change notices, in order.
fn ids_of(changes: &Vec<PushSubscriptionChanged>) -> (ids: Vec<String>)
    ensures
        ids.deep_view() == changed_ids(changes.deep_view()),
{
    let mut ids: Vec<String> = Vec::new();
    let mut i: usize = 0;
    while i < changes.len()
        invariant
            i <= changes.len(),
            ids.deep_view() =~= changed_ids(changes.deep_view()).subrange(0, i as int),
        decreases changes.len() - i,
    {
        let ghost before = ids.deep_view();
        let id = changes[i].channel_id.clone();
        ids.push(id);
        assert(ids.deep_view() =~= before.push(id@));
        i += 1;
    }
    assert(ids.deep_view() =~= changed_ids(changes.deep_view()));
    ids
}

/// The scheme that `encoding` names, if the headers it needs are there.
pub fn select_scheme(encoding: &str, salt: &str, dh: &str) -> (scheme: Option<Scheme>)
    ensures
        scheme == scheme_of(encoding@, salt@, dh@),
{
    if same_text(encoding, "aes128gcm") {
        Some(Scheme::Aes128Gcm)
    } else if same_text(encoding, "aesgcm") && !salt.is_empty() && !dh.is_empty() {
        Some(Scheme::AesGcm)
    } else {
        None
    }
}

/// Whether key material is usable: a 16-byte secret, and keys that are not
/// empty.
pub fn check_keys(keys: &KeyMaterial) -> (ok: bool)
    ensures
        ok == keys_ok(keys@),
{
    keys.auth_secret.len() == AUTH_SECRET_LEN && keys.public_key.len() > 0
        && keys.private_key.len() > 0
}

/// Manages the subscriptions of one installation.
///
/// The manager holds the connection identity and the subscription records,
/// and at most one operation in flight. An operation is started by one of
/// `subscribe`, `unsubscribe`, `unsubscribe_all`, `update`,
/// `verify_connection` and `decrypt`, which returns the first action, and is
/// carried on by `advance` until the action is `Finished`.
pub struct PushManager {
    config: PushConfiguration,
    identity: Option<ConnectionIdentity>,
    store: SubscriptionStore,
    pending: Pending,
}

impl View for PushManager {
    type V = ManagerModel;

    closed spec fn view(&self) -> ManagerModel {
        ManagerModel {
            config: self.config@,
            identity: identity_model(self.identity),
            records: self.store@,
            pending: self.pending@,
        }
    }
}

impl PushManager {
    /// The manager's invariant.
    pub open spec fn wf(&self) -> bool {
        self@.inv()
    }

    /// Creates a manager from its configuration and from what the record
    /// store held. Fails with `StorageError` where that is corrupt: two
    /// records under one channel id, a record under the empty channel id, or
    /// records without a connection identity.
    pub fn new(
        sender_id: String,
        server_host: String,
        http_protocol: String,
        bridge_type: String,
        registration_id: String,
        database_path: String,
        stored: StoredState,
    ) -> (res: Result<PushManager, PushError>)
        ensures
            match res {
                Ok(manager) => {
                    &&& stored_ok(identity_model(stored.identity), stored.records.deep_view())
                    &&& manager.wf()
                    &&& manager@ == ManagerModel {
                        config: ConfigModel {
                            sender_id: sender_id@,
                            server_host: server_host@,
                            http_protocol: http_protocol@,
                            bridge_type: bridge_type@,
                            registration_id: registration_id@,
                            database_path: database_path@,
                        },
                        identity: identity_model(stored.identity),
                        records: stored.records.deep_view(),
                        pending: PendingModel::Idle,
                    }
                },
                Err(e) => {
                    &&& e == PushError::StorageError
                    &&& !stored_ok(identity_model(stored.identity), stored.records.deep_view())
                },
            },
    {
        let StoredState { identity, records } = stored;
        if identity.is_none() && records.len() > 0 {
            return Err(PushError::StorageError);
        }
        let ghost all = records.deep_view();
        let mut store = SubscriptionStore::new();
        let mut i: usize = 0;
        while i < records.len()
            invariant
                i <= records.len(),
                all == records.deep_view(),
                all == stored.records.deep_view(),
                store.wf(),
                store@ =~= all.subrange(0, i as int),
                forall|k: int| 0 <= k < i ==> (#[trigger] all[k]).channel_id.len() > 0,
            decreases records.len() - i,
        {
            if records[i].channel_id.as_str().is_empty() {
                assert(all[i as int].channel_id.len() == 0);
                return Err(PushError::StorageError);
            }
            if store.contains(&records[i].channel_id) {
                proof {
                    let p = position(store@, all[i as int].channel_id);
                    assert(store@[p] == all[p]);
                    assert(all[p].channel_id == all[i as int].channel_id);
                }
                return Err(PushError::StorageError);
            }
            let record = records[i].duplicate();
            store.insert(record);
            assert(store@ =~= all.subrange(0, i + 1));
            i += 1;
        }
        assert(store@ =~= all);
        let manager = PushManager {
            config: PushConfiguration {
                sender_id,
                server_host,
                http_protocol,
                bridge_type,
                registration_id,
                database_path,
            },
            identity,
            store,
            pending: Pending::Idle,
        };
        Ok(manager)
    }

    /// Whether no operation is in flight.
    pub fn is_idle(&self) -> (idle: bool)
        ensures
            idle == (self@.pending is Idle),
    {
        match &self.pending {
            Pending::Idle => true,
            _ => false,
        }
    }

    /// Whether `event` is an answer to what the manager waits for.
    pub fn accepts(&self, event: &Event) -> (ok: bool)
        ensures
            ok == answers(self@.pending, event@),
    {
        match (&self.pending, event) {
            (Pending::Registering(_), Event::Registered { .. }) => true,
            (Pending::Registering(_), Event::RelayFailed { .. }) => true,
            (Pending::NamingChannel(_), Event::ChannelId(_)) => true,
            (Pending::GeneratingKeys(_), Event::Keys(_)) => true,
            (Pending::GeneratingKeys(_), Event::CryptoFailed) => true,
            (Pending::CreatingChannel { .. }, Event::ChannelCreated { .. }) => true,
            (Pending::CreatingChannel { .. }, Event::RelayFailed { .. }) => true,
            (Pending::DeletingChannel { .. }, Event::RelayOk) => true,
            (Pending::DeletingChannel { .. }, Event::RelayFailed { .. }) => true,
            (Pending::DeletingAllChannels, Event::RelayOk) => true,
            (Pending::DeletingAllChannels, Event::RelayFailed { .. }) => true,
            (Pending::UpdatingToken { .. }, Event::RelayOk) => true,
            (Pending::UpdatingToken { .. }, Event::RelayFailed { .. }) => true,
            (Pending::ListingChannels, Event::Channels(_)) => true,
            (Pending::ListingChannels, Event::RelayFailed { .. }) => true,
            (Pending::Committing { .. }, Event::Stored) => true,
            (Pending::Committing { .. }, Event::StorageFailed) => true,
            (Pending::DeletingOrphans { .. }, Event::RelayOk) => true,
            (Pending::DeletingOrphans { .. }, Event::RelayFailed { .. }) => true,
            (Pending::Decrypting, Event::Plaintext(_)) => true,
            (Pending::Decrypting, Event::CryptoFailed) => true,
            _ => false,
        }
    }

    /// The configuration, with the native token that is current.
    pub fn config(&self) -> (config: &PushConfiguration)
        ensures
            config@ == self@.config,
    {
        &self.config
    }

    /// The connection identity, if one is held.
    pub fn identity(&self) -> (identity: Option<&ConnectionIdentity>)
        ensures
            match identity {
                Some(i) => self@.identity == Some(i@),
                None => self@.identity is None,
            },
    {
        self.identity.as_ref()
    }

    /// The channel ids of all subscriptions, in the store's order.
    pub fn channel_ids(&self) -> (ids: Vec<String>)
        ensures
            ids.deep_view() == channel_ids(self@.records),
    {
        self.store.channel_ids()
    }

    /// The connection id held, or the empty id.
    fn connection_id(&self) -> (id: String)
        ensures
            id@ == self@.connection_id(),
    {
        match &self.identity {
            Some(identity) => identity.connection_id.clone(),
            None => String::new(),
        }
    }

    /// Ends the operation.
    fn finish(&mut self, outcome: Outcome) -> (action: Action)
        ensures
            (final(self)@, action@) == finish(old(self)@, outcome@),
    {
        self.pending = Pending::Idle;
        Action::Finished(outcome)
    }

    /// Asks the record store to make `change`.
    fn commit(&mut self, change: Change, next: Next) -> (action: Action)
        ensures
            (final(self)@, action@) == commit(old(self)@, change@, next@),
    {
        let copy = change.duplicate();
        self.pending = Pending::Committing { change, next };
        Action::Persist(copy)
    }

    /// Starts a subscription under the identity held.
    fn begin_channel(&mut self, request: Request) -> (action: Action)
        ensures
            (final(self)@, action@) == begin_channel(old(self)@, request@),
    {
        if request.channel_id.as_str().is_empty() {
            self.pending = Pending::NamingChannel(request);
            Action::GenerateChannelId
        } else {
            self.pending = Pending::GeneratingKeys(request);
            Action::GenerateKeys
        }
    }

    /// Takes over a change that the record store has made.
    fn apply(&mut self, change: Change)
        requires
            distinct_channels(old(self)@.records),
        ensures
            final(self)@ == spec_apply(old(self)@, change@),
    {
        match change {
            Change::SaveIdentity(identity) => {
                self.config.registration_id = identity.native_token.clone();
                self.identity = Some(identity);
            },
            Change::SaveRecord(record) => {
                self.store.insert(record);
            },
            Change::RemoveRecord(id) => {
                let _ = self.store.delete(&id);
            },
            Change::RemoveRecords(ids) => {
                self.store.delete_listed(&ids);
            },
            Change::RemoveAllRecords => {
                let _ = self.store.delete_all();
            },
            Change::Wipe => {
                let _ = self.store.delete_all();
                self.identity = None;
            },
        }
    }

    /// Goes on after a write to the record store.
    fn proceed(&mut self, next: Next) -> (action: Action)
        ensures
            (final(self)@, action@) == spec_proceed(old(self)@, next@),
    {
        match next {
            Next::Finish(outcome) => self.finish(outcome),
            Next::Subscribe(request) => self.begin_channel(request),
            Next::Orphans { channel_ids, changes } => {
                let connection_id = self.connection_id();
                self.pending = Pending::DeletingOrphans { changes };
                Action::DeleteOrphans { connection_id, channel_ids }
            },
        }
    }

    /// Takes the relay's answer to a request to delete.
    fn deleted(&mut self, event: Event, change: Change) -> (action: Action)
        requires
            event@ is RelayOk || event@ is RelayFailed,
        ensures
            (final(self)@, action@) == spec_deleted(old(self)@, event@, change@),
    {
        match event {
            Event::RelayFailed { status } => {
                match classify(status) {
                    FailureClass::IdentityInvalid => self.commit(
                        change,
                        Next::Finish(Outcome::Unsubscribed(false)),
                    ),
                    _ => self.finish(Outcome::Failed(communication_error(status))),
                }
            },
            _ => self.commit(change, Next::Finish(Outcome::Unsubscribed(true))),
        }
    }

    /// Compares the records with the channels that the relay listed.
    fn reconcile(&mut self, remote: Vec<String>) -> (action: Action)
        ensures
            (final(self)@, action@) == spec_reconcile(old(self)@, remote.deep_view()),
    {
        let changes = self.store.lost(&remote);
        let orphans = self.store.orphans(&remote);
        if changes.len() > 0 {
            let ids = ids_of(&changes);
            let next = if orphans.len() > 0 {
                Next::Orphans { channel_ids: orphans, changes }
            } else {
                Next::Finish(Outcome::Verified(changes))
            };
            self.commit(Change::RemoveRecords(ids), next)
        } else if orphans.len() > 0 {
            let connection_id = self.connection_id();
            self.pending = Pending::DeletingOrphans { changes };
            Action::DeleteOrphans { connection_id, channel_ids: orphans }
        } else {
            self.finish(Outcome::Verified(changes))
        }
    }

    /// Subscribes to a channel: `channel_id` names it, or is empty for a new
    /// random one. Registers with the relay first where no connection
    /// identity is held. The operation ends with `Subscribed` and the
    /// endpoint, public key and authentication secret of the new record;
    /// with `RegistrationError` where registering fails, `CryptoError` where
    /// no usable keys come, `CommunicationError` where the relay does not
    /// create the channel, and `StorageError` where the record store fails.
    pub fn subscribe(
        &mut self,
        channel_id: &str,
        scope: &str,
        server_key: &Option<String>,
    ) -> (action: Action)
        requires
            old(self).wf(),
            old(self)@.pending is Idle,
        ensures
            final(self).wf(),
            (final(self)@, action@) == spec_subscribe(
                old(self)@,
                RequestModel {
                    channel_id: channel_id@,
                    scope: scope@,
                    server_key: server_key.deep_view(),
                },
            ),
    {
        proof {
            lemma_start_inv(self@);
        }
        let server_key = match server_key {
            Some(key) => Some(key.clone()),
            None => None,
        };
        let request = Request {
            channel_id: channel_id.to_owned(),
            scope: scope.to_owned(),
            server_key,
        };
        if self.identity.is_none() {
            let action = Action::Register {
                sender_id: self.config.sender_id.clone(),
                bridge_type: self.config.bridge_type.clone(),
                native_token: self.config.registration_id.clone(),
            };
            self.pending = Pending::Registering(request);
            action
        } else {
            self.begin_channel(request)
        }
    }

    /// Ends the subscription of `channel_id`, or of all channels where
    /// `channel_id` is empty. Where no record is kept under `channel_id` the
    /// operation ends at once with `Unsubscribed(false)` and nothing
    /// changes. Else the relay is asked first: the record goes where it
    /// confirms (`true`) or no longer knows the identity (`false`); any
    /// other failure ends the operation with `CommunicationError`.
    pub fn unsubscribe(&mut self, channel_id: &str) -> (action: Action)
        requires
            old(self).wf(),
            old(self)@.pending is Idle,
        ensures
            final(self).wf(),
            (final(self)@, action@) == spec_unsubscribe(old(self)@, channel_id@),
            channel_id@.len() > 0 && !has_channel(old(self)@.records, channel_id@)
                ==> final(self)@ == old(self)@ && action@ == ActionModel::Finished(
                OutcomeModel::Unsubscribed(false),
            ),
    {
        proof {
            lemma_start_inv(self@);
        }
        if channel_id.is_empty() {
            return self.unsubscribe_all();
        }
        let id = channel_id.to_owned();
        if !self.store.contains(&id) {
            self.finish(Outcome::Unsubscribed(false))
        } else {
            let connection_id = self.connection_id();
            self.pending = Pending::DeletingChannel { channel_id: id.clone() };
            Action::DeleteChannel { connection_id, channel_id: id }
        }
    }

    /// Ends all subscriptions. Without a connection identity there is
    /// nothing to end and the operation ends at once with
    /// `Unsubscribed(true)`. Else the relay is asked first: every record
    /// goes where it confirms (`true`) or no longer knows the identity
    /// (`false`); any other failure ends the operation with
    /// `CommunicationError`.
    pub fn unsubscribe_all(&mut self) -> (action: Action)
        requires
            old(self).wf(),
            old(self)@.pending is Idle,
        ensures
            final(self).wf(),
            (final(self)@, action@) == spec_unsubscribe_all(old(self)@),
    {
        proof {
            lemma_start_inv(self@);
        }
        if self.identity.is_none() {
            self.finish(Outcome::Unsubscribed(true))
        } else {
            let connection_id = self.connection_id();
            self.pending = Pending::DeletingAllChannels;
            Action::DeleteAllChannels { connection_id }
        }
    }

    /// Makes `new_token` the native token. Without a connection identity the
    /// token is kept for the registration to come and the operation ends at
    /// once with `Updated(true)`. Else the relay is told: the operation ends
    /// with `Updated(true)` once the identity is stored with the new token,
    /// with `Updated(false)` and nothing changed where the relay no longer
    /// knows the identity, and with `CommunicationError` on any other
    /// failure.
    pub fn update(&mut self, new_token: &str) -> (action: Action)
        requires
            old(self).wf(),
            old(self)@.pending is Idle,
        ensures
            final(self).wf(),
            (final(self)@, action@) == spec_update(old(self)@, new_token@),
    {
        proof {
            lemma_start_inv(self@);
        }
        if self.identity.is_none() {
            self.config.registration_id = new_token.to_owned();
            self.finish(Outcome::Updated(true))
        } else {
            let connection_id = self.connection_id();
            let native_token = new_token.to_owned();
            self.pending = Pending::UpdatingToken { native_token: native_token.clone() };
            Action::UpdateToken { connection_id, native_token }
        }
    }

    /// Compares the records with what the relay holds. Without a connection
    /// identity the operation ends at once with no change notice. It never
    /// subscribes anew: it ends with a notice for each channel whose
    /// endpoint is gone.
    pub fn verify_connection(&mut self) -> (action: Action)
        requires
            old(self).wf(),
            old(self)@.pending is Idle,
        ensures
            final(self).wf(),
            (final(self)@, action@) == spec_verify_connection(old(self)@),
    {
        proof {
            lemma_start_inv(self@);
        }
        if self.identity.is_none() {
            let none: Vec<PushSubscriptionChanged> = Vec::new();
            assert(none.deep_view() =~= Seq::empty());
            self.finish(Outcome::Verified(none))
        } else {
            let connection_id = self.connection_id();
            self.pending = Pending::ListingChannels;
            Action::ListChannels { connection_id }
        }
    }

    /// Decrypts a message that came for `channel_id`. Ends at once with
    /// `RecordNotFoundError` where no record is kept under `channel_id`, and
    /// with `CryptoError` where `encoding` names no scheme or the headers
    /// that the scheme needs are empty. Else the key material of the record
    /// is handed out with the message.
    pub fn decrypt(
        &mut self,
        channel_id: &str,
        body: &str,
        encoding: &str,
        salt: &str,
        dh: &str,
    ) -> (action: Action)
        requires
            old(self).wf(),
            old(self)@.pending is Idle,
        ensures
            final(self).wf(),
            (final(self)@, action@) == spec_decrypt(
                old(self)@,
                channel_id@,
                body@,
                encoding@,
                salt@,
                dh@,
            ),
            !has_channel(old(self)@.records, channel_id@) ==> final(self)@ == old(
                self,
            )@ && action@ == ActionModel::Finished(
                OutcomeModel::Failed(PushError::RecordNotFoundError),
            ),
    {
        proof {
            lemma_start_inv(self@);
        }
        let id = channel_id.to_owned();
        let keys = match self.store.get(&id) {
            Some(record) => Some((record.private_key.clone(), record.auth_secret.clone())),
            None => None,
        };
        match keys {
            None => self.finish(Outcome::Failed(PushError::RecordNotFoundError)),
            Some((private_key, auth_secret)) => match select_scheme(encoding, salt, dh) {
                None => self.finish(Outcome::Failed(PushError::CryptoError)),
                Some(scheme) => {
                    self.pending = Pending::Decrypting;
                    Action::Decrypt {
                        scheme,
                        private_key,
                        auth_secret,
                        body: body.to_owned(),
                        salt: salt.to_owned(),
                        dh: dh.to_owned(),
                    }
                },
            },
        }
    }

    /// The channel id and scope of the record kept under `channel_id`.
    pub fn dispatch_info_for_chid(&self, channel_id: &str) -> (info: Option<DispatchInfo>)
        requires
            self.wf(),
        ensures
            match info {
                Some(i) => spec_dispatch_info(self@, channel_id@) == Some(i@),
                None => spec_dispatch_info(self@, channel_id@) is None,
            },
    {
        let id = channel_id.to_owned();
        match self.store.get(&id) {
            Some(record) => Some(record.dispatch_info()),
            None => None,
        }
    }

    /// Takes what came of the last action and says what to do next. Where
    /// `event` is no answer to that action, nothing changes and `None` is
    /// returned.
    pub fn advance(&mut self, event: Event) -> (res: Option<Action>)
        requires
            old(self).wf(),
        ensures
            final(self).wf(),
            res is Some <==> answers(old(self)@.pending, event@),
            res is None ==> final(self)@ == old(self)@,
            res matches Some(action) ==> (final(self)@, action@) == spec_advance(
                old(self)@,
                event@,
            ),
    {
        proof {
            if answers(self@.pending, event@) {
                lemma_advance_inv(self@, event@);
            }
        }
        let mut pending = Pending::Idle;
        std::mem::swap(&mut self.pending, &mut pending);
        match (pending, event) {
            (Pending::Registering(request), Event::Registered { connection_id }) => {
                let identity = ConnectionIdentity {
                    connection_id,
                    sender_id: self.config.sender_id.clone(),
                    bridge_type: self.config.bridge_type.clone(),
                    native_token: self.config.registration_id.clone(),
                };
                Some(self.commit(Change::SaveIdentity(identity), Next::Subscribe(request)))
            },
            (Pending::Registering(_), Event::RelayFailed { .. }) => {
                Some(self.finish(Outcome::Failed(PushError::RegistrationError)))
            },
            (Pending::NamingChannel(request), Event::ChannelId(id)) => {
                if !id.as_str().is_empty() && !self.store.contains(&id) {
                    let named = Request {
                        channel_id: id,
                        scope: request.scope,
                        server_key: request.server_key,
                    };
                    self.pending = Pending::GeneratingKeys(named);
                    Some(Action::GenerateKeys)
                } else {
                    self.pending = Pending::NamingChannel(request);
                    Some(Action::GenerateChannelId)
                }
            },
            (Pending::GeneratingKeys(request), Event::Keys(keys)) => {
                if check_keys(&keys) {
                    let action = Action::CreateChannel {
                        connection_id: self.connection_id(),
                        channel_id: request.channel_id.clone(),
                    };
                    self.pending = Pending::CreatingChannel { request, keys };
                    Some(action)
                } else {
                    Some(self.finish(Outcome::Failed(PushError::CryptoError)))
                }
            },
            (Pending::GeneratingKeys(_), Event::CryptoFailed) => {
                Some(self.finish(Outcome::Failed(PushError::CryptoError)))
            },
            (Pending::CreatingChannel { request, keys }, Event::ChannelCreated { endpoint }) => {
                let record = SubscriptionRecord {
                    channel_id: request.channel_id,
                    scope: request.scope,
                    endpoint,
                    public_key: keys.public_key,
                    private_key: keys.private_key,
                    auth_secret: keys.auth_secret,
                    server_key: request.server_key,
                };
                let response = record.response();
                Some(
                    self.commit(
                        Change::SaveRecord(record),
                        Next::Finish(Outcome::Subscribed(response)),
                    ),
                )
            },
            (Pending::CreatingChannel { .. }, Event::RelayFailed { status }) => {
                Some(self.finish(Outcome::Failed(communication_error(status))))
            },
            (Pending::DeletingChannel { channel_id }, Event::RelayOk) => {
                Some(self.deleted(Event::RelayOk, Change::RemoveRecord(channel_id)))
            },
            (Pending::DeletingChannel { channel_id }, Event::RelayFailed { status }) => {
                Some(self.deleted(Event::RelayFailed { status }, Change::RemoveRecord(channel_id)))
            },
            (Pending::DeletingAllChannels, Event::RelayOk) => {
                Some(self.deleted(Event::RelayOk, Change::RemoveAllRecords))
            },
            (Pending::DeletingAllChannels, Event::RelayFailed { status }) => {
                Some(self.deleted(Event::RelayFailed { status }, Change::RemoveAllRecords))
            },
            (Pending::UpdatingToken { native_token }, Event::RelayOk) => {
                let identity = ConnectionIdentity {
                    connection_id: self.connection_id(),
                    sender_id: self.config.sender_id.clone(),
                    bridge_type: self.config.bridge_type.clone(),
                    native_token,
                };
                Some(
                    self.commit(
                        Change::SaveIdentity(identity),
                        Next::Finish(Outcome::Updated(true)),
                    ),
                )
            },
            (Pending::UpdatingToken { .. }, Event::RelayFailed { status }) => {
                match classify(status) {
                    FailureClass::IdentityInvalid => Some(self.finish(Outcome::Updated(false))),
                    _ => Some(self.finish(Outcome::Failed(communication_error(status)))),
                }
            },
            (Pending::ListingChannels, Event::Channels(remote)) => Some(self.reconcile(remote)),
            (Pending::ListingChannels, Event::RelayFailed { status }) => {
                match classify(status) {
                    FailureClass::IdentityInvalid => {
                        let changes = self.store.changes();
                        Some(self.commit(Change::Wipe, Next::Finish(Outcome::Verified(changes))))
                    },
                    _ => Some(self.finish(Outcome::Failed(communication_error(status)))),
                }
            },
            (Pending::Committing { change, next }, Event::Stored) => {
                self.apply(change);
                Some(self.proceed(next))
            },
            (Pending::Committing { .. }, Event::StorageFailed) => {
                Some(self.finish(Outcome::Failed(PushError::StorageError)))
            },
            (Pending::DeletingOrphans { changes }, Event::RelayOk) => {
                Some(self.finish(Outcome::Verified(changes)))
            },
            (Pending::DeletingOrphans { changes }, Event::RelayFailed { .. }) => {
                Some(self.finish(Outcome::Verified(changes)))
            },
            (Pending::Decrypting, Event::Plaintext(plaintext)) => {
                Some(self.finish(Outcome::Decrypted(plaintext)))
            },
            (Pending::Decrypting, Event::CryptoFailed) => {
                Some(self.finish(Outcome::Failed(PushError::CryptoError)))
            },
            (pending, _) => {
                self.pending = pending;
                None
            },
        }
    }
}

} // verus!
