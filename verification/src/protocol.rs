//! What the manager asks of its collaborators, and what they answer.
//!
//! The manager performs no I/O. An operation returns an [`Action`] for the
//! caller to carry out: a call to the relay service, a write to the record
//! store, or work for the key generator. The caller reports what came of it
//! as an [`Event`], and is told the next action, until the action is
//! [`Action::Finished`].

use vstd::prelude::*;
use crate::error::PushError;
use crate::record::{
    ChannelScope, ConnectionIdentity, IdentityModel, PushSubscriptionChanged, RecordModel,
    ResponseModel, SubscriptionRecord, SubscriptionResponse,
};

verus! {

/// The two payload encryption schemes.
#[derive(Clone, Copy, Debug, PartialEq, Eq, Structural)]
pub enum Scheme {
    /// The older scheme, named `aesgcm`, whose salt and sender key come in
    /// headers beside the message.
    AesGcm,
    /// The scheme named `aes128gcm`, which carries them inside the message.
    Aes128Gcm,
}

/// What a caller asked to subscribe to. An empty channel id stands for one
/// that is still to be generated.
#[derive(Clone, Debug, PartialEq, Eq)]
pub struct Request {
    pub channel_id: String,
    pub scope: String,
    pub server_key: Option<String>,
}

/// Mathematical model of a [`Request`].
pub struct RequestModel {
    pub channel_id: Seq<char>,
    pub scope: Seq<char>,
    pub server_key: Option<Seq<char>>,
}

impl View for Request {
    type V = RequestModel;

    open spec fn view(&self) -> RequestModel {
        RequestModel {
            channel_id: self.channel_id@,
            scope: self.scope@,
            server_key: self.server_key.deep_view(),
        }
    }
}

/// A freshly generated key pair with its authentication secret.
#[derive(Clone, Debug, PartialEq, Eq)]
pub struct KeyMaterial {
    pub public_key: Vec<u8>,
    pub private_key: Vec<u8>,
    pub auth_secret: Vec<u8>,
}

/// Mathematical model of [`KeyMaterial`].
pub struct KeysModel {
    pub public_key: Seq<u8>,
    pub private_key: Seq<u8>,
    pub auth_secret: Seq<u8>,
}

impl View for KeyMaterial {
    type V = KeysModel;

    open spec fn view(&self) -> KeysModel {
        KeysModel {
            public_key: self.public_key@,
            private_key: self.private_key@,
            auth_secret: self.auth_secret@,
        }
    }
}

/// How an operation ended.
#[derive(Clone, Debug, PartialEq, Eq)]
pub enum Outcome {
    /// `subscribe` succeeded; this is what may be published.
    Subscribed(SubscriptionResponse),
    /// `unsubscribe` ended; `true` where the relay confirmed it.
    Unsubscribed(bool),
    /// `update` ended; `false` where the relay no longer knows the identity.
    Updated(bool),
    /// `verify_connection` ended; these channels need new endpoints.
    Verified(Vec<PushSubscriptionChanged>),
    /// `decrypt` succeeded; this is the plaintext.
    Decrypted(Vec<u8>),
    /// The operation failed.
    Failed(PushError),
}

/// Mathematical model of an [`Outcome`].
pub enum OutcomeModel {
    Subscribed(ResponseModel),
    Unsubscribed(bool),
    Updated(bool),
    Verified(Seq<ChannelScope>),
    Decrypted(Seq<u8>),
    Failed(PushError),
}

impl View for Outcome {
    type V = OutcomeModel;

    open spec fn view(&self) -> OutcomeModel {
        match self {
            Outcome::Subscribed(r) => OutcomeModel::Subscribed(r@),
            Outcome::Unsubscribed(b) => OutcomeModel::Unsubscribed(*b),
            Outcome::Updated(b) => OutcomeModel::Updated(*b),
            Outcome::Verified(c) => OutcomeModel::Verified(c.deep_view()),
            Outcome::Decrypted(p) => OutcomeModel::Decrypted(p@),
            Outcome::Failed(e) => OutcomeModel::Failed(*e),
        }
    }
}

/// A write to the record store.
#[derive(Clone, Debug, PartialEq, Eq)]
pub enum Change {
    /// Store this connection identity in place of any other.
    SaveIdentity(ConnectionIdentity),
    /// Store this record under its channel id.
    SaveRecord(SubscriptionRecord),
    /// Delete the record under this channel id.
    RemoveRecord(String),
    /// Delete the records under these channel ids.
    RemoveRecords(Vec<String>),
    /// Delete every record and keep the identity.
    RemoveAllRecords,
    /// Delete every record and the identity.
    Wipe,
}

/// Mathematical model of a [`Change`].
pub enum ChangeModel {
    SaveIdentity(IdentityModel),
    SaveRecord(RecordModel),
    RemoveRecord(Seq<char>),
    RemoveRecords(Seq<Seq<char>>),
    RemoveAllRecords,
    Wipe,
}

impl View for Change {
    type V = ChangeModel;

    open spec fn view(&self) -> ChangeModel {
        match self {
            Change::SaveIdentity(i) => ChangeModel::SaveIdentity(i@),
            Change::SaveRecord(r) => ChangeModel::SaveRecord(r@),
            Change::RemoveRecord(id) => ChangeModel::RemoveRecord(id@),
            Change::RemoveRecords(ids) => ChangeModel::RemoveRecords(ids.deep_view()),
            Change::RemoveAllRecords => ChangeModel::RemoveAllRecords,
            Change::Wipe => ChangeModel::Wipe,
        }
    }
}

/// A copy of a list of channel ids.
pub fn duplicate_ids(ids: &Vec<String>) -> (copy: Vec<String>)
    ensures
        copy.deep_view() == ids.deep_view(),
{
    let mut copy: Vec<String> = Vec::new();
    let mut i: usize = 0;
    while i < ids.len()
        invariant
            i <= ids.len(),
            copy.deep_view() =~= ids.deep_view().subrange(0, i as int),
        decreases ids.len() - i,
    {
        let ghost before = copy.deep_view();
        let id = ids[i].clone();
        copy.push(id);
        assert(copy.deep_view() =~= before.push(id@));
        i += 1;
    }
    assert(copy.deep_view() =~= ids.deep_view());
    copy
}

impl Change {
    /// A copy of this change.
    pub fn duplicate(&self) -> (copy: Change)
        ensures
            copy@ == self@,
    {
        match self {
            Change::SaveIdentity(i) => Change::SaveIdentity(i.duplicate()),
            Change::SaveRecord(r) => Change::SaveRecord(r.duplicate()),
            Change::RemoveRecord(id) => Change::RemoveRecord(id.clone()),
            Change::RemoveRecords(ids) => Change::RemoveRecords(duplicate_ids(ids)),
            Change::RemoveAllRecords => Change::RemoveAllRecords,
            Change::Wipe => Change::Wipe,
        }
    }
}

/// What the caller has to do next.
#[derive(Clone, Debug, PartialEq, Eq)]
pub enum Action {
    /// Register this installation with the relay. Answered by
    /// [`Event::Registered`] or [`Event::RelayFailed`].
    Register { sender_id: String, bridge_type: String, native_token: String },
    /// Make a new random channel id. Answered by [`Event::ChannelId`].
    GenerateChannelId,
    /// Make a key pair and a 16-byte authentication secret from a secure
    /// random source. Answered by [`Event::Keys`] or [`Event::CryptoFailed`].
    GenerateKeys,
    /// Create a channel at the relay. Answered by [`Event::ChannelCreated`]
    /// or [`Event::RelayFailed`].
    CreateChannel { connection_id: String, channel_id: String },
    /// Delete a channel at the relay. Answered by [`Event::RelayOk`] or
    /// [`Event::RelayFailed`].
    DeleteChannel { connection_id: String, channel_id: String },
    /// Delete all channels at the relay. Answered by [`Event::RelayOk`] or
    /// [`Event::RelayFailed`].
    DeleteAllChannels { connection_id: String },
    /// Delete, as far as the relay lets it be done, channels that the relay
    /// has and this installation does not. Answered by [`Event::RelayOk`] or
    /// [`Event::RelayFailed`]; a failure changes nothing.
    DeleteOrphans { connection_id: String, channel_ids: Vec<String> },
    /// Tell the relay the new native token. Answered by [`Event::RelayOk`]
    /// or [`Event::RelayFailed`].
    UpdateToken { connection_id: String, native_token: String },
    /// Fetch the channel ids that the relay has for this installation.
    /// Answered by [`Event::Channels`] or [`Event::RelayFailed`].
    ListChannels { connection_id: String },
    /// Write to the record store. Answered by [`Event::Stored`] or
    /// [`Event::StorageFailed`].
    Persist(Change),
    /// Decrypt a message with a subscription's key material. Answered by
    /// [`Event::Plaintext`] or [`Event::CryptoFailed`].
    Decrypt {
        scheme: Scheme,
        private_key: Vec<u8>,
        auth_secret: Vec<u8>,
        body: String,
        salt: String,
        dh: String,
    },
    /// The operation is over.
    Finished(Outcome),
}

/// Mathematical model of an [`Action`].
pub enum ActionModel {
    Register { sender_id: Seq<char>, bridge_type: Seq<char>, native_token: Seq<char> },
    GenerateChannelId,
    GenerateKeys,
    CreateChannel { connection_id: Seq<char>, channel_id: Seq<char> },
    DeleteChannel { connection_id: Seq<char>, channel_id: Seq<char> },
    DeleteAllChannels { connection_id: Seq<char> },
    DeleteOrphans { connection_id: Seq<char>, channel_ids: Seq<Seq<char>> },
    UpdateToken { connection_id: Seq<char>, native_token: Seq<char> },
    ListChannels { connection_id: Seq<char> },
    Persist(ChangeModel),
    Decrypt {
        scheme: Scheme,
        private_key: Seq<u8>,
        auth_secret: Seq<u8>,
        body: Seq<char>,
        salt: Seq<char>,
        dh: Seq<char>,
    },
    Finished(OutcomeModel),
}

impl View for Action {
    type V = ActionModel;

    open spec fn view(&self) -> ActionModel {
        match self {
            Action::Register { sender_id, bridge_type, native_token } => ActionModel::Register {
                sender_id: sender_id@,
                bridge_type: bridge_type@,
                native_token: native_token@,
            },
            Action::GenerateChannelId => ActionModel::GenerateChannelId,
            Action::GenerateKeys => ActionModel::GenerateKeys,
            Action::CreateChannel { connection_id, channel_id } => ActionModel::CreateChannel {
                connection_id: connection_id@,
                channel_id: channel_id@,
            },
            Action::DeleteChannel { connection_id, channel_id } => ActionModel::DeleteChannel {
                connection_id: connection_id@,
                channel_id: channel_id@,
            },
            Action::DeleteAllChannels { connection_id } => ActionModel::DeleteAllChannels {
                connection_id: connection_id@,
            },
            Action::DeleteOrphans { connection_id, channel_ids } => ActionModel::DeleteOrphans {
                connection_id: connection_id@,
                channel_ids: channel_ids.deep_view(),
            },
            Action::UpdateToken { connection_id, native_token } => ActionModel::UpdateToken {
                connection_id: connection_id@,
                native_token: native_token@,
            },
            Action::ListChannels { connection_id } => ActionModel::ListChannels {
                connection_id: connection_id@,
            },
            Action::Persist(change) => ActionModel::Persist(change@),
            Action::Decrypt { scheme, private_key, auth_secret, body, salt, dh } => {
                ActionModel::Decrypt {
                    scheme: *scheme,
                    private_key: private_key@,
                    auth_secret: auth_secret@,
                    body: body@,
                    salt: salt@,
                    dh: dh@,
                }
            },
            Action::Finished(outcome) => ActionModel::Finished(outcome@),
        }
    }
}

/// What came of an action.
#[derive(Clone, Debug, PartialEq, Eq)]
pub enum Event {
    /// The relay registered this installation under `connection_id`.
    Registered { connection_id: String },
    /// A new random channel id.
    ChannelId(String),
    /// New key material.
    Keys(KeyMaterial),
    /// The relay created the channel; messages go to `endpoint`.
    ChannelCreated { endpoint: String },
    /// The relay did what was asked.
    RelayOk,
    /// The channel ids that the relay has for this installation.
    Channels(Vec<String>),
    /// The relay call failed, with this HTTP status; without one where the
    /// transport itself failed.
    RelayFailed { status: Option<u16> },
    /// The record store was written.
    Stored,
    /// The record store could not be written.
    StorageFailed,
    /// The decrypted message.
    Plaintext(Vec<u8>),
    /// Key generation or decryption failed.
    CryptoFailed,
}

/// Mathematical model of an [`Event`].
pub enum EventModel {
    Registered { connection_id: Seq<char> },
    ChannelId(Seq<char>),
    Keys(KeysModel),
    ChannelCreated { endpoint: Seq<char> },
    RelayOk,
    Channels(Seq<Seq<char>>),
    RelayFailed { status: Option<u16> },
    Stored,
    StorageFailed,
    Plaintext(Seq<u8>),
    CryptoFailed,
}

impl View for Event {
    type V = EventModel;

    open spec fn view(&self) -> EventModel {
        match self {
            Event::Registered { connection_id } => EventModel::Registered {
                connection_id: connection_id@,
            },
            Event::ChannelId(id) => EventModel::ChannelId(id@),
            Event::Keys(keys) => EventModel::Keys(keys@),
            Event::ChannelCreated { endpoint } => EventModel::ChannelCreated {
                endpoint: endpoint@,
            },
            Event::RelayOk => EventModel::RelayOk,
            Event::Channels(ids) => EventModel::Channels(ids.deep_view()),
            Event::RelayFailed { status } => EventModel::RelayFailed { status: *status },
            Event::Stored => EventModel::Stored,
            Event::StorageFailed => EventModel::StorageFailed,
            Event::Plaintext(p) => EventModel::Plaintext(p@),
            Event::CryptoFailed => EventModel::CryptoFailed,
        }
    }
}

/// What follows a write to the record store.
#[derive(Clone, Debug, PartialEq, Eq)]
pub enum Next {
    /// The operation ends with this outcome.
    Finish(Outcome),
    /// The subscription that waited for the identity goes on.
    Subscribe(Request),
    /// The relay is asked to delete these channels, and the verification
    /// then ends with these change notices.
    Orphans { channel_ids: Vec<String>, changes: Vec<PushSubscriptionChanged> },
}

/// Mathematical model of [`Next`].
pub enum NextModel {
    Finish(OutcomeModel),
    Subscribe(RequestModel),
    Orphans { channel_ids: Seq<Seq<char>>, changes: Seq<ChannelScope> },
}

impl View for Next {
    type V = NextModel;

    open spec fn view(&self) -> NextModel {
        match self {
            Next::Finish(outcome) => NextModel::Finish(outcome@),
            Next::Subscribe(request) => NextModel::Subscribe(request@),
            Next::Orphans { channel_ids, changes } => NextModel::Orphans {
                channel_ids: channel_ids.deep_view(),
                changes: changes.deep_view(),
            },
        }
    }
}

/// The operation in flight: what the manager waits for.
#[derive(Clone, Debug, PartialEq, Eq)]
pub enum Pending {
    /// No operation is in flight.
    Idle,
    /// Waiting for the relay to register this installation.
    Registering(Request),
    /// Waiting for a new channel id.
    NamingChannel(Request),
    /// Waiting for key material.
    GeneratingKeys(Request),
    /// Waiting for the relay to create the channel.
    CreatingChannel { request: Request, keys: KeyMaterial },
    /// Waiting for the relay to delete one channel.
    DeletingChannel { channel_id: String },
    /// Waiting for the relay to delete all channels.
    DeletingAllChannels,
    /// Waiting for the relay to take the new native token.
    UpdatingToken { native_token: String },
    /// Waiting for the relay's list of channels.
    ListingChannels,
    /// Waiting for the record store to be written.
    Committing { change: Change, next: Next },
    /// Waiting for the relay to have deleted what it can of the orphans.
    DeletingOrphans { changes: Vec<PushSubscriptionChanged> },
    /// Waiting for the plaintext.
    Decrypting,
}

/// Mathematical model of [`Pending`].
pub enum PendingModel {
    Idle,
    Registering(RequestModel),
    NamingChannel(RequestModel),
    GeneratingKeys(RequestModel),
    CreatingChannel { request: RequestModel, keys: KeysModel },
    DeletingChannel { channel_id: Seq<char> },
    DeletingAllChannels,
    UpdatingToken { native_token: Seq<char> },
    ListingChannels,
    Committing { change: ChangeModel, next: NextModel },
    DeletingOrphans { changes: Seq<ChannelScope> },
    Decrypting,
}

impl View for Pending {
    type V = PendingModel;

    open spec fn view(&self) -> PendingModel {
        match self {
            Pending::Idle => PendingModel::Idle,
            Pending::Registering(r) => PendingModel::Registering(r@),
            Pending::NamingChannel(r) => PendingModel::NamingChannel(r@),
            Pending::GeneratingKeys(r) => PendingModel::GeneratingKeys(r@),
            Pending::CreatingChannel { request, keys } => PendingModel::CreatingChannel {
                request: request@,
                keys: keys@,
            },
            Pending::DeletingChannel { channel_id } => PendingModel::DeletingChannel {
                channel_id: channel_id@,
            },
            Pending::DeletingAllChannels => PendingModel::DeletingAllChannels,
            Pending::UpdatingToken { native_token } => PendingModel::UpdatingToken {
                native_token: native_token@,
            },
            Pending::ListingChannels => PendingModel::ListingChannels,
            Pending::Committing { change, next } => PendingModel::Committing {
                change: change@,
                next: next@,
            },
            Pending::DeletingOrphans { changes } => PendingModel::DeletingOrphans {
                changes: changes.deep_view(),
            },
            Pending::Decrypting => PendingModel::Decrypting,
        }
    }
}

/// Whether `event` is an answer to what `pending` waits for.
pub open spec fn answers(pending: PendingModel, event: EventModel) -> bool {
    match pending {
        PendingModel::Idle => false,
        PendingModel::Registering(_) => event is Registered || event is RelayFailed,
        PendingModel::NamingChannel(_) => event is ChannelId,
        PendingModel::GeneratingKeys(_) => event is Keys || event is CryptoFailed,
        PendingModel::CreatingChannel { .. } => event is ChannelCreated || event is RelayFailed,
        PendingModel::DeletingChannel { .. } => event is RelayOk || event is RelayFailed,
        PendingModel::DeletingAllChannels => event is RelayOk || event is RelayFailed,
        PendingModel::UpdatingToken { .. } => event is RelayOk || event is RelayFailed,
        PendingModel::ListingChannels => event is Channels || event is RelayFailed,
        PendingModel::Committing { .. } => event is Stored || event is StorageFailed,
        PendingModel::DeletingOrphans { .. } => event is RelayOk || event is RelayFailed,
        PendingModel::Decrypting => event is Plaintext || event is CryptoFailed,
    }
}

} // verus!
