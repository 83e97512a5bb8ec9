//! Subscription records, the connection identity and what is published of them.

use vstd::prelude::*;

verus! {

/// Length in bytes of an authentication secret.
pub const AUTH_SECRET_LEN: usize = 16;

/// The identity under which this installation is known to the relay.
#[derive(Clone, Debug, PartialEq, Eq)]
pub struct ConnectionIdentity {
    pub connection_id: String,
    pub sender_id: String,
    pub bridge_type: String,
    pub native_token: String,
}

/// Mathematical model of a [`ConnectionIdentity`].
pub struct IdentityModel {
    pub connection_id: Seq<char>,
    pub sender_id: Seq<char>,
    pub bridge_type: Seq<char>,
    pub native_token: Seq<char>,
}

impl View for ConnectionIdentity {
    type V = IdentityModel;

    open spec fn view(&self) -> IdentityModel {
        IdentityModel {
            connection_id: self.connection_id@,
            sender_id: self.sender_id@,
            bridge_type: self.bridge_type@,
            native_token: self.native_token@,
        }
    }
}

/// One subscription: a channel with its endpoint and key material.
#[derive(Clone, Debug, PartialEq, Eq)]
pub struct SubscriptionRecord {
    pub channel_id: String,
    pub scope: String,
    pub endpoint: String,
    pub public_key: Vec<u8>,
    pub private_key: Vec<u8>,
    pub auth_secret: Vec<u8>,
    pub server_key: Option<String>,
}

/// Mathematical model of a [`SubscriptionRecord`].
pub struct RecordModel {
    pub channel_id: Seq<char>,
    pub scope: Seq<char>,
    pub endpoint: Seq<char>,
    pub public_key: Seq<u8>,
    pub private_key: Seq<u8>,
    pub auth_secret: Seq<u8>,
    pub server_key: Option<Seq<char>>,
}

impl View for SubscriptionRecord {
    type V = RecordModel;

    open spec fn view(&self) -> RecordModel {
        RecordModel {
            channel_id: self.channel_id@,
            scope: self.scope@,
            endpoint: self.endpoint@,
            public_key: self.public_key@,
            private_key: self.private_key@,
            auth_secret: self.auth_secret@,
            server_key: self.server_key.deep_view(),
        }
    }
}

impl DeepView for SubscriptionRecord {
    type V = RecordModel;

    open spec fn deep_view(&self) -> RecordModel {
        self@
    }
}

/// A channel id with the scope it was subscribed under: the model of
/// [`PushSubscriptionChanged`] and of [`DispatchInfo`].
pub struct ChannelScope {
    pub channel_id: Seq<char>,
    pub scope: Seq<char>,
}

/// Tells the caller that a channel's endpoint is no longer valid.
#[derive(Clone, Debug, PartialEq, Eq)]
pub struct PushSubscriptionChanged {
    pub channel_id: String,
    pub scope: String,
}

impl View for PushSubscriptionChanged {
    type V = ChannelScope;

    open spec fn view(&self) -> ChannelScope {
        ChannelScope { channel_id: self.channel_id@, scope: self.scope@ }
    }
}

impl DeepView for PushSubscriptionChanged {
    type V = ChannelScope;

    open spec fn deep_view(&self) -> ChannelScope {
        self@
    }
}

/// What is needed to hand a message on to its subscriber.
#[derive(Clone, Debug, PartialEq, Eq)]
pub struct DispatchInfo {
    pub channel_id: String,
    pub scope: String,
}

impl View for DispatchInfo {
    type V = ChannelScope;

    open spec fn view(&self) -> ChannelScope {
        ChannelScope { channel_id: self.channel_id@, scope: self.scope@ }
    }
}

/// The key material that a sender needs to encrypt for a subscription.
#[derive(Clone, Debug, PartialEq, Eq)]
pub struct KeyInfo {
    pub auth: Vec<u8>,
    pub p256dh: Vec<u8>,
}

/// Where and how to send to a subscription.
#[derive(Clone, Debug, PartialEq, Eq)]
pub struct SubscriptionInfo {
    pub endpoint: String,
    pub keys: KeyInfo,
}

/// What `subscribe` publishes of a new subscription. It has no place for the
/// private key.
#[derive(Clone, Debug, PartialEq, Eq)]
pub struct SubscriptionResponse {
    pub channel_id: String,
    pub subscription_info: SubscriptionInfo,
}

/// Mathematical model of a [`SubscriptionResponse`].
pub struct ResponseModel {
    pub channel_id: Seq<char>,
    pub endpoint: Seq<char>,
    pub auth: Seq<u8>,
    pub p256dh: Seq<u8>,
}

impl View for SubscriptionResponse {
    type V = ResponseModel;

    open spec fn view(&self) -> ResponseModel {
        ResponseModel {
            channel_id: self.channel_id@,
            endpoint: self.subscription_info.endpoint@,
            auth: self.subscription_info.keys.auth@,
            p256dh: self.subscription_info.keys.p256dh@,
        }
    }
}

/// The change notice for a record.
pub open spec fn changed_of(record: RecordModel) -> ChannelScope {
    ChannelScope { channel_id: record.channel_id, scope: record.scope }
}

/// The change notices for `records`, in order.
pub open spec fn changes_of(records: Seq<RecordModel>) -> Seq<ChannelScope> {
    records.map_values(|r: RecordModel| changed_of(r))
}

/// The public part of a record.
pub open spec fn response_of(record: RecordModel) -> ResponseModel {
    ResponseModel {
        channel_id: record.channel_id,
        endpoint: record.endpoint,
        auth: record.auth_secret,
        p256dh: record.public_key,
    }
}

impl ConnectionIdentity {
    /// A copy of this identity.
    pub fn duplicate(&self) -> (r: ConnectionIdentity)
        ensures
            r@ == self@,
    {
        ConnectionIdentity {
            connection_id: self.connection_id.clone(),
            sender_id: self.sender_id.clone(),
            bridge_type: self.bridge_type.clone(),
            native_token: self.native_token.clone(),
        }
    }
}

impl PushSubscriptionChanged {
    /// A copy of this notice.
    pub fn duplicate(&self) -> (r: PushSubscriptionChanged)
        ensures
            r@ == self@,
    {
        PushSubscriptionChanged { channel_id: self.channel_id.clone(), scope: self.scope.clone() }
    }
}

impl SubscriptionRecord {
    /// The change notice for this record.
    pub fn changed(&self) -> (r: PushSubscriptionChanged)
        ensures
            r@ == changed_of(self@),
    {
        PushSubscriptionChanged { channel_id: self.channel_id.clone(), scope: self.scope.clone() }
    }

    /// The dispatch info of this record.
    pub fn dispatch_info(&self) -> (r: DispatchInfo)
        ensures
            r@ == changed_of(self@),
    {
        DispatchInfo { channel_id: self.channel_id.clone(), scope: self.scope.clone() }
    }

    /// The public part of this record: endpoint, public key and
    /// authentication secret, never the private key.
    pub fn response(&self) -> (r: SubscriptionResponse)
        ensures
            r@ == response_of(self@),
    {
        SubscriptionResponse {
            channel_id: self.channel_id.clone(),
            subscription_info: SubscriptionInfo {
                endpoint: self.endpoint.clone(),
                keys: KeyInfo { auth: self.auth_secret.clone(), p256dh: self.public_key.clone() },
            },
        }
    }

    /// A copy of this record.
    pub fn duplicate(&self) -> (r: SubscriptionRecord)
        ensures
            r@ == self@,
    {
        let server_key = match &self.server_key {
            Option::Some(k) => Option::Some(k.clone()),
            Option::None => Option::None,
        };
        SubscriptionRecord {
            channel_id: self.channel_id.clone(),
            scope: self.scope.clone(),
            endpoint: self.endpoint.clone(),
            public_key: self.public_key.clone(),
            private_key: self.private_key.clone(),
            auth_secret: self.auth_secret.clone(),
            server_key,
        }
    }
}

} // verus!
