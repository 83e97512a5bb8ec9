//! The manager as a state machine: its state, and the function from state
//! and event to next state and action.

use vstd::prelude::*;
use crate::error::{spec_classify, spec_communication_error, PushError};
use crate::protocol::{
    answers, ActionModel, ChangeModel, EventModel, KeysModel, NextModel, OutcomeModel,
    PendingModel, RequestModel, Scheme,
};
use crate::record::{changes_of, response_of, ChannelScope, IdentityModel, RecordModel};
use crate::store::{
    distinct_channels, has_channel, lemma_filter_distinct, lemma_put_distinct,
    lemma_without_distinct, lookup, missing_from, position, put, unknown_to, without,
};

verus! {

/// Mathematical model of the manager's configuration.
pub struct ConfigModel {
    pub sender_id: Seq<char>,
    pub server_host: Seq<char>,
    pub http_protocol: Seq<char>,
    pub bridge_type: Seq<char>,
    pub registration_id: Seq<char>,
    pub database_path: Seq<char>,
}

/// Mathematical model of the manager.
pub struct ManagerModel {
    pub config: ConfigModel,
    pub identity: Option<IdentityModel>,
    pub records: Seq<RecordModel>,
    pub pending: PendingModel,
}

/// A state and the action that goes with it.
pub type Step = (ManagerModel, ActionModel);

/// The states that the manager can be in without a connection identity.
pub open spec fn needs_no_identity(pending: PendingModel) -> bool {
    pending is Idle || pending is Registering || (pending matches PendingModel::Committing {
        change,
        ..
    } && change is SaveIdentity)
}

/// What holds of an operation in flight whatever the rest of the state.
pub open spec fn pending_ok(pending: PendingModel) -> bool {
    match pending {
        PendingModel::GeneratingKeys(request) => request.channel_id.len() > 0,
        PendingModel::CreatingChannel { request, .. } => request.channel_id.len() > 0,
        PendingModel::Committing { change, next } => {
            &&& change matches ChangeModel::SaveRecord(record) ==> record.channel_id.len() > 0
            &&& change is Wipe ==> next is Finish && next->Finish_0 is Verified
            &&& next is Finish ==> !(next->Finish_0 is Failed)
        },
        _ => true,
    }
}

impl ManagerModel {
    /// The manager's invariant. Channel ids are distinct and not empty, and
    /// records exist only under a connection identity.
    pub open spec fn inv(self) -> bool {
        &&& distinct_channels(self.records)
        &&& forall|i: int|
            0 <= i < self.records.len() ==> (#[trigger] self.records[i]).channel_id.len() > 0
        &&& self.identity is None ==> self.records.len() == 0 && needs_no_identity(self.pending)
        &&& pending_ok(self.pending)
    }

    /// The connection id held, or the empty id where none is held.
    pub open spec fn connection_id(self) -> Seq<char> {
        match self.identity {
            Some(identity) => identity.connection_id,
            None => Seq::empty(),
        }
    }

    /// This state, waiting for `pending`.
    pub open spec fn waiting(self, pending: PendingModel) -> ManagerModel {
        ManagerModel { pending, ..self }
    }
}

/// What was stored is fit to start from: channel ids are distinct and not
/// empty, and there are records only where there is an identity.
pub open spec fn stored_ok(identity: Option<IdentityModel>, records: Seq<RecordModel>) -> bool {
    &&& distinct_channels(records)
    &&& forall|i: int| 0 <= i < records.len() ==> (#[trigger] records[i]).channel_id.len() > 0
    &&& identity is None ==> records.len() == 0
}

/// The operation goes on: the manager waits for `pending` and asks for `action`.
pub open spec fn wait(s: ManagerModel, pending: PendingModel, action: ActionModel) -> Step {
    (s.waiting(pending), action)
}

/// The operation ends with `outcome`.
pub open spec fn finish(s: ManagerModel, outcome: OutcomeModel) -> Step {
    (s.waiting(PendingModel::Idle), ActionModel::Finished(outcome))
}

/// The operation ends with the error `e`.
pub open spec fn fail(s: ManagerModel, e: PushError) -> Step {
    finish(s, OutcomeModel::Failed(e))
}

/// The record store is asked to make `change`; `next` follows when it has.
pub open spec fn commit(s: ManagerModel, change: ChangeModel, next: NextModel) -> Step {
    wait(s, PendingModel::Committing { change, next }, ActionModel::Persist(change))
}

/// A subscription under a held identity starts: with a channel id if the
/// request names none, else with the keys.
pub open spec fn begin_channel(s: ManagerModel, request: RequestModel) -> Step {
    if request.channel_id.len() == 0 {
        wait(s, PendingModel::NamingChannel(request), ActionModel::GenerateChannelId)
    } else {
        wait(s, PendingModel::GeneratingKeys(request), ActionModel::GenerateKeys)
    }
}

/// `subscribe` on the state `s`.
pub open spec fn spec_subscribe(s: ManagerModel, request: RequestModel) -> Step {
    if s.identity is None {
        wait(
            s,
            PendingModel::Registering(request),
            ActionModel::Register {
                sender_id: s.config.sender_id,
                bridge_type: s.config.bridge_type,
                native_token: s.config.registration_id,
            },
        )
    } else {
        begin_channel(s, request)
    }
}

/// `unsubscribe_all` on the state `s`.
pub open spec fn spec_unsubscribe_all(s: ManagerModel) -> Step {
    if s.identity is None {
        finish(s, OutcomeModel::Unsubscribed(true))
    } else {
        wait(
            s,
            PendingModel::DeletingAllChannels,
            ActionModel::DeleteAllChannels { connection_id: s.connection_id() },
        )
    }
}

/// `unsubscribe` on the state `s`.
pub open spec fn spec_unsubscribe(s: ManagerModel, channel_id: Seq<char>) -> Step {
    if channel_id.len() == 0 {
        spec_unsubscribe_all(s)
    } else if !has_channel(s.records, channel_id) {
        finish(s, OutcomeModel::Unsubscribed(false))
    } else {
        wait(
            s,
            PendingModel::DeletingChannel { channel_id },
            ActionModel::DeleteChannel { connection_id: s.connection_id(), channel_id },
        )
    }
}

/// `update` on the state `s`.
pub open spec fn spec_update(s: ManagerModel, native_token: Seq<char>) -> Step {
    if s.identity is None {
        finish(
            ManagerModel {
                config: ConfigModel { registration_id: native_token, ..s.config },
                ..s
            },
            OutcomeModel::Updated(true),
        )
    } else {
        wait(
            s,
            PendingModel::UpdatingToken { native_token },
            ActionModel::UpdateToken { connection_id: s.connection_id(), native_token },
        )
    }
}

/// `verify_connection` on the state `s`.
pub open spec fn spec_verify_connection(s: ManagerModel) -> Step {
    if s.identity is None {
        finish(s, OutcomeModel::Verified(Seq::empty()))
    } else {
        wait(
            s,
            PendingModel::ListingChannels,
            ActionModel::ListChannels { connection_id: s.connection_id() },
        )
    }
}

/// The scheme that a content encoding names, if the headers it needs are
/// there: `aesgcm` needs a salt and a sender key.
pub open spec fn scheme_of(encoding: Seq<char>, salt: Seq<char>, dh: Seq<char>) -> Option<
    Scheme,
> {
    if encoding == "aes128gcm"@ {
        Some(Scheme::Aes128Gcm)
    } else if encoding == "aesgcm"@ && salt.len() > 0 && dh.len() > 0 {
        Some(Scheme::AesGcm)
    } else {
        None
    }
}

/// `decrypt` on the state `s`.
pub open spec fn spec_decrypt(
    s: ManagerModel,
    channel_id: Seq<char>,
    body: Seq<char>,
    encoding: Seq<char>,
    salt: Seq<char>,
    dh: Seq<char>,
) -> Step {
    match lookup(s.records, channel_id) {
        None => fail(s, PushError::RecordNotFoundError),
        Some(record) => match scheme_of(encoding, salt, dh) {
            None => fail(s, PushError::CryptoError),
            Some(scheme) => wait(
                s,
                PendingModel::Decrypting,
                ActionModel::Decrypt {
                    scheme,
                    private_key: record.private_key,
                    auth_secret: record.auth_secret,
                    body,
                    salt,
                    dh,
                },
            ),
        },
    }
}

/// `dispatch_info_for_chid` on the state `s`.
pub open spec fn spec_dispatch_info(s: ManagerModel, channel_id: Seq<char>) -> Option<
    ChannelScope,
> {
    match lookup(s.records, channel_id) {
        Some(record) => Some(ChannelScope { channel_id: record.channel_id, scope: record.scope }),
        None => None,
    }
}

/// Key material is usable: a 16-byte secret, and keys that are not empty.
pub open spec fn keys_ok(keys: KeysModel) -> bool {
    keys.auth_secret.len() == 16 && keys.public_key.len() > 0 && keys.private_key.len() > 0
}

/// The record of a new subscription.
pub open spec fn record_from(request: RequestModel, keys: KeysModel, endpoint: Seq<char>)
    -> RecordModel {
    RecordModel {
        channel_id: request.channel_id,
        scope: request.scope,
        endpoint,
        public_key: keys.public_key,
        private_key: keys.private_key,
        auth_secret: keys.auth_secret,
        server_key: request.server_key,
    }
}

/// The channel ids of change notices, in order.
pub open spec fn changed_ids(changes: Seq<ChannelScope>) -> Seq<Seq<char>> {
    changes.map_values(|c: ChannelScope| c.channel_id)
}

/// The HTTP status of a failed relay call.
pub open spec fn status_of(event: EventModel) -> Option<u16> {
    match event {
        EventModel::RelayFailed { status } => status,
        _ => None,
    }
}

/// The state after `change` was written to the record store.
pub open spec fn spec_apply(s: ManagerModel, change: ChangeModel) -> ManagerModel {
    match change {
        ChangeModel::SaveIdentity(identity) => ManagerModel {
            config: ConfigModel { registration_id: identity.native_token, ..s.config },
            identity: Some(identity),
            ..s
        },
        ChangeModel::SaveRecord(record) => ManagerModel { records: put(s.records, record), ..s },
        ChangeModel::RemoveRecord(id) => ManagerModel { records: without(s.records, id), ..s },
        ChangeModel::RemoveRecords(ids) => ManagerModel {
            records: s.records.filter(missing_from(ids)),
            ..s
        },
        ChangeModel::RemoveAllRecords => ManagerModel { records: Seq::empty(), ..s },
        ChangeModel::Wipe => ManagerModel { identity: None, records: Seq::empty(), ..s },
    }
}

/// What follows a write to the record store.
pub open spec fn spec_proceed(s: ManagerModel, next: NextModel) -> Step {
    match next {
        NextModel::Finish(outcome) => finish(s, outcome),
        NextModel::Subscribe(request) => begin_channel(s, request),
        NextModel::Orphans { channel_ids, changes } => wait(
            s,
            PendingModel::DeletingOrphans { changes },
            ActionModel::DeleteOrphans { connection_id: s.connection_id(), channel_ids },
        ),
    }
}

/// The relay answered a request to delete, or the call failed: the records
/// go where it confirmed or no longer knows the identity, and the outcome
/// says which; any other failure ends the operation.
pub open spec fn spec_deleted(s: ManagerModel, event: EventModel, change: ChangeModel) -> Step {
    if event is RelayOk {
        commit(s, change, NextModel::Finish(OutcomeModel::Unsubscribed(true)))
    } else if spec_classify(status_of(event)) is IdentityInvalid {
        commit(s, change, NextModel::Finish(OutcomeModel::Unsubscribed(false)))
    } else {
        fail(s, spec_communication_error(status_of(event)))
    }
}

/// The relay listed the channels `remote`: records of channels that it
/// lacks go, and it is asked to delete channels that have no record.
pub open spec fn spec_reconcile(s: ManagerModel, remote: Seq<Seq<char>>) -> Step {
    let changes = changes_of(s.records.filter(missing_from(remote)));
    let orphans = remote.filter(unknown_to(s.records));
    if changes.len() > 0 {
        commit(
            s,
            ChangeModel::RemoveRecords(changed_ids(changes)),
            if orphans.len() > 0 {
                NextModel::Orphans { channel_ids: orphans, changes }
            } else {
                NextModel::Finish(OutcomeModel::Verified(changes))
            },
        )
    } else if orphans.len() > 0 {
        wait(
            s,
            PendingModel::DeletingOrphans { changes },
            ActionModel::DeleteOrphans { connection_id: s.connection_id(), channel_ids: orphans },
        )
    } else {
        finish(s, OutcomeModel::Verified(changes))
    }
}

/// The next state and action when `event` answers what `s` waits for.
pub open spec fn spec_advance(s: ManagerModel, event: EventModel) -> Step
    recommends
        answers(s.pending, event),
{
    match s.pending {
        PendingModel::Idle => arbitrary(),
        PendingModel::Registering(request) => match event {
            EventModel::Registered { connection_id } => commit(
                s,
                ChangeModel::SaveIdentity(
                    IdentityModel {
                        connection_id,
                        sender_id: s.config.sender_id,
                        bridge_type: s.config.bridge_type,
                        native_token: s.config.registration_id,
                    },
                ),
                NextModel::Subscribe(request),
            ),
            _ => fail(s, PushError::RegistrationError),
        },
        PendingModel::NamingChannel(request) => match event {
            EventModel::ChannelId(id) if id.len() > 0 && !has_channel(s.records, id) => wait(
                s,
                PendingModel::GeneratingKeys(RequestModel { channel_id: id, ..request }),
                ActionModel::GenerateKeys,
            ),
            _ => (s, ActionModel::GenerateChannelId),
        },
        PendingModel::GeneratingKeys(request) => match event {
            EventModel::Keys(keys) if keys_ok(keys) => wait(
                s,
                PendingModel::CreatingChannel { request, keys },
                ActionModel::CreateChannel {
                    connection_id: s.connection_id(),
                    channel_id: request.channel_id,
                },
            ),
            _ => fail(s, PushError::CryptoError),
        },
        PendingModel::CreatingChannel { request, keys } => match event {
            EventModel::ChannelCreated { endpoint } => {
                let record = record_from(request, keys, endpoint);
                commit(
                    s,
                    ChangeModel::SaveRecord(record),
                    NextModel::Finish(OutcomeModel::Subscribed(response_of(record))),
                )
            },
            _ => fail(s, spec_communication_error(status_of(event))),
        },
        PendingModel::DeletingChannel { channel_id } => spec_deleted(
            s,
            event,
            ChangeModel::RemoveRecord(channel_id),
        ),
        PendingModel::DeletingAllChannels => spec_deleted(
            s,
            event,
            ChangeModel::RemoveAllRecords,
        ),
        PendingModel::UpdatingToken { native_token } => if event is RelayOk {
            commit(
                s,
                ChangeModel::SaveIdentity(
                    IdentityModel {
                        connection_id: s.connection_id(),
                        sender_id: s.config.sender_id,
                        bridge_type: s.config.bridge_type,
                        native_token,
                    },
                ),
                NextModel::Finish(OutcomeModel::Updated(true)),
            )
        } else if spec_classify(status_of(event)) is IdentityInvalid {
            finish(s, OutcomeModel::Updated(false))
        } else {
            fail(s, spec_communication_error(status_of(event)))
        },
        PendingModel::ListingChannels => match event {
            EventModel::Channels(remote) => spec_reconcile(s, remote),
            _ => if spec_classify(status_of(event)) is IdentityInvalid {
                commit(
                    s,
                    ChangeModel::Wipe,
                    NextModel::Finish(OutcomeModel::Verified(changes_of(s.records))),
                )
            } else {
                fail(s, spec_communication_error(status_of(event)))
            },
        },
        PendingModel::Committing { change, next } => if event is Stored {
            spec_proceed(spec_apply(s, change), next)
        } else {
            fail(s, PushError::StorageError)
        },
        PendingModel::DeletingOrphans { changes } => finish(s, OutcomeModel::Verified(changes)),
        PendingModel::Decrypting => match event {
            EventModel::Plaintext(plaintext) => finish(s, OutcomeModel::Decrypted(plaintext)),
            _ => fail(s, PushError::CryptoError),
        },
    }
}

/// Every record of a part of `records` is one of `records`.
pub proof fn lemma_filter_ids(records: Seq<RecordModel>, keep: spec_fn(RecordModel) -> bool)
    requires
        forall|i: int| 0 <= i < records.len() ==> (#[trigger] records[i]).channel_id.len() > 0,
    ensures
        forall|i: int|
            0 <= i < records.filter(keep).len() ==> (#[trigger] records.filter(
                keep,
            )[i]).channel_id.len() > 0,
    decreases records.len(),
{
    reveal(Seq::filter);
    if records.len() > 0 {
        let front = records.drop_last();
        assert forall|i: int| 0 <= i < front.len() implies (#[trigger] front[i]).channel_id.len()
            > 0 by {
            assert(front[i] == records[i]);
        }
        lemma_filter_ids(front, keep);
        let part = front.filter(keep);
        let all = records.filter(keep);
        assert forall|i: int| 0 <= i < all.len() implies (#[trigger] all[i]).channel_id.len()
            > 0 by {
            if i < part.len() {
                assert(all[i] == part[i]);
            } else {
                assert(all[i] == records[records.len() - 1]);
            }
        }
    }
}

/// A write to the record store keeps what the invariant says of the records.
pub proof fn lemma_apply_inv(s: ManagerModel, change: ChangeModel)
    requires
        s.inv(),
        s.pending == (PendingModel::Committing { change, next: s.pending->Committing_next }),
    ensures
        stored_ok(spec_apply(s, change).identity, spec_apply(s, change).records),
        !(change is Wipe) ==> spec_apply(s, change).identity is Some,
{
    let after = spec_apply(s, change).records;
    match change {
        ChangeModel::SaveRecord(record) => {
            lemma_put_distinct(s.records, record);
            assert forall|i: int| 0 <= i < after.len() implies (
            #[trigger] after[i]).channel_id.len() > 0 by {
                if i < s.records.len() && after[i] != record {
                    assert(after[i] == s.records[i]);
                }
            }
        },
        ChangeModel::RemoveRecord(id) => {
            lemma_without_distinct(s.records, id);
            if has_channel(s.records, id) {
                let at = position(s.records, id);
                assert forall|i: int| 0 <= i < after.len() implies (
                #[trigger] after[i]).channel_id.len() > 0 by {
                    assert(after[i] == s.records[if i < at { i } else { i + 1 }]);
                }
            }
        },
        ChangeModel::RemoveRecords(ids) => {
            lemma_filter_distinct(s.records, missing_from(ids));
            lemma_filter_ids(s.records, missing_from(ids));
        },
        _ => {},
    }
}

/// Every step keeps the invariant: whatever the collaborators answer, no
/// two records come to share a channel id, and no record outlives the
/// connection identity.
pub proof fn lemma_advance_inv(s: ManagerModel, event: EventModel)
    requires
        s.inv(),
        answers(s.pending, event),
    ensures
        spec_advance(s, event).0.inv(),
{
    match s.pending {
        PendingModel::Committing { change, next } => {
            lemma_apply_inv(s, change);
        },
        _ => {},
    }
}

/// Every operation starts in a state that meets the invariant.
pub proof fn lemma_start_inv(s: ManagerModel)
    requires
        s.inv(),
        s.pending is Idle,
    ensures
        forall|request: RequestModel| (#[trigger] spec_subscribe(s, request)).0.inv(),
        forall|id: Seq<char>| (#[trigger] spec_unsubscribe(s, id)).0.inv(),
        spec_unsubscribe_all(s).0.inv(),
        forall|token: Seq<char>| (#[trigger] spec_update(s, token)).0.inv(),
        spec_verify_connection(s).0.inv(),
        forall|id: Seq<char>, body: Seq<char>, encoding: Seq<char>, salt: Seq<char>, dh: Seq<char>|
            (#[trigger] spec_decrypt(s, id, body, encoding, salt, dh)).0.inv(),
{
}

} // verus!
