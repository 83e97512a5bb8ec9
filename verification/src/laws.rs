//! What holds of the manager in every state that it can reach.

use vstd::prelude::*;
use crate::error::{spec_classify, PushError};
use crate::machine::{
    changed_ids, fail, lemma_advance_inv, lemma_start_inv, spec_advance, spec_decrypt,
    spec_subscribe, spec_unsubscribe, spec_unsubscribe_all, spec_update, spec_verify_connection,
    ManagerModel, Step,
};
use crate::protocol::{
    answers, ActionModel, ChangeModel, EventModel, OutcomeModel, PendingModel, RequestModel,
};
use crate::record::{changes_of, RecordModel};
use crate::store::{
    distinct_channels, has_channel, lemma_filter_distinct, lemma_position_unique,
    lemma_put_distinct, lemma_without_distinct, listed_in, lookup, missing_from, position,
};

verus! {

/// One call of a public operation of the manager.
pub enum Call {
    Subscribe(RequestModel),
    Unsubscribe(Seq<char>),
    UnsubscribeAll,
    Update(Seq<char>),
    VerifyConnection,
    Decrypt {
        channel_id: Seq<char>,
        body: Seq<char>,
        encoding: Seq<char>,
        salt: Seq<char>,
        dh: Seq<char>,
    },
    Advance(EventModel),
}

/// The state after `call`. An operation is started only where none is in
/// flight, and an event is taken only where it answers what is waited for:
/// any other call does not take place.
pub open spec fn after_call(s: ManagerModel, call: Call) -> ManagerModel {
    match call {
        Call::Advance(event) => if answers(s.pending, event) {
            spec_advance(s, event).0
        } else {
            s
        },
        _ => if !(s.pending is Idle) {
            s
        } else {
            match call {
                Call::Subscribe(request) => spec_subscribe(s, request).0,
                Call::Unsubscribe(channel_id) => spec_unsubscribe(s, channel_id).0,
                Call::UnsubscribeAll => spec_unsubscribe_all(s).0,
                Call::Update(native_token) => spec_update(s, native_token).0,
                Call::VerifyConnection => spec_verify_connection(s).0,
                Call::Decrypt { channel_id, body, encoding, salt, dh } => spec_decrypt(
                    s,
                    channel_id,
                    body,
                    encoding,
                    salt,
                    dh,
                ).0,
                Call::Advance(_) => s,
            }
        },
    }
}

/// The state after the calls `calls`, in order.
pub open spec fn after_calls(s: ManagerModel, calls: Seq<Call>) -> ManagerModel
    decreases calls.len(),
{
    if calls.len() == 0 {
        s
    } else {
        after_call(after_calls(s, calls.drop_last()), calls.last())
    }
}

/// Uniqueness. Whatever operations are called and whatever the
/// collaborators answer, no two records share a channel id, no record is
/// kept under the empty channel id, and no record is kept without a
/// connection identity.
pub proof fn law_channel_ids_stay_unique(start: ManagerModel, calls: Seq<Call>)
    requires
        start.inv(),
    ensures
        after_calls(start, calls).inv(),
        distinct_channels(after_calls(start, calls).records),
        after_calls(start, calls).identity is None ==> after_calls(start, calls).records.len() == 0,
    decreases calls.len(),
{
    if calls.len() > 0 {
        law_channel_ids_stay_unique(start, calls.drop_last());
        let s = after_calls(start, calls.drop_last());
        match calls.last() {
            Call::Advance(event) => {
                if answers(s.pending, event) {
                    lemma_advance_inv(s, event);
                }
            },
            _ => {
                if s.pending is Idle {
                    lemma_start_inv(s);
                }
            },
        }
    }
}

/// Unsubscribing a channel that has no record ends at once with `false`:
/// nothing is asked of the relay or of the record store, and the state
/// stays as it was.
pub proof fn law_unsubscribe_unknown_changes_nothing(s: ManagerModel, channel_id: Seq<char>)
    requires
        s.pending is Idle,
        channel_id.len() > 0,
        !has_channel(s.records, channel_id),
    ensures
        spec_unsubscribe(s, channel_id) == (
            s,
            ActionModel::Finished(OutcomeModel::Unsubscribed(false)),
        ),
{
}

/// Decrypting for a channel that has no record ends at once with
/// `RecordNotFoundError`: no key material is handed out and nothing is
/// asked of anyone, whatever the message and its headers.
pub proof fn law_decrypt_unknown_channel(
    s: ManagerModel,
    channel_id: Seq<char>,
    body: Seq<char>,
    encoding: Seq<char>,
    salt: Seq<char>,
    dh: Seq<char>,
)
    requires
        s.pending is Idle,
        !has_channel(s.records, channel_id),
    ensures
        spec_decrypt(s, channel_id, body, encoding, salt, dh) == (
            s,
            ActionModel::Finished(OutcomeModel::Failed(PushError::RecordNotFoundError)),
        ),
{
}

/// Registration is lazy. The relay is asked to register only by a
/// `subscribe` that finds no connection identity; no later step of any
/// operation asks for it; a subscription that succeeds leaves an identity
/// behind; and a `subscribe` that finds one does not ask again.
pub proof fn law_registers_once(s: ManagerModel, request: RequestModel, event: EventModel)
    requires
        s.inv(),
    ensures
        s.identity is None ==> spec_subscribe(s, request).1 is Register,
        s.identity is Some ==> !(spec_subscribe(s, request).1 is Register),
        answers(s.pending, event) ==> !(spec_advance(s, event).1 is Register),
        answers(s.pending, event) && spec_advance(s, event).1 is Finished && spec_advance(
            s,
            event,
        ).1->Finished_0 is Subscribed ==> spec_advance(s, event).0.identity is Some,
        s.identity is Some && answers(s.pending, event) && spec_advance(s, event).0.identity
            is None ==> s.pending is Committing && s.pending->Committing_change is Wipe,
{
}

/// Two tests that agree on every record of `records` keep the same part.
pub proof fn lemma_filter_agree(
    records: Seq<RecordModel>,
    p: spec_fn(RecordModel) -> bool,
    q: spec_fn(RecordModel) -> bool,
)
    requires
        forall|i: int| 0 <= i < records.len() ==> p(#[trigger] records[i]) == q(records[i]),
    ensures
        records.filter(p) == records.filter(q),
    decreases records.len(),
{
    reveal(Seq::filter);
    if records.len() > 0 {
        let front = records.drop_last();
        assert forall|i: int| 0 <= i < front.len() implies p(#[trigger] front[i]) == q(
            front[i],
        ) by {
            assert(front[i] == records[i]);
        }
        lemma_filter_agree(front, p, q);
        assert(p(records[records.len() - 1]) == q(records[records.len() - 1]));
    }
}

/// A part of `records` holds a channel exactly where `records` holds it
/// under a record that passes the test.
pub proof fn lemma_filter_channels(records: Seq<RecordModel>, keep: spec_fn(RecordModel) -> bool)
    ensures
        forall|id: Seq<char>| #[trigger]
            has_channel(records.filter(keep), id) <==> exists|i: int|
                0 <= i < records.len() && (#[trigger] records[i]).channel_id == id && keep(
                    records[i],
                ),
    decreases records.len(),
{
    reveal(Seq::filter);
    if records.len() > 0 {
        let front = records.drop_last();
        let last = records.last();
        lemma_filter_channels(front, keep);
        let part = front.filter(keep);
        let all = records.filter(keep);
        assert forall|id: Seq<char>| #[trigger] has_channel(all, id) implies exists|i: int|
            0 <= i < records.len() && (#[trigger] records[i]).channel_id == id && keep(
                records[i],
            ) by {
            let k = choose|k: int| 0 <= k < all.len() && (#[trigger] all[k]).channel_id == id;
            if k < part.len() {
                assert(all[k] == part[k]);
                assert(has_channel(part, id));
                let i = choose|i: int|
                    0 <= i < front.len() && (#[trigger] front[i]).channel_id == id && keep(
                        front[i],
                    );
                assert(records[i] == front[i]);
            } else {
                assert(all[k] == last);
                assert(records[records.len() - 1] == last);
            }
        }
        assert forall|id: Seq<char>|
            (exists|i: int|
                0 <= i < records.len() && (#[trigger] records[i]).channel_id == id && keep(
                    records[i],
                )) implies #[trigger] has_channel(all, id) by {
            let i = choose|i: int|
                0 <= i < records.len() && (#[trigger] records[i]).channel_id == id && keep(
                    records[i],
                );
            if i < front.len() {
                assert(front[i] == records[i]);
                assert(has_channel(part, id));
                let k = choose|k: int| 0 <= k < part.len() && (#[trigger] part[k]).channel_id == id;
                assert(all[k] == part[k]);
            } else {
                assert(all[all.len() - 1] == last);
            }
        }
    }
}

/// The channel ids of change notices are those of the records they stand for.
pub proof fn lemma_changed_ids(records: Seq<RecordModel>)
    ensures
        changed_ids(changes_of(records)).len() == records.len(),
        forall|i: int|
            0 <= i < records.len() ==> #[trigger] changed_ids(changes_of(records))[i]
                == records[i].channel_id,
        forall|id: Seq<char>| #[trigger]
            changed_ids(changes_of(records)).contains(id) <==> has_channel(records, id),
{
    let ids = changed_ids(changes_of(records));
    assert forall|id: Seq<char>| #[trigger] ids.contains(id) implies has_channel(records, id) by {
        let k = choose|k: int| 0 <= k < ids.len() && ids[k] == id;
        assert(records[k].channel_id == id);
    }
    assert forall|id: Seq<char>| has_channel(records, id) implies #[trigger] ids.contains(id) by {
        let k = choose|k: int| 0 <= k < records.len() && (#[trigger] records[k]).channel_id == id;
        assert(ids[k] == id);
    }
}

/// The operation in flight, carried to its end where the record store
/// takes what it is asked to write, and the relay answers `cleanup` to a
/// request to delete orphans.
pub open spec fn settled(step: Step, cleanup: EventModel) -> Step {
    let stored = if step.1 is Persist {
        spec_advance(step.0, EventModel::Stored)
    } else {
        step
    };
    if stored.1 is DeleteOrphans {
        spec_advance(stored.0, cleanup)
    } else {
        stored
    }
}

/// Reconciliation is complete. With the channels `remote` at the relay,
/// `verify_connection` ends with one notice for each record whose channel
/// the relay lacks and for no other, and the store keeps exactly the
/// records whose channel the relay has; whether the relay then deletes its
/// orphans changes neither.
pub proof fn law_reconciliation_complete(
    s: ManagerModel,
    remote: Seq<Seq<char>>,
    cleanup: EventModel,
)
    requires
        s.inv(),
        s.pending is ListingChannels,
        cleanup is RelayOk || cleanup is RelayFailed,
    ensures
        ({
            let lost = s.records.filter(missing_from(remote));
            let end = settled(spec_advance(s, EventModel::Channels(remote)), cleanup);
            &&& end.1 == ActionModel::Finished(OutcomeModel::Verified(changes_of(lost)))
            &&& end.0 == ManagerModel {
                records: s.records.filter(listed_in(remote)),
                pending: PendingModel::Idle,
                ..s
            }
            &&& distinct_channels(lost)
            &&& forall|id: Seq<char>| #[trigger]
                changed_ids(changes_of(lost)).contains(id) <==> has_channel(s.records, id)
                    && !remote.contains(id)
            &&& forall|id: Seq<char>| #[trigger]
                has_channel(end.0.records, id) <==> has_channel(s.records, id) && remote.contains(
                    id,
                )
        }),
{
    let lost = s.records.filter(missing_from(remote));
    let kept = s.records.filter(listed_in(remote));
    let ids = changed_ids(changes_of(lost));
    lemma_filter_distinct(s.records, missing_from(remote));
    lemma_filter_channels(s.records, missing_from(remote));
    lemma_filter_channels(s.records, listed_in(remote));
    lemma_changed_ids(lost);
    assert forall|id: Seq<char>| #[trigger] ids.contains(id) <==> has_channel(s.records, id)
        && !remote.contains(id) by {
        assert(ids.contains(id) <==> has_channel(lost, id));
        if has_channel(s.records, id) && !remote.contains(id) {
            let i = choose|i: int|
                0 <= i < s.records.len() && (#[trigger] s.records[i]).channel_id == id;
            assert(missing_from(remote)(s.records[i]));
        }
    }
    assert forall|id: Seq<char>| #[trigger] has_channel(kept, id) <==> has_channel(s.records, id)
        && remote.contains(id) by {
        if has_channel(s.records, id) && remote.contains(id) {
            let i = choose|i: int|
                0 <= i < s.records.len() && (#[trigger] s.records[i]).channel_id == id;
            assert(listed_in(remote)(s.records[i]));
        }
    }
    assert forall|i: int| 0 <= i < s.records.len() implies missing_from(ids)(
        #[trigger] s.records[i],
    ) == listed_in(remote)(s.records[i]) by {
        let id = s.records[i].channel_id;
        assert(has_channel(s.records, id));
        assert(ids.contains(id) <==> !remote.contains(id));
    }
    lemma_filter_agree(s.records, missing_from(ids), listed_in(remote));
    if lost.len() == 0 {
        assert(ids.len() == 0);
        assert forall|i: int| 0 <= i < s.records.len() implies listed_in(remote)(
            #[trigger] s.records[i],
        ) by {
            assert(!ids.contains(s.records[i].channel_id));
        }
        lemma_filter_all(s.records, listed_in(remote));
    }
}

/// A test that every record passes keeps them all.
pub proof fn lemma_filter_all(records: Seq<RecordModel>, keep: spec_fn(RecordModel) -> bool)
    requires
        forall|i: int| 0 <= i < records.len() ==> keep(#[trigger] records[i]),
    ensures
        records.filter(keep) == records,
    decreases records.len(),
{
    reveal(Seq::filter);
    if records.len() > 0 {
        let front = records.drop_last();
        assert forall|i: int| 0 <= i < front.len() implies keep(#[trigger] front[i]) by {
            assert(front[i] == records[i]);
        }
        lemma_filter_all(front, keep);
        assert(keep(records[records.len() - 1]));
        assert(front.push(records.last()) =~= records);
    }
}

/// Where the relay no longer knows the identity, `verify_connection` ends
/// with one notice for every record, and neither a record nor the identity
/// is left.
pub proof fn law_invalid_identity_reports_all(s: ManagerModel, status: Option<u16>)
    requires
        s.inv(),
        s.pending is ListingChannels,
        spec_classify(status) is IdentityInvalid,
    ensures
        ({
            let end = settled(
                spec_advance(s, EventModel::RelayFailed { status }),
                EventModel::RelayOk,
            );
            &&& end.1 == ActionModel::Finished(OutcomeModel::Verified(changes_of(s.records)))
            &&& end.0 == ManagerModel {
                identity: None,
                records: Seq::empty(),
                pending: PendingModel::Idle,
                ..s
            }
            &&& forall|id: Seq<char>| #[trigger]
                changed_ids(changes_of(s.records)).contains(id) <==> has_channel(s.records, id)
        }),
{
    lemma_changed_ids(s.records);
}

/// A step that ends the operation with an error leaves the identity and
/// the records as they were before the step. So does a step that the
/// record store fails, which ends with `StorageError`.
pub proof fn law_failure_changes_nothing(s: ManagerModel, event: EventModel)
    requires
        s.inv(),
        answers(s.pending, event),
    ensures
        spec_advance(s, event).1 is Finished && spec_advance(s, event).1->Finished_0 is Failed ==> {
            &&& spec_advance(s, event).0.records == s.records
            &&& spec_advance(s, event).0.identity == s.identity
        },
        s.pending is Committing && event is StorageFailed ==> spec_advance(s, event) == fail(
            s,
            PushError::StorageError,
        ),
{
}

/// Key material and endpoint are made once. A step leaves every record as
/// it was, or removes it, but for the step that stores the record of a
/// subscription: that one puts the new record under its channel id.
pub proof fn law_records_are_not_mutated(s: ManagerModel, event: EventModel, channel_id: Seq<char>)
    requires
        s.inv(),
        answers(s.pending, event),
    ensures
        ({
            let after = lookup(spec_advance(s, event).0.records, channel_id);
            let saved = s.pending is Committing && event is Stored
                && s.pending->Committing_change is SaveRecord
                && s.pending->Committing_change->SaveRecord_0.channel_id == channel_id;
            &&& saved ==> after == Some(s.pending->Committing_change->SaveRecord_0)
            &&& !saved ==> after is None || after == lookup(s.records, channel_id)
        }),
{
    match s.pending {
        PendingModel::Committing { change, next } => {
            if event is Stored {
                match change {
                    ChangeModel::SaveRecord(record) => {
                        lemma_put_distinct(s.records, record);
                    },
                    ChangeModel::RemoveRecord(id) => {
                        lemma_without_distinct(s.records, id);
                    },
                    ChangeModel::RemoveRecords(ids) => {
                        lemma_filter_lookup(s.records, missing_from(ids), channel_id);
                    },
                    _ => {},
                }
            }
        },
        _ => {},
    }
}

/// A record found in a part of `records` is the one found in `records`.
pub proof fn lemma_filter_lookup(
    records: Seq<RecordModel>,
    keep: spec_fn(RecordModel) -> bool,
    channel_id: Seq<char>,
)
    requires
        distinct_channels(records),
    ensures
        lookup(records.filter(keep), channel_id) is None || lookup(
            records.filter(keep),
            channel_id,
        ) == lookup(records, channel_id),
    decreases records.len(),
{
    reveal(Seq::filter);
    let all = records.filter(keep);
    if has_channel(all, channel_id) {
        let k = position(all, channel_id);
        let front = records.drop_last();
        let part = front.filter(keep);
        assert forall|i: int, j: int| 0 <= i < j < front.len() implies (
        #[trigger] front[i]).channel_id != (#[trigger] front[j]).channel_id by {
            assert(front[i] == records[i] && front[j] == records[j]);
        }
        if k < part.len() {
            assert(all[k] == part[k]);
            lemma_filter_lookup(front, keep, channel_id);
            lemma_filter_distinct(front, keep);
            lemma_position_unique(part, channel_id, k);
            assert(has_channel(front, channel_id));
            let p = position(front, channel_id);
            assert(front[p] == records[p]);
            lemma_position_unique(records, channel_id, p);
        } else {
            assert(all[k] == records[records.len() - 1]);
            lemma_position_unique(records, channel_id, records.len() - 1);
        }
    }
}

} // verus!
