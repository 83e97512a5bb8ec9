//! The subscription store: records keyed by channel id.

use vstd::prelude::*;
use crate::record::{changes_of, PushSubscriptionChanged, RecordModel, SubscriptionRecord};

verus! {

/// Whether some record is kept under the channel id `id`.
pub open spec fn has_channel(records: Seq<RecordModel>, id: Seq<char>) -> bool {
    exists|i: int| 0 <= i < records.len() && (#[trigger] records[i]).channel_id == id
}

/// No two records share a channel id.
pub open spec fn distinct_channels(records: Seq<RecordModel>) -> bool {
    forall|i: int, j: int|
        0 <= i < j < records.len() ==> (#[trigger] records[i]).channel_id != (
        #[trigger] records[j]).channel_id
}

/// The place of the record kept under `id`, where there is one.
pub open spec fn position(records: Seq<RecordModel>, id: Seq<char>) -> int {
    choose|i: int| 0 <= i < records.len() && (#[trigger] records[i]).channel_id == id
}

/// The record kept under `id`, if any.
pub open spec fn lookup(records: Seq<RecordModel>, id: Seq<char>) -> Option<RecordModel> {
    if has_channel(records, id) {
        Some(records[position(records, id)])
    } else {
        None
    }
}

/// The records after `record` was stored: it takes the place of the record
/// with the same channel id, or is added at the end.
pub open spec fn put(records: Seq<RecordModel>, record: RecordModel) -> Seq<RecordModel> {
    if has_channel(records, record.channel_id) {
        records.update(position(records, record.channel_id), record)
    } else {
        records.push(record)
    }
}

/// The records without the one kept under `id`.
pub open spec fn without(records: Seq<RecordModel>, id: Seq<char>) -> Seq<RecordModel> {
    if has_channel(records, id) {
        records.remove(position(records, id))
    } else {
        records
    }
}

/// The channel ids of `records`, in order.
pub open spec fn channel_ids(records: Seq<RecordModel>) -> Seq<Seq<char>> {
    records.map_values(|r: RecordModel| r.channel_id)
}

/// The test "this record's channel id is among `ids`".
pub open spec fn listed_in(ids: Seq<Seq<char>>) -> spec_fn(RecordModel) -> bool {
    |r: RecordModel| ids.contains(r.channel_id)
}

/// The test "this record's channel id is not among `ids`".
pub open spec fn missing_from(ids: Seq<Seq<char>>) -> spec_fn(RecordModel) -> bool {
    |r: RecordModel| !ids.contains(r.channel_id)
}

/// The test "no record is kept under this channel id".
pub open spec fn unknown_to(records: Seq<RecordModel>) -> spec_fn(Seq<char>) -> bool {
    |id: Seq<char>| !has_channel(records, id)
}

/// With distinct channel ids, a record found under `id` is at `position`.
pub proof fn lemma_position_unique(records: Seq<RecordModel>, id: Seq<char>, i: int)
    requires
        distinct_channels(records),
        0 <= i < records.len(),
        records[i].channel_id == id,
    ensures
        has_channel(records, id),
        position(records, id) == i,
{
    let p = position(records, id);
    if p < i {
        assert(records[p].channel_id != records[i].channel_id);
    } else if i < p {
        assert(records[i].channel_id != records[p].channel_id);
    }
}

/// Storing a record keeps channel ids distinct.
pub proof fn lemma_put_distinct(records: Seq<RecordModel>, record: RecordModel)
    requires
        distinct_channels(records),
    ensures
        distinct_channels(put(records, record)),
        has_channel(put(records, record), record.channel_id),
        lookup(put(records, record), record.channel_id) == Some(record),
        forall|id: Seq<char>|
            id != record.channel_id ==> lookup(put(records, record), id) == lookup(records, id),
{
    let after = put(records, record);
    let at: int = if has_channel(records, record.channel_id) {
        position(records, record.channel_id)
    } else {
        records.len() as int
    };
    assert(after.len() > at && after[at] == record);
    assert forall|i: int, j: int| 0 <= i < j < after.len() implies (#[trigger] after[i]).channel_id
        != (#[trigger] after[j]).channel_id by {
        if i != at && j != at {
            assert(after[i] == records[i] && after[j] == records[j]);
        } else if i == at {
            assert(after[j] == records[j]);
            if has_channel(records, record.channel_id) {
                assert(records[at].channel_id != records[j].channel_id);
            }
        } else {
            assert(after[i] == records[i]);
            if has_channel(records, record.channel_id) {
                assert(records[i].channel_id != records[at].channel_id);
            }
        }
    }
    lemma_position_unique(after, record.channel_id, at);
    assert forall|id: Seq<char>| id != record.channel_id implies lookup(after, id) == lookup(
        records,
        id,
    ) by {
        if has_channel(records, id) {
            let p = position(records, id);
            assert(p != at);
            assert(after[p] == records[p]);
            lemma_position_unique(after, id, p);
        } else if has_channel(after, id) {
            let p = position(after, id);
            assert(p != at);
            assert(after[p] == records[p]);
        }
    }
}

/// Removing a record keeps channel ids distinct and touches no other record.
pub proof fn lemma_without_distinct(records: Seq<RecordModel>, id: Seq<char>)
    requires
        distinct_channels(records),
    ensures
        distinct_channels(without(records, id)),
        !has_channel(without(records, id), id),
        forall|other: Seq<char>|
            other != id ==> lookup(without(records, id), other) == lookup(records, other),
{
    let after = without(records, id);
    if has_channel(records, id) {
        let at = position(records, id);
        assert forall|i: int| 0 <= i < after.len() implies #[trigger] after[i] == records[if i
            < at {
            i
        } else {
            i + 1
        }] by {}
        assert forall|i: int, j: int| 0 <= i < j < after.len() implies (
        #[trigger] after[i]).channel_id != (#[trigger] after[j]).channel_id by {
            let a = if i < at { i } else { i + 1 };
            let b = if j < at { j } else { j + 1 };
            assert(after[i] == records[a] && after[j] == records[b]);
            assert(records[a].channel_id != records[b].channel_id);
        }
        if has_channel(after, id) {
            let p = position(after, id);
            let q = if p < at { p } else { p + 1 };
            assert(after[p] == records[q]);
            lemma_position_unique(records, id, q);
        }
        assert forall|other: Seq<char>| other != id implies lookup(after, other) == lookup(
            records,
            other,
        ) by {
            if has_channel(records, other) {
                let p = position(records, other);
                let q = if p < at { p } else { p - 1 };
                assert(after[q] == records[p]);
                lemma_position_unique(after, other, q);
            } else if has_channel(after, other) {
                let p = position(after, other);
                let q = if p < at { p } else { p + 1 };
                assert(after[p] == records[q]);
            }
        }
    }
}

/// A part of records with distinct channel ids has distinct channel ids.
pub proof fn lemma_filter_distinct(records: Seq<RecordModel>, keep: spec_fn(RecordModel) -> bool)
    requires
        distinct_channels(records),
    ensures
        distinct_channels(records.filter(keep)),
        forall|id: Seq<char>| #[trigger]
            has_channel(records.filter(keep), id) ==> has_channel(records, id),
    decreases records.len(),
{
    reveal(Seq::filter);
    if records.len() > 0 {
        let front = records.drop_last();
        let last = records.last();
        assert forall|i: int, j: int| 0 <= i < j < front.len() implies (
        #[trigger] front[i]).channel_id != (#[trigger] front[j]).channel_id by {
            assert(front[i] == records[i] && front[j] == records[j]);
        }
        lemma_filter_distinct(front, keep);
        let part = front.filter(keep);
        let all = records.filter(keep);
        assert forall|id: Seq<char>| #[trigger] has_channel(all, id) implies has_channel(
            records,
            id,
        ) by {
            let p = position(all, id);
            if p < part.len() {
                assert(all[p] == part[p]);
                assert(has_channel(part, id));
                let q = position(front, id);
                assert(front[q] == records[q]);
            } else {
                assert(all[p] == last);
                assert(records[records.len() - 1] == last);
            }
        }
        assert forall|i: int, j: int| 0 <= i < j < all.len() implies (
        #[trigger] all[i]).channel_id != (#[trigger] all[j]).channel_id by {
            assert(all[i] == part[i]);
            if j < part.len() {
                assert(all[j] == part[j]);
            } else {
                assert(all[j] == last);
                assert(has_channel(part, part[i].channel_id));
                let q = position(front, part[i].channel_id);
                assert(front[q] == records[q]);
                assert(records[q].channel_id != records[records.len() - 1].channel_id);
            }
        }
    }
}

/// Whether `id` is among `ids`.
pub fn is_listed(ids: &Vec<String>, id: &String) -> (found: bool)
    ensures
        found == ids.deep_view().contains(id@),
{
    let mut i: usize = 0;
    while i < ids.len()
        invariant
            i <= ids.len(),
            forall|k: int| 0 <= k < i ==> #[trigger] ids.deep_view()[k] != id@,
        decreases ids.len() - i,
    {
        if ids[i] == *id {
            assert(ids.deep_view()[i as int] == id@);
            return true;
        }
        i += 1;
    }
    false
}

/// The records of all subscriptions, at most one for each channel id.
pub struct SubscriptionStore {
    records: Vec<SubscriptionRecord>,
}

impl View for SubscriptionStore {
    type V = Seq<RecordModel>;

    closed spec fn view(&self) -> Seq<RecordModel> {
        self.records.deep_view()
    }
}

impl SubscriptionStore {
    /// The store's invariant: channel ids are distinct.
    pub open spec fn wf(&self) -> bool {
        distinct_channels(self@)
    }

    /// A store without records.
    pub fn new() -> (store: SubscriptionStore)
        ensures
            store@ == Seq::<RecordModel>::empty(),
            store.wf(),
    {
        let store = SubscriptionStore { records: Vec::new() };
        assert(store@ =~= Seq::<RecordModel>::empty());
        store
    }

    /// The number of records.
    pub fn len(&self) -> (n: usize)
        ensures
            n == self@.len(),
    {
        self.records.len()
    }

    /// The place of the record kept under `id`, if there is one.
    fn find(&self, id: &String) -> (at: Option<usize>)
        ensures
            match at {
                Some(i) => i < self@.len() && self@[i as int].channel_id == id@,
                None => !has_channel(self@, id@),
            },
    {
        let mut i: usize = 0;
        while i < self.records.len()
            invariant
                i <= self.records.len(),
                forall|k: int| 0 <= k < i ==> (#[trigger] self@[k]).channel_id != id@,
            decreases self.records.len() - i,
        {
            if self.records[i].channel_id == *id {
                return Some(i);
            }
            i += 1;
        }
        None
    }

    /// Whether a record is kept under `id`.
    pub fn contains(&self, id: &String) -> (found: bool)
        ensures
            found == has_channel(self@, id@),
    {
        self.find(id).is_some()
    }

    /// Stores `record`, in place of any record with the same channel id.
    pub fn insert(&mut self, record: SubscriptionRecord)
        requires
            old(self).wf(),
        ensures
            final(self).wf(),
            final(self)@ == put(old(self)@, record@),
    {
        proof {
            lemma_put_distinct(self@, record@);
        }
        match self.find(&record.channel_id) {
            Some(i) => {
                proof {
                    lemma_position_unique(self@, record@.channel_id, i as int);
                }
                self.records.set(i, record);
                assert(self@ =~= put(old(self)@, record@));
            },
            None => {
                self.records.push(record);
                assert(self@ =~= put(old(self)@, record@));
            },
        }
    }

    /// The record kept under `id`, if any.
    pub fn get(&self, id: &String) -> (found: Option<&SubscriptionRecord>)
        requires
            self.wf(),
        ensures
            match found {
                Some(r) => lookup(self@, id@) == Some(r@),
                None => lookup(self@, id@) is None,
            },
    {
        match self.find(id) {
            Some(i) => {
                proof {
                    lemma_position_unique(self@, id@, i as int);
                }
                Some(&self.records[i])
            },
            None => None,
        }
    }

    /// Removes the record kept under `id`. Returns whether there was one.
    pub fn delete(&mut self, id: &String) -> (removed: bool)
        requires
            old(self).wf(),
        ensures
            final(self).wf(),
            removed == has_channel(old(self)@, id@),
            final(self)@ == without(old(self)@, id@),
    {
        proof {
            lemma_without_distinct(self@, id@);
        }
        match self.find(id) {
            Some(i) => {
                proof {
                    lemma_position_unique(self@, id@, i as int);
                }
                let _ = self.records.remove(i);
                assert(self@ =~= without(old(self)@, id@));
                true
            },
            None => false,
        }
    }

    /// Removes every record. Returns the channel ids that were removed.
    pub fn delete_all(&mut self) -> (removed: Vec<String>)
        ensures
            final(self).wf(),
            final(self)@ == Seq::<RecordModel>::empty(),
            removed.deep_view() == channel_ids(old(self)@),
    {
        let removed = self.channel_ids();
        self.records.clear();
        assert(self@ =~= Seq::<RecordModel>::empty());
        removed
    }

    /// The change notices for the records whose channel id is not among
    /// `remote`, in the store's order.
    pub fn lost(&self, remote: &Vec<String>) -> (changes: Vec<PushSubscriptionChanged>)
        ensures
            changes.deep_view() == changes_of(self@.filter(missing_from(remote.deep_view()))),
    {
        let ghost test = missing_from(remote.deep_view());
        let mut changes: Vec<PushSubscriptionChanged> = Vec::new();
        let mut i: usize = 0;
        assert(self@.subrange(0, 0) =~= Seq::<RecordModel>::empty());
        proof {
            reveal(Seq::filter);
        }
        while i < self.records.len()
            invariant
                i <= self.records.len(),
                test == missing_from(remote.deep_view()),
                changes.deep_view() =~= changes_of(self@.subrange(0, i as int).filter(test)),
            decreases self.records.len() - i,
        {
            let ghost before = changes.deep_view();
            let ghost seen = self@.subrange(0, i as int);
            proof {
                seen.lemma_filter_push(self@[i as int], test);
                assert(seen.push(self@[i as int]) =~= self@.subrange(0, i + 1));
            }
            if !is_listed(remote, &self.records[i].channel_id) {
                let change = self.records[i].changed();
                changes.push(change);
                assert(changes.deep_view() =~= before.push(change@));
                assert(changes_of(seen.filter(test).push(self@[i as int])) =~= before.push(
                    change@,
                ));
            }
            i += 1;
        }
        assert(self@.subrange(0, i as int) =~= self@);
        changes
    }

    /// The channel ids among `remote` under which no record is kept, in the
    /// order of `remote`.
    pub fn orphans(&self, remote: &Vec<String>) -> (ids: Vec<String>)
        ensures
            ids.deep_view() == remote.deep_view().filter(unknown_to(self@)),
    {
        let ghost test = unknown_to(self@);
        let ghost all = remote.deep_view();
        let mut ids: Vec<String> = Vec::new();
        let mut i: usize = 0;
        assert(all.subrange(0, 0) =~= Seq::<Seq<char>>::empty());
        proof {
            reveal(Seq::filter);
        }
        while i < remote.len()
            invariant
                i <= remote.len(),
                test == unknown_to(self@),
                all == remote.deep_view(),
                ids.deep_view() =~= all.subrange(0, i as int).filter(test),
            decreases remote.len() - i,
        {
            let ghost before = ids.deep_view();
            let ghost seen = all.subrange(0, i as int);
            proof {
                seen.lemma_filter_push(all[i as int], test);
                assert(seen.push(all[i as int]) =~= all.subrange(0, i + 1));
            }
            if !self.contains(&remote[i]) {
                let id = remote[i].clone();
                ids.push(id);
                assert(ids.deep_view() =~= before.push(id@));
            }
            i += 1;
        }
        assert(all.subrange(0, i as int) =~= all);
        ids
    }

    /// Removes the records whose channel id is among `ids`.
    pub fn delete_listed(&mut self, ids: &Vec<String>)
        requires
            old(self).wf(),
        ensures
            final(self).wf(),
            final(self)@ == old(self)@.filter(missing_from(ids.deep_view())),
    {
        let ghost test = missing_from(ids.deep_view());
        let mut kept: Vec<SubscriptionRecord> = Vec::new();
        let mut rest: Vec<SubscriptionRecord> = Vec::new();
        std::mem::swap(&mut self.records, &mut rest);
        let ghost all = rest.deep_view();
        let mut i: usize = 0;
        assert(all.subrange(0, 0) =~= Seq::<RecordModel>::empty());
        proof {
            reveal(Seq::filter);
        }
        while i < rest.len()
            invariant
                i <= rest.len(),
                test == missing_from(ids.deep_view()),
                all == rest.deep_view(),
                kept.deep_view() =~= all.subrange(0, i as int).filter(test),
            decreases rest.len() - i,
        {
            let ghost before = kept.deep_view();
            let ghost seen = all.subrange(0, i as int);
            proof {
                seen.lemma_filter_push(all[i as int], test);
                assert(seen.push(all[i as int]) =~= all.subrange(0, i + 1));
            }
            if !is_listed(ids, &rest[i].channel_id) {
                let record = rest[i].duplicate();
                kept.push(record);
                assert(kept.deep_view() =~= before.push(record@));
            }
            i += 1;
        }
        assert(all.subrange(0, i as int) =~= all);
        self.records = kept;
        proof {
            lemma_filter_distinct(all, test);
        }
    }

    /// The change notices for all records, in the store's order.
    pub fn changes(&self) -> (changes: Vec<PushSubscriptionChanged>)
        ensures
            changes.deep_view() == changes_of(self@),
    {
        let mut changes: Vec<PushSubscriptionChanged> = Vec::new();
        let mut i: usize = 0;
        while i < self.records.len()
            invariant
                i <= self.records.len(),
                changes.deep_view() =~= changes_of(self@).subrange(0, i as int),
            decreases self.records.len() - i,
        {
            let ghost before = changes.deep_view();
            let change = self.records[i].changed();
            changes.push(change);
            assert(changes.deep_view() =~= before.push(change@));
            i += 1;
        }
        assert(changes.deep_view() =~= changes_of(self@));
        changes
    }

    /// The channel ids of all records, in the store's order.
    pub fn channel_ids(&self) -> (ids: Vec<String>)
        ensures
            ids.deep_view() == channel_ids(self@),
    {
        let mut ids: Vec<String> = Vec::new();
        let mut i: usize = 0;
        while i < self.records.len()
            invariant
                i <= self.records.len(),
                ids.deep_view() =~= channel_ids(self@).subrange(0, i as int),
            decreases self.records.len() - i,
        {
            let ghost before = ids.deep_view();
            let id = self.records[i].channel_id.clone();
            assert(id@ == self@[i as int].channel_id);
            ids.push(id);
            assert(ids.deep_view() =~= before.push(id@));
            i += 1;
        }
        assert(ids.deep_view() =~= channel_ids(self@));
        ids
    }

    /// Copies of all records, in the store's order.
    pub fn list(&self) -> (all: Vec<SubscriptionRecord>)
        ensures
            all.deep_view() == self@,
    {
        let mut all: Vec<SubscriptionRecord> = Vec::new();
        let mut i: usize = 0;
        while i < self.records.len()
            invariant
                i <= self.records.len(),
                all.deep_view() =~= self@.subrange(0, i as int),
            decreases self.records.len() - i,
        {
            let ghost before = all.deep_view();
            let record = self.records[i].duplicate();
            assert(record@ == self@[i as int]);
            all.push(record);
            assert(all.deep_view() =~= before.push(record@));
            i += 1;
        }
        assert(all.deep_view() =~= self@);
        all
    }
}

} // verus!
