//! The chat history: every message once, in the order of sending, the newest ones only.
use crate::collections::{deep, group_deep, without_item, TextSet};
use crate::model::{ChatRecord, ChatRecordModel};
use crate::text::{comes_before, text_before};
use crate::time::{normalize_timestamp_micros, timestamp_micros};
use vstd::prelude::*;

verus! {

/// The number of messages that the history keeps.
pub const MAX_MESSAGES: usize = 500;

/// `a` was sent before `b`; at the same time, the identifiers decide.
pub open spec fn record_before(a: ChatRecordModel, b: ChatRecordModel) -> bool {
    let sent_a = timestamp_micros(a.sent_at);
    let sent_b = timestamp_micros(b.sent_at);
    sent_a < sent_b || (sent_a == sent_b && text_before(a.id, b.id))
}

/// The place of a record among others: behind the last one that it does not come before.
pub open spec fn record_place(records: Seq<ChatRecordModel>, record: ChatRecordModel) -> int
    decreases records.len(),
{
    if records.len() == 0 || !record_before(record, records.last()) {
        records.len() as int
    } else {
        record_place(records.drop_last(), record)
    }
}

/// The records in the order of sending; equal ones keep their order.
pub open spec fn in_order(records: Seq<ChatRecordModel>) -> Seq<ChatRecordModel>
    decreases records.len(),
{
    if records.len() == 0 {
        records
    } else {
        let others = in_order(records.drop_last());
        others.insert(record_place(others, records.last()), records.last())
    }
}

/// The place of a record is one of those that there are.
pub proof fn record_place_in_range(records: Seq<ChatRecordModel>, record: ChatRecordModel)
    ensures
        0 <= record_place(records, record) <= records.len(),
    decreases records.len(),
{
    if records.len() != 0 && record_before(record, records.last()) {
        record_place_in_range(records.drop_last(), record);
    }
}

/// Ordering keeps the number of records.
pub proof fn in_order_len(records: Seq<ChatRecordModel>)
    ensures
        in_order(records).len() == records.len(),
    decreases records.len(),
{
    if records.len() != 0 {
        in_order_len(records.drop_last());
        record_place_in_range(in_order(records.drop_last()), records.last());
    }
}

/// The known identifiers without those of the given records.
pub open spec fn forget_ids(seen: Seq<Seq<char>>, records: Seq<ChatRecordModel>) -> Seq<Seq<char>>
    decreases records.len(),
{
    if records.len() == 0 {
        seen
    } else {
        without_item(forget_ids(seen, records.drop_last()), records.last().id)
    }
}

/// The chat history and the identifiers of the messages in it.
#[derive(Debug, PartialEq, Eq)]
pub struct History {
    pub records: Vec<ChatRecord>,
    pub seen: TextSet,
}

/// The content of [`History`].
#[verifier::ext_equal]
pub struct HistoryModel {
    pub records: Seq<ChatRecordModel>,
    pub seen: Seq<Seq<char>>,
}

impl View for History {
    type V = HistoryModel;

    open spec fn view(&self) -> HistoryModel {
        HistoryModel { records: deep(self.records@), seen: self.seen@ }
    }
}

impl HistoryModel {
    /// A history without messages.
    pub open spec fn empty() -> HistoryModel {
        HistoryModel { records: Seq::empty(), seen: Seq::empty() }
    }

    /// The number of messages to drop when there are `count`.
    pub open spec fn overflow(count: nat) -> int {
        if count > MAX_MESSAGES {
            count - MAX_MESSAGES
        } else {
            0
        }
    }

    /// The history with a message that is not known yet.
    pub open spec fn with_new(self, record: ChatRecordModel) -> HistoryModel {
        let all = in_order(self.records.push(record));
        let dropped = Self::overflow(all.len());
        HistoryModel {
            records: all.skip(dropped),
            seen: forget_ids(self.seen.push(record.id), all.take(dropped)),
        }
    }

    /// The history with a message, which changes nothing if it is known.
    pub open spec fn with_record(self, record: ChatRecordModel) -> HistoryModel {
        if self.seen.contains(record.id) {
            self
        } else {
            self.with_new(record)
        }
    }
}

/// Whether `left` comes before `right` in the history.
pub fn comes_first(left: &ChatRecord, right: &ChatRecord) -> (first: bool)
    ensures
        first == record_before(left@, right@),
{
    let sent_left: i64 = normalize_timestamp_micros(left.sent_at);
    let sent_right: i64 = normalize_timestamp_micros(right.sent_at);
    sent_left < sent_right || (sent_left == sent_right && comes_before(
        left.id.as_str(),
        right.id.as_str(),
    ))
}

fn find_place(records: &Vec<ChatRecord>, record: &ChatRecord) -> (place: usize)
    ensures
        place == record_place(deep(records@), record@),
        place <= records@.len(),
{
    let ghost all = deep(records@);
    let mut i: usize = records.len();
    assert(all.take(i as int) =~= all);
    while i > 0 && comes_first(record, &records[i - 1])
        invariant
            i <= records@.len(),
            all == deep(records@),
            record_place(all, record@) == record_place(all.take(i as int), record@),
        decreases i,
    {
        assert(all.take(i as int).last() == all[i - 1]);
        assert(all.take(i as int).drop_last() =~= all.take(i - 1));
        i = i - 1;
    }
    proof {
        if i > 0 {
            assert(all.take(i as int).last() == all[i - 1]);
        }
    }
    i
}

/// Puts records in the order of sending.
pub fn sort_records(records: Vec<ChatRecord>) -> (sorted: Vec<ChatRecord>)
    ensures
        deep(sorted@) == in_order(deep(records@)),
{
    broadcast use group_deep;

    let ghost all = deep(records@);
    let total: usize = records.len();
    let mut rest = records;
    let mut sorted: Vec<ChatRecord> = Vec::new();
    let mut done: usize = 0;
    proof {
        assert(all.take(0) =~= Seq::<ChatRecordModel>::empty());
        assert(deep(sorted@) =~= all.take(0));
    }
    while rest.len() > 0
        invariant
            done + rest@.len() == all.len(),
            all.len() == total,
            deep(rest@) == all.skip(done as int),
            deep(sorted@) == in_order(all.take(done as int)),
        decreases rest.len(),
    {
        broadcast use group_deep;

        let record = rest.remove(0);
        let place = find_place(&sorted, &record);
        proof {
            assert(record@ == all.skip(done as int)[0]);
            assert(all.take(done + 1).last() == record@);
            assert(all.take(done + 1).drop_last() =~= all.take(done as int));
            assert(all.skip(done as int).remove(0) =~= all.skip(done + 1));
        }
        sorted.insert(place, record);
        done = done + 1;
    }
    assert(all.take(done as int) =~= all);
    sorted
}

impl History {
    /// A history without messages.
    pub fn new() -> (history: History)
        ensures
            history@ == HistoryModel::empty(),
    {
        let history = History { records: Vec::new(), seen: TextSet::new() };
        assert(history@ =~= HistoryModel::empty());
        history
    }

    /// Adds a message unless it is known, and says whether it was new.
    pub fn insert_record(&mut self, record: ChatRecord) -> (inserted: bool)
        ensures
            inserted == !old(self)@.seen.contains(record@.id),
            final(self)@ == old(self)@.with_record(record@),
    {
        broadcast use group_deep;

        if !self.seen.insert(record.id.as_str()) {
            return false;
        }
        let mut records: Vec<ChatRecord> = Vec::new();
        std::mem::swap(&mut records, &mut self.records);
        records.push(record);
        let mut sorted = sort_records(records);
        let ghost all = deep(sorted@);
        let ghost known = self.seen@;
        proof {
            in_order_len(old(self)@.records.push(record@));
        }
        if sorted.len() > MAX_MESSAGES {
            let overflow: usize = sorted.len() - MAX_MESSAGES;
            let kept = sorted.split_off(overflow);
            let mut i: usize = 0;
            assert(all.take(0) =~= Seq::<ChatRecordModel>::empty());
            while i < sorted.len()
                invariant
                    i <= sorted@.len(),
                    sorted@.len() == overflow,
                    overflow <= all.len(),
                    deep(sorted@) == all.take(overflow as int),
                    self.seen@ == forget_ids(known, all.take(i as int)),
                decreases sorted.len() - i,
            {
                let _known = self.seen.remove(sorted[i].id.as_str());
                proof {
                    assert(all.take(overflow as int)[i as int] == sorted@[i as int]@);
                    assert(all.take(i + 1).drop_last() =~= all.take(i as int));
                    assert(all.take(i + 1).last() == sorted@[i as int]@);
                }
                i = i + 1;
            }
            self.records = kept;
            assert(deep(self.records@) =~= all.skip(overflow as int));
        } else {
            self.records = sorted;
            assert(all.skip(0) =~= all);
            assert(all.take(0) =~= Seq::<ChatRecordModel>::empty());
        }
        true
    }
}

} // verus!
