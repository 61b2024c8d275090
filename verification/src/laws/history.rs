//! What holds of the chat history.
use crate::collections::{first_item_place, is_first_item, set_laws, without_item};
use crate::history::{
    forget_ids, in_order, record_before, record_place, record_place_in_range, HistoryModel,
    MAX_MESSAGES,
};
use crate::laws::orders::text_order_is_total;
use crate::model::ChatRecordModel;
use vstd::prelude::*;

verus! {

/// The records stand in the order of sending.
pub open spec fn is_ordered(records: Seq<ChatRecordModel>) -> bool {
    forall|i: int, j: int|
        0 <= i < j < records.len() ==> record_before(#[trigger] records[i], #[trigger] records[j])
}

/// No two records have the same identifier.
pub open spec fn has_distinct_ids(records: Seq<ChatRecordModel>) -> bool {
    forall|i: int, j: int|
        0 <= i < j < records.len() ==> (#[trigger] records[i]).id != (#[trigger] records[j]).id
}

/// One of the records has the identifier.
pub open spec fn has_id(records: Seq<ChatRecordModel>, id: Seq<char>) -> bool {
    exists|i: int| 0 <= i < records.len() && (#[trigger] records[i]).id == id
}

impl HistoryModel {
    /// The history holds every message once, in the order of sending, no more than it keeps, and
    /// knows the identifiers of just these messages.
    pub open spec fn wf(self) -> bool {
        &&& is_ordered(self.records)
        &&& has_distinct_ids(self.records)
        &&& self.records.len() <= MAX_MESSAGES
        &&& self.seen.no_duplicates()
        &&& forall|id: Seq<char>|
            #[trigger] self.seen.contains(id) <==> has_id(self.records, id)
    }
}

/// Of two messages with different identifiers one comes before the other, never both, and the
/// order is transitive.
pub proof fn record_order_is_total(a: ChatRecordModel, b: ChatRecordModel, c: ChatRecordModel)
    ensures
        !record_before(a, a),
        record_before(a, b) ==> !record_before(b, a),
        record_before(a, b) && record_before(b, c) ==> record_before(a, c),
        a.id != b.id ==> record_before(a, b) || record_before(b, a),
{
    text_order_is_total(a.id, b.id, c.id);
    text_order_is_total(b.id, a.id, a.id);
}

/// Records that are in order stay as they are.
pub proof fn ordering_keeps_order(records: Seq<ChatRecordModel>)
    requires
        is_ordered(records),
    ensures
        in_order(records) == records,
    decreases records.len(),
{
    if records.len() > 0 {
        let others = records.drop_last();
        assert(is_ordered(others));
        ordering_keeps_order(others);
        if others.len() > 0 {
            assert(others.last() == records[records.len() - 2]);
            assert(record_before(records[records.len() - 2], records.last()));
            record_order_is_total(others.last(), records.last(), records.last());
        }
        assert(record_place(others, records.last()) == others.len());
        assert(others.insert(others.len() as int, records.last()) =~= records);
    }
}

/// The records with one more in its place.
pub open spec fn placed(records: Seq<ChatRecordModel>, record: ChatRecordModel) -> Seq<
    ChatRecordModel,
> {
    records.insert(record_place(records, record), record)
}

/// The place of a new record is behind all that come before it and before all others.
pub proof fn place_divides(records: Seq<ChatRecordModel>, record: ChatRecordModel)
    requires
        is_ordered(records),
        !has_id(records, record.id),
    ensures
        0 <= record_place(records, record) <= records.len(),
        forall|i: int|
            0 <= i < record_place(records, record) ==> record_before(#[trigger] records[i], record),
        forall|i: int|
            record_place(records, record) <= i < records.len() ==> record_before(
                record,
                #[trigger] records[i],
            ),
    decreases records.len(),
{
    let p = record_place(records, record);
    record_place_in_range(records, record);
    if records.len() > 0 {
        let others = records.drop_last();
        let last = records.last();
        assert(records[records.len() - 1].id != record.id);
        record_order_is_total(record, last, last);
        record_order_is_total(last, record, record);
        if record_before(record, last) {
            assert(is_ordered(others));
            assert(!has_id(others, record.id)) by {
                if has_id(others, record.id) {
                    let i = choose|i: int|
                        0 <= i < others.len() && (#[trigger] others[i]).id == record.id;
                    assert(records[i].id == record.id);
                }
            }
            place_divides(others, record);
            assert forall|i: int| 0 <= i < p implies record_before(
                #[trigger] records[i],
                record,
            ) by {
                assert(others[i] == records[i]);
            }
            assert forall|i: int| p <= i < records.len() implies record_before(
                record,
                #[trigger] records[i],
            ) by {
                if i < others.len() {
                    assert(others[i] == records[i]);
                }
            }
        } else {
            assert forall|i: int| 0 <= i < p implies record_before(
                #[trigger] records[i],
                record,
            ) by {
                if i < records.len() - 1 {
                    record_order_is_total(records[i], last, record);
                }
            }
        }
    }
}

/// Putting a new record in its place keeps the order and the distinct identifiers.
pub proof fn placing_keeps_order(records: Seq<ChatRecordModel>, record: ChatRecordModel)
    requires
        is_ordered(records),
        has_distinct_ids(records),
        !has_id(records, record.id),
    ensures
        is_ordered(placed(records, record)),
        has_distinct_ids(placed(records, record)),
        in_order(records.push(record)) == placed(records, record),
        forall|id: Seq<char>|
            #[trigger] has_id(placed(records, record), id) <==> has_id(records, id) || id
                == record.id,
{
    let p = record_place(records, record);
    let all = placed(records, record);
    place_divides(records, record);
    ordering_keeps_order(records);
    assert(records.push(record).drop_last() =~= records);
    assert(forall|i: int| 0 <= i < records.len() ==> (#[trigger] records[i]).id != record.id);
    assert forall|i: int, j: int| 0 <= i < j < all.len() implies record_before(
        #[trigger] all[i],
        #[trigger] all[j],
    ) && all[i].id != all[j].id by {
        let a = if i < p {
            i
        } else {
            i - 1
        };
        let b = if j < p {
            j
        } else {
            j - 1
        };
        if i == p {
            assert(all[j] == records[b]);
        } else if j == p {
            assert(all[i] == records[a]);
        } else {
            assert(all[i] == records[a] && all[j] == records[b]);
        }
    }
    assert forall|id: Seq<char>| #[trigger] has_id(all, id) <==> has_id(records, id) || id
        == record.id by {
        if has_id(all, id) && id != record.id {
            let i = choose|i: int| 0 <= i < all.len() && (#[trigger] all[i]).id == id;
            if i < p {
                assert(records[i].id == id);
            } else {
                assert(records[i - 1].id == id);
            }
        }
        if has_id(records, id) {
            let i = choose|i: int| 0 <= i < records.len() && (#[trigger] records[i]).id == id;
            if i < p {
                assert(all[i].id == id);
            } else {
                assert(all[i + 1].id == id);
            }
        }
        if id == record.id {
            assert(all[p].id == id);
        }
    }
}

/// The newest of some records, as many as the history keeps.
pub open spec fn kept(records: Seq<ChatRecordModel>) -> Seq<ChatRecordModel> {
    records.skip(HistoryModel::overflow(records.len()))
}

/// An empty history is in order, and a message keeps it so: every message is there once, in the
/// order of sending, and no more than the newest are kept.
pub proof fn history_is_kept_in_order(history: HistoryModel, record: ChatRecordModel)
    requires
        history.wf(),
    ensures
        HistoryModel::empty().wf(),
        history.with_record(record).wf(),
        !history.seen.contains(record.id) ==> history.with_record(record).records == kept(
            placed(history.records, record),
        ),
{
    assert(HistoryModel::empty().wf());
    if !history.seen.contains(record.id) {
        let all = placed(history.records, record);
        let after = history.with_record(record);
        let dropped = HistoryModel::overflow(all.len());
        let known = history.seen.push(record.id);
        placing_keeps_order(history.records, record);
        place_divides(history.records, record);
        assert(after.records =~= all.skip(dropped));
        assert forall|i: int, j: int| 0 <= i < j < after.records.len() implies record_before(
            #[trigger] after.records[i],
            #[trigger] after.records[j],
        ) && after.records[i].id != after.records[j].id by {
            assert(after.records[i] == all[i + dropped]);
            assert(after.records[j] == all[j + dropped]);
        }
        set_laws(history.seen, record.id, record.id);
        assert forall|id: Seq<char>| #[trigger] known.contains(id) <==> has_id(all, id) by {
            set_laws(history.seen, record.id, id);
        }
        if dropped == 0 {
            assert(all.take(0) =~= Seq::<ChatRecordModel>::empty());
            assert(all.skip(0) =~= all);
        } else {
            let gone = all[0];
            assert(all.take(1).last() == gone);
            assert(all.take(1).drop_last() =~= Seq::<ChatRecordModel>::empty());
            reveal_with_fuel(forget_ids, 2);
            assert(after.seen == without_item(known, gone.id));
            set_laws(known, gone.id, gone.id);
            assert forall|id: Seq<char>| #[trigger] after.seen.contains(id) <==> has_id(
                after.records,
                id,
            ) by {
                set_laws(known, gone.id, id);
                if has_id(all, id) && id != gone.id {
                    let i = choose|i: int| 0 <= i < all.len() && (#[trigger] all[i]).id == id;
                    assert(after.records[i - 1].id == id);
                }
                if has_id(after.records, id) {
                    let i = choose|i: int|
                        0 <= i < after.records.len() && (#[trigger] after.records[i]).id == id;
                    assert(all[i + 1].id == id);
                    assert(all[0].id != all[i + 1].id);
                }
            }
        }
    }
}

/// A message whose identifier is known changes nothing, whatever it says.
pub proof fn a_known_message_changes_nothing(history: HistoryModel, record: ChatRecordModel)
    requires
        history.seen.contains(record.id),
    ensures
        history.with_record(record) == history,
{
}

/// A message that comes again changes nothing.
pub proof fn a_message_counts_once(history: HistoryModel, record: ChatRecordModel)
    requires
        history.wf(),
    ensures
        history.with_record(record).with_record(record) == history.with_record(record),
{
    let after = history.with_record(record);
    if !history.seen.contains(record.id) && !after.seen.contains(record.id) {
        let all = placed(history.records, record);
        let p = record_place(history.records, record);
        history_is_kept_in_order(history, record);
        placing_keeps_order(history.records, record);
        place_divides(history.records, record);
        let dropped = HistoryModel::overflow(all.len());
        assert(all[p].id == record.id);
        assert(p < dropped) by {
            if p >= dropped {
                assert(after.records[p - dropped].id == record.id);
                assert(has_id(after.records, record.id));
            }
        }
        assert(after.records =~= history.records);
        let known = history.seen.push(record.id);
        assert(all.take(1).last() == record);
        assert(all.take(1).drop_last() =~= Seq::<ChatRecordModel>::empty());
        assert(is_first_item(known, record.id, history.seen.len() as int));
        first_item_place(known, record.id, history.seen.len() as int);
        assert(known.remove(history.seen.len() as int) =~= history.seen);
        reveal_with_fuel(forget_ids, 2);
        assert(after =~= history);
    }
}

/// A message is kept unless the history is full of later ones.
pub proof fn only_the_oldest_are_dropped(history: HistoryModel, record: ChatRecordModel)
    requires
        history.wf(),
    ensures
        has_id(history.with_record(record).records, record.id) || (history.records.len()
            == MAX_MESSAGES && forall|i: int|
            0 <= i < history.records.len() ==> record_before(
                record,
                #[trigger] history.records[i],
            )),
{
    if !history.seen.contains(record.id) {
        let all = placed(history.records, record);
        let p = record_place(history.records, record);
        let after = history.with_record(record);
        history_is_kept_in_order(history, record);
        place_divides(history.records, record);
        let dropped = HistoryModel::overflow(all.len());
        assert(all[p].id == record.id);
        if p >= dropped {
            assert(after.records[p - dropped].id == record.id);
        }
    }
}

/// Records that are in order are told by what they are: two such sequences with the same
/// records are the same.
pub proof fn order_determines_the_sequence(a: Seq<ChatRecordModel>, b: Seq<ChatRecordModel>)
    requires
        is_ordered(a),
        is_ordered(b),
        forall|r: ChatRecordModel|
            #![trigger a.contains(r)]
            #![trigger b.contains(r)]
            a.contains(r) <==> b.contains(r),
    ensures
        a == b,
    decreases a.len(),
{
    if a.len() == 0 {
        if b.len() > 0 {
            assert(b.contains(b[0]));
        }
        assert(a =~= b);
    } else if b.len() == 0 {
        assert(a.contains(a[0]));
    } else {
        let x = a.last();
        let y = b.last();
        assert(a.contains(x) && b.contains(y));
        assert(x == y) by {
            let i = choose|i: int| 0 <= i < b.len() && b[i] == x;
            let j = choose|j: int| 0 <= j < a.len() && a[j] == y;
            if x != y {
                assert(i < b.len() - 1);
                assert(j < a.len() - 1);
                assert(record_before(b[i], b[b.len() - 1]));
                assert(record_before(a[j], a[a.len() - 1]));
                record_order_is_total(x, y, x);
            }
        }
        let c = a.drop_last();
        let d = b.drop_last();
        assert forall|r: ChatRecordModel|
            #![trigger c.contains(r)]
            #![trigger d.contains(r)]
            c.contains(r) <==> d.contains(r) by {
            record_order_is_total(r, r, r);
            if c.contains(r) {
                let i = choose|i: int| 0 <= i < c.len() && c[i] == r;
                assert(a[i] == r);
                assert(a.contains(r));
                let k = choose|k: int| 0 <= k < b.len() && b[k] == r;
                assert(record_before(a[i], a[a.len() - 1]));
                assert(k < b.len() - 1);
                assert(d[k] == r);
            }
            if d.contains(r) {
                let i = choose|i: int| 0 <= i < d.len() && d[i] == r;
                assert(b[i] == r);
                assert(b.contains(r));
                let k = choose|k: int| 0 <= k < a.len() && a[k] == r;
                assert(record_before(b[i], b[b.len() - 1]));
                assert(k < a.len() - 1);
                assert(c[k] == r);
            }
        }
        order_determines_the_sequence(c, d);
        assert(a =~= c.push(x));
        assert(b =~= d.push(y));
    }
}

/// The records of a sequence with one more in its place.
proof fn placed_contains(records: Seq<ChatRecordModel>, record: ChatRecordModel)
    ensures
        forall|r: ChatRecordModel|
            #[trigger] placed(records, record).contains(r) <==> records.contains(r) || r == record,
{
    let p = record_place(records, record);
    let all = placed(records, record);
    record_place_in_range(records, record);
    assert forall|r: ChatRecordModel| #[trigger] all.contains(r) <==> records.contains(r) || r
        == record by {
        if all.contains(r) && r != record {
            let i = choose|i: int| 0 <= i < all.len() && all[i] == r;
            if i < p {
                assert(records[i] == r);
            } else {
                assert(records[i - 1] == r);
            }
        }
        if records.contains(r) {
            let i = choose|i: int| 0 <= i < records.len() && records[i] == r;
            if i < p {
                assert(all[i] == r);
            } else {
                assert(all[i + 1] == r);
            }
        }
        if r == record {
            assert(all[p] == r);
        }
    }
}

/// An identifier stands for one message in both sequences.
pub open spec fn agree(a: Seq<ChatRecordModel>, b: Seq<ChatRecordModel>) -> bool {
    forall|i: int, j: int|
        0 <= i < a.len() && 0 <= j < b.len() && (#[trigger] a[i]).id == (#[trigger] b[j]).id
            ==> a[i] == b[j]
}

/// The records are the newest of `all`, as many as the history keeps: what is left out comes
/// before every one of them, and nothing is left out while there is room.
pub open spec fn are_newest_of(records: Seq<ChatRecordModel>, all: Seq<ChatRecordModel>) -> bool {
    &&& is_ordered(records)
    &&& records.len() <= MAX_MESSAGES
    &&& forall|r: ChatRecordModel| #[trigger] records.contains(r) ==> all.contains(r)
    &&& forall|r: ChatRecordModel|
        #[trigger] all.contains(r) && !records.contains(r) ==> records.len() == MAX_MESSAGES
            && comes_before_all(r, records)
}

/// A record comes before all of some records.
pub open spec fn comes_before_all(record: ChatRecordModel, records: Seq<ChatRecordModel>) -> bool {
    forall|i: int| 0 <= i < records.len() ==> record_before(record, #[trigger] records[i])
}

/// The history with some messages, one after the other.
pub open spec fn with_records(
    history: HistoryModel,
    messages: Seq<ChatRecordModel>,
) -> HistoryModel
    decreases messages.len(),
{
    if messages.len() == 0 {
        history
    } else {
        with_records(history, messages.drop_last()).with_record(messages.last())
    }
}

/// Of the messages of two sequences there is one choice of the newest.
pub proof fn the_newest_are_told(
    a: Seq<ChatRecordModel>,
    b: Seq<ChatRecordModel>,
    all: Seq<ChatRecordModel>,
    same: Seq<ChatRecordModel>,
)
    requires
        are_newest_of(a, all),
        are_newest_of(b, same),
        forall|r: ChatRecordModel|
            #![trigger all.contains(r)]
            #![trigger same.contains(r)]
            all.contains(r) <==> same.contains(r),
    ensures
        a == b,
{
    assert forall|r: ChatRecordModel|
        #![trigger a.contains(r)]
        #![trigger b.contains(r)]
        a.contains(r) <==> b.contains(r) by {
        if a.contains(r) && !b.contains(r) {
            assert(all.contains(r) && same.contains(r));
            newest_leave_none_out(a, b, all, same, r);
        }
        if b.contains(r) && !a.contains(r) {
            assert(all.contains(r) && same.contains(r));
            newest_leave_none_out(b, a, same, all, r);
        }
    }
    order_determines_the_sequence(a, b);
}

/// What is among the newest of some messages is among the newest of the same messages.
proof fn newest_leave_none_out(
    a: Seq<ChatRecordModel>,
    b: Seq<ChatRecordModel>,
    all: Seq<ChatRecordModel>,
    same: Seq<ChatRecordModel>,
    r: ChatRecordModel,
)
    requires
        are_newest_of(a, all),
        are_newest_of(b, same),
        forall|x: ChatRecordModel| #[trigger] same.contains(x) ==> all.contains(x),
        a.contains(r),
        same.contains(r),
    ensures
        b.contains(r),
{
    if !b.contains(r) {
        assert(comes_before_all(r, b) && b.len() == MAX_MESSAGES);
        let k = choose|k: int| 0 <= k < a.len() && a[k] == r;
        assert forall|x: ChatRecordModel| #[trigger] b.contains(x) implies a.contains(x) by {
            if !a.contains(x) {
                assert(same.contains(x) && all.contains(x));
                let j = choose|j: int| 0 <= j < b.len() && b[j] == x;
                assert(record_before(r, b[j]));
                assert(record_before(x, a[k]));
                record_order_is_total(r, x, r);
            }
        }
        ordered_has_no_duplicates(b);
        b.unique_seq_to_set();
        a.lemma_cardinality_of_set();
        assert(b.to_set().insert(r).subset_of(a.to_set()));
        vstd::set_lib::lemma_len_subset(b.to_set().insert(r), a.to_set());
    }
}

proof fn ordered_has_no_duplicates(records: Seq<ChatRecordModel>)
    requires
        is_ordered(records),
    ensures
        records.no_duplicates(),
{
    assert forall|i: int, j: int| 0 <= i < records.len() && 0 <= j < records.len() && i != j implies
        records[i] != records[j] by {
        if i < j {
            assert(record_before(records[i], records[j]));
        } else {
            assert(record_before(records[j], records[i]));
        }
        record_order_is_total(records[i], records[i], records[i]);
    }
}

/// Taking in one more message leaves the newest of those that came.
proof fn one_more_leaves_the_newest(
    history: HistoryModel,
    all: Seq<ChatRecordModel>,
    record: ChatRecordModel,
)
    requires
        history.wf(),
        are_newest_of(history.records, all),
        agree(all, seq![record]),
    ensures
        history.with_record(record).wf(),
        are_newest_of(history.with_record(record).records, all.push(record)),
{
    let before = history.records;
    let after = history.with_record(record).records;
    let more = all.push(record);
    history_is_kept_in_order(history, record);
    assert forall|r: ChatRecordModel| #[trigger] more.contains(r) <==> all.contains(r) || r
        == record by {
        if all.contains(r) {
            let i = choose|i: int| 0 <= i < all.len() && all[i] == r;
            assert(more[i] == r);
        }
        assert(more[all.len() as int] == record);
    }
    if history.seen.contains(record.id) {
        let i = choose|i: int| 0 <= i < before.len() && (#[trigger] before[i]).id == record.id;
        assert(before.contains(before[i]));
        assert(all.contains(before[i]));
        let j = choose|j: int| 0 <= j < all.len() && all[j] == before[i];
        assert(all[j].id == seq![record][0].id);
        assert(before[i] == record);
    } else {
        let placed_all = placed(before, record);
        let p = record_place(before, record);
        place_divides(before, record);
        placing_keeps_order(before, record);
        placed_contains(before, record);
        let dropped = HistoryModel::overflow(placed_all.len());
        assert(after == placed_all.skip(dropped));
        assert forall|r: ChatRecordModel| #[trigger] after.contains(r) implies more.contains(r) by {
            let i = choose|i: int| 0 <= i < after.len() && after[i] == r;
            assert(placed_all[i + dropped] == r);
            assert(placed_all.contains(r));
        }
        assert forall|r: ChatRecordModel| #[trigger]
            more.contains(r) && !after.contains(r) implies after.len() == MAX_MESSAGES
            && comes_before_all(r, after) by {
            if placed_all.contains(r) {
                let i = choose|i: int| 0 <= i < placed_all.len() && placed_all[i] == r;
                if i >= dropped {
                    assert(after[i - dropped] == r);
                }
                assert forall|k: int| 0 <= k < after.len() implies record_before(
                    r,
                    #[trigger] after[k],
                ) by {
                    assert(after[k] == placed_all[k + dropped]);
                    assert(record_before(placed_all[i], placed_all[k + dropped]));
                }
            } else {
                assert(all.contains(r) && !before.contains(r));
                assert(comes_before_all(r, before) && before.len() == MAX_MESSAGES);
                assert forall|k: int| 0 <= k < after.len() implies record_before(
                    r,
                    #[trigger] after[k],
                ) by {
                    assert(after[k] == placed_all[k + 1]);
                    if k + 1 < p {
                        assert(placed_all[k + 1] == before[k + 1]);
                    } else if k + 1 > p {
                        assert(placed_all[k + 1] == before[k]);
                    } else {
                        assert(record_before(r, before[0]));
                        assert(record_before(before[0], record));
                        record_order_is_total(r, before[0], record);
                    }
                }
            }
        }
    }
}

/// Taking in the messages of a peer leaves the newest of both, as many as the history keeps, if
/// an identifier stands for one message.
pub proof fn merging_leaves_the_newest(history: HistoryModel, messages: Seq<ChatRecordModel>)
    requires
        history.wf(),
        agree(history.records, messages),
        agree(messages, messages),
    ensures
        with_records(history, messages).wf(),
        are_newest_of(with_records(history, messages).records, history.records + messages),
    decreases messages.len(),
{
    if messages.len() == 0 {
        assert(history.records + messages =~= history.records);
    } else {
        let others = messages.drop_last();
        let record = messages.last();
        let all = history.records + others;
        assert forall|i: int, j: int|
            0 <= i < history.records.len() && 0 <= j < others.len() && (
            #[trigger] history.records[i]).id == (#[trigger] others[j]).id implies history.records[i]
            == others[j] by {
            assert(others[j] == messages[j]);
        }
        assert forall|i: int, j: int|
            0 <= i < others.len() && 0 <= j < others.len() && (#[trigger] others[i]).id == (
            #[trigger] others[j]).id implies others[i] == others[j] by {
            assert(others[i] == messages[i] && others[j] == messages[j]);
        }
        merging_leaves_the_newest(history, others);
        assert forall|i: int, j: int|
            0 <= i < all.len() && 0 <= j < seq![record].len() && (#[trigger] all[i]).id == (
            #[trigger] seq![record][j]).id implies all[i] == seq![record][j] by {
            let last = messages.len() - 1;
            assert(messages[last] == record);
            if i < history.records.len() {
                assert(all[i] == history.records[i]);
            } else {
                assert(all[i] == messages[i - history.records.len()]);
            }
        }
        one_more_leaves_the_newest(with_records(history, others), all, record);
        assert(all.push(record) =~= history.records + messages);
    }
}

/// What two sequences hold together.
pub proof fn sum_contains(a: Seq<ChatRecordModel>, b: Seq<ChatRecordModel>, r: ChatRecordModel)
    ensures
        (a + b).contains(r) <==> a.contains(r) || b.contains(r),
{
    if a.contains(r) {
        let i = choose|i: int| 0 <= i < a.len() && a[i] == r;
        assert((a + b)[i] == r);
    }
    if b.contains(r) {
        let i = choose|i: int| 0 <= i < b.len() && b[i] == r;
        assert((a + b)[a.len() + i] == r);
    }
    if (a + b).contains(r) {
        let i = choose|i: int| 0 <= i < (a + b).len() && (a + b)[i] == r;
        if i < a.len() {
            assert(a[i] == r);
        } else {
            assert(b[i - a.len()] == r);
        }
    }
}

/// The same messages leave every peer with the same history, in whichever order and however often
/// they come, if an identifier stands for one message.
pub proof fn histories_converge(
    history: HistoryModel,
    one: Seq<ChatRecordModel>,
    other: Seq<ChatRecordModel>,
)
    requires
        history.wf(),
        agree(history.records, one),
        agree(one, one),
        forall|r: ChatRecordModel|
            #![trigger one.contains(r)]
            #![trigger other.contains(r)]
            one.contains(r) <==> other.contains(r),
    ensures
        with_records(history, one).records == with_records(history, other).records,
{
    let records = history.records;
    assert forall|i: int, j: int|
        0 <= i < records.len() && 0 <= j < other.len() && (#[trigger] records[i]).id == (
        #[trigger] other[j]).id implies records[i] == other[j] by {
        assert(other.contains(other[j]));
        let k = choose|k: int| 0 <= k < one.len() && one[k] == other[j];
        assert(records[i].id == one[k].id);
    }
    assert forall|i: int, j: int|
        0 <= i < other.len() && 0 <= j < other.len() && (#[trigger] other[i]).id == (
        #[trigger] other[j]).id implies other[i] == other[j] by {
        assert(other.contains(other[i]) && other.contains(other[j]));
        let k = choose|k: int| 0 <= k < one.len() && one[k] == other[i];
        let l = choose|l: int| 0 <= l < one.len() && one[l] == other[j];
        assert(one[k].id == one[l].id);
    }
    merging_leaves_the_newest(history, one);
    merging_leaves_the_newest(history, other);
    assert forall|r: ChatRecordModel|
        #![trigger (records + one).contains(r)]
        #![trigger (records + other).contains(r)]
        (records + one).contains(r) <==> (records + other).contains(r) by {
        sum_contains(records, one, r);
        sum_contains(records, other, r);
    }
    the_newest_are_told(
        with_records(history, one).records,
        with_records(history, other).records,
        records + one,
        records + other,
    );
}

/// Sorting keeps every record as often as it was there, and puts records with different identifiers
/// in the order of sending.
pub proof fn sorting_puts_all_in_order(records: Seq<ChatRecordModel>)
    ensures
        in_order(records).len() == records.len(),
        in_order(records).to_multiset() == records.to_multiset(),
        has_distinct_ids(records) ==> is_ordered(in_order(records)) && has_distinct_ids(
            in_order(records),
        ) && forall|id: Seq<char>| #[trigger] has_id(in_order(records), id) <==> has_id(records, id),
    decreases records.len(),
{
    broadcast use vstd::seq_lib::group_to_multiset_ensures;

    if records.len() > 0 {
        let fewer = records.drop_last();
        let record = records.last();
        let others = in_order(fewer);
        let place = record_place(others, record);
        sorting_puts_all_in_order(fewer);
        record_place_in_range(others, record);
        assert(records =~= fewer.push(record));
        assert(others.insert(place, record).to_multiset() =~= others.to_multiset().insert(record))
            by {
            others.to_multiset_ensures();
        }
        if has_distinct_ids(records) {
            let n = records.len() - 1;
            assert forall|i: int, j: int| 0 <= i < j < fewer.len() implies (#[trigger] fewer[i]).id
                != (#[trigger] fewer[j]).id by {
                assert(records[i].id != records[j].id);
            }
            assert(!has_id(others, record.id)) by {
                if has_id(fewer, record.id) {
                    let i = choose|i: int|
                        0 <= i < fewer.len() && (#[trigger] fewer[i]).id == record.id;
                    assert(records[i].id != records[n].id);
                }
            }
            placing_keeps_order(others, record);
            assert(in_order(records) == placed(others, record));
            assert forall|id: Seq<char>| #[trigger] has_id(in_order(records), id) <==> has_id(
                records,
                id,
            ) by {
                assert(has_id(placed(others, record), id) <==> has_id(others, id) || id
                    == record.id);
                if has_id(fewer, id) {
                    let i = choose|i: int| 0 <= i < fewer.len() && (#[trigger] fewer[i]).id == id;
                    assert(records[i].id == id);
                }
                if has_id(records, id) && id != record.id {
                    let i = choose|i: int|
                        0 <= i < records.len() && (#[trigger] records[i]).id == id;
                    assert(fewer[i].id == id);
                }
                assert(records[n].id == record.id);
            }
        }
    }
}

} // verus!
