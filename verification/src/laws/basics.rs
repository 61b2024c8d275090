//! Small things that other laws are stated with.
use crate::collections::{is_first_item, with_item, without_item};
use crate::effect::{DetailModel, EffectModel, TaskModel, WorldModel};
use crate::model::UiEventModel;
use crate::playback::PlayerCommandModel;
use crate::routes::with_items;
use vstd::prelude::*;

verus! {

/// The user is told a text.
pub open spec fn said(text: Seq<char>) -> EffectModel {
    EffectModel::Ui(UiEventModel::Status(text))
}

/// The player is told something, if there is one.
pub open spec fn to_player(at: WorldModel, command: PlayerCommandModel) -> Seq<EffectModel> {
    if at.player is Some {
        seq![EffectModel::Player(command)]
    } else {
        Seq::empty()
    }
}

/// A failure before this is told in short.
pub open spec fn told_in_short(prefix: Seq<char>) -> TaskModel {
    TaskModel::Report { done: None, failed: Some(prefix), detail: DetailModel::Brief }
}

/// A failure before this is told at length.
pub open spec fn told_at_length(prefix: Seq<char>) -> TaskModel {
    TaskModel::Report { done: None, failed: Some(prefix), detail: DetailModel::Full }
}

/// What came of the effect before this is told.
pub open spec fn told_either_way(done: Seq<char>, failed: Seq<char>) -> TaskModel {
    TaskModel::Report { done: Some(done), failed: Some(failed), detail: DetailModel::Brief }
}

/// A failure before this is passed over.
pub open spec fn unheeded() -> TaskModel {
    TaskModel::Report { done: None, failed: None, detail: DetailModel::Nothing }
}

/// A set with one more item holds what it held and that item.
pub proof fn one_more<T>(items: Seq<T>, item: T, other: T)
    ensures
        with_item(items, item).contains(other) <==> items.contains(other) || other == item,
        !items.contains(item) ==> with_item(items, item).len() == items.len() + 1,
        items.contains(item) ==> with_item(items, item) == items,
{
    if !items.contains(item) {
        let more = items.push(item);
        assert(more[items.len() as int] == item);
        if items.contains(other) {
            let i = choose|i: int| 0 <= i < items.len() && items[i] == other;
            assert(more[i] == other);
        }
        if more.contains(other) && other != item {
            let i = choose|i: int| 0 <= i < more.len() && more[i] == other;
            assert(items[i] == other);
        }
    }
}

/// A set with several more items holds what it held and those items.
pub proof fn several_more<T>(items: Seq<T>, more: Seq<T>, other: T)
    ensures
        with_items(items, more).contains(other) <==> items.contains(other) || more.contains(other),
    decreases more.len(),
{
    if more.len() > 0 {
        let fewer = more.drop_last();
        several_more(items, fewer, other);
        one_more(with_items(items, fewer), more.last(), other);
        assert(more[more.len() - 1] == more.last());
        if more.contains(other) && other != more.last() {
            let i = choose|i: int| 0 <= i < more.len() && more[i] == other;
            assert(fewer[i] == other);
        }
        if fewer.contains(other) {
            let i = choose|i: int| 0 <= i < fewer.len() && fewer[i] == other;
            assert(more[i] == other);
        }
    }
}

/// A set with one item less holds the others, and that item no longer if it held it once.
pub proof fn one_less<T>(items: Seq<T>, item: T, other: T)
    ensures
        other != item ==> without_item(items, item).contains(other) == items.contains(other),
        items.no_duplicates() ==> !without_item(items, item).contains(item),
        !items.contains(item) ==> without_item(items, item) == items,
{
    let less = without_item(items, item);
    if !items.contains(item) {
        if exists|i: int| is_first_item(items, item, i) {
            let i = choose|i: int| is_first_item(items, item, i);
            assert(items[i] == item);
        }
    } else {
        crate::collections::first_item_place(
            items,
            item,
            choose|i: int| 0 <= i < items.len() && items[i] == item,
        );
        let first = choose|i: int| is_first_item(items, item, i);
        assert(less == items.remove(first));
        if items.contains(other) && other != item {
            let i = choose|i: int| 0 <= i < items.len() && items[i] == other;
            if i < first {
                assert(less[i] == other);
            } else {
                assert(less[i - 1] == other);
            }
        }
        if less.contains(other) {
            let i = choose|i: int| 0 <= i < less.len() && less[i] == other;
            if i < first {
                assert(items[i] == other);
            } else {
                assert(items[i + 1] == other);
            }
        }
        if items.no_duplicates() && less.contains(item) {
            let i = choose|i: int| 0 <= i < less.len() && less[i] == item;
            if i < first {
                assert(items[i] == item);
            } else {
                assert(items[i + 1] == item);
            }
        }
    }
}

} // verus!
