//! Small insertion-ordered collections keyed by text.
use vstd::prelude::*;

verus! {

/// The deep view of each item.
pub open spec fn deep<T: DeepView>(items: Seq<T>) -> Seq<T::V> {
    Seq::new(items.len(), |i: int| items[i].deep_view())
}

/// `deep` commutes with `push`.
pub broadcast proof fn deep_push<T: DeepView>(items: Seq<T>, item: T)
    ensures
        #[trigger] deep(items.push(item)) == deep(items).push(item.deep_view()),
{
    assert(deep(items.push(item)) =~= deep(items).push(item.deep_view()));
}

/// `deep` commutes with `insert`.
pub broadcast proof fn deep_insert<T: DeepView>(items: Seq<T>, i: int, item: T)
    requires
        0 <= i <= items.len(),
    ensures
        #[trigger] deep(items.insert(i, item)) == deep(items).insert(i, item.deep_view()),
{
    assert(deep(items.insert(i, item)) =~= deep(items).insert(i, item.deep_view()));
}

/// `deep` commutes with `remove`.
pub broadcast proof fn deep_remove<T: DeepView>(items: Seq<T>, i: int)
    requires
        0 <= i < items.len(),
    ensures
        #[trigger] deep(items.remove(i)) == deep(items).remove(i),
{
    assert(deep(items.remove(i)) =~= deep(items).remove(i));
}

/// `deep` commutes with `subrange`.
pub broadcast proof fn deep_subrange<T: DeepView>(items: Seq<T>, i: int, j: int)
    requires
        0 <= i <= j <= items.len(),
    ensures
        #[trigger] deep(items.subrange(i, j)) == deep(items).subrange(i, j),
{
    assert(deep(items.subrange(i, j)) =~= deep(items).subrange(i, j));
}

/// `deep` commutes with concatenation.
pub broadcast proof fn deep_concat<T: DeepView>(left: Seq<T>, right: Seq<T>)
    ensures
        #[trigger] deep(left + right) == deep(left) + deep(right),
{
    assert(deep(left + right) =~= deep(left) + deep(right));
}

/// `deep` commutes with `update`.
pub broadcast proof fn deep_update<T: DeepView>(items: Seq<T>, i: int, item: T)
    requires
        0 <= i < items.len(),
    ensures
        #[trigger] deep(items.update(i, item)) == deep(items).update(i, item.deep_view()),
{
    assert(deep(items.update(i, item)) =~= deep(items).update(i, item.deep_view()));
}

pub broadcast group group_deep {
    deep_push,
    deep_insert,
    deep_remove,
    deep_subrange,
    deep_concat,
    deep_update,
}

/// A copy of every item.
pub fn copy_all<T: DeepView + Clone>(items: &Vec<T>) -> (copies: Vec<T>)
    requires
        forall|a: T, b: T| #[trigger] cloned(a, b) ==> a.deep_view() == b.deep_view(),
    ensures
        deep(copies@) == deep(items@),
{
    let copies = items.clone();
    assert(deep(copies@) =~= deep(items@)) by {
        assert forall|i: int| 0 <= i < items@.len() implies deep(copies@)[i] == deep(items@)[i] by {
            assert(cloned(items@[i], copies@[i]));
        }
    }
    copies
}

/// `i` is the first place of `key` in `entries`.
pub open spec fn is_first<V>(entries: Seq<(Seq<char>, V)>, key: Seq<char>, i: int) -> bool {
    &&& 0 <= i < entries.len()
    &&& entries[i].0 == key
    &&& forall|j: int| 0 <= j < i ==> entries[j].0 != key
}

/// The table has an entry for `key`.
pub open spec fn holds<V>(entries: Seq<(Seq<char>, V)>, key: Seq<char>) -> bool {
    exists|i: int| is_first(entries, key, i)
}

/// The place of the entry for `key`.
pub open spec fn place_of<V>(entries: Seq<(Seq<char>, V)>, key: Seq<char>) -> int {
    choose|i: int| is_first(entries, key, i)
}

/// The value stored under `key`.
pub open spec fn lookup<V>(entries: Seq<(Seq<char>, V)>, key: Seq<char>) -> Option<V> {
    if holds(entries, key) {
        Some(entries[place_of(entries, key)].1)
    } else {
        None
    }
}

/// The table with `value` under `key`: in place of the old value, or else at the end.
pub open spec fn store<V>(entries: Seq<(Seq<char>, V)>, key: Seq<char>, value: V) -> Seq<
    (Seq<char>, V),
> {
    if holds(entries, key) {
        entries.update(place_of(entries, key), (key, value))
    } else {
        entries.push((key, value))
    }
}

/// The table without the entry for `key`.
pub open spec fn discard<V>(entries: Seq<(Seq<char>, V)>, key: Seq<char>) -> Seq<(Seq<char>, V)> {
    if holds(entries, key) {
        entries.remove(place_of(entries, key))
    } else {
        entries
    }
}

/// The keys of the table, in order.
pub open spec fn keys_of<V>(entries: Seq<(Seq<char>, V)>) -> Seq<Seq<char>> {
    entries.map_values(|entry: (Seq<char>, V)| entry.0)
}

/// No key has two entries.
pub open spec fn distinct_keys<V>(entries: Seq<(Seq<char>, V)>) -> bool {
    forall|i: int, j: int|
        0 <= i < j < entries.len() ==> (#[trigger] entries[i]).0 != (#[trigger] entries[j]).0
}

/// The first place of a key is unique.
pub proof fn first_is_place<V>(entries: Seq<(Seq<char>, V)>, key: Seq<char>, i: int)
    requires
        is_first(entries, key, i),
    ensures
        holds(entries, key),
        place_of(entries, key) == i,
{
    let p = place_of(entries, key);
    assert(is_first(entries, key, p));
    if p < i {
        assert(entries[p].0 != key);
    } else if i < p {
        assert(entries[i].0 != key);
    }
}

/// An entry anywhere in the table means that the table has its key.
pub proof fn entry_is_held<V>(entries: Seq<(Seq<char>, V)>, key: Seq<char>, i: int)
    requires
        0 <= i < entries.len(),
        entries[i].0 == key,
    ensures
        holds(entries, key),
    decreases i,
{
    if exists|j: int| 0 <= j < i && entries[j].0 == key {
        let j = choose|j: int| 0 <= j < i && entries[j].0 == key;
        entry_is_held(entries, key, j);
    } else {
        assert(is_first(entries, key, i));
    }
}

/// What was stored under a key is found under it, and nothing else changes.
pub proof fn lookup_of_store<V>(
    entries: Seq<(Seq<char>, V)>,
    key: Seq<char>,
    value: V,
    other: Seq<char>,
)
    ensures
        lookup(store(entries, key, value), key) == Some(value),
        other != key ==> lookup(store(entries, key, value), other) == lookup(entries, other),
{
    let after = store(entries, key, value);
    if holds(entries, key) {
        let p = place_of(entries, key);
        assert(is_first(after, key, p));
        first_is_place(after, key, p);
    } else {
        assert forall|j: int| 0 <= j < entries.len() implies after[j].0 != key by {
            if entries[j].0 == key {
                entry_is_held(entries, key, j);
            }
        }
        assert(is_first(after, key, entries.len() as int));
        first_is_place(after, key, entries.len() as int);
    }
    if other != key {
        if holds(entries, other) {
            let q = place_of(entries, other);
            assert(is_first(entries, other, q));
            assert forall|j: int| 0 <= j < q implies after[j].0 != other by {
                assert(entries[j].0 != other);
            }
            assert(is_first(after, other, q));
            first_is_place(after, other, q);
        } else if holds(after, other) {
            let q = place_of(after, other);
            assert(is_first(after, other, q));
            assert(entries[q].0 == other);
            entry_is_held(entries, other, q);
        }
    }
}

/// After a key is discarded from a table of distinct keys it is gone, and nothing else changes.
pub proof fn lookup_of_discard<V>(entries: Seq<(Seq<char>, V)>, key: Seq<char>, other: Seq<char>)
    requires
        distinct_keys(entries),
    ensures
        lookup(discard(entries, key), key) is None,
        other != key ==> lookup(discard(entries, key), other) == lookup(entries, other),
{
    let after = discard(entries, key);
    if holds(entries, key) {
        let p = place_of(entries, key);
        assert(is_first(entries, key, p));
        if holds(after, key) {
            let q = place_of(after, key);
            assert(is_first(after, key, q));
            if q < p {
                assert(entries[q].0 == key);
            } else {
                assert(entries[q + 1].0 == key);
                assert(entries[p].0 != entries[q + 1].0);
            }
        }
        if other != key {
            if holds(entries, other) {
                let q = place_of(entries, other);
                assert(is_first(entries, other, q));
                let r = if q < p {
                    q
                } else {
                    q - 1
                };
                assert forall|j: int| 0 <= j < r implies after[j].0 != other by {
                    if j < p {
                        assert(entries[j].0 != other);
                    } else {
                        assert(entries[j + 1].0 != other);
                    }
                }
                assert(is_first(after, other, r));
                first_is_place(after, other, r);
            } else if holds(after, other) {
                let q = place_of(after, other);
                assert(is_first(after, other, q));
                if q < p {
                    entry_is_held(entries, other, q);
                } else {
                    entry_is_held(entries, other, q + 1);
                }
            }
        }
    }
}

/// Storing and discarding keep keys distinct.
pub proof fn distinct_keys_kept<V>(entries: Seq<(Seq<char>, V)>, key: Seq<char>, value: V)
    requires
        distinct_keys(entries),
    ensures
        distinct_keys(store(entries, key, value)),
        distinct_keys(discard(entries, key)),
{
    let after = store(entries, key, value);
    if holds(entries, key) {
        let p = place_of(entries, key);
        assert(is_first(entries, key, p));
        assert forall|i: int, j: int| 0 <= i < j < after.len() implies (#[trigger] after[i]).0
            != (#[trigger] after[j]).0 by {
            assert(entries[i].0 != entries[j].0);
        }
    } else {
        assert forall|i: int, j: int| 0 <= i < j < after.len() implies (#[trigger] after[i]).0
            != (#[trigger] after[j]).0 by {
            if j == entries.len() {
                if entries[i].0 == key {
                    entry_is_held(entries, key, i);
                }
            } else {
                assert(entries[i].0 != entries[j].0);
            }
        }
    }
}

/// A table from text to values that keeps the order in which its keys first came.
#[derive(Debug, PartialEq, Eq)]
pub struct Table<V> {
    pub entries: Vec<(String, V)>,
}

impl<V: DeepView> View for Table<V> {
    type V = Seq<(Seq<char>, V::V)>;

    open spec fn view(&self) -> Seq<(Seq<char>, V::V)> {
        Seq::new(
            self.entries@.len(),
            |i: int| (self.entries@[i].0@, self.entries@[i].1.deep_view()),
        )
    }
}

impl<V: DeepView> Table<V> {
    /// An empty table.
    pub fn new() -> (table: Self)
        ensures
            table@ == Seq::<(Seq<char>, V::V)>::empty(),
    {
        let table = Table { entries: Vec::new() };
        assert(table@ =~= Seq::<(Seq<char>, V::V)>::empty());
        table
    }

    /// The place of the entry for `key`.
    pub fn place(&self, key: &str) -> (place: Option<usize>)
        ensures
            match place {
                Some(i) => is_first(self@, key@, i as int) && holds(self@, key@) && place_of(
                    self@,
                    key@,
                ) == i,
                None => !holds(self@, key@),
            },
    {
        let wanted = key.to_owned();
        let mut i: usize = 0;
        while i < self.entries.len()
            invariant
                wanted@ == key@,
                i <= self.entries@.len(),
                forall|j: int| 0 <= j < i ==> self@[j].0 != key@,
            decreases self.entries.len() - i,
        {
            if self.entries[i].0 == wanted {
                proof {
                    assert(is_first(self@, key@, i as int));
                    first_is_place(self@, key@, i as int);
                }
                return Some(i);
            }
            i = i + 1;
        }
        None
    }

    /// Whether the table has an entry for `key`.
    pub fn contains(&self, key: &str) -> (found: bool)
        ensures
            found == holds(self@, key@),
    {
        self.place(key).is_some()
    }

    /// The value stored under `key`.
    pub fn get(&self, key: &str) -> (value: Option<&V>)
        ensures
            match value {
                Some(v) => lookup(self@, key@) == Some(v.deep_view()),
                None => lookup(self@, key@) is None,
            },
    {
        match self.place(key) {
            Some(i) => Some(&self.entries[i].1),
            None => None,
        }
    }

    /// Stores `value` under `key`.
    pub fn insert(&mut self, key: &str, value: V)
        ensures
            final(self)@ == store(old(self)@, key@, value.deep_view()),
    {
        match self.place(key) {
            Some(i) => {
                self.entries.set(i, (key.to_owned(), value));
            },
            None => {
                self.entries.push((key.to_owned(), value));
            },
        }
        assert(self@ =~= store(old(self)@, key@, value.deep_view()));
    }

    /// Takes out the value stored under `key`.
    pub fn remove(&mut self, key: &str) -> (value: Option<V>)
        ensures
            final(self)@ == discard(old(self)@, key@),
            match value {
                Some(v) => lookup(old(self)@, key@) == Some(v.deep_view()),
                None => lookup(old(self)@, key@) is None,
            },
    {
        match self.place(key) {
            Some(i) => {
                let entry = self.entries.remove(i);
                assert(self@ =~= discard(old(self)@, key@));
                Some(entry.1)
            },
            None => None,
        }
    }

    /// The keys, in order.
    pub fn keys(&self) -> (keys: Vec<String>)
        ensures
            deep(keys@) == keys_of(self@),
    {
        let mut keys: Vec<String> = Vec::new();
        let mut i: usize = 0;
        while i < self.entries.len()
            invariant
                i <= self.entries@.len(),
                deep(keys@) == keys_of(self@).take(i as int),
            decreases self.entries.len() - i,
        {
            keys.push(self.entries[i].0.clone());
            proof {
                deep_push(keys@.drop_last(), keys@.last());
                assert(keys@ =~= keys@.drop_last().push(keys@.last()));
                assert(keys_of(self@).take(i + 1) =~= keys_of(self@).take(i as int).push(
                    keys_of(self@)[i as int],
                ));
            }
            i = i + 1;
        }
        assert(keys_of(self@).take(i as int) =~= keys_of(self@));
        keys
    }
}

/// The set with `item`: unchanged if it is there, else with it at the end.
pub open spec fn with_item<T>(items: Seq<T>, item: T) -> Seq<T> {
    if items.contains(item) {
        items
    } else {
        items.push(item)
    }
}

/// `i` is the first place of `item` in `items`.
pub open spec fn is_first_item<T>(items: Seq<T>, item: T, i: int) -> bool {
    &&& 0 <= i < items.len()
    &&& items[i] == item
    &&& forall|j: int| 0 <= j < i ==> items[j] != item
}

/// The set without `item`.
pub open spec fn without_item<T>(items: Seq<T>, item: T) -> Seq<T> {
    if exists|i: int| is_first_item(items, item, i) {
        items.remove(choose|i: int| is_first_item(items, item, i))
    } else {
        items
    }
}

/// The first place of an item is unique, and exists for every item of the set.
pub proof fn first_item_place<T>(items: Seq<T>, item: T, i: int)
    requires
        0 <= i < items.len(),
        items[i] == item,
    ensures
        exists|p: int| is_first_item(items, item, p),
        (choose|p: int| is_first_item(items, item, p)) <= i,
        is_first_item(items, item, i) ==> (choose|p: int| is_first_item(items, item, p)) == i,
    decreases i,
{
    if exists|j: int| 0 <= j < i && items[j] == item {
        let j = choose|j: int| 0 <= j < i && items[j] == item;
        first_item_place(items, item, j);
    } else {
        assert(is_first_item(items, item, i));
        let p = choose|p: int| is_first_item(items, item, p);
        assert(is_first_item(items, item, p));
        if p < i {
            assert(items[p] != item);
        } else if i < p {
            assert(items[i] != item);
        }
    }
}

/// Adding and removing items keep a set free of duplicates, and mean what they say.
pub proof fn set_laws<T>(items: Seq<T>, item: T, other: T)
    requires
        items.no_duplicates(),
    ensures
        with_item(items, item).no_duplicates(),
        without_item(items, item).no_duplicates(),
        with_item(items, item).contains(other) <==> items.contains(other) || other == item,
        without_item(items, item).contains(other) <==> items.contains(other) && other != item,
{
    let more = with_item(items, item);
    if !items.contains(item) {
        assert(more.last() == item);
        assert(more.contains(item));
        if items.contains(other) {
            let i = items.index_of(other);
            assert(more[i] == other);
        }
    }
    let less = without_item(items, item);
    if items.contains(item) {
        first_item_place(items, item, items.index_of(item));
        let p = choose|p: int| is_first_item(items, item, p);
        assert(items[p] == item);
        assert forall|i: int, j: int| 0 <= i < less.len() && 0 <= j < less.len() && i
            != j implies less[i] != less[j] by {
            let a = if i < p {
                i
            } else {
                i + 1
            };
            let b = if j < p {
                j
            } else {
                j + 1
            };
            assert(items[a] != items[b]);
        }
        if items.contains(other) && other != item {
            let q = items.index_of(other);
            assert(items[q] == other);
            if q < p {
                assert(less[q] == other);
            } else {
                assert(less[q - 1] == other);
            }
        }
        if less.contains(other) {
            let q = less.index_of(other);
            assert(less[q] == other);
            if q < p {
                assert(items[q] == other);
            } else {
                assert(items[q + 1] == other);
            }
        }
    }
}

/// A set of texts that keeps the order in which they came.
#[derive(Debug, PartialEq, Eq)]
pub struct TextSet {
    pub items: Vec<String>,
}

impl View for TextSet {
    type V = Seq<Seq<char>>;

    open spec fn view(&self) -> Seq<Seq<char>> {
        deep(self.items@)
    }
}

impl DeepView for TextSet {
    type V = Seq<Seq<char>>;

    open spec fn deep_view(&self) -> Seq<Seq<char>> {
        self@
    }
}

impl Clone for TextSet {
    fn clone(&self) -> (copy: Self)
        ensures
            copy@ == self@,
    {
        TextSet { items: copy_all(&self.items) }
    }
}

impl TextSet {
    /// An empty set.
    pub fn new() -> (set: Self)
        ensures
            set@ == Seq::<Seq<char>>::empty(),
    {
        let set = TextSet { items: Vec::new() };
        assert(set@ =~= Seq::<Seq<char>>::empty());
        set
    }

    /// The number of texts in the set.
    pub fn len(&self) -> (len: usize)
        ensures
            len == self@.len(),
    {
        self.items.len()
    }

    /// Whether the set holds nothing.
    pub fn is_empty(&self) -> (empty: bool)
        ensures
            empty == (self@.len() == 0),
    {
        self.items.len() == 0
    }

    fn place(&self, item: &str) -> (place: Option<usize>)
        ensures
            match place {
                Some(i) => i < self@.len() && self@[i as int] == item@ && self@.contains(item@)
                    && forall|j: int| 0 <= j < i ==> self@[j] != item@,
                None => !self@.contains(item@),
            },
    {
        let wanted = item.to_owned();
        let mut i: usize = 0;
        while i < self.items.len()
            invariant
                wanted@ == item@,
                i <= self@.len(),
                forall|j: int| 0 <= j < i ==> self@[j] != item@,
            decreases self.items.len() - i,
        {
            if self.items[i] == wanted {
                assert(self@[i as int] == item@);
                return Some(i);
            }
            i = i + 1;
        }
        None
    }

    /// Whether the set holds `item`.
    pub fn contains(&self, item: &str) -> (found: bool)
        ensures
            found == self@.contains(item@),
    {
        self.place(item).is_some()
    }

    /// Adds `item`, and says whether it was new.
    pub fn insert(&mut self, item: &str) -> (added: bool)
        ensures
            added == !old(self)@.contains(item@),
            final(self)@ == with_item(old(self)@, item@),
    {
        if self.contains(item) {
            return false;
        }
        self.items.push(item.to_owned());
        assert(self@ =~= old(self)@.push(item@));
        true
    }

    /// Takes `item` out, and says whether it was there.
    pub fn remove(&mut self, item: &str) -> (removed: bool)
        ensures
            removed == old(self)@.contains(item@),
            final(self)@ == without_item(old(self)@, item@),
    {
        match self.place(item) {
            Some(i) => {
                proof {
                    assert(is_first_item(old(self)@, item@, i as int));
                    first_item_place(old(self)@, item@, i as int);
                }
                let _gone = self.items.remove(i);
                assert(self@ =~= old(self)@.remove(i as int));
                true
            },
            None => false,
        }
    }
}

} // verus!
