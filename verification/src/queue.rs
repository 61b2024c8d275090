//! The queue of tracks that all peers share.
use crate::collections::{deep, group_deep};
use crate::model::{QueueItem, QueueItemModel, QueueState, QueueStateModel};
use std::collections::VecDeque;
use vstd::prelude::*;
use vstd::string::*;

verus! {

/// The first version was made after the second: later, or at the same time with a higher number.
pub open spec fn newer(version: u64, updated_at: i64, than_version: u64, than_updated_at: i64) -> bool {
    updated_at > than_updated_at || (updated_at == than_updated_at && version > than_version)
}

/// Whether a version of the queue is newer than the local one.
pub fn is_queue_state_newer(
    candidate_version: u64,
    candidate_updated_at: i64,
    local_version: u64,
    local_updated_at: i64,
) -> (is_newer: bool)
    ensures
        is_newer == newer(candidate_version, candidate_updated_at, local_version, local_updated_at),
{
    candidate_updated_at > local_updated_at || (candidate_updated_at == local_updated_at
        && candidate_version > local_version)
}

/// Whether a version of the queue that a peer sent is to replace the local one.
pub fn should_apply_queue_state(
    local_version: u64,
    local_updated_at: i64,
    state: &QueueState,
) -> (apply: bool)
    ensures
        apply == newer(state@.version, state@.updated_at_micros, local_version, local_updated_at),
{
    is_queue_state_newer(state.version, state.updated_at_micros, local_version, local_updated_at)
}

/// The item at a position counted from one.
pub fn queue_item_at(queue: &VecDeque<QueueItem>, index: usize) -> (item: Option<&QueueItem>)
    ensures
        match item {
            Some(i) => 1 <= index <= queue@.len() && *i == queue@[index - 1],
            None => index == 0 || index > queue@.len(),
        },
{
    if index == 0 || index > queue.len() {
        None
    } else {
        Some(&queue[index - 1])
    }
}

/// `i` is the first place of the item with this identifier.
pub open spec fn is_item_place(items: Seq<QueueItemModel>, item_id: Seq<char>, i: int) -> bool {
    &&& 0 <= i < items.len()
    &&& items[i].item_id == item_id
    &&& forall|j: int| 0 <= j < i ==> (#[trigger] items[j]).item_id != item_id
}

/// The place of the item with this identifier, if it is queued.
pub open spec fn item_place(items: Seq<QueueItemModel>, item_id: Seq<char>) -> Option<int> {
    if exists|i: int| is_item_place(items, item_id, i) {
        Some(choose|i: int| is_item_place(items, item_id, i))
    } else {
        None
    }
}

/// The place of an item is unique.
pub proof fn item_place_is(items: Seq<QueueItemModel>, item_id: Seq<char>, i: int)
    requires
        is_item_place(items, item_id, i),
    ensures
        item_place(items, item_id) == Some(i),
{
    let p = choose|p: int| is_item_place(items, item_id, p);
    assert(is_item_place(items, item_id, p));
    if p < i {
        assert(items[p].item_id != item_id);
    } else if i < p {
        assert(items[i].item_id != item_id);
    }
}

/// Finds the item with this identifier.
pub fn find_item(queue: &VecDeque<QueueItem>, item_id: &str) -> (place: Option<usize>)
    ensures
        match place {
            Some(i) => item_place(deep(queue@), item_id@) == Some(i as int) && i < queue@.len(),
            None => item_place(deep(queue@), item_id@) is None,
        },
{
    let wanted = item_id.to_owned();
    let mut i: usize = 0;
    while i < queue.len()
        invariant
            wanted@ == item_id@,
            i <= queue@.len(),
            forall|j: int| 0 <= j < i ==> (#[trigger] deep(queue@)[j]).item_id != item_id@,
        decreases queue.len() - i,
    {
        if queue[i].item_id == wanted {
            proof {
                assert(is_item_place(deep(queue@), item_id@, i as int));
                item_place_is(deep(queue@), item_id@, i as int);
            }
            return Some(i);
        }
        i = i + 1;
    }
    proof {
        if exists|i: int| is_item_place(deep(queue@), item_id@, i) {
            let p = choose|i: int| is_item_place(deep(queue@), item_id@, i);
            assert(deep(queue@)[p].item_id == item_id@);
        }
    }
    None
}

/// The queue, its version, and when it was last changed.
#[derive(Debug, PartialEq, Eq)]
pub struct MusicQueue {
    pub items: VecDeque<QueueItem>,
    pub version: u64,
    pub updated_at: i64,
}

/// The content of [`MusicQueue`].
#[verifier::ext_equal]
pub struct MusicQueueModel {
    pub items: Seq<QueueItemModel>,
    pub version: u64,
    pub updated_at: i64,
}

impl View for MusicQueue {
    type V = MusicQueueModel;

    open spec fn view(&self) -> MusicQueueModel {
        MusicQueueModel {
            items: deep(self.items@),
            version: self.version,
            updated_at: self.updated_at,
        }
    }
}

impl MusicQueueModel {
    /// A queue that nobody has touched.
    pub open spec fn empty() -> MusicQueueModel {
        MusicQueueModel { items: Seq::empty(), version: 0, updated_at: 0 }
    }

    /// The queue as it is sent to peers and shown.
    pub open spec fn state(self, updated_by: Seq<char>) -> QueueStateModel {
        QueueStateModel {
            version: self.version,
            updated_at_micros: self.updated_at,
            updated_by: updated_by,
            items: self.items,
        }
    }

    /// A change made at `now`, which gives the queue its next version.
    pub open spec fn changed(self, items: Seq<QueueItemModel>, now: i64) -> MusicQueueModel {
        MusicQueueModel { items: items, version: (self.version + 1) as u64, updated_at: now }
    }

    /// There is nothing to tell of the queue.
    pub open spec fn untouched(self) -> bool {
        self.version == 0 && self.items.len() == 0
    }

    /// A version from a peer supersedes the local one.
    pub open spec fn superseded_by(self, state: QueueStateModel) -> bool {
        newer(state.version, state.updated_at_micros, self.version, self.updated_at)
    }

    /// The queue once a version from a peer has come in.
    pub open spec fn receive(self, state: QueueStateModel) -> MusicQueueModel {
        if self.superseded_by(state) {
            MusicQueueModel {
                items: state.items,
                version: state.version,
                updated_at: state.updated_at_micros,
            }
        } else {
            self
        }
    }

    /// The place at which an item asked for at a position counted from one goes.
    pub open spec fn insertion_place(self, position: Option<usize>) -> int {
        match position {
            Some(p) => if p == 0 {
                0
            } else if p - 1 < self.items.len() {
                p - 1
            } else {
                self.items.len() as int
            },
            None => self.items.len() as int,
        }
    }
}

/// The items with one of them at another place, or at the end if that place is beyond it.
pub open spec fn move_item(items: Seq<QueueItemModel>, from: int, to: int) -> Seq<QueueItemModel> {
    let rest = items.remove(from);
    rest.insert(
        if to < rest.len() {
            to
        } else {
            rest.len() as int
        },
        items[from],
    )
}

/// Builds a version of the queue to be sent to peers or shown.
pub fn build_queue_state(
    queue_version: u64,
    queue_updated_at: i64,
    local_peer_id: &str,
    queue: &VecDeque<QueueItem>,
) -> (state: QueueState)
    ensures
        state@ == (QueueStateModel {
            version: queue_version,
            updated_at_micros: queue_updated_at,
            updated_by: local_peer_id@,
            items: deep(queue@),
        }),
{
    let mut items: Vec<QueueItem> = Vec::new();
    let mut i: usize = 0;
    assert(deep(items@) =~= deep(queue@).take(0));
    while i < queue.len()
        invariant
            i <= queue@.len(),
            deep(items@) == deep(queue@).take(i as int),
        decreases queue.len() - i,
    {
        broadcast use group_deep;

        items.push(queue[i].clone());
        assert(deep(queue@).take(i + 1) =~= deep(queue@).take(i as int).push(queue@[i as int]@));
        i = i + 1;
    }
    assert(deep(queue@).take(i as int) =~= deep(queue@));
    QueueState {
        version: queue_version,
        updated_at_micros: queue_updated_at,
        updated_by: local_peer_id.to_owned(),
        items,
    }
}

fn to_deque(items: &Vec<QueueItem>) -> (queue: VecDeque<QueueItem>)
    ensures
        deep(queue@) == deep(items@),
{
    let mut queue: VecDeque<QueueItem> = VecDeque::new();
    let mut i: usize = 0;
    assert(deep(queue@) =~= deep(items@).take(0));
    while i < items.len()
        invariant
            i <= items@.len(),
            deep(queue@) == deep(items@).take(i as int),
        decreases items.len() - i,
    {
        broadcast use group_deep;

        queue.push_back(items[i].clone());
        assert(deep(items@).take(i + 1) =~= deep(items@).take(i as int).push(items@[i as int]@));
        i = i + 1;
    }
    assert(deep(items@).take(i as int) =~= deep(items@));
    queue
}

impl MusicQueue {
    /// A queue that nobody has touched.
    pub fn new() -> (queue: MusicQueue)
        ensures
            queue@ == MusicQueueModel::empty(),
    {
        let queue = MusicQueue { items: VecDeque::new(), version: 0, updated_at: 0 };
        assert(queue@ =~= MusicQueueModel::empty());
        queue
    }

    /// The queue as it is sent to peers and shown.
    pub fn state(&self, updated_by: &str) -> (state: QueueState)
        ensures
            state@ == self@.state(updated_by@),
    {
        build_queue_state(self.version, self.updated_at, updated_by, &self.items)
    }

    /// Whether there is nothing to tell of the queue.
    pub fn is_untouched(&self) -> (untouched: bool)
        ensures
            untouched == self@.untouched(),
    {
        self.version == 0 && self.items.len() == 0
    }

    /// Gives the queue its next version.
    fn touch(&mut self, now: i64)
        requires
            old(self).version < u64::MAX,
        ensures
            final(self)@ == old(self)@.changed(old(self)@.items, now),
    {
        self.version = self.version + 1;
        self.updated_at = now;
    }

    /// Queues an item at a position counted from one, or else at the end, and gives its place.
    pub fn enqueue(&mut self, item: QueueItem, position: Option<usize>, now: i64) -> (place: usize)
        requires
            old(self).version < u64::MAX,
        ensures
            place == old(self)@.insertion_place(position),
            final(self)@ == old(self)@.changed(
                old(self)@.items.insert(old(self)@.insertion_place(position), item@),
                now,
            ),
    {
        broadcast use group_deep;

        let place: usize = match position {
            Some(p) => if p == 0 {
                0
            } else if p - 1 < self.items.len() {
                p - 1
            } else {
                self.items.len()
            },
            None => self.items.len(),
        };
        self.items.insert(place, item);
        self.touch(now);
        place
    }

    /// Takes the first item out.
    pub fn take_next(&mut self, now: i64) -> (item: Option<QueueItem>)
        requires
            old(self)@.items.len() > 0 ==> old(self).version < u64::MAX,
        ensures
            match item {
                Some(i) => old(self)@.items.len() > 0 && i@ == old(self)@.items[0] && final(self)@
                    == old(self)@.changed(old(self)@.items.skip(1), now),
                None => old(self)@.items.len() == 0 && final(self)@ == old(self)@,
            },
    {
        broadcast use group_deep;

        match self.items.pop_front() {
            Some(item) => {
                self.touch(now);
                Some(item)
            },
            None => None,
        }
    }

    /// Takes out the item at `place`.
    pub fn remove_at(&mut self, place: usize, now: i64) -> (item: QueueItem)
        requires
            old(self).version < u64::MAX,
            place < old(self)@.items.len(),
        ensures
            item@ == old(self)@.items[place as int],
            final(self)@ == old(self)@.changed(old(self)@.items.remove(place as int), now),
    {
        broadcast use group_deep;

        let item = self.items.remove(place).unwrap();
        self.touch(now);
        item
    }

    /// Moves the item at `place` to another place, or to the end if that is beyond it, and gives
    /// the place where it is then.
    pub fn move_to(&mut self, place: usize, to_index: usize, now: i64) -> (at: usize)
        requires
            old(self).version < u64::MAX,
            place < old(self)@.items.len(),
        ensures
            at == if to_index < old(self)@.items.len() - 1 {
                to_index as int
            } else {
                old(self)@.items.len() - 1
            },
            final(self)@ == old(self)@.changed(
                move_item(old(self)@.items, place as int, to_index as int),
                now,
            ),
    {
        broadcast use group_deep;

        let item = self.items.remove(place).unwrap();
        let at: usize = if to_index < self.items.len() {
            to_index
        } else {
            self.items.len()
        };
        self.items.insert(at, item);
        self.touch(now);
        at
    }

    /// Takes over a version of the queue from a peer if it is newer, and says whether it was.
    pub fn receive(&mut self, state: &QueueState) -> (applied: bool)
        ensures
            applied == old(self)@.superseded_by(state@),
            final(self)@ == old(self)@.receive(state@),
    {
        if !should_apply_queue_state(self.version, self.updated_at, state) {
            return false;
        }
        self.items = to_deque(&state.items);
        self.version = state.version;
        self.updated_at = state.updated_at_micros;
        true
    }
}

} // verus!
