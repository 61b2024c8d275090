//! When peers were asked for what they know, and when the summaries are due.
use crate::collections::{deep, group_deep, lookup, Table};
use crate::time::{
    elapsed_nanos, HISTORY_REQUEST_COOLDOWN, QUEUE_REQUEST_COOLDOWN, VOTE_TIMEOUT,
};
use vstd::prelude::*;

verus! {

/// The delays after which the summaries are repeated once peers have met, in nanoseconds.
pub const FIRST_REPEAT: u64 = 300_000_000;

pub const SECOND_REPEAT: u64 = 900_000_000;

pub const THIRD_REPEAT: u64 = 1_800_000_000;

/// When each peer was last asked, and when summaries are due. Times are on the monotonic clock.
#[derive(Debug, PartialEq, Eq)]
pub struct SyncBook {
    pub history_requests: Table<u64>,
    pub queue_requests: Table<u64>,
    pub due: Vec<u64>,
}

/// The content of [`SyncBook`].
#[verifier::ext_equal]
pub struct SyncBookModel {
    pub history_requests: Seq<(Seq<char>, u64)>,
    pub queue_requests: Seq<(Seq<char>, u64)>,
    pub due: Seq<u64>,
}

impl View for SyncBook {
    type V = SyncBookModel;

    open spec fn view(&self) -> SyncBookModel {
        SyncBookModel {
            history_requests: self.history_requests@,
            queue_requests: self.queue_requests@,
            due: deep(self.due@),
        }
    }
}

/// A peer may be asked: it was not asked yet, or long enough ago.
pub open spec fn may_ask(
    requests: Seq<(Seq<char>, u64)>,
    peer_id: Seq<char>,
    cooldown: u64,
    now: u64,
) -> bool {
    match lookup(requests, peer_id) {
        Some(last) => elapsed_nanos(last, now) >= cooldown,
        None => true,
    }
}

impl SyncBookModel {
    /// Nobody was asked and nothing is due.
    pub open spec fn empty() -> SyncBookModel {
        SyncBookModel {
            history_requests: Seq::empty(),
            queue_requests: Seq::empty(),
            due: Seq::empty(),
        }
    }

    /// The summaries are to be repeated a few times soon.
    pub open spec fn with_burst(self, now: u64) -> SyncBookModel {
        SyncBookModel {
            due: self.due + seq![
                (now + FIRST_REPEAT) as u64,
                (now + SECOND_REPEAT) as u64,
                (now + THIRD_REPEAT) as u64,
            ],
            ..self
        }
    }

    /// The time for the summaries that were planned first has come.
    pub open spec fn is_due(self, now: u64) -> bool {
        self.due.len() > 0 && self.due[0] <= now
    }
}

impl SyncBook {
    /// Nobody was asked and nothing is due.
    pub fn new() -> (book: SyncBook)
        ensures
            book@ == SyncBookModel::empty(),
    {
        let book = SyncBook {
            history_requests: Table::new(),
            queue_requests: Table::new(),
            due: Vec::new(),
        };
        assert(book@ =~= SyncBookModel::empty());
        book
    }

    /// Whether a peer may be asked for its history.
    pub fn should_request_history(&self, peer_id: &str, now: u64) -> (may: bool)
        ensures
            may == may_ask(self@.history_requests, peer_id@, HISTORY_REQUEST_COOLDOWN, now),
    {
        match self.history_requests.get(peer_id) {
            Some(last) => now.saturating_sub(*last) >= HISTORY_REQUEST_COOLDOWN,
            None => true,
        }
    }

    /// Whether a peer may be asked for its queue.
    pub fn should_request_queue(&self, peer_id: &str, now: u64) -> (may: bool)
        ensures
            may == may_ask(self@.queue_requests, peer_id@, QUEUE_REQUEST_COOLDOWN, now),
    {
        match self.queue_requests.get(peer_id) {
            Some(last) => now.saturating_sub(*last) >= QUEUE_REQUEST_COOLDOWN,
            None => true,
        }
    }

    /// Plans to repeat the summaries a few times soon.
    pub fn schedule_sync_burst(&mut self, now: u64)
        requires
            now <= u64::MAX - VOTE_TIMEOUT,
        ensures
            final(self)@ == old(self)@.with_burst(now),
    {
        broadcast use group_deep;

        self.due.push(now + FIRST_REPEAT);
        self.due.push(now + SECOND_REPEAT);
        self.due.push(now + THIRD_REPEAT);
        assert(self@.due =~= old(self)@.with_burst(now).due);
    }

    /// Takes out the time that was planned first if it has come, and says whether it has.
    pub fn take_due(&mut self, now: u64) -> (due: bool)
        ensures
            due == old(self)@.is_due(now),
            final(self)@ == if old(self)@.is_due(now) {
                SyncBookModel { due: old(self)@.due.skip(1), ..old(self)@ }
            } else {
                old(self)@
            },
    {
        broadcast use group_deep;

        if self.due.len() > 0 && self.due[0] <= now {
            let _first: u64 = self.due.remove(0);
            assert(self@.due =~= old(self)@.due.skip(1));
            true
        } else {
            false
        }
    }
}

} // verus!
