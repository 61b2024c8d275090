//! Durations, clocks and timestamps.
use crate::text::{
    decimal, decimal_text, two_digits, two_digits_text,
};
use vstd::prelude::*;
use vstd::string::*;

verus! {

/// How often the name, history and queue summaries are published, in milliseconds.
pub const HISTORY_SYNC_INTERVAL_MS: u64 = 10_000;

/// How often due burst summaries are looked for, in milliseconds.
pub const HISTORY_SYNC_BURST_TICK_MS: u64 = 200;

/// How often local playback is checked, in milliseconds.
pub const MUSIC_LOCAL_INTERVAL_MS: u64 = 100;

/// How often the leader publishes the playback state, in milliseconds.
pub const MUSIC_STATE_INTERVAL_MS: u64 = 1_000;

/// How often relayed peers are tried for a direct connection, in milliseconds.
pub const DIRECT_PROMOTION_TICK_MS: u64 = 30_000;

/// How often expired warmups are looked for, in milliseconds.
pub const GOSSIP_WARMUP_CHECK_INTERVAL_MS: u64 = 500;

/// How often peers are looked up at the rendezvous nodes, in milliseconds.
pub const RENDEZVOUS_DISCOVER_INTERVAL_MS: u64 = 30_000;

/// How often the registration at the rendezvous nodes is renewed, in milliseconds.
pub const RENDEZVOUS_REGISTER_INTERVAL_MS: u64 = 1_800_000;

/// How long a registration at a rendezvous node lives, in seconds.
pub const RENDEZVOUS_TTL_SECONDS: u64 = 7_200;

/// The shortest time between two history requests to one peer, in nanoseconds.
pub const HISTORY_REQUEST_COOLDOWN: u64 = 5_000_000_000;

/// The shortest time between two queue requests to one peer, in nanoseconds.
pub const QUEUE_REQUEST_COOLDOWN: u64 = 5_000_000_000;

/// How far the player may drift before it is made to seek, in milliseconds.
pub const MUSIC_DRIFT_SEEK_THRESHOLD_MS: u64 = 700;

/// How long the leader waits for peers to be ready, in nanoseconds.
pub const MUSIC_PREPARE_TIMEOUT: u64 = 12_000_000_000;

/// How long after the start message playback begins, in milliseconds.
pub const MUSIC_START_DELAY_MS: u64 = 1_500;

/// How long a vote stays open, in nanoseconds.
pub const VOTE_TIMEOUT: u64 = 20_000_000_000;

/// Seconds between attempts at a direct connection after few failures.
pub const DIRECT_PROMOTION_RETRY_SECONDS: u64 = 30;

/// Seconds between attempts at a direct connection after several failures.
pub const DIRECT_PROMOTION_MEDIUM_RETRY_SECONDS: u64 = 120;

/// Seconds between attempts at a direct connection after many failures.
pub const DIRECT_PROMOTION_SLOW_RETRY_SECONDS: u64 = 600;

/// The number of failures from which the medium interval holds.
pub const DIRECT_PROMOTION_MEDIUM_RETRY_FAILURES: u32 = 3;

/// The number of failures from which the slow interval holds.
pub const DIRECT_PROMOTION_SLOW_RETRY_FAILURES: u32 = 6;

/// The number of failures from which a peer is no longer tried.
pub const DIRECT_PROMOTION_MAX_FAILURES: u32 = 10;

/// Failures closer together than this count once, in nanoseconds.
pub const DIRECT_PROMOTION_FAILURE_DEDUP_WINDOW: u64 = 5_000_000_000;

/// How long a relayed peer is given to subscribe to the chat, in seconds.
pub const GOSSIP_WARMUP_TIMEOUT_SECONDS: u64 = 5;

/// The number of nanoseconds in a second.
pub const NANOS_PER_SECOND: u64 = 1_000_000_000;

/// A length of time: whole seconds and less than a second of nanoseconds.
#[derive(Debug, PartialEq, Eq, Clone, Copy)]
pub struct Duration {
    pub secs: u64,
    pub nanos: u32,
}

impl Duration {
    /// The nanoseconds are less than a second.
    pub open spec fn wf(self) -> bool {
        self.nanos < NANOS_PER_SECOND
    }

    /// The whole length in nanoseconds.
    pub open spec fn nanoseconds(self) -> nat {
        (self.secs * NANOS_PER_SECOND + self.nanos) as nat
    }

    /// A length of whole seconds.
    pub fn from_secs(secs: u64) -> (duration: Duration)
        ensures
            duration.wf(),
            duration.nanoseconds() == secs * NANOS_PER_SECOND,
            duration == (Duration { secs: secs, nanos: 0 }),
    {
        Duration { secs, nanos: 0 }
    }

    /// A length in milliseconds.
    pub fn from_millis(millis: u64) -> (duration: Duration)
        ensures
            duration.wf(),
            duration.nanoseconds() == millis * 1_000_000,
    {
        Duration { secs: millis / 1000, nanos: ((millis % 1000) * 1_000_000) as u32 }
    }

    /// A length in nanoseconds.
    pub fn from_nanos(nanos: u64) -> (duration: Duration)
        ensures
            duration.wf(),
            duration.nanoseconds() == nanos,
    {
        Duration { secs: nanos / NANOS_PER_SECOND, nanos: (nanos % NANOS_PER_SECOND) as u32 }
    }

    /// The whole seconds in it.
    pub fn as_secs(&self) -> (secs: u64)
        requires
            self.wf(),
        ensures
            secs == self.nanoseconds() / (NANOS_PER_SECOND as nat),
    {
        assert((self.secs * NANOS_PER_SECOND + self.nanos) / (NANOS_PER_SECOND as int)
            == self.secs) by {
            vstd::arithmetic::div_mod::lemma_fundamental_div_mod_converse(
                self.nanoseconds() as int,
                NANOS_PER_SECOND as int,
                self.secs as int,
                self.nanos as int,
            );
        }
        self.secs
    }

    /// The whole microseconds in it.
    pub fn as_micros(&self) -> (micros: u128)
        requires
            self.wf(),
        ensures
            micros == self.nanoseconds() / 1000,
    {
        let micros: u128 = (self.secs as u128) * 1_000_000 + (self.nanos / 1000) as u128;
        micros
    }
}

/// The microseconds in a length of time, as far as the type of timestamps reaches.
pub fn duration_micros(duration: Duration) -> (micros: i64)
    requires
        duration.wf(),
    ensures
        micros == if duration.nanoseconds() / 1000 <= i64::MAX {
            (duration.nanoseconds() / 1000) as int
        } else {
            i64::MAX as int
        },
{
    let micros = duration.as_micros();
    if micros <= i64::MAX as u128 {
        micros as i64
    } else {
        i64::MAX
    }
}

/// A waiting time in words: seconds below a minute, else minutes, with the odd seconds if any.
pub open spec fn retry_duration_text(seconds: nat) -> Seq<char> {
    if seconds < 60 {
        decimal(seconds) + "s"@
    } else if seconds % 60 == 0 {
        decimal(seconds / 60) + "m"@
    } else {
        decimal(seconds / 60) + "m "@ + decimal(seconds % 60) + "s"@
    }
}

/// Writes a waiting time in words.
pub fn format_retry_duration(duration: Duration) -> (text: String)
    requires
        duration.wf(),
    ensures
        text@ == retry_duration_text(duration.nanoseconds() / (NANOS_PER_SECOND as nat)),
{
    let seconds: u64 = duration.as_secs();
    if seconds < 60 {
        return decimal_text(seconds as u128).concat("s");
    }
    let minutes: u64 = seconds / 60;
    let rest: u64 = seconds % 60;
    if rest == 0 {
        decimal_text(minutes as u128).concat("m")
    } else {
        decimal_text(minutes as u128).concat("m ").concat(
            decimal_text(rest as u128).as_str(),
        ).concat("s")
    }
}

/// A playing time in words: minutes and two digits of seconds.
pub open spec fn duration_ms_text(millis: nat) -> Seq<char> {
    decimal(millis / 1000 / 60) + ":"@ + two_digits(millis / 1000 % 60)
}

/// Writes a playing time in words.
pub fn format_duration_ms(millis: u64) -> (text: String)
    ensures
        text@ == duration_ms_text(millis as nat),
{
    let seconds: u64 = millis / 1000;
    decimal_text((seconds / 60) as u128).concat(":").concat(two_digits_text(seconds % 60).as_str())
}

/// Below this size a timestamp counts seconds.
pub const SECONDS_LIMIT: i64 = 100_000_000_000;

/// Below this size, and from the other limit, a timestamp counts milliseconds.
pub const MILLIS_LIMIT: i64 = 100_000_000_000_000;

/// A timestamp in microseconds, whichever unit its size shows it to be in.
pub open spec fn timestamp_micros(timestamp: i64) -> i64 {
    if -SECONDS_LIMIT < timestamp < SECONDS_LIMIT {
        (timestamp * 1_000_000) as i64
    } else if -MILLIS_LIMIT < timestamp < MILLIS_LIMIT {
        (timestamp * 1_000) as i64
    } else {
        timestamp
    }
}

/// Brings a timestamp in seconds, milliseconds or microseconds to microseconds.
pub fn normalize_timestamp_micros(timestamp: i64) -> (micros: i64)
    ensures
        micros == timestamp_micros(timestamp),
{
    if -SECONDS_LIMIT < timestamp && timestamp < SECONDS_LIMIT {
        timestamp * 1_000_000
    } else if -MILLIS_LIMIT < timestamp && timestamp < MILLIS_LIMIT {
        timestamp * 1_000
    } else {
        timestamp
    }
}

/// The declared monotonic instant.
#[verifier::external_type_specification]
#[verifier::external_body]
pub struct ExInstant(tokio::time::Instant);

/// Calls `chrono::Local::now` and `DateTime::timestamp_micros`: the wall clock, in microseconds
/// since the epoch. Nothing is promised of it: it depends on the machine and may even go back.
#[verifier::external_body]
fn current_timestamp_micros() -> i64 {
    chrono::Local::now().timestamp_micros()
}

/// Calls `tokio::time::Instant::now`: a point on the clock, of which nothing is promised.
#[verifier::external_body]
fn monotonic_now() -> tokio::time::Instant {
    tokio::time::Instant::now()
}

/// Calls `tokio::time::Instant::elapsed`: the nanoseconds since `start`. Nothing is promised of
/// it: it depends on when it is called.
#[verifier::external_body]
fn nanos_since(start: &tokio::time::Instant) -> u128 {
    start.elapsed().as_nanos()
}

/// One reading of both clocks.
#[derive(Debug, PartialEq, Eq, Clone, Copy)]
pub struct Moment {
    /// The wall clock, in microseconds since the epoch.
    pub wall_micros: i64,
    /// The monotonic clock, in nanoseconds since the session began.
    pub mono_nanos: u64,
}

impl Moment {
    /// Deadlines can be counted from this moment: neither clock is at the end of its range.
    pub open spec fn in_range(self) -> bool {
        &&& self.wall_micros <= i64::MAX - MUSIC_START_DELAY_MS * 1000
        &&& self.mono_nanos <= u64::MAX - VOTE_TIMEOUT
    }

    /// The moment of a wall clock reading and of the nanoseconds since the session began: there
    /// is one just while the latter fit and deadlines can be counted from it.
    pub fn from_readings(wall_micros: i64, elapsed_nanos: u128) -> (moment: Option<Moment>)
        ensures
            match moment {
                Some(now) => now.wall_micros == wall_micros && now.mono_nanos == elapsed_nanos
                    && now.in_range(),
                None => wall_micros > i64::MAX - MUSIC_START_DELAY_MS * 1000 || elapsed_nanos
                    > u64::MAX - VOTE_TIMEOUT,
            },
    {
        if wall_micros <= i64::MAX - (MUSIC_START_DELAY_MS * 1000) as i64 && elapsed_nanos <= (
        u64::MAX - VOTE_TIMEOUT) as u128 {
            Some(Moment { wall_micros, mono_nanos: elapsed_nanos as u64 })
        } else {
            None
        }
    }
}

/// The clocks of a session.
pub struct Clock {
    start: tokio::time::Instant,
}

impl Clock {
    /// Starts the monotonic clock, at a point that depends on when it is called.
    pub fn start() -> Clock {
        Clock { start: monotonic_now() }
    }

    /// Reads both clocks, whatever they show: no moment once one nears the end of its range.
    pub fn read(&self) -> (moment: Option<Moment>)
        ensures
            moment matches Some(now) ==> now.in_range(),
    {
        Moment::from_readings(current_timestamp_micros(), nanos_since(&self.start))
    }
}

/// The nanoseconds from `earlier` to `later`, none if it is not earlier.
pub open spec fn elapsed_nanos(earlier: u64, later: u64) -> int {
    if later >= earlier {
        later - earlier
    } else {
        0
    }
}

} // verus!
