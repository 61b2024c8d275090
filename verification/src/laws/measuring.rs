//! Numbers, times and the order of texts.
use crate::history::{record_before, MAX_MESSAGES};
use crate::model::{ChatRecordModel, PlaybackStateModel};
use crate::playback::elapsed_micros;
use crate::text::{
    bytes_before, bytes_differ_at, contains_text, decimal, digit, numeral, short_peer_text,
    signed_decimal, stands_at, text_before, two_digits,
};
use crate::time::{duration_ms_text, retry_duration_text, timestamp_micros, Duration, Moment};
use vstd::prelude::*;
use vstd::utf8::encode_utf8;

verus! {

/// The number that a digit stands for.
pub open spec fn worth(c: char) -> int {
    if '0' <= c <= '9' {
        c as int - '0' as int
    } else {
        c as int - 'a' as int + 10
    }
}

/// The number that some digits stand for, the last of them for the ones.
pub open spec fn read(text: Seq<char>, base: nat) -> nat
    decreases text.len(),
{
    if text.len() == 0 {
        0
    } else {
        (read(text.drop_last(), base) * base + worth(text.last())) as nat
    }
}

proof fn digits_have_their_worth(n: nat)
    requires
        n < 16,
    ensures
        worth(digit(n)) == n,
        n < 10 ==> '0' <= digit(n) <= '9' && digit(n) as int == '0' as int + n,
        n >= 10 ==> 'a' <= digit(n) <= 'f',
{
    if n < 8 {
        if n < 4 {
            assert(n == 0 || n == 1 || n == 2 || n == 3);
        } else {
            assert(n == 4 || n == 5 || n == 6 || n == 7);
        }
    } else {
        if n < 12 {
            assert(n == 8 || n == 9 || n == 10 || n == 11);
        } else {
            assert(n == 12 || n == 13 || n == 14 || n == 15);
        }
    }
}

/// A numeral reads as its number, in any base up to sixteen. It has no leading zeros, and as many
/// digits as it takes.
pub proof fn a_numeral_reads_as_its_number(n: nat, base: nat)
    requires
        2 <= base <= 16,
    ensures
        read(numeral(n, base), base) == n,
        numeral(n, base).len() > 0,
        n > 0 ==> worth(numeral(n, base)[0]) > 0,
        n < base <==> numeral(n, base).len() == 1,
        forall|i: int|
            0 <= i < numeral(n, base).len() ==> {
                let c = #[trigger] numeral(n, base)[i];
                0 <= worth(c) < base && ('0' <= c <= '9' || 'a' <= c <= 'f')
            },
    decreases n,
{
    reveal_with_fuel(read, 2);
    if n < base {
        digits_have_their_worth(n);
        assert(numeral(n, base) == seq![digit(n)]);
        assert(numeral(n, base).drop_last() =~= Seq::<char>::empty());
    } else {
        vstd::arithmetic::div_mod::lemma_div_decreases(n as int, base as int);
        vstd::arithmetic::div_mod::lemma_div_non_zero(n as int, base as int);
        vstd::arithmetic::div_mod::lemma_fundamental_div_mod(n as int, base as int);
        vstd::arithmetic::div_mod::lemma_mod_bound(n as int, base as int);
        a_numeral_reads_as_its_number(n / base, base);
        digits_have_their_worth(n % base);
        let higher = numeral(n / base, base);
        let all = numeral(n, base);
        assert(all == higher.push(digit(n % base)));
        assert(all.drop_last() =~= higher);
        assert(base * (n / base) == (n / base) * base) by (nonlinear_arith);
        assert(all[0] == higher[0]);
        assert forall|i: int| 0 <= i < all.len() implies {
            let c = #[trigger] all[i];
            0 <= worth(c) < base && ('0' <= c <= '9' || 'a' <= c <= 'f')
        } by {
            if i < higher.len() {
                assert(all[i] == higher[i]);
            }
        }
    }
}

/// A decimal numeral reads as its number, digit by digit; so does a negative one after its sign.
pub proof fn a_decimal_reads_as_its_number(n: nat)
    ensures
        read(decimal(n), 10) == n,
        signed_decimal(n as int) == decimal(n),
        n > 0 ==> signed_decimal(-n) == seq!['-'] + decimal(n),
{
    a_numeral_reads_as_its_number(n, 10);
    reveal_strlit("-");
    assert("-"@ =~= seq!['-']);
}

/// Two digits are two digits, and read as their number.
pub proof fn two_digits_are_two(n: nat)
    requires
        n < 100,
    ensures
        two_digits(n).len() == 2,
        read(two_digits(n), 10) == n,
{
    reveal_with_fuel(read, 3);
    digits_have_their_worth(n / 10);
    digits_have_their_worth(n % 10);
    let text = two_digits(n);
    assert(text.drop_last() =~= seq![digit(n / 10)]);
    assert(text.drop_last().drop_last() =~= Seq::<char>::empty());
}

/// A wait is told in seconds below a minute, in minutes if there are no odd seconds, else in both.
pub proof fn a_wait_is_told_in_minutes_and_seconds(minutes: nat, seconds: nat)
    requires
        seconds < 60,
    ensures
        retry_duration_text((60 * minutes + seconds) as nat) == if minutes == 0 {
            decimal(seconds) + "s"@
        } else if seconds == 0 {
            decimal(minutes) + "m"@
        } else {
            decimal(minutes) + "m "@ + decimal(seconds) + "s"@
        },
{
}

/// A playing time is told in whole minutes and seconds; the rest is cut off.
pub proof fn a_playing_time_is_told_in_minutes_and_seconds(
    minutes: nat,
    seconds: nat,
    rest: nat,
)
    requires
        seconds < 60,
        rest < 1000,
    ensures
        duration_ms_text((60_000 * minutes + 1000 * seconds + rest) as nat) == decimal(minutes)
            + ":"@ + two_digits(seconds),
{
    let millis = (60_000 * minutes + 1000 * seconds + rest) as nat;
    assert(millis / 1000 == 60 * minutes + seconds);
}

/// A timestamp counts seconds if it is small, milliseconds if it is larger, else microseconds.
pub proof fn a_timestamp_tells_its_unit(timestamp: i64)
    ensures
        -100_000_000_000 < timestamp < 100_000_000_000 ==> timestamp_micros(timestamp) == timestamp
            * 1_000_000,
        100_000_000_000 <= timestamp < 100_000_000_000_000 || -100_000_000_000_000 < timestamp
            <= -100_000_000_000 ==> timestamp_micros(timestamp) == timestamp * 1000,
        timestamp >= 100_000_000_000_000 || timestamp <= -100_000_000_000_000 ==> timestamp_micros(
            timestamp,
        ) == timestamp,
{
}

/// A text comes before another if it is smaller at the first byte at which they differ, or ends
/// there.
pub open spec fn sorts_before(a: Seq<char>, b: Seq<char>) -> bool {
    exists|i: int| parts_ways(encode_utf8(a), encode_utf8(b), i)
}

/// Two byte strings are the same up to a place, where the first ends or is smaller.
pub open spec fn parts_ways(a: Seq<u8>, b: Seq<u8>, i: int) -> bool {
    &&& 0 <= i <= a.len()
    &&& i < b.len()
    &&& forall|j: int| 0 <= j < i ==> a[j] == b[j]
    &&& i == a.len() || a[i] < b[i]
}

/// Texts are ordered by the first byte at which they differ.
pub proof fn texts_are_ordered_by_their_bytes(a: Seq<char>, b: Seq<char>)
    ensures
        text_before(a, b) == sorts_before(a, b),
{
    let x = encode_utf8(a);
    let y = encode_utf8(b);
    if text_before(a, b) {
        let i = choose|i: int| bytes_differ_at(x, y, i);
        assert forall|j: int| 0 <= j < i implies x[j] == y[j] by {
            assert(x.take(i)[j] == y.take(i)[j]);
        }
        assert(parts_ways(x, y, i));
    }
    if sorts_before(a, b) {
        let i = choose|i: int| parts_ways(x, y, i);
        assert(x.take(i) =~= y.take(i));
        assert(bytes_differ_at(x, y, i));
        assert(bytes_before(x, y));
    }
}

/// Messages are ordered by the time of sending in microseconds, then by their identifiers.
pub proof fn messages_are_ordered_by_time(a: ChatRecordModel, b: ChatRecordModel)
    ensures
        timestamp_micros(a.sent_at) < timestamp_micros(b.sent_at) ==> record_before(a, b),
        timestamp_micros(a.sent_at) > timestamp_micros(b.sent_at) ==> !record_before(a, b),
        timestamp_micros(a.sent_at) == timestamp_micros(b.sent_at) ==> record_before(a, b)
            == sorts_before(a.id, b.id),
        MAX_MESSAGES == 500,
{
    texts_are_ordered_by_their_bytes(a.id, b.id);
}

/// A peer is shown by the beginning of its identifier, eight characters or all of it.
pub proof fn a_peer_is_shown_by_its_beginning(peer: Seq<char>)
    ensures
        ({
            let shown = short_peer_text(peer);
            &&& shown.len() <= 8
            &&& shown.len() == 8 || shown == peer
            &&& forall|i: int| 0 <= i < shown.len() ==> (#[trigger] shown[i]) == peer[i]
        }),
{
}

/// A pattern stands in a text if the text is made of something, the pattern, and something.
pub proof fn a_pattern_stands_in_a_text(
    text: Seq<char>,
    pattern: Seq<char>,
    before: Seq<char>,
    after: Seq<char>,
)
    ensures
        contains_text(before + pattern + after, pattern),
        contains_text(text, pattern) ==> exists|a: Seq<char>, b: Seq<char>|
            text == #[trigger] (a + pattern + b),
{
    let all = before + pattern + after;
    assert(all.subrange(before.len() as int, (before.len() + pattern.len()) as int) =~= pattern);
    assert(stands_at(all, pattern, before.len() as int));
    if contains_text(text, pattern) {
        let i = choose|i: int| stands_at(text, pattern, i);
        let a = text.take(i);
        let b = text.skip(i + pattern.len());
        assert(text =~= a + pattern + b);
    }
}

/// A length of time is its seconds and its nanoseconds. A session can go on while its clocks leave
/// room for what is counted from now on: a start in a second and a half, a vote of twenty seconds.
pub proof fn clocks_leave_room(duration: Duration, now: Moment)
    ensures
        duration.nanoseconds() == duration.secs * 1_000_000_000 + duration.nanos,
        duration.wf() <==> duration.nanos < 1_000_000_000,
        now.in_range() <==> now.wall_micros + 1_500_000 <= i64::MAX && now.mono_nanos
            + 20_000_000_000 <= u64::MAX,
{
}

/// What has passed since the anchor time of a playback is nothing before it, and else the time since
/// then, as far as numbers reach.
pub proof fn time_passes_from_the_anchor(state: PlaybackStateModel, now: i64)
    ensures
        ({
            let passed = elapsed_micros(state, now);
            &&& now <= state.anchor_time_micros ==> passed == 0
            &&& now > state.anchor_time_micros && now - state.anchor_time_micros <= i64::MAX
                ==> passed + state.anchor_time_micros == now
            &&& now - state.anchor_time_micros > i64::MAX ==> passed == i64::MAX
        }),
{
}

} // verus!
