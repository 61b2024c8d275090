//! The orders by which peers agree without asking each other.
use crate::names::{priority, ranks_before};
use crate::playback::key_before;
use crate::queue::newer;
use crate::text::{bytes_before, bytes_before_antisymmetric, bytes_differ_at, text_before};
use crate::time::timestamp_micros;
use vstd::prelude::*;

verus! {

/// Of two different byte strings one comes before the other.
pub proof fn bytes_are_ordered(a: Seq<u8>, b: Seq<u8>)
    requires
        a != b,
    ensures
        bytes_before(a, b) || bytes_before(b, a),
    decreases a.len(),
{
    if a.len() == 0 {
        assert(a.take(0) =~= b.take(0));
        if b.len() == 0 {
            assert(a =~= b);
        }
        assert(bytes_differ_at(a, b, 0));
    } else if b.len() == 0 {
        assert(a.take(0) =~= b.take(0));
        assert(bytes_differ_at(b, a, 0));
    } else if a[0] != b[0] {
        assert(a.take(0) =~= b.take(0));
        if a[0] < b[0] {
            assert(bytes_differ_at(a, b, 0));
        } else {
            assert(bytes_differ_at(b, a, 0));
        }
    } else {
        let x = a.skip(1);
        let y = b.skip(1);
        assert(x != y) by {
            if x == y {
                assert(a =~= seq![a[0]] + x);
                assert(b =~= seq![b[0]] + y);
            }
        }
        bytes_are_ordered(x, y);
        if bytes_before(x, y) {
            let i = choose|i: int| bytes_differ_at(x, y, i);
            differ_one_later(a, b, i);
        } else {
            let i = choose|i: int| bytes_differ_at(y, x, i);
            differ_one_later(b, a, i);
        }
    }
}

proof fn differ_one_later(a: Seq<u8>, b: Seq<u8>, i: int)
    requires
        a.len() > 0,
        b.len() > 0,
        a[0] == b[0],
        bytes_differ_at(a.skip(1), b.skip(1), i),
    ensures
        bytes_before(a, b),
{
    assert(a.take(i + 1) =~= seq![a[0]] + a.skip(1).take(i));
    assert(b.take(i + 1) =~= seq![b[0]] + b.skip(1).take(i));
    assert(bytes_differ_at(a, b, i + 1));
}

/// Byte strings that come one before the other in turn are in order.
pub proof fn bytes_before_is_transitive(a: Seq<u8>, b: Seq<u8>, c: Seq<u8>)
    requires
        bytes_before(a, b),
        bytes_before(b, c),
    ensures
        bytes_before(a, c),
{
    let i = choose|i: int| bytes_differ_at(a, b, i);
    let j = choose|j: int| bytes_differ_at(b, c, j);
    if i <= j {
        assert(b.take(j).take(i) =~= b.take(i));
        assert(c.take(j).take(i) =~= c.take(i));
        assert(a.take(i) =~= c.take(i));
        if i < j {
            assert(b.take(j)[i] == c.take(j)[i]);
        }
        assert(bytes_differ_at(a, c, i));
    } else {
        assert(a.take(i).take(j) =~= a.take(j));
        assert(b.take(i).take(j) =~= b.take(j));
        assert(a.take(j) =~= c.take(j));
        assert(a.take(i)[j] == b.take(i)[j]);
        assert(bytes_differ_at(a, c, j));
    }
}

/// The order of texts is strict, transitive, and leaves no two different texts unordered.
pub proof fn text_order_is_total(a: Seq<char>, b: Seq<char>, c: Seq<char>)
    ensures
        !text_before(a, a),
        text_before(a, b) ==> !text_before(b, a),
        text_before(a, b) && text_before(b, c) ==> text_before(a, c),
        a != b ==> text_before(a, b) || text_before(b, a),
{
    let x = vstd::utf8::encode_utf8(a);
    let y = vstd::utf8::encode_utf8(b);
    let z = vstd::utf8::encode_utf8(c);
    if text_before(a, a) {
        bytes_before_antisymmetric(x, x);
    }
    if text_before(a, b) {
        bytes_before_antisymmetric(x, y);
        if text_before(b, c) {
            bytes_before_is_transitive(x, y, z);
        }
    }
    if a != b {
        assert(x != y) by {
            vstd::utf8::encode_utf8_decode_utf8(a);
            vstd::utf8::encode_utf8_decode_utf8(b);
        }
        bytes_are_ordered(x, y);
    }
}

/// Of two peers that want the same name exactly one has the better claim, so that exactly one of
/// them gives way, and the same one in the eyes of both.
pub proof fn one_peer_keeps_the_name(
    a: Seq<char>,
    a_joined: Option<i64>,
    b: Seq<char>,
    b_joined: Option<i64>,
)
    requires
        a != b,
    ensures
        ranks_before(priority(a, a_joined), priority(b, b_joined)) <==> !ranks_before(
            priority(b, b_joined),
            priority(a, a_joined),
        ),
{
    text_order_is_total(a, b, a);
    text_order_is_total(b, a, b);
}

/// Claims that rank one before the other in turn are in order.
pub proof fn ranks_are_transitive(
    a: (i64, Seq<char>),
    b: (i64, Seq<char>),
    c: (i64, Seq<char>),
)
    requires
        ranks_before(a, b),
        ranks_before(b, c),
    ensures
        ranks_before(a, c),
{
    text_order_is_total(a.1, b.1, c.1);
}

/// The peer that joined first keeps the name, whatever unit it told the time in; one that does
/// not tell when it joined has no better claim than one that does.
pub proof fn the_first_to_join_keeps_the_name(
    a: Seq<char>,
    a_joined: i64,
    b: Seq<char>,
    b_joined: Option<i64>,
)
    ensures
        b_joined is Some && timestamp_micros(a_joined) < timestamp_micros(b_joined->0)
            ==> ranks_before(priority(a, Some(a_joined)), priority(b, b_joined)),
        b_joined is None && timestamp_micros(a_joined) < i64::MAX ==> ranks_before(
            priority(a, Some(a_joined)),
            priority(b, b_joined),
        ),
{
}

/// The order of queue versions is strict, transitive, and leaves only equal versions unordered.
pub proof fn queue_order_is_total(a: (u64, i64), b: (u64, i64), c: (u64, i64))
    ensures
        !newer(a.0, a.1, a.0, a.1),
        newer(a.0, a.1, b.0, b.1) ==> !newer(b.0, b.1, a.0, a.1),
        newer(a.0, a.1, b.0, b.1) && newer(b.0, b.1, c.0, c.1) ==> newer(a.0, a.1, c.0, c.1),
        a != b ==> newer(a.0, a.1, b.0, b.1) || newer(b.0, b.1, a.0, a.1),
{
}

/// The order of playback states is strict, transitive, and leaves only states with the same key
/// unordered.
pub proof fn playback_order_is_total(
    a: (i64, u64, Seq<char>),
    b: (i64, u64, Seq<char>),
    c: (i64, u64, Seq<char>),
)
    ensures
        !key_before(a, a),
        key_before(a, b) ==> !key_before(b, a),
        key_before(a, b) && key_before(b, c) ==> key_before(a, c),
        a != b ==> key_before(a, b) || key_before(b, a),
{
    text_order_is_total(a.2, b.2, c.2);
    text_order_is_total(b.2, a.2, a.2);
}

} // verus!
