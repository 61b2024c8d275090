//! Building and ordering text.
use vstd::prelude::*;
use vstd::string::*;

verus! {

/// The character for a digit below sixteen.
pub open spec fn digit(n: nat) -> char {
    seq!['0', '1', '2', '3', '4', '5', '6', '7', '8', '9', 'a', 'b', 'c', 'd', 'e', 'f'][n as int]
}

/// The positional numeral of `n`, most significant digit first and without leading zeros.
pub open spec fn numeral(n: nat, base: nat) -> Seq<char>
    decreases n,
{
    if base < 2 || n < base {
        seq![digit(n)]
    } else {
        proof {
            vstd::arithmetic::div_mod::lemma_div_decreases(n as int, base as int);
        }
        numeral(n / base, base).push(digit(n % base))
    }
}

/// The decimal numeral of `n`.
pub open spec fn decimal(n: nat) -> Seq<char> {
    numeral(n, 10)
}

/// The decimal numeral of a signed number.
pub open spec fn signed_decimal(n: int) -> Seq<char> {
    if n < 0 {
        "-"@ + decimal((-n) as nat)
    } else {
        decimal(n as nat)
    }
}

/// The two-digit decimal numeral of a number below one hundred.
pub open spec fn two_digits(n: nat) -> Seq<char> {
    seq![digit(n / 10), digit(n % 10)]
}

fn digit_text(n: u8) -> (text: &'static str)
    requires
        n < 16,
    ensures
        text@ == seq![digit(n as nat)],
{
    proof {
        reveal_strlit("0");
        reveal_strlit("1");
        reveal_strlit("2");
        reveal_strlit("3");
        reveal_strlit("4");
        reveal_strlit("5");
        reveal_strlit("6");
        reveal_strlit("7");
        reveal_strlit("8");
        reveal_strlit("9");
        reveal_strlit("a");
        reveal_strlit("b");
        reveal_strlit("c");
        reveal_strlit("d");
        reveal_strlit("e");
        reveal_strlit("f");
    }
    match n {
        0 => "0",
        1 => "1",
        2 => "2",
        3 => "3",
        4 => "4",
        5 => "5",
        6 => "6",
        7 => "7",
        8 => "8",
        9 => "9",
        10 => "a",
        11 => "b",
        12 => "c",
        13 => "d",
        14 => "e",
        _ => "f",
    }
}

fn numeral_text(n: u128, base: u8) -> (text: String)
    requires
        2 <= base <= 16,
    ensures
        text@ == numeral(n as nat, base as nat),
    decreases n,
{
    let wide: u128 = base as u128;
    if n < wide {
        digit_text(n as u8).to_owned()
    } else {
        assert(n / wide < n) by (nonlinear_arith)
            requires
                n >= wide,
                wide >= 2,
        ;
        let low: u8 = (n % wide) as u8;
        let text = numeral_text(n / wide, base).concat(digit_text(low));
        assert(text@ =~= numeral((n / wide) as nat, base as nat).push(digit(low as nat)));
        text
    }
}

/// The decimal numeral of `n`.
pub fn decimal_text(n: u128) -> (text: String)
    ensures
        text@ == decimal(n as nat),
{
    numeral_text(n, 10)
}

/// The hexadecimal numeral of `n`, in lower case.
pub fn hex_text(n: u64) -> (text: String)
    ensures
        text@ == numeral(n as nat, 16),
{
    numeral_text(n as u128, 16)
}

/// The decimal numeral of a signed number.
pub fn signed_decimal_text(n: i64) -> (text: String)
    ensures
        text@ == signed_decimal(n as int),
{
    if n < 0 {
        let size: u128 = (-(n as i128)) as u128;
        "-".to_owned().concat(decimal_text(size).as_str())
    } else {
        decimal_text(n as u128)
    }
}

/// The two-digit decimal numeral of a number below one hundred.
pub fn two_digits_text(n: u64) -> (text: String)
    requires
        n < 100,
    ensures
        text@ == two_digits(n as nat),
{
    let text = digit_text((n / 10) as u8).to_owned().concat(digit_text((n % 10) as u8));
    assert(text@ =~= two_digits(n as nat));
    text
}

/// The first eight characters of a peer identifier, or all of a shorter one.
pub open spec fn short_peer_text(peer_id: Seq<char>) -> Seq<char> {
    if peer_id.len() <= 8 {
        peer_id
    } else {
        peer_id.take(8)
    }
}

/// Shortens a peer identifier for display to its first eight characters.
pub fn short_peer(peer_id: &str) -> (text: String)
    ensures
        text@ == short_peer_text(peer_id@),
{
    if peer_id.unicode_len() <= 8 {
        peer_id.to_owned()
    } else {
        peer_id.substring_char(0, 8).to_owned()
    }
}

/// Lexicographic order on byte strings: `a` is a proper prefix of `b`, or is smaller at the
/// first place where they differ.
pub open spec fn bytes_before(a: Seq<u8>, b: Seq<u8>) -> bool {
    exists|i: int| bytes_differ_at(a, b, i)
}

/// `a` and `b` agree before `i`, and there `a` ends or is smaller.
pub open spec fn bytes_differ_at(a: Seq<u8>, b: Seq<u8>, i: int) -> bool {
    &&& 0 <= i <= a.len()
    &&& i < b.len()
    &&& a.take(i) == b.take(i)
    &&& (i < a.len() ==> a[i] < b[i])
}

/// The order of two texts: that of their UTF-8 bytes.
pub open spec fn text_before(a: Seq<char>, b: Seq<char>) -> bool {
    bytes_before(vstd::utf8::encode_utf8(a), vstd::utf8::encode_utf8(b))
}

/// Two texts are never each before the other.
pub proof fn bytes_before_antisymmetric(a: Seq<u8>, b: Seq<u8>)
    requires
        bytes_before(a, b),
    ensures
        !bytes_before(b, a),
        a != b,
{
    let i = choose|i: int| bytes_differ_at(a, b, i);
    assert(a != b) by {
        if a == b {
            assert(a[i] < b[i]);
        }
    }
    if bytes_before(b, a) {
        let j = choose|j: int| bytes_differ_at(b, a, j);
        if i < j {
            assert(a.take(j)[i] == b.take(j)[i]);
        } else if j < i {
            assert(a.take(i)[j] == b.take(i)[j]);
        }
    }
}

/// Whether text `a` comes before text `b`.
pub fn comes_before(a: &str, b: &str) -> (before: bool)
    ensures
        before == text_before(a@, b@),
{
    let left = a.as_bytes();
    let right = b.as_bytes();
    let mut i: usize = 0;
    while i < left.len() && i < right.len() && left[i] == right[i]
        invariant
            i <= left@.len(),
            i <= right@.len(),
            left@.take(i as int) == right@.take(i as int),
        decreases left.len() - i,
    {
        assert(left@.take(i + 1) =~= left@.take(i as int).push(left@[i as int]));
        assert(right@.take(i + 1) =~= right@.take(i as int).push(right@[i as int]));
        i = i + 1;
    }
    let before = i < right.len() && (i == left.len() || left[i] < right[i]);
    proof {
        if before {
            assert(bytes_differ_at(left@, right@, i as int));
        } else if bytes_before(left@, right@) {
            let j = choose|j: int| bytes_differ_at(left@, right@, j);
            if j < i {
                assert(left@.take(i as int)[j] == right@.take(i as int)[j]);
            } else if i < j {
                assert(left@.take(j)[i as int] == right@.take(j)[i as int]);
            }
        }
    }
    before
}

/// `pattern` stands in `text` from place `i`.
pub open spec fn stands_at(text: Seq<char>, pattern: Seq<char>, i: int) -> bool {
    0 <= i && i + pattern.len() <= text.len() && text.subrange(i, i + pattern.len()) == pattern
}

/// `pattern` stands somewhere in `text`.
pub open spec fn contains_text(text: Seq<char>, pattern: Seq<char>) -> bool {
    exists|i: int| stands_at(text, pattern, i)
}

/// Whether `pattern` stands somewhere in `text`.
pub fn contains(text: &str, pattern: &str) -> (found: bool)
    ensures
        found == contains_text(text@, pattern@),
{
    let length = text.unicode_len();
    let width = pattern.unicode_len();
    let mut i: usize = 0;
    while width <= length && i <= length - width
        invariant
            length == text@.len(),
            width == pattern@.len(),
            i <= length,
            forall|j: int| 0 <= j < i ==> !stands_at(text@, pattern@, j),
        decreases length - i,
    {
        let piece = text.substring_char(i, i + width).to_owned();
        if piece == pattern.to_owned() {
            assert(stands_at(text@, pattern@, i as int));
            return true;
        }
        if i == length {
            return false;
        }
        i = i + 1;
    }
    false
}

} // verus!
