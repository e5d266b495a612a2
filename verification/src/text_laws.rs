//! What the texts of numbers and addresses say.

use vstd::prelude::*;

use crate::bytes;
use crate::network::ipv4;
use crate::text;

verus! {

/// The number that a row of decimal digits says.
pub open spec fn digits_value(t: Seq<char>) -> int
    decreases t.len(),
{
    if t.len() == 0 {
        0
    } else {
        10 * digits_value(t.drop_last()) + (t.last() as int - '0' as int)
    }
}

/// A row of decimal digits that says a number: there is one at least, and the first is no zero
/// unless it is the only one.
pub open spec fn numeral(t: Seq<char>, n: int) -> bool {
    &&& t.len() > 0
    &&& forall|i: int| 0 <= i < t.len() ==> '0' <= #[trigger] t[i] <= '9'
    &&& t.len() > 1 ==> t[0] != '0'
    &&& digits_value(t) == n
}

/// The number that a hexadecimal digit in upper case says.
pub open spec fn hex_value(c: char) -> int {
    if '0' <= c <= '9' {
        c as int - '0' as int
    } else if 'A' <= c <= 'F' {
        10 + c as int - 'A' as int
    } else {
        -1
    }
}

/// A number in decimal is a row of digits that says it.
pub proof fn law_decimal_says_its_number(n: nat)
    ensures
        numeral(text::decimal(n), n as int),
    decreases n,
{
    let t = text::decimal(n);
    reveal_with_fuel(digits_value, 2);
    if n >= 10 {
        law_decimal_says_its_number(n / 10);
        let front = text::decimal(n / 10);
        assert(t.drop_last() =~= front);
        assert(t.last() == text::digit(n as int % 10));
        assert(t[0] == front[0]);
        if front.len() == 1 {
            assert(front.drop_last() =~= Seq::empty());
        }
    } else {
        assert(t.drop_last() =~= Seq::empty());
    }
}

/// A row of digits says a number that is not negative, and not 0 where the first digit is none.
proof fn lemma_digits_value(t: Seq<char>)
    requires
        forall|i: int| 0 <= i < t.len() ==> '0' <= #[trigger] t[i] <= '9',
    ensures
        digits_value(t) >= 0,
        t.len() > 0 && t[0] != '0' ==> digits_value(t) > 0,
    decreases t.len(),
{
    if t.len() > 0 {
        assert forall|i: int| 0 <= i < t.drop_last().len() implies '0' <= #[trigger] t.drop_last()[i]
            <= '9' by {
            assert(t.drop_last()[i] == t[i]);
        }
        lemma_digits_value(t.drop_last());
        assert(t.last() == t[t.len() - 1]);
    }
}

/// There is one row of digits for a number.
pub proof fn law_numeral_is_decimal(t: Seq<char>, n: nat)
    requires
        numeral(t, n as int),
    ensures
        t == text::decimal(n),
    decreases t.len(),
{
    let front = t.drop_last();
    let last = t.last();
    assert('0' <= last <= '9') by {
        assert(last == t[t.len() - 1]);
    }
    assert forall|i: int| 0 <= i < front.len() implies '0' <= #[trigger] front[i] <= '9' by {
        assert(front[i] == t[i]);
    }
    if t.len() == 1 {
        assert(front =~= Seq::empty());
        assert(digits_value(front) == 0);
        assert(t =~= seq![text::digit(n as int)]);
    } else {
        lemma_digits_value(front);
        assert(front[0] == t[0]);
        let high = digits_value(front);
        assert(high > 0);
        assert(n == 10 * high + (last as int - 48));
        assert(n / 10 == high && n % 10 == last as int - 48);
        law_numeral_is_decimal(front, high as nat);
        assert(last == text::digit(n as int % 10));
        assert(t =~= front.push(last));
    }
}

/// A byte is two hexadecimal digits in upper case, the upper half first.
pub proof fn law_hex_says_its_byte(b: u8)
    ensures
        text::hex_byte(b).len() == 2,
        0 <= hex_value(text::hex_byte(b)[0]) < 16,
        0 <= hex_value(text::hex_byte(b)[1]) < 16,
        16 * hex_value(text::hex_byte(b)[0]) + hex_value(text::hex_byte(b)[1]) == b,
{
}

/// A hardware address is its six bytes in order, each as two digits, with a colon between two.
pub proof fn law_mac_says_its_bytes(mac: Seq<u8>, k: int)
    requires
        mac.len() == 6,
        0 <= k < 6,
    ensures
        ({
            let t = text::mac_text(mac);
            &&& t.len() == 17
            &&& 0 <= hex_value(t[3 * k]) < 16
            &&& 0 <= hex_value(t[3 * k + 1]) < 16
            &&& 16 * hex_value(t[3 * k]) + hex_value(t[3 * k + 1]) == mac[k]
            &&& k < 5 ==> t[3 * k + 2] == ':'
        }),
{
    law_hex_says_its_byte(mac[k]);
    let t = text::mac_text(mac);
    assert(t[3 * k] == text::hex_byte(mac[k])[0]);
    assert(t[3 * k + 1] == text::hex_byte(mac[k])[1]);
}

/// An address in dotted decimal is four numbers parted by dots: those of its octets, in order.
pub proof fn law_ipv4_says_its_octets(
    octets: Seq<u8>,
    first: Seq<char>,
    second: Seq<char>,
    third: Seq<char>,
    fourth: Seq<char>,
)
    requires
        octets.len() == 4,
        numeral(first, octets[0] as int),
        numeral(second, octets[1] as int),
        numeral(third, octets[2] as int),
        numeral(fourth, octets[3] as int),
    ensures
        ipv4::ipv4_text(octets) == first + seq!['.'] + second + seq!['.'] + third + seq!['.']
            + fourth,
{
    law_numeral_is_decimal(first, octets[0] as nat);
    law_numeral_is_decimal(second, octets[1] as nat);
    law_numeral_is_decimal(third, octets[2] as nat);
    law_numeral_is_decimal(fourth, octets[3] as nat);
}

/// The bytes of a number, most significant first, say the number.
pub proof fn law_bytes_say_their_number(n: int)
    requires
        0 <= n,
    ensures
        n < 0x1_0000 ==> ({
            let b = bytes::be16(n);
            b.len() == 2 && 256 * b[0] + b[1] == n
        }),
        n < 0x1_0000_0000 ==> ({
            let b = bytes::be32(n);
            b.len() == 4 && 0x100_0000 * b[0] + 0x1_0000 * b[1] + 0x100 * b[2] + b[3] == n
        }),
{
    let b = bytes::be32(n);
    assert(b[0] == bytes::byte(n / 65536 / 256));
    assert(b[1] == bytes::byte(n / 65536));
    assert(b[2] == bytes::byte(n / 256));
    assert(b[3] == bytes::byte(n));
}

/// Trimming takes white space from both ends and nothing else: what is left neither begins nor
/// ends with white space.
pub proof fn law_trimming_takes_white_space_off(t: Seq<char>) -> (around: (Seq<char>, Seq<char>))
    ensures
        t == around.0 + text::trimmed(t) + around.1,
        text::blank(around.0),
        text::blank(around.1),
        text::trimmed(t).len() > 0 ==> !text::white_space(text::trimmed(t)[0])
            && !text::white_space(text::trimmed(t).last()),
{
    let front = lemma_front_of(t);
    let rest = text::trim_start(t);
    let back = lemma_back_of(rest);
    assert(t =~= front + text::trimmed(t) + back);
    let kept = text::trimmed(t);
    if kept.len() > 0 {
        assert(rest == kept + back);
        assert(kept[0] == rest[0]);
    }
    (front, back)
}

proof fn lemma_front_of(t: Seq<char>) -> (front: Seq<char>)
    ensures
        t == front + text::trim_start(t),
        text::blank(front),
        text::trim_start(t).len() > 0 ==> !text::white_space(text::trim_start(t)[0]),
    decreases t.len(),
{
    if t.len() > 0 && text::white_space(t[0]) {
        let inner = lemma_front_of(t.skip(1));
        let front = seq![t[0]] + inner;
        assert(t =~= seq![t[0]] + t.skip(1));
        assert(t =~= front + text::trim_start(t));
        front
    } else {
        assert(t =~= Seq::empty() + t);
        Seq::empty()
    }
}

proof fn lemma_back_of(t: Seq<char>) -> (back: Seq<char>)
    ensures
        t == text::trim_end(t) + back,
        text::blank(back),
        text::trim_end(t).len() > 0 ==> !text::white_space(text::trim_end(t).last()),
    decreases t.len(),
{
    if t.len() > 0 && text::white_space(t.last()) {
        let inner = lemma_back_of(t.drop_last());
        let back = inner.push(t.last());
        assert(t =~= t.drop_last().push(t.last()));
        assert(t =~= text::trim_end(t) + back);
        back
    } else {
        assert(t =~= t + Seq::empty());
        Seq::empty()
    }
}

} // verus!
