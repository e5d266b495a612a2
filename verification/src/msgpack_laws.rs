//! What MessagePack bytes say, they say of one value only.

use vstd::prelude::*;

use crate::bytes;
use crate::msgpack;
use crate::msgpack::Value;
use crate::text;

verus! {

/// The values that MessagePack can carry: integers of 64 bits, and texts, arrays and maps whose
/// length fits 32 bits.
pub open spec fn sized(value: Value) -> bool
    decreases value,
{
    match value {
        Value::Bool(_) => true,
        Value::Int(n) => -0x8000_0000_0000_0000 <= n < 0x1_0000_0000_0000_0000,
        Value::Str(text) => text::byte_len(text) < 0x1_0000_0000,
        Value::Array(items) => items.len() < 0x1_0000_0000 && forall|i: int|
            0 <= i < items.len() ==> sized(#[trigger] items[i]),
        Value::Table(entries) => entries.len() < 0x1_0000_0000 && forall|i: int|
            0 <= i < entries.len() ==> text::byte_len((#[trigger] entries[i]).0) < 0x1_0000_0000
                && sized(entries[i].1),
    }
}

/// A short key in ASCII takes few bytes.
pub proof fn lemma_key_len(key: &str)
    requires
        key.is_ascii(),
        key@.len() <= 15,
    ensures
        text::byte_len(key@) <= 15,
{
    vstd::utf8::is_ascii_chars_encode_utf8(key@);
}

/// The most bytes that a value takes.
pub proof fn lemma_value_len(value: Value)
    ensures
        value is Bool ==> msgpack::encode(value).len() == 1,
        value is Int ==> msgpack::encode(value).len() <= 9,
        value matches Value::Str(t) ==> msgpack::encode(value).len() <= 5
            + text::byte_len(t),
{
}

/// The most bytes that entries with short keys take, given the most that a value takes.
pub proof fn lemma_entries_len(entries: Seq<(Seq<char>, Value)>, most: nat)
    requires
        forall|i: int|
            0 <= i < entries.len() ==> text::byte_len((#[trigger] entries[i]).0) <= 15
                && msgpack::encode(entries[i].1).len() <= most,
    ensures
        msgpack::encode_entries(entries).len() <= entries.len() * (20 + most),
    decreases entries.len(),
{
    if entries.len() > 0 {
        let rest = entries.subrange(1, entries.len() as int);
        assert forall|i: int| 0 <= i < rest.len() implies text::byte_len((#[trigger] rest[i]).0)
            <= 15 && msgpack::encode(rest[i].1).len() <= most by {
            assert(rest[i] == entries[i + 1]);
        }
        lemma_entries_len(rest, most);
        lemma_value_len(Value::Str(entries[0].0));
        assert(text::byte_len(entries[0].0) <= 15 && msgpack::encode(entries[0].1).len() <= most);
        assert(entries.len() * (20 + most) == (entries.len() - 1) * (20 + most) + (20 + most))
            by (nonlinear_arith);
    }
}

proof fn lemma_split(a: Seq<u8>, r: Seq<u8>, b: Seq<u8>, s: Seq<u8>)
    requires
        a + r == b + s,
        a.len() == b.len(),
    ensures
        a == b,
        r == s,
{
    assert((a + r).take(a.len() as int) =~= a);
    assert((b + s).take(a.len() as int) =~= b);
    assert((a + r).skip(a.len() as int) =~= r);
    assert((b + s).skip(a.len() as int) =~= s);
}

proof fn lemma_mod_in_parts(n: int, k: int)
    requires
        k > 0,
    ensures
        n % (k * k) == k * (n / k % k) + n % k,
{
    let q = n / k;
    let low = n % k;
    let mid = q % k;
    vstd::arithmetic::div_mod::lemma_fundamental_div_mod(n, k);
    vstd::arithmetic::div_mod::lemma_fundamental_div_mod(q, k);
    vstd::arithmetic::div_mod::lemma_mod_bound(n, k);
    vstd::arithmetic::div_mod::lemma_mod_bound(q, k);
    let top = q / k;
    assert(0 <= k * mid + low < k * k && k * k > 0 && n == top * (k * k) + (k * mid + low))
        by (nonlinear_arith)
        requires
            k > 0,
            0 <= low < k,
            0 <= mid < k,
            n == k * q + low,
            q == k * top + mid,
    ;
    vstd::arithmetic::div_mod::lemma_fundamental_div_mod_converse(
        n,
        k * k,
        top,
        k * mid + low,
    );
}

proof fn lemma_be16(a: int, b: int)
    requires
        bytes::be16(a) == bytes::be16(b),
    ensures
        a % 0x1_0000 == b % 0x1_0000,
{
    assert(bytes::be16(a)[0] == bytes::be16(b)[0]);
    assert(bytes::be16(a)[1] == bytes::be16(b)[1]);
    lemma_mod_in_parts(a, 0x100);
    lemma_mod_in_parts(b, 0x100);
}

proof fn lemma_be32(a: int, b: int)
    requires
        bytes::be32(a) == bytes::be32(b),
    ensures
        a % 0x1_0000_0000 == b % 0x1_0000_0000,
{
    lemma_split(
        bytes::be16(a / 0x1_0000),
        bytes::be16(a),
        bytes::be16(b / 0x1_0000),
        bytes::be16(b),
    );
    lemma_be16(a / 0x1_0000, b / 0x1_0000);
    lemma_be16(a, b);
    lemma_mod_in_parts(a, 0x1_0000);
    lemma_mod_in_parts(b, 0x1_0000);
}

proof fn lemma_be64(a: int, b: int)
    requires
        bytes::be64(a) == bytes::be64(b),
    ensures
        a % 0x1_0000_0000_0000_0000 == b % 0x1_0000_0000_0000_0000,
{
    lemma_split(
        bytes::be32(a / 0x1_0000_0000),
        bytes::be32(a),
        bytes::be32(b / 0x1_0000_0000),
        bytes::be32(b),
    );
    lemma_be32(a / 0x1_0000_0000, b / 0x1_0000_0000);
    lemma_be32(a, b);
    lemma_mod_in_parts(a, 0x1_0000_0000);
    lemma_mod_in_parts(b, 0x1_0000_0000);
}

/// The marker of an integer that needs more than one byte, and the bytes behind it.
spec fn int_form(n: int) -> (u8, Seq<u8>) {
    if n < -0x8000_0000 {
        (0xd3, bytes::be64(n))
    } else if n < -0x8000 {
        (0xd2, bytes::be32(n))
    } else if n < -0x80 {
        (0xd1, bytes::be16(n))
    } else if n < -0x20 {
        (0xd0, seq![bytes::byte(n)])
    } else if n < 0x80 {
        (bytes::byte(n), Seq::empty())
    } else if n < 0x100 {
        (0xcc, seq![bytes::byte(n)])
    } else if n < 0x1_0000 {
        (0xcd, bytes::be16(n))
    } else if n < 0x1_0000_0000 {
        (0xce, bytes::be32(n))
    } else {
        (0xcf, bytes::be64(n))
    }
}

proof fn lemma_int_form(n: int)
    ensures
        msgpack::int_bytes(n) == seq![int_form(n).0] + int_form(n).1,
{
    assert(msgpack::int_bytes(n) =~= seq![int_form(n).0] + int_form(n).1);
}

proof fn lemma_int(a: int, r: Seq<u8>, b: int, s: Seq<u8>)
    requires
        sized(Value::Int(a)),
        sized(Value::Int(b)),
        msgpack::int_bytes(a) + r == msgpack::int_bytes(b) + s,
    ensures
        a == b,
        r == s,
{
    lemma_int_form(a);
    lemma_int_form(b);
    assert((msgpack::int_bytes(a) + r)[0] == int_form(a).0);
    assert((msgpack::int_bytes(b) + s)[0] == int_form(b).0);
    assert(int_form(a).1.len() == int_form(b).1.len());
    lemma_split(msgpack::int_bytes(a), r, msgpack::int_bytes(b), s);
    lemma_split(
        seq![int_form(a).0],
        int_form(a).1,
        seq![int_form(b).0],
        int_form(b).1,
    );
    let m = int_form(a).0;
    if m == 0xd3 || m == 0xcf {
        lemma_be64(a, b);
    } else if m == 0xd2 || m == 0xce {
        lemma_be32(a, b);
    } else if m == 0xd1 || m == 0xcd {
        lemma_be16(a, b);
    } else if m == 0xd0 || m == 0xcc {
        assert(int_form(a).1[0] == int_form(b).1[0]);
    }
}

/// The marker of a header, and the bytes of the length behind it.
#[verifier::opaque]
spec fn header_form(small: int, limit: int, wide: u8, n: int) -> Seq<u8> {
    if n < limit {
        seq![(small + n) as u8]
    } else if n < 0x1_0000 {
        seq![wide] + bytes::be16(n)
    } else {
        seq![(wide + 1) as u8] + bytes::be32(n)
    }
}

proof fn lemma_header(small: int, limit: int, wide: u8, m: int, r: Seq<u8>, n: int, s: Seq<u8>)
    requires
        0 <= m < 0x1_0000_0000,
        0 <= n < 0x1_0000_0000,
        0 < limit <= 0x20,
        0 <= small,
        small + limit <= wide < 0xff,
        header_form(small, limit, wide, m) + r == header_form(small, limit, wide, n) + s,
    ensures
        m == n,
        r == s,
{
    reveal(header_form);
    let a = header_form(small, limit, wide, m);
    let b = header_form(small, limit, wide, n);
    assert((a + r)[0] == a[0]);
    assert((b + s)[0] == b[0]);
    assert(a.len() == b.len());
    lemma_split(a, r, b, s);
    if m < limit {
    } else if m < 0x1_0000 {
        lemma_split(seq![wide], bytes::be16(m), seq![wide], bytes::be16(n));
        lemma_be16(m, n);
    } else {
        let wider = (wide + 1) as u8;
        lemma_split(seq![wider], bytes::be32(m), seq![wider], bytes::be32(n));
        lemma_be32(m, n);
    }
}

/// The header of a text, whose length can also take one byte.
proof fn lemma_str_header(m: nat, r: Seq<u8>, n: nat, s: Seq<u8>)
    requires
        m < 0x1_0000_0000,
        n < 0x1_0000_0000,
        msgpack::str_header(m) + r == msgpack::str_header(n) + s,
    ensures
        m == n,
        r == s,
{
    let a = msgpack::str_header(m);
    let b = msgpack::str_header(n);
    assert((a + r)[0] == a[0]);
    assert((b + s)[0] == b[0]);
    assert(a.len() == b.len());
    lemma_split(a, r, b, s);
    if m < 0x20 {
    } else if m < 0x100 {
        assert(a[1] == b[1]);
    } else if m < 0x1_0000 {
        lemma_split(seq![0xdau8], bytes::be16(m as int), seq![0xdau8], bytes::be16(n as int));
        lemma_be16(m as int, n as int);
    } else {
        lemma_split(seq![0xdbu8], bytes::be32(m as int), seq![0xdbu8], bytes::be32(n as int));
        lemma_be32(m as int, n as int);
    }
}

proof fn lemma_str(a: Seq<char>, r: Seq<u8>, b: Seq<char>, s: Seq<u8>)
    requires
        text::byte_len(a) < 0x1_0000_0000,
        text::byte_len(b) < 0x1_0000_0000,
        msgpack::str_bytes(a) + r == msgpack::str_bytes(b) + s,
    ensures
        a == b,
        r == s,
{
    let u = vstd::utf8::encode_utf8(a);
    let w = vstd::utf8::encode_utf8(b);
    assert(msgpack::str_bytes(a) + r =~= msgpack::str_header(u.len()) + (u + r));
    assert(msgpack::str_bytes(b) + s =~= msgpack::str_header(w.len()) + (w + s));
    lemma_str_header(u.len(), u + r, w.len(), w + s);
    lemma_split(u, r, w, s);
    vstd::utf8::encode_utf8_decode_utf8(a);
    vstd::utf8::encode_utf8_decode_utf8(b);
}

/// Which sort of value a first byte announces.
spec fn sort_of_byte(b: u8) -> int {
    if b == 0xc2 || b == 0xc3 {
        0
    } else if 0xa0 <= b <= 0xbf || 0xd9 <= b <= 0xdb {
        2
    } else if 0x90 <= b <= 0x9f || 0xdc <= b <= 0xdd {
        3
    } else if 0x80 <= b <= 0x8f || 0xde <= b <= 0xdf {
        4
    } else {
        1
    }
}

spec fn sort_of(value: Value) -> int {
    match value {
        Value::Bool(_) => 0,
        Value::Int(_) => 1,
        Value::Str(_) => 2,
        Value::Array(_) => 3,
        Value::Table(_) => 4,
    }
}

proof fn lemma_array_bytes(items: Seq<Value>, r: Seq<u8>)
    requires
        items.len() < 0x1_0000_0000,
    ensures
        msgpack::encode(Value::Array(items)) + r == header_form(
            0x90,
            0x10,
            0xdc,
            items.len() as int,
        ) + (msgpack::encode_items(items) + r),
{
    reveal(header_form);
    assert(msgpack::encode(Value::Array(items)) + r =~= msgpack::array_header(items.len()) + (
    msgpack::encode_items(items) + r));
}

proof fn lemma_table_bytes(entries: Seq<(Seq<char>, Value)>, r: Seq<u8>)
    requires
        entries.len() < 0x1_0000_0000,
    ensures
        msgpack::encode(Value::Table(entries)) + r == header_form(
            0x80,
            0x10,
            0xde,
            entries.len() as int,
        ) + (msgpack::encode_entries(entries) + r),
{
    reveal(header_form);
    assert(msgpack::encode(Value::Table(entries)) + r =~= msgpack::map_header(entries.len()) + (
    msgpack::encode_entries(entries) + r));
}

proof fn lemma_first_byte(value: Value)
    requires
        sized(value),
    ensures
        msgpack::encode(value).len() > 0,
        sort_of_byte(msgpack::encode(value)[0]) == sort_of(value),
{
    match value {
        Value::Int(n) => {
            lemma_int_form(n);
        },
        _ => {},
    }
}

/// Bytes that begin with the form of one value do not begin with that of another: the value and
/// what follows it can be told from the bytes.
pub proof fn law_encoding_is_unambiguous(v: Value, r: Seq<u8>, w: Value, s: Seq<u8>)
    requires
        sized(v),
        sized(w),
        msgpack::encode(v) + r == msgpack::encode(w) + s,
    ensures
        v == w,
        r == s,
    decreases v,
{
    lemma_first_byte(v);
    lemma_first_byte(w);
    assert((msgpack::encode(v) + r)[0] == msgpack::encode(v)[0]);
    assert((msgpack::encode(w) + s)[0] == msgpack::encode(w)[0]);
    match (v, w) {
        (Value::Bool(a), Value::Bool(b)) => {
            lemma_split(msgpack::encode(v), r, msgpack::encode(w), s);
        },
        (Value::Int(a), Value::Int(b)) => {
            lemma_int(a, r, b, s);
        },
        (Value::Str(a), Value::Str(b)) => {
            lemma_str(a, r, b, s);
        },
        (Value::Array(a), Value::Array(b)) => {
            let x = msgpack::encode_items(a);
            let y = msgpack::encode_items(b);
            lemma_array_bytes(a, r);
            lemma_array_bytes(b, s);
            lemma_header(0x90, 0x10, 0xdc, a.len() as int, x + r, b.len() as int, y + s);
            lemma_items(a, r, b, s);
        },
        (Value::Table(a), Value::Table(b)) => {
            let x = msgpack::encode_entries(a);
            let y = msgpack::encode_entries(b);
            lemma_table_bytes(a, r);
            lemma_table_bytes(b, s);
            lemma_header(0x80, 0x10, 0xde, a.len() as int, x + r, b.len() as int, y + s);
            lemma_entries(a, r, b, s);
        },
        _ => {},
    }
}

proof fn lemma_items(a: Seq<Value>, r: Seq<u8>, b: Seq<Value>, s: Seq<u8>)
    requires
        a.len() == b.len(),
        forall|i: int| 0 <= i < a.len() ==> sized(#[trigger] a[i]),
        forall|i: int| 0 <= i < b.len() ==> sized(#[trigger] b[i]),
        msgpack::encode_items(a) + r == msgpack::encode_items(b) + s,
    ensures
        a == b,
        r == s,
    decreases a,
{
    if a.len() == 0 {
        assert(a =~= b);
        assert(msgpack::encode_items(a) + r =~= r);
        assert(msgpack::encode_items(b) + s =~= s);
    } else {
        let a_rest = a.subrange(1, a.len() as int);
        let b_rest = b.subrange(1, b.len() as int);
        let x = msgpack::encode_items(a_rest);
        let y = msgpack::encode_items(b_rest);
        assert(msgpack::encode_items(a) + r =~= msgpack::encode(a[0]) + (x + r));
        assert(msgpack::encode_items(b) + s =~= msgpack::encode(b[0]) + (y + s));
        law_encoding_is_unambiguous(a[0], x + r, b[0], y + s);
        assert forall|i: int| 0 <= i < a_rest.len() implies sized(#[trigger] a_rest[i]) by {
            assert(a_rest[i] == a[i + 1]);
        }
        assert forall|i: int| 0 <= i < b_rest.len() implies sized(#[trigger] b_rest[i]) by {
            assert(b_rest[i] == b[i + 1]);
        }
        lemma_items(a_rest, r, b_rest, s);
        assert(a =~= seq![a[0]] + a_rest);
        assert(b =~= seq![b[0]] + b_rest);
    }
}

proof fn lemma_entries(
    a: Seq<(Seq<char>, Value)>,
    r: Seq<u8>,
    b: Seq<(Seq<char>, Value)>,
    s: Seq<u8>,
)
    requires
        a.len() == b.len(),
        forall|i: int|
            0 <= i < a.len() ==> text::byte_len((#[trigger] a[i]).0) < 0x1_0000_0000 && sized(
                a[i].1,
            ),
        forall|i: int|
            0 <= i < b.len() ==> text::byte_len((#[trigger] b[i]).0) < 0x1_0000_0000 && sized(
                b[i].1,
            ),
        msgpack::encode_entries(a) + r == msgpack::encode_entries(b) + s,
    ensures
        a == b,
        r == s,
    decreases a,
{
    if a.len() == 0 {
        assert(a =~= b);
        assert(msgpack::encode_entries(a) + r =~= r);
        assert(msgpack::encode_entries(b) + s =~= s);
    } else {
        let a_rest = a.subrange(1, a.len() as int);
        let b_rest = b.subrange(1, b.len() as int);
        let x = msgpack::encode_entries(a_rest);
        let y = msgpack::encode_entries(b_rest);
        assert(msgpack::encode_entries(a) + r =~= msgpack::str_bytes(a[0].0) + (msgpack::encode(
            a[0].1,
        ) + (x + r)));
        assert(msgpack::encode_entries(b) + s =~= msgpack::str_bytes(b[0].0) + (msgpack::encode(
            b[0].1,
        ) + (y + s)));
        lemma_str(
            a[0].0,
            msgpack::encode(a[0].1) + (x + r),
            b[0].0,
            msgpack::encode(b[0].1) + (y + s),
        );
        law_encoding_is_unambiguous(a[0].1, x + r, b[0].1, y + s);
        assert forall|i: int| 0 <= i < a_rest.len() implies text::byte_len(
            (#[trigger] a_rest[i]).0,
        ) < 0x1_0000_0000 && sized(a_rest[i].1) by {
            assert(a_rest[i] == a[i + 1]);
        }
        assert forall|i: int| 0 <= i < b_rest.len() implies text::byte_len(
            (#[trigger] b_rest[i]).0,
        ) < 0x1_0000_0000 && sized(b_rest[i].1) by {
            assert(b_rest[i] == b[i + 1]);
        }
        lemma_entries(a_rest, r, b_rest, s);
        assert(a =~= seq![a[0]] + a_rest);
        assert(b =~= seq![b[0]] + b_rest);
    }
}

/// Two values with the same bytes are the same value.
pub proof fn law_equal_bytes_mean_equal_values(v: Value, w: Value)
    requires
        sized(v),
        sized(w),
        msgpack::encode(v) == msgpack::encode(w),
    ensures
        v == w,
{
    law_encoding_is_unambiguous(v, Seq::empty(), w, Seq::empty());
}

/// A map of few entries is a byte that says how many there are, and then the entries in order:
/// each its key as a text and then its value. Entries of two lists are those of the first and
/// then those of the second.
pub proof fn law_entries_are_in_order(
    first: Seq<(Seq<char>, Value)>,
    second: Seq<(Seq<char>, Value)>,
    key: Seq<char>,
    value: Value,
)
    ensures
        first.len() < 16 ==> msgpack::encode(Value::Table(first)) == seq![
            (0x80 + first.len()) as u8,
        ] + msgpack::encode_entries(first),
        msgpack::encode_entries(seq![(key, value)]) == msgpack::encode(Value::Str(key))
            + msgpack::encode(value),
        msgpack::encode_entries(first + second) == msgpack::encode_entries(first)
            + msgpack::encode_entries(second),
    decreases second.len(),
{
    let none = Seq::<(Seq<char>, Value)>::empty();
    assert(msgpack::encode_entries(none) =~= Seq::empty());
    msgpack::lemma_entry_appended(none, key, value);
    assert(none.push((key, value)) =~= seq![(key, value)]);
    assert(msgpack::encode_entries(seq![(key, value)]) =~= msgpack::encode(Value::Str(key))
        + msgpack::encode(value));
    if second.len() == 0 {
        assert(first + second =~= first);
        assert(second =~= none);
        assert(msgpack::encode_entries(first) + Seq::<u8>::empty() =~= msgpack::encode_entries(
            first,
        ));
    } else {
        let before = second.drop_last();
        let last = second.last();
        law_entries_are_in_order(first, before, key, value);
        assert(first + second =~= (first + before).push((last.0, last.1)));
        assert(second =~= before.push((last.0, last.1)));
        msgpack::lemma_entry_appended(first + before, last.0, last.1);
        msgpack::lemma_entry_appended(before, last.0, last.1);
        assert(msgpack::encode_entries(first + second) =~= msgpack::encode_entries(first)
            + msgpack::encode_entries(second));
    }
}

/// A list of few items is a byte that says how many there are, and then the items in order. Items
/// of two lists are those of the first and then those of the second.
pub proof fn law_items_are_in_order(first: Seq<Value>, second: Seq<Value>, value: Value)
    ensures
        first.len() < 16 ==> msgpack::encode(Value::Array(first)) == seq![
            (0x90 + first.len()) as u8,
        ] + msgpack::encode_items(first),
        msgpack::encode_items(seq![value]) == msgpack::encode(value),
        msgpack::encode_items(first + second) == msgpack::encode_items(first)
            + msgpack::encode_items(second),
    decreases second.len(),
{
    let none = Seq::<Value>::empty();
    assert(msgpack::encode_items(none) =~= Seq::empty());
    msgpack::lemma_item_appended(none, value);
    assert(none.push(value) =~= seq![value]);
    assert(msgpack::encode_items(seq![value]) =~= msgpack::encode(value));
    if second.len() == 0 {
        assert(first + second =~= first);
        assert(second =~= none);
        assert(msgpack::encode_items(first) + Seq::<u8>::empty() =~= msgpack::encode_items(first));
    } else {
        let before = second.drop_last();
        law_items_are_in_order(first, before, value);
        assert(first + second =~= (first + before).push(second.last()));
        assert(second =~= before.push(second.last()));
        msgpack::lemma_item_appended(first + before, second.last());
        msgpack::lemma_item_appended(before, second.last());
        assert(msgpack::encode_items(first + second) =~= msgpack::encode_items(first)
            + msgpack::encode_items(second));
    }
}

/// The bytes of single values: a truth value is one of two bytes; a small number is its own byte,
/// and a larger one follows a byte that says how many bytes it takes; a short text follows a byte
/// that says its length.
pub proof fn law_single_values(b: bool, n: int, t: Seq<char>)
    ensures
        msgpack::encode(Value::Bool(b)) == seq![if b { 0xc3u8 } else { 0xc2u8 }],
        0 <= n < 128 ==> msgpack::encode(Value::Int(n)) == seq![n as u8],
        -32 <= n < 0 ==> msgpack::encode(Value::Int(n)) == seq![(256 + n) as u8],
        -128 <= n < -32 ==> msgpack::encode(Value::Int(n)) == seq![0xd0u8, (256 + n) as u8],
        128 <= n < 256 ==> msgpack::encode(Value::Int(n)) == seq![0xccu8, n as u8],
        256 <= n < 0x1_0000 ==> msgpack::encode(Value::Int(n)) == seq![0xcdu8] + crate::bytes::be16(
            n,
        ),
        0x1_0000 <= n < 0x1_0000_0000 ==> msgpack::encode(Value::Int(n)) == seq![0xceu8]
            + crate::bytes::be32(n),
        text::byte_len(t) < 32 ==> msgpack::encode(Value::Str(t)) == seq![
            (0xa0 + text::byte_len(t)) as u8,
        ] + vstd::utf8::encode_utf8(t),
{
}

} // verus!
