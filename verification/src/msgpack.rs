//! MessagePack, as far as the messages of the coprocessor use it: the meaning of an encoded
//! value, and the writers that build one. The bytes themselves come from `rmp_serde`.

use vstd::prelude::*;

verus! {

/// A value that MessagePack can carry.
pub enum Value {
    Bool(bool),
    Int(int),
    Str(Seq<char>),
    Array(Seq<Value>),
    Table(Seq<(Seq<char>, Value)>),
}

/// The shortest form of an integer between -2^63 and 2^64 - 1.
pub open spec fn int_bytes(n: int) -> Seq<u8> {
    if n < -0x8000_0000 {
        seq![0xd3u8] + crate::bytes::be64(n)
    } else if n < -0x8000 {
        seq![0xd2u8] + crate::bytes::be32(n)
    } else if n < -0x80 {
        seq![0xd1u8] + crate::bytes::be16(n)
    } else if n < -0x20 {
        seq![0xd0u8, crate::bytes::byte(n)]
    } else if n < 0x80 {
        seq![crate::bytes::byte(n)]
    } else if n < 0x100 {
        seq![0xccu8, crate::bytes::byte(n)]
    } else if n < 0x1_0000 {
        seq![0xcdu8] + crate::bytes::be16(n)
    } else if n < 0x1_0000_0000 {
        seq![0xceu8] + crate::bytes::be32(n)
    } else {
        seq![0xcfu8] + crate::bytes::be64(n)
    }
}

/// What stands in front of `len` bytes of text; the length field has 32 bits.
pub open spec fn str_header(len: nat) -> Seq<u8> {
    let n = len % 0x1_0000_0000;
    if n < 0x20 {
        seq![(0xa0 + n) as u8]
    } else if n < 0x100 {
        seq![0xd9u8, n as u8]
    } else if n < 0x1_0000 {
        seq![0xdau8] + crate::bytes::be16(n as int)
    } else {
        seq![0xdbu8] + crate::bytes::be32(n as int)
    }
}

/// What stands in front of `len` items; the length field has 32 bits.
pub open spec fn array_header(len: nat) -> Seq<u8> {
    let n = len % 0x1_0000_0000;
    if n < 0x10 {
        seq![(0x90 + n) as u8]
    } else if n < 0x1_0000 {
        seq![0xdcu8] + crate::bytes::be16(n as int)
    } else {
        seq![0xddu8] + crate::bytes::be32(n as int)
    }
}

/// What stands in front of `len` entries; the length field has 32 bits.
pub open spec fn map_header(len: nat) -> Seq<u8> {
    let n = len % 0x1_0000_0000;
    if n < 0x10 {
        seq![(0x80 + n) as u8]
    } else if n < 0x1_0000 {
        seq![0xdeu8] + crate::bytes::be16(n as int)
    } else {
        seq![0xdfu8] + crate::bytes::be32(n as int)
    }
}

/// The bytes of a text.
pub open spec fn str_bytes(text: Seq<char>) -> Seq<u8> {
    let utf8 = vstd::utf8::encode_utf8(text);
    str_header(utf8.len()) + utf8
}

/// The bytes of a truth value.
pub open spec fn bool_bytes(b: bool) -> Seq<u8> {
    if b {
        seq![0xc3u8]
    } else {
        seq![0xc2u8]
    }
}

/// The bytes of a value.
pub open spec fn encode(value: Value) -> Seq<u8>
    decreases value,
{
    match value {
        Value::Bool(b) => bool_bytes(b),
        Value::Int(n) => int_bytes(n),
        Value::Str(text) => str_bytes(text),
        Value::Array(items) => array_header(items.len()) + encode_items(items),
        Value::Table(entries) => map_header(entries.len()) + encode_entries(entries),
    }
}

/// The bytes of the items of an array.
pub open spec fn encode_items(items: Seq<Value>) -> Seq<u8>
    decreases items,
{
    if items.len() == 0 {
        Seq::empty()
    } else {
        encode(items[0]) + encode_items(items.subrange(1, items.len() as int))
    }
}

/// The bytes of the entries of a map.
pub open spec fn encode_entries(entries: Seq<(Seq<char>, Value)>) -> Seq<u8>
    decreases entries,
{
    if entries.len() == 0 {
        Seq::empty()
    } else {
        str_bytes(entries[0].0) + encode(entries[0].1) + encode_entries(
            entries.subrange(1, entries.len() as int),
        )
    }
}

/// An entry at the end of a map adds its key and its value at the end.
pub proof fn lemma_entry_appended(entries: Seq<(Seq<char>, Value)>, key: Seq<char>, value: Value)
    ensures
        encode_entries(entries.push((key, value))) == encode_entries(entries) + str_bytes(key)
            + encode(value),
    decreases entries.len(),
{
    let longer = entries.push((key, value));
    let tail = longer.subrange(1, longer.len() as int);
    if entries.len() == 0 {
        assert(tail =~= Seq::empty());
        assert(encode_entries(tail) =~= Seq::empty());
        assert(encode_entries(longer) =~= str_bytes(key) + encode(value));
        assert(encode_entries(entries) + str_bytes(key) + encode(value) =~= str_bytes(key)
            + encode(value));
    } else {
        let rest = entries.subrange(1, entries.len() as int);
        assert(tail =~= rest.push((key, value)));
        lemma_entry_appended(rest, key, value);
        let head = str_bytes(entries[0].0) + encode(entries[0].1);
        assert(head + (encode_entries(rest) + str_bytes(key) + encode(value)) =~= (head
            + encode_entries(rest)) + str_bytes(key) + encode(value));
    }
}

/// An item at the end of an array adds its bytes at the end.
pub proof fn lemma_item_appended(items: Seq<Value>, value: Value)
    ensures
        encode_items(items.push(value)) == encode_items(items) + encode(value),
    decreases items.len(),
{
    let longer = items.push(value);
    let tail = longer.subrange(1, longer.len() as int);
    if items.len() == 0 {
        assert(tail =~= Seq::empty());
        assert(encode_items(tail) =~= Seq::empty());
        assert(encode_items(longer) =~= encode(value));
        assert(encode_items(items) + encode(value) =~= encode(value));
    } else {
        let rest = items.subrange(1, items.len() as int);
        assert(tail =~= rest.push(value));
        lemma_item_appended(rest, value);
        assert(encode(items[0]) + (encode_items(rest) + encode(value)) =~= (encode(items[0])
            + encode_items(rest)) + encode(value));
    }
}

/// The error of `rmp_serde`'s serializer.
#[verifier::external_type_specification]
#[verifier::external_body]
pub struct ExEncodeError(rmp_serde::encode::Error);

/// `rmp_serde::encode::write` of a `bool`: appends its one byte. A vector takes every byte
/// written to it, so the call succeeds.
#[verifier::external_body]
fn put_bool(out: &mut Vec<u8>, value: bool) -> (r: Result<(), rmp_serde::encode::Error>)
    ensures
        r is Ok,
        final(out)@ == old(out)@ + bool_bytes(value),
{
    rmp_serde::encode::write(out, &value)
}

/// `rmp_serde::encode::write` of an `i64`: appends the shortest form of the number. A vector
/// takes every byte written to it, so the call succeeds.
#[verifier::external_body]
fn put_int(out: &mut Vec<u8>, value: i64) -> (r: Result<(), rmp_serde::encode::Error>)
    ensures
        r is Ok,
        final(out)@ == old(out)@ + int_bytes(value as int),
{
    rmp_serde::encode::write(out, &value)
}

/// `rmp_serde::encode::write` of a `str`: appends the header for its length, cut to 32 bits,
/// and its UTF-8 bytes. A vector takes every byte written to it, so the call succeeds.
#[verifier::external_body]
fn put_str(out: &mut Vec<u8>, value: &str) -> (r: Result<(), rmp_serde::encode::Error>)
    ensures
        r is Ok,
        final(out)@ == old(out)@ + str_bytes(value@),
{
    rmp_serde::encode::write(out, value)
}

/// `serialize_seq` of `rmp_serde::Serializer`, given the length: appends the header of an
/// array, its length cut to 32 bits. A vector takes every byte written to it, so the call
/// succeeds.
#[verifier::external_body]
pub(crate) fn put_array_header(out: &mut Vec<u8>, len: usize) -> (r: Result<(), rmp_serde::encode::Error>)
    ensures
        r is Ok,
        final(out)@ == old(out)@ + array_header(len as nat),
{
    serde::Serializer::serialize_seq(&mut rmp_serde::Serializer::new(out), Some(len)).map(|_| ())
}

/// `serialize_map` of `rmp_serde::Serializer`, given the length: appends the header of a map,
/// its length cut to 32 bits. A vector takes every byte written to it, so the call succeeds.
#[verifier::external_body]
fn put_map_header(out: &mut Vec<u8>, len: usize) -> (r: Result<(), rmp_serde::encode::Error>)
    ensures
        r is Ok,
        final(out)@ == old(out)@ + map_header(len as nat),
{
    serde::Serializer::serialize_map(&mut rmp_serde::Serializer::new(out), Some(len)).map(|_| ())
}

/// Builds a map entry by entry.
pub struct TableWriter {
    count: usize,
    body: Vec<u8>,
    entries: Ghost<Seq<(Seq<char>, Value)>>,
}

impl TableWriter {
    /// The entries so far.
    pub closed spec fn entries(&self) -> Seq<(Seq<char>, Value)> {
        self.entries@
    }

    /// The bytes so far are those of the entries so far.
    pub closed spec fn wf(&self) -> bool {
        &&& self.count == self.entries@.len()
        &&& self.body@ == encode_entries(self.entries@)
    }

    pub fn new() -> (w: TableWriter)
        ensures
            w.wf(),
            w.entries() == Seq::<(Seq<char>, Value)>::empty(),
    {
        TableWriter { count: 0, body: Vec::new(), entries: Ghost(Seq::empty()) }
    }

    /// Adds a truth value under `key`.
    pub fn bool_entry(&mut self, key: &str, value: bool)
        requires
            old(self).wf(),
            old(self).entries().len() < 0xFFFF,
        ensures
            final(self).wf(),
            final(self).entries() == old(self).entries().push((key@, Value::Bool(value))),
    {
        put_str(&mut self.body, key).unwrap();
        put_bool(&mut self.body, value).unwrap();
        self.count = self.count + 1;
        proof {
            lemma_entry_appended(self.entries@, key@, Value::Bool(value));
            self.entries@ = self.entries@.push((key@, Value::Bool(value)));
        }
    }

    /// Adds a number under `key`.
    pub fn int_entry(&mut self, key: &str, value: i64)
        requires
            old(self).wf(),
            old(self).entries().len() < 0xFFFF,
        ensures
            final(self).wf(),
            final(self).entries() == old(self).entries().push((key@, Value::Int(value as int))),
    {
        put_str(&mut self.body, key).unwrap();
        put_int(&mut self.body, value).unwrap();
        self.count = self.count + 1;
        proof {
            lemma_entry_appended(self.entries@, key@, Value::Int(value as int));
            self.entries@ = self.entries@.push((key@, Value::Int(value as int)));
        }
    }

    /// Adds a text under `key`.
    pub fn str_entry(&mut self, key: &str, value: &str)
        requires
            old(self).wf(),
            old(self).entries().len() < 0xFFFF,
        ensures
            final(self).wf(),
            final(self).entries() == old(self).entries().push((key@, Value::Str(value@))),
    {
        put_str(&mut self.body, key).unwrap();
        put_str(&mut self.body, value).unwrap();
        self.count = self.count + 1;
        proof {
            lemma_entry_appended(self.entries@, key@, Value::Str(value@));
            self.entries@ = self.entries@.push((key@, Value::Str(value@)));
        }
    }

    /// Adds a list of texts under `key`.
    pub fn strs_entry(&mut self, key: &str, values: &[String])
        requires
            old(self).wf(),
            old(self).entries().len() < 0xFFFF,
        ensures
            final(self).wf(),
            final(self).entries() == old(self).entries().push((key@, texts_value(values@))),
    {
        put_str(&mut self.body, key).unwrap();
        put_texts(&mut self.body, values);
        self.count = self.count + 1;
        proof {
            lemma_entry_appended(self.entries@, key@, texts_value(values@));
            self.entries@ = self.entries@.push((key@, texts_value(values@)));
        }
    }

    /// The bytes of the finished map.
    pub fn finish(self) -> (bytes: Vec<u8>)
        requires
            self.wf(),
        ensures
            bytes@ == encode(Value::Table(self.entries())),
    {
        let mut out: Vec<u8> = Vec::new();
        put_map_header(&mut out, self.count).unwrap();
        crate::bytes::push_all(&mut out, self.body.as_slice());
        assert(out@ =~= map_header(self.count as nat) + self.body@);
        out
    }
}

/// A list of texts as a value.
pub open spec fn texts_value(values: Seq<String>) -> Value {
    Value::Array(Seq::new(values.len(), |i: int| Value::Str(values[i]@)))
}

/// Appends a list of texts.
fn put_texts(out: &mut Vec<u8>, values: &[String])
    ensures
        final(out)@ == old(out)@ + encode(texts_value(values@)),
{
    put_array_header(out, values.len()).unwrap();
    let ghost start = out@;
    let ghost items = Seq::new(values@.len(), |i: int| Value::Str(values@[i]@));
    let mut i: usize = 0;
    assert(items.take(0) =~= Seq::empty());
    assert(start + encode_items(items.take(0)) =~= start);
    while i < values.len()
        invariant
            0 <= i <= values@.len(),
            items == Seq::new(values@.len(), |k: int| Value::Str(values@[k]@)),
            out@ == start + encode_items(items.take(i as int)),
        decreases values@.len() - i,
    {
        put_str(out, values[i].as_str()).unwrap();
        proof {
            lemma_item_appended(items.take(i as int), items[i as int]);
            assert(items.take(i + 1) =~= items.take(i as int).push(items[i as int]));
            assert((start + encode_items(items.take(i as int))) + encode(items[i as int]) =~= start
                + (encode_items(items.take(i as int)) + encode(items[i as int])));
        }
        i += 1;
    }
    assert(items.take(i as int) =~= items);
    assert((old(out)@ + array_header(values@.len())) + encode_items(items) =~= old(out)@ + (
    array_header(values@.len()) + encode_items(items)));
}

} // verus!
