//! Records that travel as MessagePack maps.

use vstd::prelude::*;

use crate::bytes;
use crate::msgpack;

verus! {

/// A record that a message carries.
pub trait Payload {
    /// The record as a value: a map with one entry for each field, in the order of the fields.
    spec fn value(&self) -> msgpack::Value;

    /// The record in MessagePack.
    fn to_bytes(&self) -> (bytes: Vec<u8>)
        ensures
            bytes@ == msgpack::encode(self.value()),
    ;
}

/// The values of a list of records.
pub open spec fn values<T: Payload>(items: Seq<T>) -> Seq<msgpack::Value> {
    Seq::new(items.len(), |i: int| items[i].value())
}

/// A list of records in MessagePack.
pub fn list_to_bytes<T: Payload>(items: &[T]) -> (bytes: Vec<u8>)
    ensures
        bytes@ == msgpack::encode(msgpack::Value::Array(values(items@))),
{
    let mut out: Vec<u8> = Vec::new();
    msgpack::put_array_header(&mut out, items.len()).unwrap();
    let ghost start = out@;
    let ghost all = values(items@);
    let mut i: usize = 0;
    assert(all.take(0) =~= Seq::empty());
    assert(start + msgpack::encode_items(all.take(0)) =~= start);
    while i < items.len()
        invariant
            0 <= i <= items@.len(),
            all == values(items@),
            out@ == start + msgpack::encode_items(all.take(i as int)),
        decreases items@.len() - i,
    {
        let item = items[i].to_bytes();
        bytes::push_all(&mut out, item.as_slice());
        proof {
            msgpack::lemma_item_appended(all.take(i as int), all[i as int]);
            assert(all.take(i + 1) =~= all.take(i as int).push(all[i as int]));
            assert((start + msgpack::encode_items(all.take(i as int))) + msgpack::encode(
                all[i as int],
            ) =~= start + (msgpack::encode_items(all.take(i as int)) + msgpack::encode(
                all[i as int],
            )));
        }
        i += 1;
    }
    assert(all.take(i as int) =~= all);
    assert(start =~= msgpack::array_header(items@.len()));
    out
}

} // verus!
