//! The outside crates: their types, and the calls that the cache makes into them.
//!
//! What is stated here is believed, not proved.
use serde_cbor::Error as CborError;
use serde_hashkey::Error as HashKeyError;
use serde_json::Error as JsonError;
use sled::Error as SledError;
use vstd::prelude::*;
use vstd::utf8::encode_utf8;

use crate::time::{moment_after, Duration, Timestamp};

verus! {

/// A failure of `serde_cbor`.
#[verifier::external_type_specification]
#[verifier::external_body]
pub struct ExCborError(CborError);

/// A failure of `serde_hashkey`.
#[verifier::external_type_specification]
#[verifier::external_body]
pub struct ExHashKeyError(HashKeyError);

/// A failure of `serde_json`.
#[verifier::external_type_specification]
#[verifier::external_body]
pub struct ExJsonError(JsonError);

/// A failure of the `sled` database.
#[verifier::external_type_specification]
#[verifier::external_body]
pub struct ExSledError(SledError);

/// The in-memory form of a serialized key.
#[verifier::external_type_specification]
#[verifier::external_body]
pub struct ExKey(serde_hashkey::Key);

/// A CBOR value.
#[verifier::external_type_specification]
#[verifier::external_body]
pub struct ExCborValue(serde_cbor::Value);

/// A JSON value.
#[verifier::external_type_specification]
#[verifier::external_body]
pub struct ExJsonValue(serde_json::Value);

/// The queue of `crossbeam`.
#[verifier::external_type_specification]
#[verifier::external_body]
#[verifier::reject_recursive_types(T)]
pub struct ExSegQueue<T>(crossbeam::queue::SegQueue<T>);

/// The hash map of `hashbrown`.
#[verifier::external_type_specification]
#[verifier::external_body]
#[verifier::reject_recursive_types(K)]
#[verifier::reject_recursive_types(V)]
#[verifier::reject_recursive_types(S)]
pub struct ExHashMap<K, V, S>(hashbrown::HashMap<K, V, S>);

/// The hasher that a `hashbrown` map uses by default.
#[verifier::external_type_specification]
#[verifier::external_body]
pub struct ExDefaultHashBuilder(hashbrown::hash_map::DefaultHashBuilder);

/// The tickets that a queue holds, the oldest first.
pub uninterp spec fn queued(queue: crossbeam::queue::SegQueue<u64>) -> Seq<u64>;

/// The slots that a map holds, by the bytes of their keys.
pub uninterp spec fn slotted(slots: hashbrown::HashMap<Vec<u8>, usize>) -> Map<Seq<u8>, usize>;

/// `crossbeam::queue::SegQueue::new` makes an empty queue.
#[verifier::external_body]
pub(crate) fn queue_new() -> (queue: crossbeam::queue::SegQueue<u64>)
    ensures
        queued(queue) == (Seq::<u64>::empty()),
{
    crossbeam::queue::SegQueue::new()
}

/// `crossbeam::queue::SegQueue::push`, on a queue that nobody else holds, puts the ticket
/// behind those that are queued.
#[verifier::external_body]
pub(crate) fn queue_push(queue: &mut crossbeam::queue::SegQueue<u64>, ticket: u64)
    ensures
        queued(*final(queue)) == queued(*old(queue)).push(ticket),
{
    queue.push(ticket)
}

/// `crossbeam::queue::SegQueue::pop`, on a queue that nobody else holds, takes the oldest
/// ticket out, and gives nothing exactly when the queue is empty.
#[verifier::external_body]
pub(crate) fn queue_pop(queue: &mut crossbeam::queue::SegQueue<u64>) -> (popped: Option<u64>)
    ensures
        popped is Some <==> queued(*old(queue)).len() > 0,
        popped is Some ==> popped->0 == queued(*old(queue))[0],
        queued(*final(queue)) == (if popped is Some {
            queued(*old(queue)).drop_first()
        } else {
            queued(*old(queue))
        }),
{
    queue.pop()
}

/// `hashbrown::HashMap::new` makes an empty map.
#[verifier::external_body]
pub(crate) fn slots_new() -> (slots: hashbrown::HashMap<Vec<u8>, usize>)
    ensures
        slotted(slots) == (Map::<Seq<u8>, usize>::empty()),
{
    hashbrown::HashMap::new()
}

/// `hashbrown::HashMap::get` finds the slot that the map holds under the key, and nothing
/// exactly when there is none.
#[verifier::external_body]
pub(crate) fn slots_get(slots: &hashbrown::HashMap<Vec<u8>, usize>, key: &[u8]) -> (slot: Option<
    usize,
>)
    ensures
        slot is Some <==> slotted(*slots).contains_key(key@),
        slot is Some ==> slot->0 == slotted(*slots)[key@],
{
    slots.get(key).copied()
}

/// `hashbrown::HashMap::entry` with `Entry::or_insert` gives the slot that the map holds under
/// the key; where there is none it first puts `slot` there.
#[verifier::external_body]
pub(crate) fn slots_entry(
    slots: &mut hashbrown::HashMap<Vec<u8>, usize>,
    key: Vec<u8>,
    slot: usize,
) -> (held: usize)
    ensures
        slotted(*final(slots)) == (if slotted(*old(slots)).contains_key(key@) {
            slotted(*old(slots))
        } else {
            slotted(*old(slots)).insert(key@, slot)
        }),
        held == slotted(*final(slots))[key@],
{
    *slots.entry(key).or_insert(slot)
}

/// `chrono::Utc::now` reads the clock of the machine: some point that is not before the Unix
/// epoch. Which one is left open. A clock that is set before the epoch makes the call panic.
#[verifier::external_body]
pub(crate) fn clock_now() -> (now: Timestamp)
    ensures
        now.shown(),
{
    let now = chrono::Utc::now();
    Timestamp { secs: now.timestamp(), nanos: now.timestamp_subsec_nanos() }
}

/// `chrono::DateTime::checked_add_signed`: the point that lies `age` after `at`, and nothing
/// exactly when that point is outside the calendar.
#[verifier::external_body]
pub(crate) fn clock_add(at: Timestamp, age: Duration) -> (sum: Option<Timestamp>)
    requires
        at.valid(),
        age.valid(),
    ensures
        sum == moment_after(at, age),
{
    let at = chrono::DateTime::<chrono::Utc>::from_timestamp(at.secs, at.nanos)?;
    let sum = at.checked_add_signed(chrono::TimeDelta::new(age.secs, age.nanos)?)?;
    Some(Timestamp { secs: sum.timestamp(), nanos: sum.timestamp_subsec_nanos() })
}

/// A key with all the maps in it sorted, as `serde_hashkey::Key::normalize` leaves it.
pub uninterp spec fn normal_key(key: serde_hashkey::Key) -> serde_hashkey::Key;

/// The CBOR encoding of a key, as `serde_cbor::to_vec` writes it, and nothing where the key
/// holds a number that CBOR has no room for.
pub uninterp spec fn key_cbor(key: serde_hashkey::Key) -> Option<Seq<u8>>;

/// The CBOR encoding of the key of a namespace. No namespace is written as null.
pub open spec fn namespace_cbor(ns: Option<serde_hashkey::Key>) -> Option<Seq<u8>> {
    match ns {
        Some(ns) => key_cbor(ns),
        None => Some(seq![0xf6u8]),
    }
}

/// The CBOR encoding of a namespace and a key together: an array of two items.
pub open spec fn pair_cbor(
    ns: Option<serde_hashkey::Key>,
    key: serde_hashkey::Key,
) -> Option<Seq<u8>> {
    match (namespace_cbor(ns), key_cbor(key)) {
        (Some(ns), Some(key)) => Some(seq![0x82u8] + ns + key),
        _ => None,
    }
}

/// An encoding shows where it ends: it is not empty, and not the beginning of that of another
/// key.
pub open spec fn whole_item(item: Seq<u8>) -> bool {
    &&& item.len() > 0
    &&& forall|other: serde_hashkey::Key| #[trigger]
        key_cbor(other) is Some && item.is_prefix_of(key_cbor(other)->0) ==> item == key_cbor(
            other,
        )->0
}

/// The CBOR encoding of a text: the length in bytes, and the bytes in UTF-8.
pub open spec fn text_cbor(text: Seq<char>) -> Seq<u8> {
    text_head(encode_utf8(text).len()) + encode_utf8(text)
}

/// The head of a text of CBOR: the kind and the number of bytes, in as few bytes as hold it.
pub open spec fn text_head(len: nat) -> Seq<u8> {
    if len <= 0x17 {
        seq![(0x60 + len) as u8]
    } else if len <= 0xff {
        seq![0x78u8] + big_endian(len, 1)
    } else if len <= 0xffff {
        seq![0x79u8] + big_endian(len, 2)
    } else if len <= 0xffff_ffff {
        seq![0x7au8] + big_endian(len, 4)
    } else {
        seq![0x7bu8] + big_endian(len, 8)
    }
}

/// A number in so many bytes, the highest first.
pub open spec fn big_endian(number: nat, width: nat) -> Seq<u8>
    decreases width,
{
    if width == 0 {
        Seq::empty()
    } else {
        big_endian(number / 256, (width - 1) as nat).push((number % 256) as u8)
    }
}

/// The key is that of a text: there is nothing in it to sort, and it is encoded as the text.
pub open spec fn spells(key: serde_hashkey::Key, text: Seq<char>) -> bool {
    &&& normal_key(key) == key
    &&& key_cbor(key) == Some(text_cbor(text))
}

/// The key of a text, as `serde_hashkey::to_key` gives it.
pub uninterp spec fn text_key(text: Seq<char>) -> serde_hashkey::Key;

/// `serde_hashkey::to_key`, on a string, succeeds with a key that holds the string. Such a key
/// has no map for `serde_hashkey::Key::normalize` to sort, and `serde_cbor::to_vec` writes it as
/// a text.
#[verifier::external_body]
pub(crate) fn key_serialize(text: &str) -> (key: Result<serde_hashkey::Key, HashKeyError>)
    ensures
        key is Ok,
        key->Ok_0 == text_key(text@),
        spells(key->Ok_0, text@),
{
    serde_hashkey::to_key(&text)
}

/// The items of a key that is a list, in their order; nothing for any other key.
pub uninterp spec fn key_items(key: serde_hashkey::Key) -> Option<Seq<serde_hashkey::Key>>;

/// The entries of a key that is a map, in the order in which it lists them; nothing for any
/// other key.
pub uninterp spec fn key_entries(key: serde_hashkey::Key) -> Option<
    Seq<(serde_hashkey::Key, serde_hashkey::Key)>,
>;

/// `serde_hashkey::Key::from`, on a vector of keys, makes a list of them.
#[verifier::external_body]
pub(crate) fn key_from_items(items: Vec<serde_hashkey::Key>) -> (key: serde_hashkey::Key)
    ensures
        key_items(key) == Some(items@),
{
    serde_hashkey::Key::from(items)
}

/// `serde_hashkey::Key::from`, on a vector of pairs of keys, makes a map of them.
#[verifier::external_body]
pub(crate) fn key_from_entries(
    entries: Vec<(serde_hashkey::Key, serde_hashkey::Key)>,
) -> (key: serde_hashkey::Key)
    ensures
        key_entries(key) == Some(entries@),
{
    serde_hashkey::Key::from(entries)
}

/// The two keys differ at most in the order in which maps list their entries, down to so many
/// levels. No map has two entries under the same key.
pub open spec fn alike(a: serde_hashkey::Key, b: serde_hashkey::Key, depth: nat) -> bool
    decreases depth,
{
    ||| a == b
    ||| depth > 0 && match (key_items(a), key_items(b)) {
        (Some(x), Some(y)) => {
            &&& x.len() == y.len()
            &&& forall|i: int|
                0 <= i < x.len() ==> alike(#[trigger] x[i], y[i], (depth - 1) as nat)
        },
        _ => false,
    }
    ||| depth > 0 && match (key_entries(a), key_entries(b)) {
        (Some(x), Some(y)) => {
            &&& x.len() == y.len()
            &&& unambiguous(x)
            &&& exists|order: Seq<int>| #[trigger]
                arranges(order, x.len()) && forall|i: int|
                    0 <= i < x.len() ==> {
                        &&& alike((#[trigger] x[i]).0, y[order[i]].0, (depth - 1) as nat)
                        &&& alike(x[i].1, y[order[i]].1, (depth - 1) as nat)
                    }
        },
        _ => false,
    }
}

/// No two entries have the same key, once the maps in their keys are sorted.
pub open spec fn unambiguous(entries: Seq<(serde_hashkey::Key, serde_hashkey::Key)>) -> bool {
    forall|i: int, j: int|
        0 <= i < j < entries.len() ==> normal_key((#[trigger] entries[i]).0) != normal_key(
            (#[trigger] entries[j]).0,
        )
}

/// The sequence lists each of so many places once.
pub open spec fn arranges(order: Seq<int>, places: nat) -> bool {
    &&& order.len() == places
    &&& order.no_duplicates()
    &&& forall|i: int| 0 <= i < places ==> 0 <= #[trigger] order[i] < places
}

/// The normal form of the key does not show in which order its maps list their entries.
pub open spec fn steady(key: serde_hashkey::Key) -> bool {
    forall|other: serde_hashkey::Key, depth: nat| #[trigger]
        alike(key, other, depth) ==> normal_key(other) == normal_key(key)
}

/// The items of a list, each with the maps in it sorted.
pub open spec fn normal_items(items: Seq<serde_hashkey::Key>) -> Seq<serde_hashkey::Key> {
    items.map_values(|item: serde_hashkey::Key| normal_key(item))
}

/// The entries of a map, each with the maps in it sorted.
pub open spec fn normal_entries(
    entries: Seq<(serde_hashkey::Key, serde_hashkey::Key)>,
) -> Seq<(serde_hashkey::Key, serde_hashkey::Key)> {
    entries.map_values(
        |entry: (serde_hashkey::Key, serde_hashkey::Key)|
            (normal_key(entry.0), normal_key(entry.1)),
    )
}

/// `serde_hashkey::Key::normalize` is a function of the key. It normalizes the items of a list in
/// their places. It normalizes the entries of a map, and sorts them by their keys: keys that
/// differ only in the order in which maps list their entries come out the same. Entries of one
/// map that have the same key stay in the order in which they were listed, so nothing of the
/// kind is said of them.
#[verifier::external_body]
pub(crate) fn key_normalize(key: serde_hashkey::Key) -> (normal: serde_hashkey::Key)
    ensures
        normal == normal_key(key),
        key_items(key) is Some ==> key_items(normal) == Some(normal_items(key_items(key)->0)),
        key_entries(key) is Some ==> key_entries(normal) is Some,
        key_entries(key) is Some ==> key_entries(normal)->0.to_multiset() == normal_entries(
            key_entries(key)->0,
        ).to_multiset(),
        forall|other: serde_hashkey::Key, depth: nat| #[trigger]
            alike(key, other, depth) ==> normal_key(other) == normal,
{
    key.normalize()
}

/// `serde_cbor::to_vec`, on a pair of an optional key and a key, writes the head of an array of
/// two and then one item after the other, where a missing key is null. It fails exactly when
/// one of the keys cannot be written. Every item of CBOR shows where it ends, so none that is
/// written here is the beginning of what is written for another key.
#[verifier::external_body]
pub(crate) fn cbor_encode_pair(
    ns: Option<&serde_hashkey::Key>,
    key: &serde_hashkey::Key,
) -> (encoded: Result<Vec<u8>, CborError>)
    ensures
        encoded is Ok <==> pair_cbor(referred(ns), *key) is Some,
        encoded is Ok ==> encoded->Ok_0@ == pair_cbor(referred(ns), *key)->0,
        encoded is Ok ==> whole_item(namespace_cbor(referred(ns))->0),
        encoded is Ok ==> whole_item(key_cbor(*key)->0),
{
    serde_cbor::to_vec(&(ns, key))
}

/// What an optional reference refers to.
pub open spec fn referred(ns: Option<&serde_hashkey::Key>) -> Option<serde_hashkey::Key> {
    match ns {
        Some(ns) => Some(*ns),
        None => None,
    }
}

/// The JSON value that CBOR data holds, as `serde_cbor::from_slice` reads it, and nothing where
/// the data is malformed or holds what JSON cannot.
pub uninterp spec fn cbor_json(data: Seq<u8>) -> Option<serde_json::Value>;

/// `serde_cbor::from_slice`, into a JSON value, is a function of the data.
#[verifier::external_body]
pub(crate) fn cbor_decode_json(data: &[u8]) -> (decoded: Result<serde_json::Value, CborError>)
    ensures
        decoded is Ok <==> cbor_json(data@) is Some,
        decoded is Ok ==> decoded->Ok_0 == cbor_json(data@)->0,
{
    serde_cbor::from_slice(data)
}

/// The value that CBOR data holds, as `serde_cbor::from_slice` reads it, and nothing where the
/// data is malformed.
pub uninterp spec fn cbor_value(data: Seq<u8>) -> Option<serde_cbor::Value>;

/// `serde_cbor::from_slice`, into any value, is a function of the data.
#[verifier::external_body]
pub(crate) fn cbor_decode_value(data: &[u8]) -> (decoded: Result<serde_cbor::Value, CborError>)
    ensures
        decoded is Ok <==> cbor_value(data@) is Some,
        decoded is Ok ==> decoded->Ok_0 == cbor_value(data@)->0,
{
    serde_cbor::from_slice(data)
}

/// The JSON text of a CBOR value, as `serde_json::to_string` writes it, and nothing where the
/// value has no form in JSON.
pub uninterp spec fn json_text(value: serde_cbor::Value) -> Option<Seq<char>>;

/// `serde_json::to_string` is a function of the value, for values that some data holds. It
/// panics on the hidden variant of a CBOR value, which no data decodes to.
#[verifier::external_body]
pub(crate) fn json_encode(value: &serde_cbor::Value) -> (text: Result<String, JsonError>)
    requires
        exists|data: Seq<u8>| #[trigger] cbor_value(data) == Some(*value),
    ensures
        text is Ok <==> json_text(*value) is Some,
        text is Ok ==> text->Ok_0@ == json_text(*value)->0,
{
    serde_json::to_string(value)
}

/// The lower-case hexadecimal digit of a number below sixteen.
pub open spec fn hex_digit(digit: int) -> char {
    if digit < 10 {
        ('0' as int + digit) as char
    } else {
        ('a' as int + digit - 10) as char
    }
}

/// Bytes in hexadecimal: two digits for each byte, the high one first.
pub open spec fn hex_text(data: Seq<u8>) -> Seq<char> {
    Seq::new(
        2 * data.len(),
        |i: int| hex_digit(if i % 2 == 0 { data[i / 2] / 16 } else { data[i / 2] % 16 } as int),
    )
}

/// `hex::ToHex::encode_hex` writes bytes in lower-case hexadecimal.
#[verifier::external_body]
pub(crate) fn hex_encode(data: &[u8]) -> (text: String)
    ensures
        text@ == hex_text(data@),
{
    hex::ToHex::encode_hex(&data)
}

}
