use chrono::{DateTime, Utc};
use futures_cache::time::{MAX_SECS, MIN_SECS};
use futures_cache::{
    Cache, Duration, Error, Fetched, JsonEntry, PartialStoredEntry, Serialized, State, StoredEntry,
    SweepAction, SweepEvent, Timestamp,
};
use serde_hashkey::Key;
use std::collections::BTreeMap;

fn at(secs: i64, nanos: u32) -> Timestamp {
    Timestamp { secs, nanos }
}

fn cache() -> Cache {
    match Cache::load().cleanup(SweepEvent::End) {
        SweepAction::Finish(Ok(cache)) => cache,
        _ => unreachable!(),
    }
}

fn key_of<T: serde::Serialize + ?Sized>(value: &T) -> Serialized {
    serde_hashkey::to_key(&value)
}

fn broken() -> sled::Error {
    sled::Error::Unsupported(String::from("broken"))
}

fn expiry(now: Timestamp, age: Duration) -> Option<Timestamp> {
    let expires_at = Cache::expiry_at(now, age)?;
    assert_eq!(expires_at, Cache::inner_insert_at(now, vec![1], age, &"x").entry.expires_at);
    Some(expires_at)
}

#[test]
fn expiry_is_now_and_age() {
    let hour = Duration { secs: 3600, nanos: 250_000_000 };
    assert_eq!(Some(at(1_600_003_601, 150_000_000)), expiry(at(1_600_000_000, 900_000_000), hour));
    let back = Duration { secs: -1, nanos: 1 };
    assert_eq!(Some(at(-1, 1)), expiry(at(0, 0), back));
    let now = DateTime::<Utc>::from_timestamp(1_600_000_000, 900_000_000).unwrap();
    let sum = now + chrono::Duration::milliseconds(3_600_250);
    assert_eq!((1_600_003_601, 150_000_000), (sum.timestamp(), sum.timestamp_subsec_nanos()));
}

#[test]
fn the_calendar_ends() {
    assert_eq!(MIN_SECS, DateTime::<Utc>::MIN_UTC.timestamp());
    assert_eq!(MAX_SECS, DateTime::<Utc>::MAX_UTC.timestamp());
    let nano = Duration { secs: 0, nanos: 1 };
    let minus_nano = Duration { secs: -1, nanos: 999_999_999 };
    assert_eq!(Some(at(MAX_SECS, 999_999_999)), expiry(at(MAX_SECS, 999_999_998), nano));
    assert_eq!(None, expiry(at(MAX_SECS, 999_999_999), nano));
    assert_eq!(Some(at(MIN_SECS, 0)), expiry(at(MIN_SECS, 1), minus_nano));
    assert_eq!(None, expiry(at(MIN_SECS, 0), minus_nano));
    let longest = Duration { secs: i64::MAX / 1000, nanos: 807_000_000 };
    assert_eq!(None, expiry(at(0, 0), longest));
    let shortest = Duration { secs: -(i64::MAX / 1000) - 1, nanos: 193_000_000 };
    assert_eq!(None, expiry(at(0, 0), shortest));
}

#[test]
fn points_in_time_are_ordered() {
    assert!(at(1, 5).is_before(&at(2, 0)));
    assert!(at(1, 5).is_before(&at(1, 6)));
    assert!(!at(1, 5).is_before(&at(1, 5)));
    assert!(!at(2, 0).is_before(&at(1, 5)));
    // A leap second comes before the second that follows it.
    assert!(at(59, 1_500_000_000).is_before(&at(60, 0)));
}

#[test]
fn an_insert_is_dated_by_the_clock() {
    let before = Utc::now().timestamp();
    let age = Duration { secs: 60, nanos: 0 };
    let write = cache().insert(key_of("a"), age, &7u8).expect("key").expect("expiry");
    let after = Utc::now().timestamp();
    assert!(before + 60 <= write.entry.expires_at.secs);
    assert!(write.entry.expires_at.secs <= after + 60);
    assert_eq!(7, *write.entry.value);
    assert_eq!(cache().key(key_of("a")).expect("key"), write.key);
    let longest = Duration { secs: i64::MAX / 1000, nanos: 0 };
    assert!(cache().insert(key_of("a"), longest, &7u8).expect("key").is_none());
    // The clock shows no time before the epoch, so there is always room to go back this far.
    let back = Duration { secs: MIN_SECS, nanos: 0 };
    assert!(cache().insert(key_of("a"), back, &7u8).expect("key").is_some());
}

#[test]
fn keys_are_pairs_of_namespace_and_key() {
    assert_eq!(vec![0x82, 0xf6, 0x61, b'a'], cache().key(key_of("a")).expect("key"));
    let named = cache().namespaced(key_of("ns")).expect("namespace");
    assert_eq!(vec![0x82, 0x62, b'n', b's', 0x61, b'a'], named.key(key_of("a")).expect("key"));
    let ns = key_of("ns").expect("namespace");
    let direct = serde_cbor::to_vec(&(Some(&ns), &Key::from(String::from("a")))).expect("cbor");
    assert_eq!(direct, named.key(key_of("a")).expect("key"));
    assert_eq!(direct, Cache::key_with_ns(Some(&ns), key_of("a")).expect("key"));
}

#[test]
fn namespaces_keep_entries_apart() {
    let a = cache().namespaced(key_of("a")).expect("namespace");
    let b = cache().namespaced(key_of("b")).expect("namespace");
    let keys = [
        cache().key(key_of("k")).expect("key"),
        a.key(key_of("k")).expect("key"),
        b.key(key_of("k")).expect("key"),
        b.key(key_of("l")).expect("key"),
    ];
    for i in 0..keys.len() {
        for j in 0..i {
            assert_ne!(keys[i], keys[j]);
        }
    }
    // The unit is encoded like no namespace at all.
    let unit = cache().namespaced(key_of(&())).expect("namespace");
    assert_eq!(keys[0], unit.key(key_of("k")).expect("key"));
    // Numbers are the same key whatever their width.
    assert_eq!(a.key(key_of(&5u8)).expect("key"), a.key(key_of(&5u64)).expect("key"));
}

#[test]
fn strings_are_keys() {
    for text in ["", "a", "ab", "\u{e5}\u{1f600}"] {
        let key = Cache::serialize_text(text).expect("key");
        assert_eq!(Key::String(String::from(text)), key);
        assert_eq!(key_of(text).expect("key"), key);
    }
}

#[test]
fn strings_are_encoded_with_their_length() {
    let heads: [(usize, &[u8]); 6] = [
        (0x17, &[0x77]),
        (0x18, &[0x78, 0x18]),
        (0xff, &[0x78, 0xff]),
        (0x100, &[0x79, 0x01, 0x00]),
        (0xffff, &[0x79, 0xff, 0xff]),
        (0x10000, &[0x7a, 0x00, 0x01, 0x00, 0x00]),
    ];
    for (len, head) in heads {
        let text = "x".repeat(len);
        let mut bytes = vec![0x82, 0xf6];
        bytes.extend_from_slice(head);
        bytes.extend_from_slice(text.as_bytes());
        assert_eq!(bytes, cache().key(Cache::serialize_text(&text)).expect("key"));
    }
    // The length is that of the bytes in UTF-8.
    let key = cache().key(Cache::serialize_text("\u{e5}")).expect("key");
    assert_eq!(vec![0x82, 0xf6, 0x62, 0xc3, 0xa5], key);
}

#[test]
fn lists_and_maps_are_keys() {
    let text = |text: &str| Cache::serialize_text(text).expect("key");
    let list = Cache::serialize_list(vec![text("a"), text("b")]).expect("key");
    assert_eq!(Key::Vec(vec![text("a"), text("b")]), list);
    assert_eq!(key_of(&vec!["a", "b"]).expect("key"), list);
    let map = Cache::serialize_map(vec![(text("a"), text("b"))]).expect("key");
    assert_eq!(Key::Map(vec![(text("a"), text("b"))]), map);
    assert_eq!(key_of(&BTreeMap::from([("a", "b")])).expect("key"), map);
    let bytes = vec![0x82, 0xf6, 0xa1, 0x61, b'a', 0x61, b'b'];
    assert_eq!(bytes, cache().key(Ok(map)).expect("key"));
}

#[test]
fn strings_never_collide() {
    let names = [None, Some(""), Some("a"), Some("ab")];
    let texts = ["", "a", "b", "c", "bc", "null"];
    let mut keys = Vec::new();
    for name in names {
        let ns = name.map(|name| Cache::serialize_text(name).expect("namespace"));
        for text in texts {
            keys.push(Cache::key_with_ns(ns.as_ref(), Cache::serialize_text(text)).expect("key"));
        }
    }
    for i in 0..keys.len() {
        for j in 0..i {
            assert_ne!(keys[i], keys[j]);
        }
    }
}

#[test]
fn maps_inside_keys_are_sorted() {
    let text = |text: &str| Key::from(String::from(text));
    let inner = |swap: bool| {
        let mut entries = vec![(text("x"), Key::from(1u8)), (text("y"), Key::from(2u8))];
        if swap {
            entries.reverse();
        }
        Key::from(entries)
    };
    let outer = |swap: bool| {
        let list = Key::from(vec![inner(swap), inner(!swap)]);
        let mut entries = vec![(inner(swap), list), (text("k"), inner(swap))];
        if swap {
            entries.reverse();
        }
        Key::from(entries)
    };
    let plain = cache();
    assert_eq!(plain.key(Ok(outer(false))).expect("key"), plain.key(Ok(outer(true))).expect("key"));
    // The items of a list keep their places.
    let list = |a: u8, b: u8| Ok(Key::from(vec![Key::from(a), Key::from(b)]));
    assert_ne!(plain.key(list(1, 2)).expect("key"), plain.key(list(2, 1)).expect("key"));
    // So do entries of a map that have the same key.
    let twice = |a: u8, b: u8| Ok(Key::from(vec![(text("k"), Key::from(a)), (text("k"), Key::from(b))]));
    assert_ne!(plain.key(twice(1, 2)).expect("key"), plain.key(twice(2, 1)).expect("key"));
    // A key that cannot be encoded is refused in any order.
    let huge = || (text("h"), Key::from(u128::MAX));
    let small = || (text("s"), Key::from(1u8));
    assert!(matches!(plain.key(Ok(Key::from(vec![huge(), small()]))), Err(Error::Cbor(_))));
    assert!(matches!(plain.key(Ok(Key::from(vec![small(), huge()]))), Err(Error::Cbor(_))));
}

#[test]
fn maps_in_keys_are_sorted() {
    let entry = |k: &str, v: u8| (Key::from(String::from(k)), Key::from(v));
    let one = Key::from(vec![entry("x", 1), entry("y", 2)]);
    let other = Key::from(vec![entry("y", 2), entry("x", 1)]);
    assert_eq!(cache().key(Ok(one.clone())).expect("key"), cache().key(Ok(other.clone())).expect("key"));
    let direct = |key: &Key| serde_cbor::to_vec(&(None::<Key>, key)).expect("cbor");
    assert_eq!(direct(&one), cache().key(Ok(other.clone())).expect("key"));
    assert_ne!(direct(&other), cache().key(Ok(other.clone())).expect("key"));
    let one = cache().namespaced(Ok(one)).expect("namespace");
    let other = cache().namespaced(Ok(other)).expect("namespace");
    assert_eq!(one.key(key_of("k")).expect("key"), other.key(key_of("k")).expect("key"));
}

#[test]
fn keys_that_cannot_be_serialized_are_refused() {
    let age = Duration { secs: 60, nanos: 0 };
    assert!(matches!(cache().key(key_of(&1.5f64)), Err(Error::HashKey(_))));
    assert!(matches!(cache().get(key_of(&1.5f64)), Err(Error::HashKey(_))));
    assert!(matches!(cache().test(key_of(&1.5f64)), Err(Error::HashKey(_))));
    assert!(matches!(cache().insert(key_of(&1.5f64), age, &1u8), Err(Error::HashKey(_))));
    assert!(matches!(cache().namespaced(key_of(&1.5f64)), Err(Error::HashKey(_))));
    assert!(matches!(cache().delete_with_ns(Some(key_of(&1.5f64)), key_of("a")), Err(Error::HashKey(_))));
    assert!(matches!(cache().delete_with_ns(None, key_of(&1.5f64)), Err(Error::HashKey(_))));
}

#[test]
fn keys_that_cannot_be_encoded_are_refused() {
    let age = Duration { secs: 60, nanos: 0 };
    let huge = || key_of(&u128::MAX);
    assert!(matches!(cache().key(huge()), Err(Error::Cbor(_))));
    assert!(matches!(cache().get(huge()), Err(Error::Cbor(_))));
    assert!(matches!(cache().insert(huge(), age, &1u8), Err(Error::Cbor(_))));
    assert!(matches!(cache().delete_with_ns(Some(huge()), key_of("a")), Err(Error::Cbor(_))));
    let named = cache().namespaced(huge()).expect("namespace");
    assert!(matches!(named.key(key_of("a")), Err(Error::Cbor(_))));
}

#[test]
fn requests_name_the_key_of_the_database() {
    let named = cache().namespaced(key_of("ns")).expect("namespace");
    let key = named.key(key_of("a")).expect("key");
    assert_eq!(key, named.get(key_of("a")).expect("read").key);
    assert_eq!(key, named.test(key_of("a")).expect("read").key);
    // A delete goes by the namespace that it is given.
    assert_eq!(key, cache().delete_with_ns(Some(key_of("ns")), key_of("a")).expect("removal").key);
    let plain = cache().key(key_of("a")).expect("key");
    assert_eq!(plain, named.delete_with_ns(None, key_of("a")).expect("removal").key);
}

#[test]
fn a_namespaced_cache_has_its_own_queue() {
    let mut plain = cache();
    plain.waker(b"k").enroll();
    let mut named = plain.namespaced(key_of("ns")).expect("namespace");
    assert_eq!(0, named.waker(b"k").pending());
    assert_eq!(1, plain.waker(b"k").pending());
}

fn entry(secs: i64) -> StoredEntry<&'static str> {
    StoredEntry { expires_at: at(secs, 0), value: "foo" }
}

#[test]
fn a_load_tells_the_state() {
    let fresh = Cache::inner_get_at(Ok(Fetched::Entry(entry(10))), at(10, 0));
    assert!(matches!(fresh, Ok(State::Fresh(e)) if e.value == "foo" && e.expires_at == at(10, 0)));
    let expired = Cache::inner_get_at(Ok(Fetched::Entry(entry(10))), at(10, 1));
    assert!(matches!(expired, Ok(State::Expired(e)) if e.value == "foo"));
    let absent = Cache::inner_get_at::<u8>(Ok(Fetched::Absent), at(10, 0));
    assert!(matches!(absent, Ok(State::Missing)));
    let malformed = Cache::inner_get_at::<u8>(Ok(Fetched::Malformed), at(10, 0));
    assert!(matches!(malformed, Ok(State::Missing)));
    assert!(matches!(Cache::inner_get_at::<u8>(Err(broken()), at(10, 0)), Err(Error::Sled(_))));
}

#[test]
fn a_load_goes_by_the_clock() {
    assert!(matches!(Cache::inner_get(Ok(Fetched::Entry(entry(10)))), Ok(State::Expired(_))));
    assert!(matches!(Cache::inner_get(Ok(Fetched::Entry(entry(-1)))), Ok(State::Expired(_))));
    assert!(matches!(Cache::inner_get(Ok(Fetched::Entry(entry(MAX_SECS)))), Ok(State::Fresh(_))));
    assert!(matches!(Cache::inner_get::<u8>(Err(broken())), Err(Error::Sled(_))));
}

#[test]
fn a_test_tells_the_state() {
    let part = || PartialStoredEntry { expires_at: at(10, 0) };
    let fresh = Cache::inner_test_at(Ok(Fetched::Entry(part())), at(10, 0));
    assert!(matches!(fresh, Ok(State::Fresh(e)) if e.expires_at == at(10, 0)));
    let expired = Cache::inner_test_at(Ok(Fetched::Entry(part())), at(10, 1));
    assert!(matches!(expired, Ok(State::Expired(_))));
    assert!(matches!(Cache::inner_test_at(Ok(Fetched::Absent), at(10, 0)), Ok(State::Missing)));
    assert!(matches!(Cache::inner_test_at(Ok(Fetched::Malformed), at(10, 0)), Ok(State::Missing)));
    assert!(matches!(Cache::inner_test_at(Err(broken()), at(10, 0)), Err(Error::Sled(_))));
    assert!(matches!(Cache::inner_test(Ok(Fetched::Entry(part()))), Ok(State::Expired(_))));
}

#[test]
fn a_state_gives_its_value() {
    assert_eq!(Some("foo"), State::Fresh(entry(10)).get());
    assert_eq!(Some("foo"), State::Expired(entry(10)).get());
    assert_eq!(None::<u8>, State::Missing.get());
}

#[test]
fn entries_expire_after_their_time() {
    assert!(!entry(10).is_expired(at(10, 0)));
    assert!(entry(10).is_expired(at(10, 1)));
    assert!(entry(10).is_expired(at(20, 0)));
    let part = PartialStoredEntry { expires_at: at(10, 0) };
    assert!(!part.is_expired(at(9, 999_999_999)));
    assert!(part.is_expired(at(11, 0)));
    assert_eq!(at(10, 0), part.into_stored_entry().expires_at);
}

fn json_entry(value: u8) -> Option<StoredEntry<serde_json::Value>> {
    Some(StoredEntry { expires_at: at(10, 0), value: serde_json::Value::from(value) })
}

#[test]
fn a_json_entry_takes_a_key_and_a_value() {
    let key = || Some(serde_json::Value::from("a"));
    let entry = JsonEntry::new(key(), json_entry(1)).expect("entry");
    assert_eq!(serde_json::Value::from("a"), entry.key);
    assert_eq!(serde_json::Value::from(1), entry.stored.value);
    assert!(JsonEntry::new(key(), None).is_none());
    assert!(JsonEntry::new(None, json_entry(1)).is_none());
    assert!(JsonEntry::new(None, None).is_none());
}

/// A database in memory.
type Rows = BTreeMap<Vec<u8>, (Timestamp, u8)>;

fn insert_at(db: &mut Rows, now: Timestamp, key: Vec<u8>, age: Duration, value: u8) {
    let write = Cache::inner_insert_at(now, key, age, &value);
    db.insert(write.key, (write.entry.expires_at, *write.entry.value));
}

fn load_at(db: &Rows, now: Timestamp, key: &[u8]) -> State<u8> {
    let fetched = match db.get(key) {
        Some(&(expires_at, value)) => Fetched::Entry(StoredEntry { expires_at, value }),
        None => Fetched::Absent,
    };
    Cache::inner_get_at(Ok(fetched), now).expect("state")
}

fn test_at(db: &Rows, now: Timestamp, key: &[u8]) -> State<()> {
    let fetched = match db.get(key) {
        Some(&(expires_at, _)) => Fetched::Entry(PartialStoredEntry { expires_at }),
        None => Fetched::Absent,
    };
    Cache::inner_test_at(Ok(fetched), now).expect("state")
}

#[test]
fn a_load_finds_what_was_inserted() {
    let mut db = Rows::new();
    let minute = Duration { secs: 60, nanos: 0 };
    let (a, b) = (cache().key(key_of("a")).expect("key"), cache().key(key_of("b")).expect("key"));
    insert_at(&mut db, at(100, 5), a.clone(), minute, 1);
    insert_at(&mut db, at(100, 5), b.clone(), minute, 2);
    assert!(matches!(load_at(&db, at(100, 5), &a), State::Fresh(e) if e.value == 1));
    assert!(matches!(load_at(&db, at(160, 5), &a), State::Fresh(e) if e.value == 1));
    assert!(matches!(load_at(&db, at(160, 6), &a), State::Expired(e) if e.value == 1));
    assert!(matches!(load_at(&db, at(900, 0), &a), State::Expired(e) if e.value == 1));
    assert!(matches!(test_at(&db, at(900, 0), &a), State::Expired(e) if e.expires_at == at(160, 5)));
    assert!(matches!(test_at(&db, at(160, 5), &a), State::Fresh(_)));
    assert!(matches!(test_at(&db, at(160, 6), &a), State::Expired(_)));
    // The last insert counts, and other keys are not concerned.
    insert_at(&mut db, at(200, 0), a.clone(), minute, 3);
    assert!(matches!(load_at(&db, at(260, 0), &a), State::Fresh(e) if e.value == 3));
    assert!(matches!(load_at(&db, at(160, 5), &b), State::Fresh(e) if e.value == 2));
}

#[test]
fn fresh_entries_persist() {
    let mut db = Rows::new();
    let minute = Duration { secs: 60, nanos: 0 };
    let (a, b) = (cache().key(key_of("a")).expect("key"), cache().key(key_of("b")).expect("key"));
    insert_at(&mut db, at(100, 0), a.clone(), minute, 1);
    insert_at(&mut db, at(99, 0), b.clone(), minute, 2);
    let mut sweep = Cache::load_at(at(160, 0));
    for (key, (expires_at, _)) in db.clone() {
        let event = SweepEvent::Row(key, Some(PartialStoredEntry { expires_at }));
        sweep = match sweep.cleanup(event) {
            SweepAction::Next(sweep) => sweep,
            SweepAction::Remove(sweep, removal) => {
                db.remove(&removal.key);
                match sweep.cleanup(SweepEvent::Removed) {
                    SweepAction::Next(sweep) => sweep,
                    _ => unreachable!(),
                }
            }
            SweepAction::Finish(_) => unreachable!(),
        };
    }
    assert!(matches!(sweep.cleanup(SweepEvent::End), SweepAction::Finish(Ok(_))));
    assert!(matches!(load_at(&db, at(160, 0), &a), State::Fresh(e) if e.value == 1));
    assert!(matches!(load_at(&db, at(160, 1), &a), State::Expired(e) if e.value == 1));
    assert!(matches!(load_at(&db, at(160, 0), &b), State::Missing));
}

#[test]
fn other_namespaces_are_untouched() {
    let mut db = Rows::new();
    let minute = Duration { secs: 60, nanos: 0 };
    let a = cache().namespaced(Cache::serialize_text("a")).expect("namespace");
    let b = cache().namespaced(Cache::serialize_text("b")).expect("namespace");
    for (cache, value) in [(&b, 2), (&cache(), 3)] {
        let key = cache.key(key_of("k")).expect("key");
        insert_at(&mut db, at(100, 0), key, minute, value);
    }
    for text in ["k", "l", ""] {
        insert_at(&mut db, at(100, 0), a.key(key_of(text)).expect("key"), minute, 1);
    }
    let removal = b.delete_with_ns(Some(key_of("a")), key_of("k")).expect("removal");
    db.remove(&removal.key);
    for (cache, value) in [(&b, 2), (&cache(), 3)] {
        let key = cache.key(key_of("k")).expect("key");
        assert!(matches!(load_at(&db, at(100, 0), &key), State::Fresh(e) if e.value == value));
    }
}

#[test]
fn what_was_deleted_is_missing() {
    let mut db = Rows::new();
    let minute = Duration { secs: 60, nanos: 0 };
    let named = cache().namespaced(key_of("ns")).expect("namespace");
    let (a, b) = (named.key(key_of("a")).expect("key"), cache().key(key_of("a")).expect("key"));
    insert_at(&mut db, at(100, 0), a.clone(), minute, 1);
    insert_at(&mut db, at(100, 0), b.clone(), minute, 2);
    let removal = cache().delete_with_ns(Some(key_of("ns")), key_of("a")).expect("removal");
    db.remove(&removal.key);
    assert!(matches!(load_at(&db, at(100, 0), &a), State::Missing));
    assert!(matches!(test_at(&db, at(100, 0), &a), State::Missing));
    assert!(matches!(load_at(&db, at(100, 0), &b), State::Fresh(e) if e.value == 2));
}

#[test]
fn a_list_passes_over_malformed_rows() {
    let key = |k: &str| cache().key(key_of(k)).expect("key");
    let rows = vec![
        Ok((key("a"), json_entry(1))),
        Ok((vec![0xff], json_entry(2))),
        Ok((key("b"), None)),
        Ok((key("c"), json_entry(3))),
    ];
    let entries = Cache::list_json(rows).expect("list");
    assert_eq!(2, entries.len());
    assert_eq!(r#"[null,"a"]"#, entries[0].key.to_string());
    assert_eq!(serde_json::Value::from(1), entries[0].stored.value);
    assert_eq!(r#"[null,"c"]"#, entries[1].key.to_string());
    assert_eq!(at(10, 0), entries[1].stored.expires_at);
    assert!(Cache::list_json(Vec::new()).expect("list").is_empty());
}

#[test]
fn a_list_stops_at_a_row_that_cannot_be_read() {
    let key = cache().key(key_of("a")).expect("key");
    let rows = vec![Ok((key, json_entry(1))), Err(broken()), Err(sled::Error::ReportableBug(String::new()))];
    assert!(matches!(Cache::list_json(rows), Err(Error::Sled(sled::Error::Unsupported(_)))));
}

#[test]
fn a_clean_up_removes_stale_rows() {
    let sweep = || Cache::load_at(at(10, 0));
    let part = |secs: i64| Some(PartialStoredEntry { expires_at: at(secs, 0) });
    let gone = sweep().cleanup(SweepEvent::Row(vec![1], part(9)));
    assert!(matches!(gone, SweepAction::Remove(_, removal) if removal.key == vec![1]));
    let weird = sweep().cleanup(SweepEvent::Row(vec![2], None));
    assert!(matches!(weird, SweepAction::Remove(_, removal) if removal.key == vec![2]));
    assert!(matches!(sweep().cleanup(SweepEvent::Row(vec![3], part(10))), SweepAction::Next(_)));
    assert!(matches!(sweep().cleanup(SweepEvent::Removed), SweepAction::Next(_)));
    assert!(matches!(sweep().cleanup(SweepEvent::End), SweepAction::Finish(Ok(_))));
    let row = sweep().cleanup(SweepEvent::RowFailed(broken()));
    assert!(matches!(row, SweepAction::Finish(Err(Error::Sled(_)))));
    let removal = sweep().cleanup(SweepEvent::RemovalFailed(broken()));
    assert!(matches!(removal, SweepAction::Finish(Err(Error::Sled(_)))));
}
