//! The cache: what it asks of the database, and what it makes of the answers.
use vstd::prelude::*;

use crate::clock::{clock_gave, read_clock};
use crate::entry::{Fetched, JsonEntry, PartialStoredEntry, State, StoredEntry, StoredEntryRef};
use crate::error::Error;
use crate::outcomes::{complete, law_list_holds_every_entry, lists};
use crate::outside::{cbor_decode_json, cbor_encode_pair, clock_add};
use crate::outside::{key_from_entries, key_from_items, key_normalize, key_serialize};
use crate::outside::{cbor_json, key_cbor, namespace_cbor, normal_key, pair_cbor, referred};
use crate::outside::{key_entries, key_items, spells, steady, text_key, whole_item};
use crate::time::{moment_after, Duration, Timestamp};
use crate::waker::{waker_for, Waker, WakerView, Wakers};

verus! {

/// Primary cache abstraction.
///
/// Can be cheaply namespaced.
pub struct Cache {
    /// The serialized namespace this cache belongs to.
    ns: Option<serde_hashkey::Key>,
    /// Things to wake up.
    wakers: Wakers,
}

/// What a [Cache] is at one moment.
#[verifier::ext_equal]
pub struct CacheView {
    /// The namespace this cache belongs to.
    pub ns: Option<serde_hashkey::Key>,
    /// The wakers, by the keys of the entries that they are for.
    pub wakers: Map<Seq<u8>, WakerView>,
}

impl View for Cache {
    type V = CacheView;

    closed spec fn view(&self) -> CacheView {
        CacheView { ns: self.ns, wakers: self.wakers@ }
    }
}

/// A request to read what the database holds under a key.
pub struct Read {
    /// The key.
    pub key: Vec<u8>,
}

/// A request to remove what the database holds under a key.
pub struct Removal {
    /// The key.
    pub key: Vec<u8>,
}

/// A request to write an entry under a key of the database.
pub struct Write<'a, T> {
    /// The key.
    pub key: Vec<u8>,
    /// The entry.
    pub entry: StoredEntryRef<'a, T>,
}

/// The outcome of serializing a key.
pub type Serialized = Result<serde_hashkey::Key, serde_hashkey::Error>;

/// `bytes` is the key of the database for `key` in the namespace `ns`.
pub open spec fn locates(
    ns: Option<serde_hashkey::Key>,
    key: serde_hashkey::Key,
    bytes: Seq<u8>,
) -> bool {
    &&& pair_cbor(ns, normal_key(key)) == Some(bytes)
    &&& whole_item(namespace_cbor(ns)->0)
    &&& whole_item(key_cbor(normal_key(key))->0)
    &&& steady(key)
}

/// The serialized `key` has the key `bytes` of the database, in the namespace `ns`.
pub open spec fn key_accepted(
    ns: Option<serde_hashkey::Key>,
    key: Serialized,
    bytes: Seq<u8>,
) -> bool {
    key is Ok && locates(ns, key->Ok_0, bytes)
}

/// There is no key of the database for the serialized `key` in the namespace `ns`, because
/// of `error`.
pub open spec fn key_refused(
    ns: Option<serde_hashkey::Key>,
    key: Serialized,
    error: Error,
) -> bool {
    match key {
        Ok(key) => error is Cbor && pair_cbor(ns, normal_key(key)) is None && steady(key),
        Err(e) => error == Error::HashKey(e),
    }
}

/// What came of reading an entry from the database.
pub type Fetch<E> = Result<Fetched<E>, sled::Error>;

/// The state of an entry that was read from the database.
///
/// What is no entry counts as missing.
pub open spec fn state_of<T>(fetched: Fetched<StoredEntry<T>>, now: Timestamp) -> State<T> {
    match fetched {
        Fetched::Entry(entry) => entry.state(now),
        _ => State::Missing,
    }
}

/// What loading an entry gives, for what came of reading it.
pub open spec fn loaded<T>(
    fetch: Fetch<StoredEntry<T>>,
    now: Timestamp,
) -> Result<State<T>, Error> {
    match fetch {
        Ok(fetched) => Ok(state_of(fetched, now)),
        Err(e) => Err(Error::Sled(e)),
    }
}

/// What was read, with nothing for the value.
pub open spec fn without_value(fetch: Fetch<PartialStoredEntry>) -> Fetch<StoredEntry<()>> {
    match fetch {
        Ok(Fetched::Entry(entry)) => Ok(Fetched::Entry(entry.stored())),
        Ok(Fetched::Malformed) => Ok(Fetched::Malformed),
        Ok(Fetched::Absent) => Ok(Fetched::Absent),
        Err(e) => Err(e),
    }
}

/// The request writes, under the key `bytes`, the value with the age that it has at `now`.
pub open spec fn writes<T>(
    write: Write<T>,
    bytes: Seq<u8>,
    now: Timestamp,
    age: Duration,
    value: T,
) -> bool {
    &&& write.key@ == bytes
    &&& moment_after(now, age) == Some(write.entry.expires_at)
    &&& *write.entry.value == value
}

/// The outcome of a request to write, under the key `bytes`, a value at `now`: there is nothing
/// to write exactly when the calendar ends before the value does.
pub open spec fn written<T>(
    write: Option<Write<T>>,
    bytes: Seq<u8>,
    now: Timestamp,
    age: Duration,
    value: T,
) -> bool {
    match write {
        Some(write) => writes(write, bytes, now, age, value),
        None => moment_after(now, age) is None,
    }
}

/// A row of the database: its key, and the entry in it, if it holds one.
pub type Row = Result<(Vec<u8>, Option<StoredEntry<serde_json::Value>>), sled::Error>;

/// The entry that a row is listed as; nothing where its key or its value is malformed.
pub open spec fn listed(row: Row) -> Option<JsonEntry> {
    match row {
        Ok((key, stored)) => JsonEntry::paired(cbor_json(key@), stored),
        Err(_) => None,
    }
}

impl Cache {
    /// Every key has a waker of its own.
    pub closed spec fn wf(self) -> bool {
        self.wakers.wf()
    }

    /// The clean-up of a database, which gives a cache without a namespace once it ended well.
    pub fn load() -> (sweep: Sweep)
        ensures
            sweep.cache().wf(),
            sweep.cache()@ == (CacheView { ns: None, wakers: Map::empty() }),
            sweep.now().shown(),
            clock_gave(sweep.now()),
    {
        Self::load_at(read_clock())
    }

    /// The clean-up of a database at the given point in time.
    pub fn load_at(now: Timestamp) -> (sweep: Sweep)
        ensures
            sweep.cache().wf(),
            sweep.cache()@ == (CacheView { ns: None, wakers: Map::empty() }),
            sweep.now() == now,
    {
        Sweep { cache: Cache { ns: None, wakers: Wakers::new() }, now }
    }

    /// Create a namespaced cache.
    ///
    /// The namespace must be unique to avoid conflicts.
    ///
    /// Each call to this functions will return its own queue for resolving futures.
    pub fn namespaced(&self, ns: Serialized) -> (cache: Result<Cache, Error>)
        ensures
            match (cache, ns) {
                (Ok(cache), Ok(ns)) => cache.wf() && cache@ == (CacheView {
                    ns: Some(normal_key(ns)),
                    wakers: Map::empty(),
                }),
                (Err(error), Err(e)) => error == Error::HashKey(e),
                _ => false,
            },
    {
        match ns {
            Ok(ns) => Ok(Cache { ns: Some(key_normalize(ns)), wakers: Wakers::new() }),
            Err(e) => Err(Error::from(e)),
        }
    }

    /// Get the waker associated with the given key.
    pub fn waker(&mut self, key: &[u8]) -> (waker: &mut Waker)
        requires
            old(self).wf(),
        ensures
            final(self).wf(),
            waker@ == waker_for(old(self)@.wakers, key@),
            final(self)@ == (CacheView {
                wakers: old(self)@.wakers.insert(key@, final(waker)@),
                ..old(self)@
            }),
    {
        self.wakers.waker(key)
    }

    /// Delete the given key from the specified namespace, whatever the namespace of this cache.
    pub fn delete_with_ns(&self, ns: Option<Serialized>, key: Serialized) -> (removal: Result<
        Removal,
        Error,
    >)
        ensures
            match ns {
                Some(Err(e)) => removal == Err::<Removal, Error>(Error::HashKey(e)),
                Some(Ok(ns)) => match removal {
                    Ok(removal) => key_accepted(Some(normal_key(ns)), key, removal.key@),
                    Err(e) => key_refused(Some(normal_key(ns)), key, e),
                },
                None => match removal {
                    Ok(removal) => key_accepted(None, key, removal.key@),
                    Err(e) => key_refused(None, key, e),
                },
            },
    {
        let ns = match ns {
            Some(Ok(ns)) => Some(key_normalize(ns)),
            Some(Err(e)) => return Err(Error::from(e)),
            None => None,
        };
        match Self::key_with_ns(ns.as_ref(), key) {
            Ok(key) => Ok(Removal { key }),
            Err(e) => Err(e),
        }
    }

    /// Insert a value into the cache.
    ///
    /// There is nothing to write where the calendar ends before the value does.
    pub fn insert<'a, T>(&self, key: Serialized, age: Duration, value: &'a T) -> (write: Result<
        Option<Write<'a, T>>,
        Error,
    >)
        requires
            age.valid(),
        ensures
            match write {
                Ok(write) => exists|bytes: Seq<u8>, now: Timestamp|
                    #![trigger key_accepted(self@.ns, key, bytes), clock_gave(now)]
                    key_accepted(self@.ns, key, bytes) && clock_gave(now) && now.shown()
                        && written(write, bytes, now, age, *value),
                Err(e) => key_refused(self@.ns, key, e),
            },
    {
        match self.key(key) {
            Ok(bytes) => Ok(Self::inner_insert(bytes, age, value)),
            Err(e) => Err(e),
        }
    }

    /// Insert a value into the cache.
    ///
    /// There is nothing to write where the calendar ends before the value does.
    pub fn inner_insert<'a, T>(key: Vec<u8>, age: Duration, value: &'a T) -> (write: Option<
        Write<'a, T>,
    >)
        requires
            age.valid(),
        ensures
            exists|now: Timestamp| #[trigger]
                clock_gave(now) && now.shown() && written(write, key@, now, age, *value),
    {
        let now = read_clock();
        match Self::expiry_at(now, age) {
            Some(_) => Some(Self::inner_insert_at(now, key, age, value)),
            None => None,
        }
    }

    /// The last point in time at which a value is fresh that is inserted at the given one. There
    /// is none where the calendar ends before the value does.
    pub fn expiry_at(now: Timestamp, age: Duration) -> (expires_at: Option<Timestamp>)
        requires
            now.valid(),
            age.valid(),
        ensures
            expires_at == moment_after(now, age),
    {
        clock_add(now, age)
    }

    /// Insert a value into the cache at the given point in time, within the calendar.
    pub fn inner_insert_at<'a, T>(
        now: Timestamp,
        key: Vec<u8>,
        age: Duration,
        value: &'a T,
    ) -> (write: Write<'a, T>)
        requires
            now.valid(),
            age.valid(),
            moment_after(now, age) is Some,
        ensures
            writes(write, key@, now, age, *value),
    {
        let expires_at = clock_add(now, age).unwrap();
        Write { key, entry: StoredEntryRef { expires_at, value } }
    }

    /// Test an entry from the cache: what the read brings is for [Cache::inner_test].
    pub fn test(&self, key: Serialized) -> (read: Result<Read, Error>)
        ensures
            match read {
                Ok(read) => key_accepted(self@.ns, key, read.key@),
                Err(e) => key_refused(self@.ns, key, e),
            },
    {
        match self.key(key) {
            Ok(key) => Ok(Read { key }),
            Err(e) => Err(e),
        }
    }

    /// Load an entry from the cache, without its value.
    pub fn inner_test(fetch: Fetch<PartialStoredEntry>) -> (state: Result<State<()>, Error>)
        ensures
            exists|now: Timestamp| #[trigger]
                clock_gave(now) && now.shown() && state == loaded(without_value(fetch), now),
    {
        Self::inner_test_at(fetch, read_clock())
    }

    /// Load an entry from the cache, without its value, at the given point in time.
    pub fn inner_test_at(fetch: Fetch<PartialStoredEntry>, now: Timestamp) -> (state: Result<
        State<()>,
        Error,
    >)
        ensures
            state == loaded(without_value(fetch), now),
    {
        let stored = match fetch {
            Ok(Fetched::Entry(stored)) => stored,
            Ok(Fetched::Absent) | Ok(Fetched::Malformed) => return Ok(State::Missing),
            Err(e) => return Err(Error::from(e)),
        };
        if stored.is_expired(now) {
            return Ok(State::Expired(stored.into_stored_entry()));
        }
        Ok(State::Fresh(stored.into_stored_entry()))
    }

    /// Load an entry from the cache: what the read brings is for [Cache::inner_get].
    pub fn get(&self, key: Serialized) -> (read: Result<Read, Error>)
        ensures
            match read {
                Ok(read) => key_accepted(self@.ns, key, read.key@),
                Err(e) => key_refused(self@.ns, key, e),
            },
    {
        match self.key(key) {
            Ok(key) => Ok(Read { key }),
            Err(e) => Err(e),
        }
    }

    /// Load an entry from the cache.
    pub fn inner_get<T>(fetch: Fetch<StoredEntry<T>>) -> (state: Result<State<T>, Error>)
        ensures
            exists|now: Timestamp| #[trigger]
                clock_gave(now) && now.shown() && state == loaded(fetch, now),
    {
        Self::inner_get_at(fetch, read_clock())
    }

    /// Load an entry from the cache at the given point in time.
    pub fn inner_get_at<T>(fetch: Fetch<StoredEntry<T>>, now: Timestamp) -> (state: Result<
        State<T>,
        Error,
    >)
        ensures
            state == loaded(fetch, now),
    {
        let stored = match fetch {
            Ok(Fetched::Entry(stored)) => stored,
            Ok(Fetched::Absent) | Ok(Fetched::Malformed) => return Ok(State::Missing),
            Err(e) => return Err(Error::from(e)),
        };
        if stored.is_expired(now) {
            return Ok(State::Expired(stored));
        }
        Ok(State::Fresh(stored))
    }

    /// List all cache entries as JSON, of the rows that the database holds.
    pub fn list_json(rows: Vec<Row>) -> (entries: Result<Vec<JsonEntry>, Error>)
        ensures
            entries is Ok ==> complete(rows@, entries->Ok_0@),
            match entries {
                Ok(entries) => {
                    &&& forall|i: int| 0 <= i < rows@.len() ==> #[trigger] rows@[i] is Ok
                    &&& entries@ == rows@.filter_map(|row: Row| listed(row))
                },
                Err(e) => exists|i: int| {
                    &&& 0 <= i < rows@.len()
                    &&& #[trigger] rows@[i] is Err
                    &&& forall|j: int| 0 <= j < i ==> rows@[j] is Ok
                    &&& e == Error::Sled(rows@[i]->Err_0)
                },
            },
    {
        let ghost all = rows@;
        let mut out: Vec<JsonEntry> = Vec::new();
        assert(all.take(0) =~= Seq::empty());
        for row in iter: rows
            invariant
                iter.seq() == all,
                forall|i: int| 0 <= i < iter.index() ==> #[trigger] all[i] is Ok,
                out@ == all.take(iter.index() as int).filter_map(|row: Row| listed(row)),
        {
            proof {
                let i = iter.index() as int;
                assert(all.take(i + 1).drop_last() =~= all.take(i));
                assert(all.take(i + 1).last() == row);
            }
            let (key, stored) = match row {
                Ok(row) => row,
                Err(e) => return Err(Error::from(e)),
            };
            match JsonEntry::new(cbor_decode_json(key.as_slice()).ok(), stored) {
                Some(entry) => out.push(entry),
                None => {},
            }
        }
        assert(all.take(all.len() as int) =~= all);
        proof {
            let places = law_list_holds_every_entry(all, out@);
            assert(lists(all, places, out@));
        }
        Ok(out)
    }

    /// The serialized form of a string, which is a key or a namespace as any other.
    pub fn serialize_text(text: &str) -> (key: Serialized)
        ensures
            key is Ok,
            key->Ok_0 == text_key(text@),
            spells(key->Ok_0, text@),
    {
        key_serialize(text)
    }

    /// The serialized form of a list.
    pub fn serialize_list(items: Vec<serde_hashkey::Key>) -> (key: Serialized)
        ensures
            key is Ok,
            key_items(key->Ok_0) == Some(items@),
    {
        Ok(key_from_items(items))
    }

    /// The serialized form of a map.
    pub fn serialize_map(entries: Vec<(serde_hashkey::Key, serde_hashkey::Key)>) -> (key:
        Serialized)
        ensures
            key is Ok,
            key_entries(key->Ok_0) == Some(entries@),
    {
        Ok(key_from_entries(entries))
    }

    /// Helper to serialize the key with a specific namespace.
    pub fn key_with_ns(ns: Option<&serde_hashkey::Key>, key: Serialized) -> (bytes: Result<
        Vec<u8>,
        Error,
    >)
        ensures
            match bytes {
                Ok(bytes) => key_accepted(referred(ns), key, bytes@),
                Err(e) => key_refused(referred(ns), key, e),
            },
    {
        let key = match key {
            Ok(key) => key_normalize(key),
            Err(e) => return Err(Error::from(e)),
        };
        match cbor_encode_pair(ns, &key) {
            Ok(bytes) => Ok(bytes),
            Err(e) => Err(Error::from(e)),
        }
    }

    /// Helper to serialize the key with the default namespace.
    pub fn key(&self, key: Serialized) -> (bytes: Result<Vec<u8>, Error>)
        ensures
            match bytes {
                Ok(bytes) => key_accepted(self@.ns, key, bytes@),
                Err(e) => key_refused(self@.ns, key, e),
            },
    {
        Self::key_with_ns(self.ns.as_ref(), key)
    }
}

/// The removal of stale entries, row by row of the database.
pub struct Sweep {
    cache: Cache,
    now: Timestamp,
}

/// What happened last in a clean-up.
pub enum SweepEvent {
    /// The next row was read: its key, and the entry in it, if it holds one.
    Row(Vec<u8>, Option<PartialStoredEntry>),
    /// The next row could not be read.
    RowFailed(sled::Error),
    /// A row was removed.
    Removed,
    /// A row could not be removed.
    RemovalFailed(sled::Error),
    /// There are no more rows.
    End,
}

/// What to do next in a clean-up.
pub enum SweepAction {
    /// Read the next row, and go on.
    Next(Sweep),
    /// Remove a row, and go on.
    Remove(Sweep, Removal),
    /// The clean-up is over: here is the cache, unless the database failed.
    Finish(Result<Cache, Error>),
}

/// A row is stale: it holds no entry, or one that is expired.
pub open spec fn stale(entry: Option<PartialStoredEntry>, now: Timestamp) -> bool {
    match entry {
        Some(entry) => entry.stored().expired(now),
        None => true,
    }
}

impl Sweep {
    /// The cache that is being loaded.
    pub closed spec fn cache(self) -> Cache {
        self.cache
    }

    /// The point in time at which the clean-up began.
    pub closed spec fn now(self) -> Timestamp {
        self.now
    }

    /// What to do next.
    pub open spec fn next(self, event: SweepEvent) -> SweepAction {
        match event {
            SweepEvent::Row(key, entry) => if stale(entry, self.now()) {
                SweepAction::Remove(self, Removal { key })
            } else {
                SweepAction::Next(self)
            },
            SweepEvent::RowFailed(e) => SweepAction::Finish(Err(Error::Sled(e))),
            SweepEvent::Removed => SweepAction::Next(self),
            SweepEvent::RemovalFailed(e) => SweepAction::Finish(Err(Error::Sled(e))),
            SweepEvent::End => SweepAction::Finish(Ok(self.cache())),
        }
    }

    /// Clean up stale entries.
    pub fn cleanup(self, event: SweepEvent) -> (action: SweepAction)
        ensures
            action == self.next(event),
    {
        match event {
            SweepEvent::Row(key, entry) => {
                let entry = match entry {
                    Some(entry) => entry,
                    // delete key since it's invalid.
                    None => return SweepAction::Remove(self, Removal { key }),
                };
                if entry.is_expired(self.now) {
                    return SweepAction::Remove(self, Removal { key });
                }
                SweepAction::Next(self)
            },
            SweepEvent::RowFailed(e) => SweepAction::Finish(Err(Error::from(e))),
            SweepEvent::Removed => SweepAction::Next(self),
            SweepEvent::RemovalFailed(e) => SweepAction::Finish(Err(Error::from(e))),
            SweepEvent::End => SweepAction::Finish(Ok(self.cache)),
        }
    }
}

}
