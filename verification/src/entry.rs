//! Entries, and what is known of them.
use vstd::prelude::*;

use crate::time::Timestamp;

verus! {

/// Represents the state of an entry.
pub enum State<T> {
    /// Entry is fresh and can be used.
    Fresh(StoredEntry<T>),
    /// Entry exists, but is expired.
    Expired(StoredEntry<T>),
    /// No entry.
    Missing,
}

/// Entry which have had its type erased into a JSON representation for convenience.
///
/// This is necessary in case you want to list all the entries in the database unless you want
/// to deal with raw bytes.
#[derive(Debug)]
pub struct JsonEntry {
    /// The key of the entry.
    pub key: serde_json::Value,
    /// The stored entry.
    pub stored: StoredEntry<serde_json::Value>,
}

/// A complete stored entry with a type.
#[derive(Debug)]
pub struct StoredEntry<T> {
    /// The last point in time at which the entry is fresh.
    pub expires_at: Timestamp,
    /// What is stored.
    pub value: T,
}

/// A reference to a complete stored entry with a type.
///
/// This is used for serialization to avoid taking ownership of the value to serialize.
#[derive(Debug)]
pub struct StoredEntryRef<'a, T> {
    /// The last point in time at which the entry is fresh.
    pub expires_at: Timestamp,
    /// What is stored.
    pub value: &'a T,
}

/// What there is to know of a stored entry without its value.
#[derive(Debug)]
pub struct PartialStoredEntry {
    /// The last point in time at which the entry is fresh.
    pub expires_at: Timestamp,
}

/// What a read of the database brings, once its bytes are decoded.
pub enum Fetched<E> {
    /// Nothing is stored under the key.
    Absent,
    /// What is stored under the key is no entry.
    Malformed,
    /// The entry that is stored under the key.
    Entry(E),
}

impl<T> State<T> {
    /// The value, regardless if it's expired or not.
    pub open spec fn value(self) -> Option<T> {
        match self {
            State::Fresh(e) => Some(e.value),
            State::Expired(e) => Some(e.value),
            State::Missing => None,
        }
    }

    /// The last point in time at which the entry is fresh, if there is an entry.
    pub open spec fn expires_at(self) -> Option<Timestamp> {
        match self {
            State::Fresh(e) => Some(e.expires_at),
            State::Expired(e) => Some(e.expires_at),
            State::Missing => None,
        }
    }

    /// Get as an option, regardless if it's expired or not.
    pub fn get(self) -> (value: Option<T>)
        ensures
            value == self.value(),
    {
        match self {
            State::Fresh(e) | State::Expired(e) => Some(e.value),
            State::Missing => None,
        }
    }
}

impl JsonEntry {
    /// The entry of a decoded key and a decoded value, if there are both.
    pub open spec fn paired(
        key: Option<serde_json::Value>,
        stored: Option<StoredEntry<serde_json::Value>>,
    ) -> Option<JsonEntry> {
        match (key, stored) {
            (Some(key), Some(stored)) => Some(JsonEntry { key, stored }),
            _ => None,
        }
    }

    /// The entry of a decoded key and a decoded value. There is none where the key is malformed
    /// or where something weird is stored in there.
    pub fn new(
        key: Option<serde_json::Value>,
        stored: Option<StoredEntry<serde_json::Value>>,
    ) -> (entry: Option<JsonEntry>)
        ensures
            entry == Self::paired(key, stored),
    {
        match (key, stored) {
            (Some(key), Some(stored)) => Some(JsonEntry { key, stored }),
            _ => None,
        }
    }
}

impl<T> StoredEntry<T> {
    /// The entry is expired: its last fresh point in time is gone.
    pub open spec fn expired(self, now: Timestamp) -> bool {
        self.expires_at.before(now)
    }

    /// The state of the entry.
    pub open spec fn state(self, now: Timestamp) -> State<T> {
        if self.expired(now) {
            State::Expired(self)
        } else {
            State::Fresh(self)
        }
    }

    /// Test if entry is expired.
    pub fn is_expired(&self, now: Timestamp) -> (expired: bool)
        ensures
            expired == self.expired(now),
    {
        self.expires_at.is_before(&now)
    }
}

impl<'a, T> StoredEntryRef<'a, T> {
    /// The entry that is referred to.
    pub open spec fn entry(self) -> StoredEntry<T> {
        StoredEntry { expires_at: self.expires_at, value: *self.value }
    }
}

impl PartialStoredEntry {
    /// The entry, with nothing for its value.
    pub open spec fn stored(self) -> StoredEntry<()> {
        StoredEntry { expires_at: self.expires_at, value: () }
    }

    /// Test if entry is expired.
    pub fn is_expired(&self, now: Timestamp) -> (expired: bool)
        ensures
            expired == self.stored().expired(now),
    {
        self.expires_at.is_before(&now)
    }

    /// Convert into a stored entry.
    pub fn into_stored_entry(self) -> (stored: StoredEntry<()>)
        ensures
            stored == self.stored(),
    {
        StoredEntry { expires_at: self.expires_at, value: () }
    }
}

}
