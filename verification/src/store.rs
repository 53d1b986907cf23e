//! What the requests of a cache do to a database, and what its reads then bring.
use vstd::prelude::*;
use vstd::utf8::{decode_utf8, encode_utf8, encode_utf8_decode_utf8};

use crate::cache::{key_refused, loaded, locates, stale, state_of, without_value, writes};
use crate::cache::{Removal, Sweep, SweepAction, SweepEvent, Write};
use crate::entry::{Fetched, PartialStoredEntry, StoredEntry};
use crate::error::Error;
use crate::outside::{alike, big_endian, key_cbor, namespace_cbor, normal_key, spells};
use crate::outside::{text_cbor, text_head};
use crate::time::{moment_after, Duration, Timestamp};
use crate::waker::WakerView;
use crate::wrap::{Action, Event, WrapView};

verus! {

/// What a database holds under each key: an entry, or something that is none.
pub type Held<E> = Map<Seq<u8>, Option<E>>;

/// What reading a key brings.
pub open spec fn fetched<E>(db: Held<E>, key: Seq<u8>) -> Fetched<E> {
    if db.contains_key(key) {
        match db[key] {
            Some(entry) => Fetched::Entry(entry),
            None => Fetched::Malformed,
        }
    } else {
        Fetched::Absent
    }
}

impl<'a, T> Write<'a, T> {
    /// The database after the request.
    pub open spec fn done(self, db: Held<StoredEntry<T>>) -> Held<StoredEntry<T>> {
        db.insert(self.key@, Some(self.entry.entry()))
    }
}

impl Removal {
    /// The database after the request.
    pub open spec fn done<E>(self, db: Held<E>) -> Held<E> {
        db.remove(self.key@)
    }
}

/// What was inserted is what a load finds: fresh as long as its age is not over, expired from
/// then on, and always with the value that was inserted.
pub proof fn law_load_finds_insert<T>(
    db: Held<StoredEntry<T>>,
    write: Write<T>,
    key: Seq<u8>,
    now: Timestamp,
    age: Duration,
    value: T,
    later: Timestamp,
)
    requires
        now.valid(),
        age.valid(),
        later.valid(),
        writes(write, key, now, age, value),
    ensures
        ({
            let state = state_of(fetched(write.done(db), key), later);
            &&& state.value() == Some(value)
            &&& state is Fresh <==> later.total() <= now.total() + age.total()
            &&& state is Expired <==> later.total() > now.total() + age.total()
        }),
{
    let expires_at = moment_after(now, age)->0;
    assert(expires_at.total() == now.total() + age.total());
}

/// What a wrapped future stores is what the next call for the same key answers with, as long as
/// its age is not over. That call drives no future, whoever else is under way.
pub proof fn law_stored_answer_is_returned<T, E>(
    db: Held<StoredEntry<T>>,
    driver: WrapView<T, E>,
    write: Write<T>,
    now: Timestamp,
    call: WrapView<T, E>,
    waker: WakerView,
    later: Timestamp,
)
    requires
        driver.wf(),
        driver.phase is Store,
        now.valid(),
        writes(write, driver.key, now, driver.age, driver.outcome->0->Ok_0),
        call.phase is Lookup,
        call.key == driver.key,
        later.valid(),
        later.total() <= now.total() + driver.age.total(),
    ensures
        ({
            let event = Event::<T, E>::Looked(
                loaded(Ok(fetched(write.done(db), call.key)), later),
            );
            &&& call.accepts(event)
            &&& call.asks(event, waker) == Action::<T, E>::Return(Ok(driver.outcome->0->Ok_0))
            &&& call.next(event, waker).phase is Done
            &&& call.leaves(event, waker) is None
        }),
{
    law_load_finds_insert(
        db,
        write,
        driver.key,
        now,
        driver.age,
        driver.outcome->0->Ok_0,
        later,
    );
}

/// An insert under one key changes nothing under another.
pub proof fn law_insert_elsewhere<T>(db: Held<StoredEntry<T>>, write: Write<T>, other: Seq<u8>)
    requires
        other != write.key@,
    ensures
        fetched(write.done(db), other) == fetched(db, other),
{
}

/// What was deleted is missing.
pub proof fn law_deleted_is_missing<T>(db: Held<StoredEntry<T>>, removal: Removal, now: Timestamp)
    ensures
        state_of(fetched(removal.done(db), removal.key@), now) is Missing,
{
}

/// A delete under one key changes nothing under another.
pub proof fn law_delete_elsewhere<T>(db: Held<StoredEntry<T>>, removal: Removal, other: Seq<u8>)
    requires
        other != removal.key@,
    ensures
        fetched(removal.done(db), other) == fetched(db, other),
{
}

/// An entry that is expired stays expired.
pub proof fn law_expired_for_good<T>(entry: StoredEntry<T>, now: Timestamp, later: Timestamp)
    requires
        entry.expired(now),
        !later.before(now),
    ensures
        entry.expired(later),
{
}

/// What a read brings of the entry without its value, where it brings `full` of all of it: the
/// same point in time, and something wherever anything is stored. What is no entry may still hold
/// a point in time.
pub open spec fn part_of<T>(
    part: Fetched<PartialStoredEntry>,
    full: Fetched<StoredEntry<T>>,
) -> bool {
    match full {
        Fetched::Entry(entry) => part == Fetched::Entry(
            PartialStoredEntry { expires_at: entry.expires_at },
        ),
        Fetched::Malformed => part !is Absent,
        Fetched::Absent => part is Absent,
    }
}

/// A test finds an entry in the state in which a load finds it at the same time, with the same
/// point in time at which it expires. Where a test finds nothing, a load finds nothing.
pub proof fn law_test_agrees_with_load<T>(
    part: Fetched<PartialStoredEntry>,
    full: Fetched<StoredEntry<T>>,
    now: Timestamp,
)
    requires
        part_of(part, full),
    ensures
        ({
            let tested = loaded(without_value(Ok(part)), now);
            let got = loaded(Ok(full), now);
            &&& tested is Ok && got is Ok
            &&& tested->Ok_0 is Missing ==> got->Ok_0 is Missing
            &&& got->Ok_0 !is Missing ==> {
                &&& tested->Ok_0 is Fresh <==> got->Ok_0 is Fresh
                &&& tested->Ok_0 is Expired <==> got->Ok_0 is Expired
                &&& tested->Ok_0.expires_at() == got->Ok_0.expires_at()
            }
        }),
{
}

/// The rows are those of the database.
pub open spec fn enumerates<E>(rows: Seq<(Vec<u8>, Option<E>)>, db: Held<E>) -> bool {
    &&& forall|i: int|
        0 <= i < rows.len() ==> db.contains_key((#[trigger] rows[i]).0@) && db[rows[i].0@]
            == rows[i].1
    &&& forall|key: Seq<u8>| #[trigger]
        db.contains_key(key) ==> exists|i: int|
            0 <= i < rows.len() && (#[trigger] rows[i]).0@ == key
}

/// The database after a clean-up went over the rows.
pub open spec fn swept(
    sweep: Sweep,
    rows: Seq<(Vec<u8>, Option<PartialStoredEntry>)>,
    db: Held<PartialStoredEntry>,
) -> Held<PartialStoredEntry>
    decreases rows.len(),
{
    if rows.len() == 0 {
        db
    } else {
        let before = swept(sweep, rows.drop_last(), db);
        match sweep.next(SweepEvent::Row(rows.last().0, rows.last().1)) {
            SweepAction::Remove(_, removal) => removal.done(before),
            _ => before,
        }
    }
}

proof fn lemma_swept(
    sweep: Sweep,
    rows: Seq<(Vec<u8>, Option<PartialStoredEntry>)>,
    db: Held<PartialStoredEntry>,
    key: Seq<u8>,
)
    ensures
        ({
            let gone = exists|i: int|
                0 <= i < rows.len() && (#[trigger] rows[i]).0@ == key && stale(
                    rows[i].1,
                    sweep.now(),
                );
            let after = swept(sweep, rows, db);
            &&& after.contains_key(key) <==> db.contains_key(key) && !gone
            &&& after.contains_key(key) ==> after[key] == db[key]
        }),
    decreases rows.len(),
{
    if rows.len() > 0 {
        let fewer = rows.drop_last();
        lemma_swept(sweep, fewer, db, key);
        let last = rows.len() - 1;
        assert(rows[last] == rows.last());
        assert forall|i: int| 0 <= i < fewer.len() implies #[trigger] fewer[i] == rows[i] by {}
        assert forall|i: int| 0 <= i < last implies #[trigger] rows[i] == fewer[i] by {}
    }
}

/// A clean-up removes exactly the rows that hold no entry or an expired one, and leaves the
/// others as they are.
pub proof fn law_clean_up_removes_stale(
    sweep: Sweep,
    rows: Seq<(Vec<u8>, Option<PartialStoredEntry>)>,
    db: Held<PartialStoredEntry>,
)
    requires
        enumerates(rows, db),
    ensures
        forall|key: Seq<u8>| #[trigger]
            swept(sweep, rows, db).contains_key(key) <==> db.contains_key(key) && !stale(
                db[key],
                sweep.now(),
            ),
        forall|key: Seq<u8>| #[trigger]
            swept(sweep, rows, db).contains_key(key) ==> swept(sweep, rows, db)[key] == db[key],
{
    let after = swept(sweep, rows, db);
    assert forall|key: Seq<u8>| #[trigger]
        after.contains_key(key) <==> db.contains_key(key) && !stale(db[key], sweep.now()) by {
        lemma_swept(sweep, rows, db, key);
    }
    assert forall|key: Seq<u8>| #[trigger] after.contains_key(key) implies after[key]
        == db[key] by {
        lemma_swept(sweep, rows, db, key);
    }
}

/// What a clean-up leaves of a database whose entries are taken with their values.
pub open spec fn remaining<T>(
    full: Held<StoredEntry<T>>,
    left: Held<PartialStoredEntry>,
) -> Held<StoredEntry<T>> {
    full.restrict(left.dom())
}

/// Entries persist: what was inserted, and is fresh when a cache is loaded from the database
/// later, is still there once the cache is loaded. A load then finds it, fresh as long as its age
/// is not over.
pub proof fn law_entries_persist<T>(
    db: Held<StoredEntry<T>>,
    write: Write<T>,
    key: Seq<u8>,
    now: Timestamp,
    age: Duration,
    value: T,
    part: Held<PartialStoredEntry>,
    rows: Seq<(Vec<u8>, Option<PartialStoredEntry>)>,
    sweep: Sweep,
    later: Timestamp,
)
    requires
        now.valid(),
        age.valid(),
        sweep.now().valid(),
        later.valid(),
        writes(write, key, now, age, value),
        enumerates(rows, part),
        forall|k: Seq<u8>| part_of(#[trigger] fetched(part, k), fetched(write.done(db), k)),
        sweep.now().total() <= now.total() + age.total(),
    ensures
        swept(sweep, rows, part).contains_key(key),
        swept(sweep, rows, part)[key] == part[key],
        fetched(remaining(write.done(db), swept(sweep, rows, part)), key) == fetched(
            write.done(db),
            key,
        ),
        ({
            let left = remaining(write.done(db), swept(sweep, rows, part));
            let state = state_of(fetched(left, key), later);
            &&& state.value() == Some(value)
            &&& state is Fresh <==> later.total() <= now.total() + age.total()
            &&& state is Expired <==> later.total() > now.total() + age.total()
        }),
        state_of(
            fetched(remaining(write.done(db), swept(sweep, rows, part)), key),
            sweep.now(),
        ) is Fresh,
{
    law_clean_up_removes_stale(sweep, rows, part);
    law_load_finds_insert(db, write, key, now, age, value, later);
    law_load_finds_insert(db, write, key, now, age, value, sweep.now());
    assert(part_of(fetched(part, key), fetched(write.done(db), key)));
    assert(part.contains_key(key) && !stale(part[key], sweep.now()));
}

/// Two keys of the database are the same only if the encodings of the two keys are, and those
/// of the two namespaces. The namespace that is encoded as null is no different from no
/// namespace; any two that are encoded differently keep their entries apart.
pub proof fn law_namespaces_keep_apart(
    ns1: Option<serde_hashkey::Key>,
    key1: serde_hashkey::Key,
    bytes1: Seq<u8>,
    ns2: Option<serde_hashkey::Key>,
    key2: serde_hashkey::Key,
    bytes2: Seq<u8>,
)
    requires
        locates(ns1, key1, bytes1),
        locates(ns2, key2, bytes2),
    ensures
        bytes1 == bytes2 <==> namespace_cbor(ns1) == namespace_cbor(ns2) && key_cbor(
            normal_key(key1),
        ) == key_cbor(normal_key(key2)),
{
    let n1 = namespace_cbor(ns1)->0;
    let n2 = namespace_cbor(ns2)->0;
    let k1 = key_cbor(normal_key(key1))->0;
    let k2 = key_cbor(normal_key(key2))->0;
    if bytes1 == bytes2 {
        assert(bytes1.subrange(1, 1 + n1.len() as int) =~= n1);
        assert(bytes2.subrange(1, 1 + n2.len() as int) =~= n2);
        if n1.len() <= n2.len() {
            assert(n2.subrange(0, n1.len() as int) =~= n1);
            assert(n1.is_prefix_of(n2));
        } else {
            assert(n1.subrange(0, n2.len() as int) =~= n2);
            assert(n2.is_prefix_of(n1));
        }
        assert(n1 =~= n2);
        assert(bytes1.skip(1 + n1.len() as int) =~= k1);
        assert(bytes2.skip(1 + n2.len() as int) =~= k2);
    }
}

proof fn lemma_text_cbor(text1: Seq<char>, text2: Seq<char>)
    ensures
        text_cbor(text1) == text_cbor(text2) <==> text1 == text2,
        text_cbor(text1).len() > 0,
        text_cbor(text1)[0] != 0xf6,
{
    reveal_with_fuel(big_endian, 9);
    encode_utf8_decode_utf8(text1);
    encode_utf8_decode_utf8(text2);
    let (u1, u2) = (encode_utf8(text1), encode_utf8(text2));
    let (h1, h2) = (text_head(u1.len()), text_head(u2.len()));
    assert(text_cbor(text1).len() == h1.len() + u1.len());
    assert(text_cbor(text2).len() == h2.len() + u2.len());
    assert(text_cbor(text1)[0] == h1[0]);
    if text_cbor(text1) == text_cbor(text2) {
        assert(u1.len() == u2.len());
        assert(text_cbor(text1).skip(h1.len() as int) =~= u1);
        assert(text_cbor(text2).skip(h2.len() as int) =~= u2);
        assert(decode_utf8(u1) == decode_utf8(u2));
    }
}

/// The namespace is the one of a text, or both are missing.
pub open spec fn named(ns: Option<serde_hashkey::Key>, text: Option<Seq<char>>) -> bool {
    match (ns, text) {
        (Some(ns), Some(text)) => spells(ns, text),
        (None, None) => true,
        _ => false,
    }
}

proof fn lemma_named(
    ns1: Option<serde_hashkey::Key>,
    name1: Option<Seq<char>>,
    ns2: Option<serde_hashkey::Key>,
    name2: Option<Seq<char>>,
)
    requires
        named(ns1, name1),
        named(ns2, name2),
    ensures
        namespace_cbor(ns1) == namespace_cbor(ns2) <==> name1 == name2,
{
    let null = seq![0xf6u8];
    assert(null[0] == 0xf6);
    match (name1, name2) {
        (Some(text1), Some(text2)) => lemma_text_cbor(text1, text2),
        (Some(text), None) => lemma_text_cbor(text, text),
        (None, Some(text)) => lemma_text_cbor(text, text),
        (None, None) => {},
    }
}

/// A string is never refused as a key, nor as a namespace.
pub proof fn law_texts_are_accepted(
    ns: Option<serde_hashkey::Key>,
    name: Option<Seq<char>>,
    key: serde_hashkey::Key,
    text: Seq<char>,
    error: Error,
)
    requires
        named(ns, name),
        spells(key, text),
    ensures
        !key_refused(ns, Ok(key), error),
{
}

/// Strings never collide: two keys of the database are the same exactly if the strings that are
/// the keys are the same, and those that are the namespaces.
pub proof fn law_texts_keep_apart(
    ns1: Option<serde_hashkey::Key>,
    name1: Option<Seq<char>>,
    key1: serde_hashkey::Key,
    text1: Seq<char>,
    bytes1: Seq<u8>,
    ns2: Option<serde_hashkey::Key>,
    name2: Option<Seq<char>>,
    key2: serde_hashkey::Key,
    text2: Seq<char>,
    bytes2: Seq<u8>,
)
    requires
        named(ns1, name1),
        named(ns2, name2),
        spells(key1, text1),
        spells(key2, text2),
        locates(ns1, key1, bytes1),
        locates(ns2, key2, bytes2),
    ensures
        bytes1 == bytes2 <==> name1 == name2 && text1 == text2,
{
    law_namespaces_keep_apart(ns1, key1, bytes1, ns2, key2, bytes2);
    lemma_named(ns1, name1, ns2, name2);
    lemma_text_cbor(text1, text2);
}

/// A request that changes a database.
pub enum Change<'a, T> {
    /// An insert, or the output of a wrapped future.
    Write(Write<'a, T>),
    /// A delete.
    Removal(Removal),
}

impl<'a, T> Change<'a, T> {
    /// The key that it is about.
    pub open spec fn key(self) -> Seq<u8> {
        match self {
            Change::Write(write) => write.key@,
            Change::Removal(removal) => removal.key@,
        }
    }

    /// The database after the request.
    pub open spec fn done(self, db: Held<StoredEntry<T>>) -> Held<StoredEntry<T>> {
        match self {
            Change::Write(write) => write.done(db),
            Change::Removal(removal) => removal.done(db),
        }
    }
}

/// The database after some requests.
pub open spec fn all_done<T>(
    changes: Seq<Change<T>>,
    db: Held<StoredEntry<T>>,
) -> Held<StoredEntry<T>>
    decreases changes.len(),
{
    if changes.len() == 0 {
        db
    } else {
        changes.last().done(all_done(changes.drop_last(), db))
    }
}

/// `bytes` is the key of the database for some key in the namespace `ns`.
pub open spec fn belongs(ns: Option<serde_hashkey::Key>, bytes: Seq<u8>) -> bool {
    exists|key: serde_hashkey::Key| #[trigger] locates(ns, key, bytes)
}

/// The requests are about keys of the namespace.
pub open spec fn within<T>(changes: Seq<Change<T>>, ns: Option<serde_hashkey::Key>) -> bool {
    forall|i: int|
        0 <= i < changes.len() ==> belongs(ns, (#[trigger] changes[i]).key())
}

/// Entries of one namespace are never seen, replaced or removed through another one: whatever is
/// requested in one namespace, a load in a namespace that is encoded differently finds what it
/// would have found before.
pub proof fn law_other_namespaces_are_untouched<T>(
    db: Held<StoredEntry<T>>,
    ns1: Option<serde_hashkey::Key>,
    changes: Seq<Change<T>>,
    ns2: Option<serde_hashkey::Key>,
    key: serde_hashkey::Key,
    bytes: Seq<u8>,
    now: Timestamp,
)
    requires
        namespace_cbor(ns1) != namespace_cbor(ns2),
        within(changes, ns1),
        locates(ns2, key, bytes),
    ensures
        fetched(all_done(changes, db), bytes) == fetched(db, bytes),
        loaded(Ok(fetched(all_done(changes, db), bytes)), now) == loaded(
            Ok(fetched(db, bytes)),
            now,
        ),
    decreases changes.len(),
{
    if changes.len() > 0 {
        let fewer = changes.drop_last();
        assert(within(fewer, ns1));
        law_other_namespaces_are_untouched(db, ns1, fewer, ns2, key, bytes, now);
        let last = changes[changes.len() - 1];
        assert(belongs(ns1, last.key()));
        let own = choose|own: serde_hashkey::Key| #[trigger] locates(ns1, own, last.key());
        law_namespaces_keep_apart(ns1, own, last.key(), ns2, key, bytes);
    }
}

/// Namespaces that are named by different strings keep their entries apart, and so does no
/// namespace from any that a string names.
pub proof fn law_other_names_are_untouched<T>(
    db: Held<StoredEntry<T>>,
    ns1: Option<serde_hashkey::Key>,
    name1: Option<Seq<char>>,
    changes: Seq<Change<T>>,
    ns2: Option<serde_hashkey::Key>,
    name2: Option<Seq<char>>,
    key: serde_hashkey::Key,
    bytes: Seq<u8>,
    now: Timestamp,
)
    requires
        named(ns1, name1),
        named(ns2, name2),
        name1 != name2,
        within(changes, ns1),
        locates(ns2, key, bytes),
    ensures
        fetched(all_done(changes, db), bytes) == fetched(db, bytes),
        loaded(Ok(fetched(all_done(changes, db), bytes)), now) == loaded(
            Ok(fetched(db, bytes)),
            now,
        ),
{
    lemma_named(ns1, name1, ns2, name2);
    law_other_namespaces_are_untouched(db, ns1, changes, ns2, key, bytes, now);
}

/// What a namespaced cache inserts is what a delete from that namespace removes.
pub proof fn law_delete_reaches_namespace<T>(
    db: Held<StoredEntry<T>>,
    ns: serde_hashkey::Key,
    key: serde_hashkey::Key,
    write: Write<T>,
    removal: Removal,
    now: Timestamp,
)
    requires
        locates(Some(normal_key(ns)), key, write.key@),
        locates(Some(normal_key(ns)), key, removal.key@),
    ensures
        state_of(fetched(removal.done(write.done(db)), write.key@), now) is Missing,
{
}

/// Maps in a key may list their entries in any order: keys that differ in nothing else have the
/// same key of the database, or are both refused.
pub proof fn law_order_of_maps_is_irrelevant(
    ns: Option<serde_hashkey::Key>,
    key1: serde_hashkey::Key,
    key2: serde_hashkey::Key,
    depth: nat,
)
    requires
        alike(key1, key2, depth),
    ensures
        forall|bytes1: Seq<u8>, bytes2: Seq<u8>| #[trigger]
            locates(ns, key1, bytes1) && #[trigger] locates(ns, key2, bytes2) ==> bytes1 == bytes2,
        forall|bytes: Seq<u8>, error: Error| #[trigger]
            locates(ns, key1, bytes) ==> !#[trigger] key_refused(ns, Ok(key2), error),
        forall|bytes: Seq<u8>, error: Error| #[trigger]
            key_refused(ns, Ok(key1), error) ==> !#[trigger] locates(ns, key2, bytes),
{
}

}
