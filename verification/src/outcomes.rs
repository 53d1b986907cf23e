//! What comes of the requests of a cache, by what goes in.
use vstd::prelude::*;
use vstd::std_specs::convert::FromSpec;
use vstd::string::*;

use crate::cache::{key_accepted, key_refused, listed, loaded, without_value, written};
use crate::cache::{Fetch, Row, Serialized, Sweep, SweepAction, SweepEvent, Write};
use crate::entry::{Fetched, JsonEntry, PartialStoredEntry, State, StoredEntry, StoredEntryRef};
use crate::error::Error;
use crate::format::json_of;
use crate::outside::{cbor_json, cbor_value, json_text, key_cbor, normal_key, referred};
use crate::store::{enumerates, fetched, swept, Held};
use crate::store::{law_clean_up_removes_stale, law_load_finds_insert};
use crate::store::law_stored_answer_is_returned;
use crate::time::{Duration, Timestamp};
use crate::waker::WakerView;
use crate::wrap::{Action, Event, WrapView};

verus! {

/// The point in time is over at `now`: later seconds have begun, or later parts of the same one.
pub open spec fn over(at: Timestamp, now: Timestamp) -> bool {
    now.secs > at.secs || now.secs == at.secs && now.nanos > at.nanos
}

/// An entry that a load finds is fresh exactly up to the point in time at which it expires, and
/// is handed out whole. What is not there, or is no entry, is missing. A failure of the database
/// is passed on.
pub proof fn law_load_goes_by_time<T>(fetch: Fetch<StoredEntry<T>>, now: Timestamp)
    ensures
        match fetch {
            Err(e) => loaded(fetch, now) == Err::<State<T>, Error>(Error::Sled(e)),
            Ok(Fetched::Absent) | Ok(Fetched::Malformed) => loaded(fetch, now) is Ok && loaded(
                fetch,
                now,
            )->Ok_0 is Missing,
            Ok(Fetched::Entry(entry)) => {
                let state = loaded(fetch, now);
                &&& state is Ok
                &&& state->Ok_0 is Expired <==> over(entry.expires_at, now)
                &&& state->Ok_0 is Fresh <==> !over(entry.expires_at, now)
                &&& entry.expires_at.valid() && now.valid() ==> (state->Ok_0 is Fresh
                    <==> now.total() <= entry.expires_at.total())
                &&& state->Ok_0 is Fresh ==> state->Ok_0->Fresh_0 == entry
                &&& state->Ok_0 is Expired ==> state->Ok_0->Expired_0 == entry
            },
        },
{
}

/// A test goes by the time at which the entry expires, as a load does, and hands that out.
pub proof fn law_test_goes_by_time(fetch: Fetch<PartialStoredEntry>, now: Timestamp)
    ensures
        ({
            let state = loaded(without_value(fetch), now);
            match fetch {
                Err(e) => state == Err::<State<()>, Error>(Error::Sled(e)),
                Ok(Fetched::Absent) | Ok(Fetched::Malformed) => state is Ok
                    && state->Ok_0 is Missing,
                Ok(Fetched::Entry(entry)) => {
                    &&& state is Ok
                    &&& state->Ok_0 is Expired <==> over(entry.expires_at, now)
                    &&& state->Ok_0 is Fresh <==> !over(entry.expires_at, now)
                    &&& entry.expires_at.valid() && now.valid() ==> (state->Ok_0 is Fresh
                        <==> now.total() <= entry.expires_at.total())
                    &&& state->Ok_0 is Fresh ==> state->Ok_0->Fresh_0.expires_at
                        == entry.expires_at
                    &&& state->Ok_0 is Expired ==> state->Ok_0->Expired_0.expires_at
                        == entry.expires_at
                },
            }
        }),
{
}

/// Whether an entry is expired does not hang on its value, and goes by time alone.
pub proof fn law_expiry_goes_by_time<T>(
    entry: StoredEntry<T>,
    part: PartialStoredEntry,
    now: Timestamp,
)
    ensures
        entry.expired(now) <==> over(entry.expires_at, now),
        part.stored().expired(now) <==> over(part.expires_at, now),
        part.stored().expires_at == part.expires_at,
{
}

/// A state gives the value of its entry, fresh or expired, and nothing where there is no entry.
pub proof fn law_state_gives_its_value<T>(entry: StoredEntry<T>)
    ensures
        State::Fresh(entry).value() == Some(entry.value),
        State::Expired(entry).value() == Some(entry.value),
        State::<T>::Missing.value() is None,
        State::Fresh(entry).expires_at() == Some(entry.expires_at),
        State::Expired(entry).expires_at() == Some(entry.expires_at),
        State::<T>::Missing.expires_at() is None,
{
}

/// What is written refers to what is stored: the same value, for the same time.
pub proof fn law_reference_is_faithful<T>(entry: StoredEntryRef<T>)
    ensures
        entry.entry().value == *entry.value,
        entry.entry().expires_at == entry.expires_at,
{
}

/// Whatever an insert gives to write has the key and the value that it was asked for, and expires
/// exactly as long after the insert as the age that it was asked for. There is nothing to write
/// exactly where that is outside the calendar.
pub proof fn law_insert_lasts_its_age<T>(
    write: Option<Write<T>>,
    key: Seq<u8>,
    now: Timestamp,
    age: Duration,
    value: T,
)
    requires
        now.valid(),
        age.valid(),
        written(write, key, now, age, value),
    ensures
        ({
            let total = now.total() + age.total();
            let first = -8_334_601_228_800 * 1_000_000_000;
            let last = 8_210_266_876_799 * 1_000_000_000 + 999_999_999;
            match write {
                Some(write) => {
                    &&& write.key@ == key
                    &&& *write.entry.value == value
                    &&& write.entry.expires_at.valid()
                    &&& write.entry.expires_at.total() == total
                },
                None => total < first || total > last,
            }
        }),
{
}

/// What an insert gave to write is what a load finds: fresh as long as its age is not over,
/// expired from then on, and always with the value that was inserted.
pub proof fn law_load_finds_what_insert_wrote<T>(
    db: Held<StoredEntry<T>>,
    write: Write<T>,
    key: Seq<u8>,
    now: Timestamp,
    age: Duration,
    value: T,
    later: Timestamp,
)
    requires
        now.valid(),
        age.valid(),
        later.valid(),
        written(Some(write), key, now, age, value),
    ensures
        ({
            let state = loaded(Ok(fetched(write.done(db), key)), later);
            let entry = StoredEntry { expires_at: write.entry.expires_at, value };
            &&& later.total() <= now.total() + age.total() ==> state == Ok::<State<T>, Error>(
                State::Fresh(entry),
            )
            &&& later.total() > now.total() + age.total() ==> state == Ok::<State<T>, Error>(
                State::Expired(entry),
            )
        }),
{
    law_load_finds_insert(db, write, key, now, age, value, later);
}

/// What a wrapped future gave to write is what the next call for the same key answers with, as
/// long as its age is not over.
pub proof fn law_next_call_answers_with_what_was_written<T, E>(
    db: Held<StoredEntry<T>>,
    driver: WrapView<T, E>,
    write: Write<T>,
    now: Timestamp,
    call: WrapView<T, E>,
    waker: WakerView,
    later: Timestamp,
)
    requires
        driver.wf(),
        driver.phase is Store,
        now.valid(),
        written(Some(write), driver.key, now, driver.age, driver.outcome->0->Ok_0),
        call.phase is Lookup,
        call.key == driver.key,
        later.valid(),
        later.total() <= now.total() + driver.age.total(),
    ensures
        call.asks(Event::Looked(loaded(Ok(fetched(write.done(db), call.key)), later)), waker)
            == Action::<T, E>::Return(Ok(driver.outcome->0->Ok_0)),
{
    law_stored_answer_is_returned(db, driver, write, now, call, waker, later);
}

/// The others answer with what the one that computed gave: a call that waited and is told to look
/// finds what was stored meanwhile, as long as its age is not over, and drives no future.
pub proof fn law_others_answer_with_what_was_computed<T, E>(
    db: Held<StoredEntry<T>>,
    driver: WrapView<T, E>,
    write: Write<T>,
    now: Timestamp,
    waiter: WrapView<T, E>,
    before: WakerView,
    waker: WakerView,
    later: Timestamp,
)
    requires
        driver.wf(),
        driver.phase is Store,
        now.valid(),
        written(Some(write), driver.key, now, driver.age, driver.outcome->0->Ok_0),
        waiter.phase is Wait,
        waiter.key == driver.key,
        later.valid(),
        later.total() <= now.total() + driver.age.total(),
    ensures
        ({
            let told = Event::<T, E>::Notified(Some(false));
            let looked = Event::<T, E>::Looked(
                loaded(Ok(fetched(write.done(db), driver.key)), later),
            );
            let call = waiter.next(told, before);
            &&& waiter.asks(told, before) is Look
            &&& call.asks(looked, waker) == Action::<T, E>::Return(Ok(driver.outcome->0->Ok_0))
            &&& call.next(looked, waker).phase is Done
        }),
{
    let call = waiter.next(Event::Notified(Some(false)), before);
    law_stored_answer_is_returned(db, driver, write, now, call, waker, later);
}

/// After a clean-up over the rows of a database, a key is there exactly if it was there before and
/// holds an entry that is not over yet, however long ago others expired. What is there is as it
/// was.
pub proof fn law_clean_up_goes_by_time(
    sweep: Sweep,
    rows: Seq<(Vec<u8>, Option<PartialStoredEntry>)>,
    db: Held<PartialStoredEntry>,
    key: Seq<u8>,
)
    requires
        enumerates(rows, db),
    ensures
        ({
            let after = swept(sweep, rows, db);
            let now = sweep.now();
            &&& after.contains_key(key) <==> db.contains_key(key) && db[key] is Some && !over(
                db[key]->0.expires_at,
                now,
            )
            &&& after.contains_key(key) ==> after[key] == db[key]
            &&& now.valid() && db.contains_key(key) && db[key] is Some
                && db[key]->0.expires_at.valid() ==> (after.contains_key(key) <==> now.total()
                <= db[key]->0.expires_at.total())
        }),
{
    law_clean_up_removes_stale(sweep, rows, db);
    assert(swept(sweep, rows, db).contains_key(key) ==> db.contains_key(key));
}

/// A clean-up removes a row exactly if it holds no entry or one that is over, and goes on at the
/// point in time at which it began, for the same cache. It ends at the end of the rows with that
/// cache, and at a failure of the database with that failure.
pub proof fn law_clean_up_goes_on(sweep: Sweep, event: SweepEvent)
    ensures
        match event {
            SweepEvent::Row(key, None) => {
                &&& sweep.next(event) is Remove
                &&& sweep.next(event)->Remove_0 == sweep
                &&& sweep.next(event)->Remove_1.key == key
            },
            SweepEvent::Row(key, Some(entry)) => {
                &&& over(entry.expires_at, sweep.now()) ==> {
                    &&& sweep.next(event) is Remove
                    &&& sweep.next(event)->Remove_0 == sweep
                    &&& sweep.next(event)->Remove_1.key == key
                }
                &&& !over(entry.expires_at, sweep.now()) ==> sweep.next(event)
                    == SweepAction::Next(sweep)
            },
            SweepEvent::Removed => sweep.next(event) == SweepAction::Next(sweep),
            SweepEvent::RowFailed(e) => sweep.next(event) == SweepAction::Finish(
                Err(Error::Sled(e)),
            ),
            SweepEvent::RemovalFailed(e) => sweep.next(event) == SweepAction::Finish(
                Err(Error::Sled(e)),
            ),
            SweepEvent::End => sweep.next(event) == SweepAction::Finish(Ok(sweep.cache())),
        },
{
}

/// The places are some of so many, in their order.
pub open spec fn picks(places: Seq<int>, rows: nat) -> bool {
    &&& forall|j: int| 0 <= j < places.len() ==> 0 <= #[trigger] places[j] < rows
    &&& forall|j: int, k: int|
        0 <= j < k < places.len() ==> #[trigger] places[j] < #[trigger] places[k]
}

/// The entries are those in the rows at the places, and no other row has a key that is JSON and
/// an entry.
pub open spec fn lists(rows: Seq<Row>, places: Seq<int>, entries: Seq<JsonEntry>) -> bool {
    &&& picks(places, rows.len())
    &&& places.len() == entries.len()
    &&& forall|j: int|
        0 <= j < entries.len() ==> {
            &&& cbor_json(rows[places[j]]->Ok_0.0@) == Some((#[trigger] entries[j]).key)
            &&& rows[places[j]]->Ok_0.1 == Some(entries[j].stored)
        }
    &&& forall|i: int|
        0 <= i < rows.len() && !places.contains(i) ==> cbor_json((#[trigger] rows[i])->Ok_0.0@)
            is None || rows[i]->Ok_0.1 is None
}

/// The entries are those of all the rows that have a key that is JSON and an entry, in the order
/// of the rows.
pub open spec fn complete(rows: Seq<Row>, entries: Seq<JsonEntry>) -> bool {
    exists|places: Seq<int>| #[trigger] lists(rows, places, entries)
}

/// A list holds the entry of every row whose key is JSON and that holds one, whatever its
/// namespace, in the order of the rows, and nothing else.
pub proof fn law_list_holds_every_entry(rows: Seq<Row>, entries: Seq<JsonEntry>) -> (places: Seq<
    int,
>)
    requires
        forall|i: int| 0 <= i < rows.len() ==> #[trigger] rows[i] is Ok,
        entries == rows.filter_map(|row: Row| listed(row)),
    ensures
        places.len() == entries.len(),
        forall|j: int| 0 <= j < places.len() ==> 0 <= #[trigger] places[j] < rows.len(),
        forall|j: int, k: int|
            0 <= j < k < places.len() ==> #[trigger] places[j] < #[trigger] places[k],
        forall|j: int|
            0 <= j < entries.len() ==> {
                &&& cbor_json(rows[places[j]]->Ok_0.0@) == Some((#[trigger] entries[j]).key)
                &&& rows[places[j]]->Ok_0.1 == Some(entries[j].stored)
            },
        forall|i: int|
            0 <= i < rows.len() && cbor_json((#[trigger] rows[i])->Ok_0.0@) is Some
                && rows[i]->Ok_0.1 is Some ==> places.contains(i),
        lists(rows, places, entries),
    decreases rows.len(),
{
    if rows.len() == 0 {
        Seq::empty()
    } else {
        let fewer = rows.drop_last();
        let last = rows.len() - 1;
        let listing = |row: Row| listed(row);
        let before = fewer.filter_map(listing);
        assert forall|i: int| 0 <= i < fewer.len() implies #[trigger] fewer[i] is Ok by {
            assert(rows[i] is Ok);
        }
        let head = law_list_holds_every_entry(fewer, before);
        assert(rows[last] is Ok);
        assert(forall|i: int| 0 <= i < last ==> #[trigger] rows[i] == fewer[i]);
        let row = rows[last]->Ok_0;
        if cbor_json(row.0@) is Some && row.1 is Some {
            let places = head.push(last);
            assert(entries =~= before.push(
                JsonEntry { key: cbor_json(row.0@)->0, stored: row.1->0 },
            ));
            assert forall|i: int|
                0 <= i < rows.len() && cbor_json((#[trigger] rows[i])->Ok_0.0@) is Some
                    && rows[i]->Ok_0.1 is Some implies places.contains(i) by {
                if i < last {
                    assert(head.contains(i));
                    let j = choose|j: int| 0 <= j < head.len() && head[j] == i;
                    assert(places[j] == i);
                } else {
                    assert(places[head.len() as int] == i);
                }
            }
            places
        } else {
            assert(entries =~= before);
            head
        }
    }
}

/// An entry is listed exactly if its key is JSON and it holds one, and with both as they are.
pub proof fn law_json_entry_needs_both(
    key: Option<serde_json::Value>,
    stored: Option<StoredEntry<serde_json::Value>>,
)
    ensures
        JsonEntry::paired(key, stored) is Some <==> key is Some && stored is Some,
        key is Some && stored is Some ==> {
            &&& JsonEntry::paired(key, stored)->0.key == key->0
            &&& JsonEntry::paired(key, stored)->0.stored == stored->0
        },
{
}

/// A key of the database is an array of two: the namespace, or null where there is none, and the
/// normal form of the key, in the encoding of each.
pub proof fn law_key_is_a_pair(
    ns: Option<serde_hashkey::Key>,
    key: Serialized,
    bytes: Seq<u8>,
)
    requires
        key_accepted(ns, key, bytes),
    ensures
        key is Ok,
        key_cbor(normal_key(key->Ok_0)) is Some,
        ns is None ==> bytes == seq![0x82u8, 0xf6u8] + key_cbor(normal_key(key->Ok_0))->0,
        ns is Some ==> key_cbor(ns->0) is Some && bytes == seq![0x82u8] + key_cbor(ns->0)->0
            + key_cbor(normal_key(key->Ok_0))->0,
{
    if ns is None {
        assert(seq![0x82u8] + seq![0xf6u8] =~= seq![0x82u8, 0xf6u8]);
    }
}

/// A reference to a namespace stands for that namespace, and none for none.
pub proof fn law_namespace_is_referred_to(ns: serde_hashkey::Key)
    ensures
        referred(Some(&ns)) == Some(ns),
        referred(None) is None,
{
}

/// A key is refused only because it was not serialized, and then with that failure, or because it
/// or its namespace has no encoding. It is never both accepted and refused.
pub proof fn law_key_is_refused_for_a_reason(
    ns: Option<serde_hashkey::Key>,
    key: Serialized,
    error: Error,
    bytes: Seq<u8>,
)
    requires
        key_refused(ns, key, error),
    ensures
        !key_accepted(ns, key, bytes),
        match key {
            Err(e) => error == Error::HashKey(e),
            Ok(key) => error is Cbor && (key_cbor(normal_key(key)) is None || ns is Some
                && key_cbor(ns->0) is None),
        },
{
}

/// Data has a text in JSON exactly if it decodes and what it decodes to has one.
pub proof fn law_json_of_data(data: Seq<u8>)
    ensures
        cbor_value(data) is None ==> json_of(data) is None,
        cbor_value(data) is Some ==> json_of(data) == json_text(cbor_value(data)->0),
{
}

/// The text of an error begins with where it comes from, and ends with what the underlying error
/// says.
pub proof fn law_error_tells_its_origin(error: Error, detail: Seq<char>)
    ensures
        error is Cbor ==> error.source().told(detail) == "CBOR error: "@ + detail,
        error is HashKey ==> error.source().told(detail) == "HashKey error: "@ + detail,
        error is Json ==> error.source().told(detail) == "JSON error: "@ + detail,
        error is Sled ==> error.source().told(detail) == "Database error: "@ + detail,
        error is Failed ==> error.source().told(detail) == "Operation failed"@,
{
}

/// What an error displays is what the underlying error displays.
pub proof fn law_error_displays_the_underlying(error: Error, detail: String)
    ensures
        error.displays(detail) <==> match error {
            Error::Cbor(e) => to_string_from_display_ensures(&e, detail),
            Error::HashKey(e) => to_string_from_display_ensures(&e, detail),
            Error::Json(e) => to_string_from_display_ensures(&e, detail),
            Error::Sled(e) => to_string_from_display_ensures(&e, detail),
            Error::Failed => false,
        },
{
}

/// An underlying error is kept when it becomes an error of the cache.
pub proof fn law_underlying_error_is_kept(
    cbor: serde_cbor::Error,
    key: serde_hashkey::Error,
    json: serde_json::Error,
    sled: sled::Error,
)
    ensures
        <Error as FromSpec<serde_cbor::Error>>::from_spec(cbor) == Error::Cbor(cbor),
        <Error as FromSpec<serde_hashkey::Error>>::from_spec(key) == Error::HashKey(key),
        <Error as FromSpec<serde_json::Error>>::from_spec(json) == Error::Json(json),
        <Error as FromSpec<sled::Error>>::from_spec(sled) == Error::Sled(sled),
{
}

}
