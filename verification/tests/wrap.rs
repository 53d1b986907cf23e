use futures_cache::{
    Action, Cache, Duration, Error, Event, Failure, Fetch, Fetched, PartialStoredEntry, Phase,
    Serialized, StoredEntry, SweepAction, SweepEvent, Timestamp, Wrap, Write,
};
use futures_channel::oneshot;
use std::collections::HashMap;
use std::future::Future;
use std::pin::Pin;
use std::sync::atomic::{AtomicU64, AtomicUsize, Ordering};
use std::sync::{Arc, Mutex};
use std::task::{Context, Poll};

const HOURS_12: Duration = Duration { secs: 43200, nanos: 0 };

/// A cache over a real database, with real channels.
struct Store {
    cache: Mutex<Cache>,
    db: sled::Tree,
    senders: Mutex<HashMap<u64, oneshot::Sender<bool>>>,
    tickets: AtomicU64,
}

/// Sends the messages of a clean-up when a driven future goes away early.
struct Guard<'a> {
    store: &'a Store,
    wrap: &'a mut Wrap<String, Error>,
    armed: bool,
}

impl Drop for Guard<'_> {
    fn drop(&mut self) {
        if self.armed {
            let mut action = self.store.resume(self.wrap, Event::Dropped);
            loop {
                match action {
                    Action::Notify(ticket, error) => self.store.notify(ticket, error),
                    Action::Tick => {}
                    Action::Cancelled => return,
                    _ => unreachable!(),
                }
                action = self.store.resume(self.wrap, Event::Tick);
            }
        }
    }
}

fn serialized(key: &str) -> Serialized {
    serde_hashkey::to_key(&key)
}

fn decode(bytes: &[u8]) -> Option<StoredEntry<String>> {
    let (secs, nanos, value): (i64, u32, String) = serde_cbor::from_slice(bytes).ok()?;
    Some(StoredEntry { expires_at: Timestamp { secs, nanos }, value })
}

fn encode(write: &Write<'_, String>) -> Vec<u8> {
    let at = write.entry.expires_at;
    serde_cbor::to_vec(&(at.secs, at.nanos, write.entry.value)).expect("encoded entry")
}

impl Store {
    fn db() -> sled::Tree {
        let db = sled::Config::new().temporary(true).open().expect("open database");
        db.open_tree("test").expect("open tree")
    }

    fn load(db: sled::Tree) -> Result<Store, Error> {
        let mut rows = db.range::<&[u8], _>(..);
        let mut action = SweepAction::Next(Cache::load());
        let cache = loop {
            let (sweep, event) = match action {
                SweepAction::Next(sweep) => match rows.next() {
                    None => (sweep, SweepEvent::End),
                    Some(Err(e)) => (sweep, SweepEvent::RowFailed(e)),
                    Some(Ok((key, value))) => {
                        let entry = decode(&value);
                        let part = entry.map(|e| PartialStoredEntry { expires_at: e.expires_at });
                        (sweep, SweepEvent::Row(key.to_vec(), part))
                    }
                },
                SweepAction::Remove(sweep, removal) => match db.remove(removal.key) {
                    Ok(_) => (sweep, SweepEvent::Removed),
                    Err(e) => (sweep, SweepEvent::RemovalFailed(e)),
                },
                SweepAction::Finish(result) => break result?,
            };
            action = sweep.cleanup(event);
        };
        Ok(Store {
            cache: Mutex::new(cache),
            db,
            senders: Mutex::new(HashMap::new()),
            tickets: AtomicU64::new(0),
        })
    }

    fn fetch(&self, key: &[u8]) -> Fetch<StoredEntry<String>> {
        Ok(match self.db.get(key)? {
            None => Fetched::Absent,
            Some(bytes) => match decode(&bytes) {
                Some(entry) => Fetched::Entry(entry),
                None => Fetched::Malformed,
            },
        })
    }

    fn resume(&self, wrap: &mut Wrap<String, Error>, event: Event<String, Error>) -> Action<String, Error> {
        wrap.resume(&mut self.cache.lock().unwrap(), event)
    }

    fn notify(&self, ticket: u64, error: bool) {
        if let Some(sender) = self.senders.lock().unwrap().remove(&ticket) {
            let _ = sender.send(error);
        }
    }

    fn pending(&self, key: &str) -> usize {
        let mut cache = self.cache.lock().unwrap();
        let key = cache.key(serialized(key)).expect("key");
        cache.waker(&key).pending()
    }

    async fn wrap<F>(&self, key: &str, age: Duration, future: F) -> Result<String, Error>
    where
        F: Future<Output = Result<String, Error>>,
    {
        let mut wrap = self.cache.lock().unwrap().wrap(serialized(key), age)?;
        let mut future = Some(future);
        let mut receiver = None;
        let mut action = Action::Look;
        loop {
            let event = match action {
                Action::Look => Event::Looked(Cache::inner_get(self.fetch(wrap.key()))),
                Action::Open => {
                    let (tx, rx) = oneshot::channel();
                    let ticket = self.tickets.fetch_add(1, Ordering::SeqCst);
                    self.senders.lock().unwrap().insert(ticket, tx);
                    receiver = Some(rx);
                    Event::Opened(ticket)
                }
                Action::Wait => Event::Notified(receiver.take().expect("channel").await.ok()),
                Action::Drive => {
                    let future = future.take().expect("future");
                    let mut guard = Guard { store: self, wrap: &mut wrap, armed: true };
                    let output = future.await;
                    guard.armed = false;
                    Event::Computed(output)
                }
                Action::Store => {
                    let write = wrap.write().expect("an expiry in the calendar");
                    let bytes = encode(&write);
                    Event::Stored(match self.db.insert(write.key, bytes) {
                        Ok(_) => Ok(()),
                        Err(e) => Err(Error::from(e)),
                    })
                }
                Action::Notify(ticket, error) => {
                    self.notify(ticket, error);
                    Event::Tick
                }
                Action::Tick => Event::Tick,
                Action::Return(Ok(output)) => return Ok(output),
                Action::Return(Err(Failure::Cache(e))) | Action::Return(Err(Failure::Future(e))) => {
                    return Err(e)
                }
                Action::Cancelled => unreachable!(),
            };
            action = self.resume(&mut wrap, event);
        }
    }
}

/// Polls a future once.
struct PollOnce<'a, F>(Pin<&'a mut F>);

impl<F: Future> Future for PollOnce<'_, F> {
    type Output = Option<F::Output>;

    fn poll(mut self: Pin<&mut Self>, cx: &mut Context<'_>) -> Poll<Self::Output> {
        match self.0.as_mut().poll(cx) {
            Poll::Ready(output) => Poll::Ready(Some(output)),
            Poll::Pending => Poll::Ready(None),
        }
    }
}

#[test]
fn test_cached() {
    let cache = Store::load(Store::db()).expect("loaded cache");

    let count = Arc::new(AtomicUsize::default());

    let c = count.clone();

    let op1 = cache.wrap("a", HOURS_12, async move {
        let _ = c.fetch_add(1, Ordering::SeqCst);
        Ok::<_, Error>(String::from("foo"))
    });

    let c = count.clone();

    let op2 = cache.wrap("a", HOURS_12, async move {
        let _ = c.fetch_add(1, Ordering::SeqCst);
        Ok::<_, Error>(String::from("foo"))
    });

    futures::executor::block_on(async move {
        let (a, b) = futures::future::join(op1, op2).await;
        assert_eq!("foo", a.expect("ok result"));
        assert_eq!("foo", b.expect("ok result"));
        assert_eq!(1, count.load(Ordering::SeqCst));
    });
}

#[test]
fn test_guards() {
    let cache = Store::load(Store::db()).expect("loaded cache");

    futures::executor::block_on(async move {
        let (op1_tx, op1_rx) = oneshot::channel::<()>();

        let mut op1 = Box::pin(cache.wrap("a", HOURS_12, async move {
            let _ = op1_rx.await;
            Ok::<_, Error>(String::from("foo"))
        }));

        let (op2_tx, op2_rx) = oneshot::channel::<()>();

        let mut op2 = Box::pin(cache.wrap("a", HOURS_12, async move {
            let _ = op2_rx.await;
            Ok::<_, Error>(String::from("foo"))
        }));

        assert!(PollOnce(op1.as_mut()).await.is_none());

        assert_eq!(1, cache.pending("a"));
        assert!(PollOnce(op2.as_mut()).await.is_none());
        assert_eq!(2, cache.pending("a"));

        op1_tx.send(()).expect("send to op1");
        op2_tx.send(()).expect("send to op2");

        assert!(PollOnce(op1.as_mut()).await.is_some());
        assert_eq!(0, cache.pending("a"));
        assert!(PollOnce(op2.as_mut()).await.is_some());
    });
}

#[test]
fn many_calls_drive_one_future() {
    let cache = Store::load(Store::db()).expect("loaded cache");
    let count = AtomicUsize::default();
    let mut ops = Vec::new();
    for _ in 0..1_000 {
        ops.push(cache.wrap("a", HOURS_12, async {
            let _ = count.fetch_add(1, Ordering::SeqCst);
            Ok::<_, Error>(String::from("foo"))
        }));
    }
    for result in futures::executor::block_on(futures::future::join_all(ops)) {
        assert_eq!("foo", result.expect("ok result"));
    }
    assert_eq!(1, count.load(Ordering::SeqCst));
}

#[test]
fn many_calls_wait_for_one_future() {
    let cache = Store::load(Store::db()).expect("loaded cache");
    let count = AtomicUsize::default();
    let (tx, rx) = oneshot::channel::<()>();
    let mut rx = Some(rx);
    let mut ops = Vec::new();
    for _ in 0..1_000 {
        let rx = rx.take();
        let count = &count;
        ops.push(Box::pin(cache.wrap("a", HOURS_12, async move {
            let _ = count.fetch_add(1, Ordering::SeqCst);
            if let Some(rx) = rx {
                let _ = rx.await;
            }
            Ok::<_, Error>(String::from("foo"))
        })));
    }
    futures::executor::block_on(async {
        for (i, op) in ops.iter_mut().enumerate() {
            assert!(PollOnce(op.as_mut()).await.is_none());
            assert_eq!(i + 1, cache.pending("a"));
        }
        // Those that go away while they wait change nothing.
        ops.truncate(900);
        assert_eq!(1_000, cache.pending("a"));
        tx.send(()).expect("send to the driven future");
        assert!(PollOnce(ops[0].as_mut()).await.is_some());
        assert_eq!(0, cache.pending("a"));
        for op in ops.iter_mut().skip(1) {
            let answer = PollOnce(op.as_mut()).await.expect("an answer");
            assert_eq!("foo", answer.expect("ok result"));
        }
    });
    assert_eq!(1, count.load(Ordering::SeqCst));
}

#[test]
fn a_paused_call_goes_on_where_it_stood() {
    let (mut cache, mut first) = started();
    assert!(matches!(first.resume(&mut cache, looked(None)), Action::Look));
    assert!(matches!(first.resume(&mut cache, looked(None)), Action::Drive));
    let key = first.key().clone();
    let mut first: Wrap<String, u8> = first.pause().wake();
    assert_eq!(Phase::Drive, first.phase());
    assert_eq!(&key, first.key());
    let action = first.resume(&mut cache, Event::Computed(Ok(String::from("foo"))));
    assert!(matches!(action, Action::Store));
    let write = first.write().expect("an expiry in the calendar");
    assert!(write.entry.expires_at.secs >= HOURS_12.secs);
}

#[test]
fn a_dropped_future_lets_the_next_call_compute() {
    let cache = Store::load(Store::db()).expect("loaded cache");
    futures::executor::block_on(async {
        let (_tx, rx) = oneshot::channel::<()>();
        let mut op1 = Box::pin(cache.wrap("a", HOURS_12, async move {
            let _ = rx.await;
            Ok::<_, Error>(String::from("never"))
        }));
        let mut op2 = Box::pin(cache.wrap("a", HOURS_12, async {
            Ok::<_, Error>(String::from("second"))
        }));
        assert!(PollOnce(op1.as_mut()).await.is_none());
        assert!(PollOnce(op2.as_mut()).await.is_none());
        assert_eq!(2, cache.pending("a"));
        drop(op1);
        assert_eq!(0, cache.pending("a"));
        let answer = PollOnce(op2.as_mut()).await.expect("an answer");
        assert_eq!("second", answer.expect("ok result"));
        assert_eq!(0, cache.pending("a"));
    });
}

#[test]
fn a_failed_future_fails_those_that_wait() {
    let cache = Store::load(Store::db()).expect("loaded cache");
    futures::executor::block_on(async {
        let (tx, rx) = oneshot::channel::<()>();
        let mut op1 = Box::pin(cache.wrap("a", HOURS_12, async move {
            let _ = rx.await;
            Err(Error::from(sled::Error::Unsupported(String::from("op1"))))
        }));
        let mut op2 = Box::pin(cache.wrap("a", HOURS_12, async {
            Ok::<_, Error>(String::from("foo"))
        }));
        assert!(PollOnce(op1.as_mut()).await.is_none());
        assert!(PollOnce(op2.as_mut()).await.is_none());
        tx.send(()).expect("send to op1");
        let first = PollOnce(op1.as_mut()).await.expect("an answer");
        assert!(matches!(first, Err(Error::Sled(_))));
        let second = PollOnce(op2.as_mut()).await.expect("an answer");
        assert!(matches!(second, Err(Error::Failed)));
        assert_eq!(0, cache.pending("a"));
        let third = cache.wrap("a", HOURS_12, async { Ok(String::from("foo")) }).await;
        assert_eq!("foo", third.expect("ok result"));
    });
}

#[test]
fn an_expired_answer_is_computed_again() {
    let cache = Store::load(Store::db()).expect("loaded cache");
    futures::executor::block_on(async {
        let over = Duration { secs: -1, nanos: 0 };
        let first = cache.wrap("a", over, async { Ok(String::from("first")) }).await;
        assert_eq!("first", first.expect("ok result"));
        let second = cache.wrap("a", HOURS_12, async { Ok(String::from("second")) }).await;
        assert_eq!("second", second.expect("ok result"));
        let third = cache.wrap("a", HOURS_12, async { Ok(String::from("third")) }).await;
        assert_eq!("second", third.expect("ok result"));
    });
}

#[test]
fn loading_removes_what_is_stale() {
    let db = Store::db();
    let cache = Store::load(db.clone()).expect("loaded cache");
    futures::executor::block_on(async {
        let over = Duration { secs: -1, nanos: 0 };
        let _ = cache.wrap("over", over, async { Ok(String::from("foo")) }).await;
        let _ = cache.wrap("kept", HOURS_12, async { Ok(String::from("foo")) }).await;
    });
    db.insert(b"weird", b"weird").expect("inserted row");
    assert_eq!(3, db.len());
    let cache = Store::load(db.clone()).expect("loaded cache");
    assert_eq!(1, db.len());
    let kept = cache.cache.lock().unwrap().key(serialized("kept")).expect("key");
    assert!(db.contains_key(kept).expect("read row"));
}

fn empty() -> Cache {
    match Cache::load().cleanup(SweepEvent::End) {
        SweepAction::Finish(Ok(cache)) => cache,
        _ => unreachable!(),
    }
}

fn started() -> (Cache, Wrap<String, u8>) {
    let cache = empty();
    let wrap = cache.wrap(serialized("a"), HOURS_12).expect("wrap");
    (cache, wrap)
}

fn looked(entry: Option<&str>) -> Event<String, u8> {
    let fetched = match entry {
        Some(value) => Fetched::Entry(StoredEntry {
            expires_at: Timestamp { secs: 10, nanos: 0 },
            value: String::from(value),
        }),
        None => Fetched::Absent,
    };
    Event::Looked(Cache::inner_get_at(Ok(fetched), Timestamp { secs: 10, nanos: 0 }))
}

fn broken() -> sled::Error {
    sled::Error::Unsupported(String::from("broken"))
}

#[test]
fn a_fresh_answer_is_returned_at_once() {
    let (mut cache, mut wrap) = started();
    let action = wrap.resume(&mut cache, looked(Some("foo")));
    assert!(matches!(action, Action::Return(Ok(value)) if value == "foo"));
    assert_eq!(Phase::Done, wrap.phase());
    let key = wrap.key().clone();
    assert_eq!(0, cache.waker(&key).pending());
}

#[test]
fn a_failed_look_ends_the_call() {
    let (mut cache, mut wrap) = started();
    let action = wrap.resume(&mut cache, Event::Looked(Err(Error::from(broken()))));
    assert!(matches!(action, Action::Return(Err(Failure::Cache(Error::Sled(_))))));
    assert_eq!(Phase::Done, wrap.phase());
}

#[test]
fn an_answer_that_comes_late_is_returned_after_a_clean_up() {
    let (mut cache, mut wrap) = started();
    assert!(matches!(wrap.resume(&mut cache, looked(None)), Action::Look));
    assert_eq!(Phase::Recheck, wrap.phase());
    let key = wrap.key().clone();
    assert_eq!(1, cache.waker(&key).pending());
    assert!(matches!(wrap.resume(&mut cache, looked(Some("foo"))), Action::Tick));
    assert!(matches!(wrap.resume(&mut cache, Event::Tick), Action::Tick));
    let action = wrap.resume(&mut cache, Event::Tick);
    assert!(matches!(action, Action::Return(Ok(value)) if value == "foo"));
    assert_eq!(0, cache.waker(&key).pending());
}

#[test]
fn a_failure_of_the_cache_leaves_the_driver_enrolled() {
    let (mut cache, mut wrap) = started();
    let key = wrap.key().clone();
    assert!(matches!(wrap.resume(&mut cache, looked(None)), Action::Look));
    let action = wrap.resume(&mut cache, Event::Looked(Err(Error::from(broken()))));
    assert!(matches!(action, Action::Return(Err(Failure::Cache(Error::Sled(_))))));
    assert_eq!(1, cache.waker(&key).pending());

    let (mut cache, mut wrap) = started();
    assert!(matches!(wrap.resume(&mut cache, looked(None)), Action::Look));
    assert!(matches!(wrap.resume(&mut cache, looked(None)), Action::Drive));
    let action = wrap.resume(&mut cache, Event::Computed(Ok(String::from("foo"))));
    assert!(matches!(action, Action::Store));
    let write = wrap.write().expect("an expiry in the calendar");
    assert_eq!(&key, &write.key);
    assert_eq!("foo", write.entry.value);
    let action = wrap.resume(&mut cache, Event::Stored(Err(Error::from(broken()))));
    assert!(matches!(action, Action::Return(Err(Failure::Cache(Error::Sled(_))))));
    assert_eq!(1, cache.waker(&key).pending());
}

#[test]
fn a_key_that_cannot_be_serialized_is_not_wrapped() {
    let cache = empty();
    let wrap = cache.wrap::<String, u8>(serde_hashkey::to_key(&1.5f32), HOURS_12);
    assert!(matches!(wrap, Err(Error::HashKey(_))));
}

#[test]
fn a_call_waits_with_its_ticket() {
    let (mut cache, mut first) = started();
    let mut second: Wrap<String, u8> = cache.wrap(serialized("a"), HOURS_12).expect("wrap");
    assert!(matches!(first.resume(&mut cache, looked(None)), Action::Look));
    assert!(matches!(second.resume(&mut cache, looked(None)), Action::Open));
    assert_eq!(Phase::Park, second.phase());
    assert!(matches!(second.resume(&mut cache, Event::Opened(7)), Action::Wait));
    assert_eq!(Phase::Wait(7), second.phase());
    assert!(matches!(first.resume(&mut cache, looked(None)), Action::Drive));
    assert!(matches!(first.resume(&mut cache, Event::Computed(Err(3))), Action::Tick));
    assert!(matches!(first.resume(&mut cache, Event::Tick), Action::Tick));
    assert!(matches!(first.resume(&mut cache, Event::Tick), Action::Notify(7, true)));
    assert!(matches!(
        second.resume(&mut cache, Event::Notified(Some(true))),
        Action::Return(Err(Failure::Cache(Error::Failed)))
    ));
    let mut ticks = 0;
    let action = loop {
        match first.resume(&mut cache, Event::Tick) {
            Action::Tick => ticks += 1,
            action => break action,
        }
    };
    assert!(matches!(action, Action::Return(Err(Failure::Future(3)))));
    assert_eq!(4, ticks);
}

#[test]
fn calls_for_different_keys_do_not_meet() {
    let (mut cache, mut first) = started();
    let mut second: Wrap<String, u8> = cache.wrap(serialized("b"), HOURS_12).expect("wrap");
    assert!(matches!(first.resume(&mut cache, looked(None)), Action::Look));
    assert!(matches!(second.resume(&mut cache, looked(None)), Action::Look));
    let (a, b) = (first.key().clone(), second.key().clone());
    assert_eq!(1, cache.waker(&a).pending());
    assert_eq!(1, cache.waker(&b).pending());
    assert_eq!(1, cache.waker(&a).pending());
}
