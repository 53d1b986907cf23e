//! Futures-aware cache abstraction
//!
//! The decisions of a cache for asynchronous operations that persists data in a database. The
//! cache accepts a future, but does not drive it in case the answer is already in the database.
//! Of the calls that are after the same answer only one drives its future, and the others wait
//! for it.
//!
//! Reading the database, waiting, and driving futures is up to whoever uses these decisions:
//! - [Cache] turns keys into keys of the database, says what to read, write and remove there,
//!   and what the rows that were read mean.
//! - [Sweep] goes over a database and removes stale entries, and gives the [Cache] at the end.
//! - [Wrap] is the course of one wrapped future. It says what to do next, and is told what
//!   came of it.
//!
//! Keys are anything that `serde` can serialize, in the form that `serde_hashkey` gives them;
//! [Cache::serialize_text] gives it to strings, [Cache::serialize_list] to lists and
//! [Cache::serialize_map] to maps. To distinguish across different sub-components
//! of the cache, they can be namespaced using [Cache::namespaced].

pub mod cache;
pub mod clock;
pub mod crowd;
pub mod entry;
pub mod error;
pub mod format;
pub mod outcomes;
pub mod outside;
pub mod steps;
pub mod store;
pub mod time;
pub mod waker;
pub mod wrap;

pub use cache::{Cache, Fetch, Read, Removal, Row, Serialized, Write};
pub use cache::{Sweep, SweepAction, SweepEvent};
pub use entry::{Fetched, JsonEntry, PartialStoredEntry, State, StoredEntry, StoredEntryRef};
pub use error::{Error, Origin};
pub use format::KeyFormat;
pub use time::{Duration, Timestamp};
pub use waker::{Cleanup, Signal, Stage, Waker, Wakers};
pub use wrap::{Action, Event, Failure, Paused, Phase, Wrap};
