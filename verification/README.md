# futures-cache

A cache for asynchronous operations that persists its entries in a [sled] database. A call hands
the cache a key, an age and a future. If the database holds a fresh answer for the key, that
answer is returned and the future is not driven. Of several calls that are after the same answer,
one drives its future and the others wait for it.

Keys are anything that [serde] can serialize. Sub-components of a program keep their entries
apart by namespaces.

## Layout

- `src/` holds the decisions of the cache, verified with [Verus]:
  - `cache` turns keys into keys of the database, and says what to read, write and remove there;
  - `entry` and `time` hold entries and the points in time at which they expire;
  - `waker` counts the calls that are after the same answer and queues those that wait;
  - `wrap` takes one wrapped future from one decision to the next;
  - `error` and `format` turn errors and keys into text;
  - `outside` states what is believed of the crates that the decisions call;
  - `crowd` and `store` hold the laws: that one call computes and nobody waits in vain, and that
    reads find what was written.
- `app/` performs the decisions: it reads and writes the database, encodes entries, waits, drives
  futures and logs.
- `tests/` runs the decisions over a real database and real channels.

[sled]: https://github.com/spacejam/sled
[serde]: https://docs.rs/serde
[Verus]: https://github.com/verus-lang/verus
