# connection_pool

Connection pools for asynchronous Rust whose bookkeeping is verified with
Verus.

- `src/` is the verified library: the idle queues with their time stamps
  (`idle`), the configuration, errors and decisions of each pool
  (`connection_pool`, `generic_pool`, `improved_pool`, `simple_pool`,
  `mpool`), and time arithmetic on nanosecond counts (`time`).
- `app/` holds the asynchronous pools built on tokio: they hold the library's
  state behind a mutex, run the awaits (connecting, validating, timeouts,
  background tasks) and hand each result to the library, which decides what
  happens next.
- `tests/` exercises the library on concrete values.

Durations and points in time are nanosecond counts (`u128`); the pools in
`app/` convert from and to `std::time`.
