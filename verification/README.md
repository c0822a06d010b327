# compio-driver

The bookkeeping of completion-based IO, verified with Verus.

An operation is created, handed to a platform driver, completed by it, and popped
with its result, or cancelled on the way. The library keeps the operations, finds
them by their user data, and decides what happens to them; the driver does the IO.

- `src/proactor.rs`, `src/entry.rs`: what is done to operations. The functions take
  what the driver replied and say what the driver is to be told.
- `src/op.rs`, `src/operations.rs`, `src/key.rs`: one operation, all of them, and
  the keys to them.
- `src/state.rs`: the same as functions on maps, which the contracts speak of.
- `src/laws.rs`, `src/history.rs`, `src/owners.rs`: what holds of any sequence of
  calls. An operation stays exactly as long as its key is held or the driver works
  on it, and each is handed back or released once.
- `src/builder.rs`, `src/time_span.rs`: the configuration.
- `src/syscall.rs`: what becomes of the return values of system calls.
- `src/buffer_pool.rs`: the size of buffer pools.
- `app/`: the proactor on top of a driver, which makes the calls.

The operations of one proactor have one type. Where they differ, that type is an
enum or a boxed trait object, and `app/` turns it back into what was pushed.

A key is good only with the proactor that made it. Each proactor has an id, which
its keys carry; `app/` gives every proactor of a process another one.
