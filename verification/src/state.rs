//! How the operations in flight change, as functions on the map from user data
//! to operation.
use std::io;
use std::task::Waker;

use vstd::prelude::*;

use crate::entry::Entry;
use crate::key::Key;
use crate::op::{BufResult, RawOp};
use crate::proactor::CancelAction;
use crate::push_entry::PushEntry;
use crate::syscall::Poll;

verus! {

/// No operation is both completed and cancelled: such an operation is of no use
/// to the driver nor to anyone who waits, and is gone.
pub open spec fn no_spent<T>(ops: Map<usize, RawOp<T>>) -> bool {
    forall|k: usize| #[trigger]
        ops.contains_key(k) ==> !(ops[k].cancelled && ops[k].completed())
}

/// After the driver worked on the operation and left it as `op`.
pub open spec fn after_work<T>(
    ops: Map<usize, RawOp<T>>,
    user_data: usize,
    op: T,
) -> Map<usize, RawOp<T>> {
    ops.insert(user_data, RawOp { op, ..ops[user_data] })
}

/// After the driver replied to the submission of the operation.
pub open spec fn after_push<T>(
    ops: Map<usize, RawOp<T>>,
    key: Key,
    reply: Poll<Result<usize, io::Error>>,
) -> Map<usize, RawOp<T>> {
    match reply {
        Poll::Pending => ops,
        Poll::Ready(_) => ops.remove(key.user_data()),
    }
}

/// What pushing the operation yields, once the driver replied.
pub open spec fn push_result<T>(
    ops: Map<usize, RawOp<T>>,
    key: Key,
    reply: Poll<Result<usize, io::Error>>,
) -> PushEntry<Key, BufResult<usize, T>> {
    match reply {
        Poll::Pending => PushEntry::Pending(key),
        Poll::Ready(res) => PushEntry::Ready(BufResult(res, ops[key.user_data()].op)),
    }
}

/// After the operation is cancelled.
pub open spec fn after_cancel<T>(ops: Map<usize, RawOp<T>>, key: Key) -> Map<usize, RawOp<T>> {
    let raw = ops[key.user_data()];
    if raw.completed() {
        ops.remove(key.user_data())
    } else {
        ops.insert(key.user_data(), RawOp { cancelled: true, ..raw })
    }
}

/// What cancelling the operation yields.
pub open spec fn cancel_result<T>(ops: Map<usize, RawOp<T>>, key: Key) -> CancelAction<T> {
    let raw = ops[key.user_data()];
    if raw.completed() {
        CancelAction::Return(raw.outcome())
    } else {
        CancelAction::Forward(key.user_data())
    }
}

/// After the operation is popped, or was tried to be.
pub open spec fn after_pop<T>(ops: Map<usize, RawOp<T>>, key: Key) -> Map<usize, RawOp<T>> {
    if ops[key.user_data()].completed() {
        ops.remove(key.user_data())
    } else {
        ops
    }
}

/// What popping the operation, or trying to, yields.
pub open spec fn pop_result<T>(ops: Map<usize, RawOp<T>>, key: Key) -> PushEntry<
    Key,
    (BufResult<usize, T>, u32),
> {
    let raw = ops[key.user_data()];
    if raw.completed() {
        PushEntry::Ready((raw.outcome(), raw.flags))
    } else {
        PushEntry::Pending(key)
    }
}

/// After someone else is to be woken for the operation.
pub open spec fn after_update_waker<T>(
    ops: Map<usize, RawOp<T>>,
    key: Key,
    waker: Waker,
) -> Map<usize, RawOp<T>> {
    ops.insert(key.user_data(), ops[key.user_data()].with_waker(waker))
}

/// After a completion is delivered.
pub open spec fn after_notify<T>(ops: Map<usize, RawOp<T>>, entry: Entry) -> Map<
    usize,
    RawOp<T>,
> {
    let raw = ops[entry.user_data];
    if raw.cancelled {
        ops.remove(entry.user_data)
    } else {
        ops.insert(
            entry.user_data,
            (RawOp { flags: entry.flags, ..raw }).with_result(entry.result),
        )
    }
}

/// After all completions are delivered, in their order.
pub open spec fn after_notify_all<T>(ops: Map<usize, RawOp<T>>, entries: Seq<Entry>) -> Map<
    usize,
    RawOp<T>,
>
    decreases entries.len(),
{
    if entries.len() == 0 {
        ops
    } else {
        after_notify(after_notify_all(ops, entries.drop_last()), entries.last())
    }
}

/// Each completion is of an operation that is still there when its turn comes.
pub open spec fn deliverable<T>(ops: Map<usize, RawOp<T>>, entries: Seq<Entry>) -> bool
    decreases entries.len(),
{
    entries.len() > 0 ==> {
        &&& deliverable(ops, entries.drop_last())
        &&& after_notify_all(ops, entries.drop_last()).contains_key(entries.last().user_data)
    }
}

/// Those that are to be woken for the completions, in the order of these.
pub open spec fn woken<T>(ops: Map<usize, RawOp<T>>, entries: Seq<Entry>) -> Seq<Waker>
    decreases entries.len(),
{
    if entries.len() == 0 {
        Seq::empty()
    } else {
        let before = after_notify_all(ops, entries.drop_last());
        let earlier = woken(ops, entries.drop_last());
        match before[entries.last().user_data].waiting() {
            Some(waker) => earlier.push(waker),
            None => earlier,
        }
    }
}

} // verus!
