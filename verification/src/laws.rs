//! What holds of the proactor as a whole.
use std::io;
use std::task::Waker;

use vstd::prelude::*;

use crate::buffer_pool::{is_power_of_two, is_rounded_up};
use crate::builder::{ProactorBuilder, RawFd};
use crate::entry::Entry;
use crate::key::Key;
use crate::op::{BufResult, RawOp};
use crate::proactor::CancelAction;
use crate::push_entry::PushEntry;
use crate::state::{
    after_cancel, after_notify, after_notify_all, after_pop, after_push, after_update_waker,
    cancel_result, deliverable, no_spent, pop_result, push_result, woken,
};
use crate::syscall::Poll;
use crate::time_span::TimeSpan;

verus! {

/// An operation that the driver completes at once is handed back with the
/// driver's result, and leaves nothing behind.
pub proof fn law_ready_push_hands_back<T>(
    ops: Map<usize, RawOp<T>>,
    key: Key,
    op: T,
    res: Result<usize, io::Error>,
)
    requires
        !ops.contains_key(key.user_data()),
    ensures
        ({
            let created = ops.insert(key.user_data(), RawOp::fresh(op));
            &&& push_result(created, key, Poll::Ready(res)) == PushEntry::<
                Key,
                BufResult<usize, T>,
            >::Ready(BufResult(res, op))
            &&& after_push(created, key, Poll::Ready(res)) == ops
        }),
{
    assert(ops.insert(key.user_data(), RawOp::fresh(op)).remove(key.user_data()) =~= ops);
}

/// An operation that was pushed and then completed is popped with the result and
/// the flags of its completion, and leaves nothing behind.
pub proof fn law_completed_push_pops<T>(
    ops: Map<usize, RawOp<T>>,
    key: Key,
    op: T,
    entry: Entry,
)
    requires
        !ops.contains_key(key.user_data()),
        entry.user_data == key.user_data(),
    ensures
        ({
            let created = ops.insert(key.user_data(), RawOp::fresh(op));
            let pushed = after_push(created, key, Poll::Pending);
            let completed = after_notify(pushed, entry);
            &&& push_result(created, key, Poll::Pending) == PushEntry::<
                Key,
                BufResult<usize, T>,
            >::Pending(key)
            &&& pop_result(completed, key) == PushEntry::<
                Key,
                (BufResult<usize, T>, u32),
            >::Ready((BufResult(entry.result, op), entry.flags))
            &&& after_pop(completed, key) == ops
        }),
{
    let pushed = ops.insert(key.user_data(), RawOp::fresh(op));
    assert(after_pop(after_notify(pushed, entry), key) =~= ops);
}

/// Trying to pop gives the operation exactly if it is completed; otherwise it
/// gives the key back and changes nothing, however often it is tried.
pub proof fn law_pop_waits_for_completion<T>(ops: Map<usize, RawOp<T>>, key: Key)
    ensures
        pop_result(ops, key) is Ready <==> ops[key.user_data()].completed(),
        !ops[key.user_data()].completed() ==> {
            &&& pop_result(ops, key) == PushEntry::<Key, (BufResult<usize, T>, u32)>::Pending(key)
            &&& after_pop(ops, key) == ops
        },
{
}

/// Cancelling a completed operation hands out what popping it would.
pub proof fn law_cancel_of_completed_is_pop<T>(ops: Map<usize, RawOp<T>>, key: Key)
    requires
        ops[key.user_data()].completed(),
    ensures
        pop_result(ops, key) matches PushEntry::Ready((outcome, _)) && cancel_result(ops, key)
            == CancelAction::Return(outcome),
        after_cancel(ops, key) == after_pop(ops, key),
{
}

/// An operation that is cancelled before it is completed hands out nothing, stays
/// until it is completed, so that nobody else gets its user data meanwhile, and
/// is released then.
pub proof fn law_cancelled_stays_until_completed<T>(
    ops: Map<usize, RawOp<T>>,
    key: Key,
    entry: Entry,
)
    requires
        ops.contains_key(key.user_data()),
        !ops[key.user_data()].completed(),
        entry.user_data == key.user_data(),
    ensures
        cancel_result(ops, key) == CancelAction::<T>::Forward(key.user_data()),
        after_cancel(ops, key).contains_key(key.user_data()),
        after_cancel(ops, key)[key.user_data()].op == ops[key.user_data()].op,
        after_notify(after_cancel(ops, key), entry) == ops.remove(key.user_data()),
{
    assert(after_notify(after_cancel(ops, key), entry) =~= ops.remove(key.user_data()));
}

/// Whether the cancellation or the completion comes first, the same operations
/// are left.
pub proof fn law_cancel_and_completion_commute<T>(
    ops: Map<usize, RawOp<T>>,
    key: Key,
    entry: Entry,
)
    requires
        ops.contains_key(key.user_data()),
        !ops[key.user_data()].completed(),
        !ops[key.user_data()].cancelled,
        entry.user_data == key.user_data(),
    ensures
        after_cancel(after_notify(ops, entry), key) == after_notify(
            after_cancel(ops, key),
            entry,
        ),
{
    assert(after_cancel(after_notify(ops, entry), key) =~= after_notify(
        after_cancel(ops, key),
        entry,
    ));
}

/// The completion of an operation wakes the one who was set last, and no one
/// else; nobody waits for a completed operation.
pub proof fn law_completion_wakes_the_last_waker<T>(
    ops: Map<usize, RawOp<T>>,
    key: Key,
    first: Waker,
    last: Waker,
    entry: Entry,
)
    requires
        ops.contains_key(key.user_data()),
        !ops[key.user_data()].completed(),
        entry.user_data == key.user_data(),
    ensures
        ({
            let updated = after_update_waker(after_update_waker(ops, key, first), key, last);
            &&& woken(updated, seq![entry]) == seq![last]
            &&& updated == after_update_waker(ops, key, last)
            &&& after_notify(updated, entry).contains_key(key.user_data()) ==> after_update_waker(
                after_notify(updated, entry),
                key,
                first,
            ) == after_notify(updated, entry)
        }),
{
    let updated = after_update_waker(after_update_waker(ops, key, first), key, last);
    assert(updated =~= after_update_waker(ops, key, last));
    assert(seq![entry].drop_last() =~= Seq::<Entry>::empty());
    reveal_with_fuel(woken, 2);
    assert(woken(updated, seq![entry]) =~= seq![last]);
    let completed = after_notify(updated, entry);
    if completed.contains_key(key.user_data()) {
        assert(after_update_waker(completed, key, first) =~= completed);
    }
}

/// Whatever is done, no operation that is both completed and cancelled is kept.
pub proof fn law_nothing_spent_is_kept<T>(
    ops: Map<usize, RawOp<T>>,
    key: Key,
    op: T,
    reply: Poll<Result<usize, io::Error>>,
    waker: Waker,
    entry: Entry,
)
    requires
        no_spent(ops),
        ops.contains_key(key.user_data()),
        ops.contains_key(entry.user_data),
    ensures
        no_spent(Map::<usize, RawOp<T>>::empty()),
        forall|k: usize| no_spent(#[trigger] ops.insert(k, RawOp::fresh(op))),
        no_spent(after_push(ops, key, reply)),
        no_spent(after_cancel(ops, key)),
        no_spent(after_pop(ops, key)),
        no_spent(after_update_waker(ops, key, waker)),
        no_spent(after_notify(ops, entry)),
{
}

/// An operation leaves only once it is completed: until then a driver may work
/// on it.
pub proof fn law_operations_stay_until_completed<T>(
    ops: Map<usize, RawOp<T>>,
    key: Key,
    reply: Poll<Result<usize, io::Error>>,
    waker: Waker,
    entry: Entry,
    k: usize,
)
    requires
        ops.contains_key(key.user_data()),
        ops.contains_key(k),
        !ops[k].completed(),
    ensures
        !(reply is Ready && k == key.user_data()) ==> after_push(ops, key, reply).contains_key(k),
        after_cancel(ops, key).contains_key(k),
        after_pop(ops, key).contains_key(k),
        after_update_waker(ops, key, waker).contains_key(k),
        k != entry.user_data ==> after_notify(ops, entry).contains_key(k),
{
}

/// What is done to one operation leaves the others as they are.
pub proof fn law_other_operations_are_untouched<T>(
    ops: Map<usize, RawOp<T>>,
    key: Key,
    reply: Poll<Result<usize, io::Error>>,
    waker: Waker,
    entry: Entry,
)
    requires
        entry.user_data == key.user_data(),
    ensures
        ({
            let rest = ops.remove(key.user_data());
            &&& after_push(ops, key, reply).remove(key.user_data()) == rest
            &&& after_cancel(ops, key).remove(key.user_data()) == rest
            &&& after_pop(ops, key).remove(key.user_data()) == rest
            &&& after_update_waker(ops, key, waker).remove(key.user_data()) == rest
            &&& after_notify(ops, entry).remove(key.user_data()) == rest
        }),
{
    let k = key.user_data();
    let rest = ops.remove(k);
    assert(after_push(ops, key, reply).remove(k) =~= rest);
    assert(after_cancel(ops, key).remove(k) =~= rest);
    assert(after_pop(ops, key).remove(k) =~= rest);
    assert(after_update_waker(ops, key, waker).remove(k) =~= rest);
    assert(after_notify(ops, entry).remove(k) =~= rest);
}

/// Completions of different operations can be delivered together. Each operation
/// that was cancelled is released, each other one has the result and the flags of
/// its completion, and those without a completion are as they were.
pub proof fn law_poll_completes_each<T>(ops: Map<usize, RawOp<T>>, entries: Seq<Entry>)
    requires
        forall|i: int|
            0 <= i < entries.len() ==> ops.contains_key((#[trigger] entries[i]).user_data),
        forall|i: int, j: int|
            0 <= i < j < entries.len() ==> (#[trigger] entries[i]).user_data != (
            #[trigger] entries[j]).user_data,
    ensures
        deliverable(ops, entries),
        forall|i: int|
            #![trigger entries[i]]
            0 <= i < entries.len() ==> {
                let k = entries[i].user_data;
                let after = after_notify_all(ops, entries);
                if ops[k].cancelled {
                    !after.contains_key(k)
                } else {
                    &&& after.contains_key(k)
                    &&& after[k] == RawOp {
                        cancelled: false,
                        result: PushEntry::Ready(entries[i].result),
                        flags: entries[i].flags,
                        op: ops[k].op,
                    }
                }
            },
        forall|k: usize|
            (forall|i: int| 0 <= i < entries.len() ==> (#[trigger] entries[i]).user_data != k) ==> {
                &&& (#[trigger] after_notify_all(ops, entries).contains_key(k))
                    == ops.contains_key(k)
                &&& after_notify_all(ops, entries)[k] == ops[k]
            },
    decreases entries.len(),
{
    if entries.len() > 0 {
        let earlier = entries.drop_last();
        law_poll_completes_each(ops, earlier);
        let before = after_notify_all(ops, earlier);
        let k = entries.last().user_data;
        assert(entries[entries.len() - 1].user_data == k);
        assert(forall|i: int| 0 <= i < earlier.len() ==> earlier[i] == entries[i]);
        assert(before.contains_key(k) == ops.contains_key(k));
    }
}

/// Once a pool is to be reused, limits and timeouts of new pools are ignored, and
/// every pool that comes of the configuration is a handle to that one, whatever
/// new pools would be.
pub proof fn law_reused_pool_is_kept<P: Clone, F: FnOnce(usize, TimeSpan) -> P>(
    builder: ProactorBuilder<P>,
    pool: P,
    limit: usize,
    timeout: TimeSpan,
    create: F,
    other: P,
)
    ensures
        builder.with_pool(pool).with_thread_pool_limit(limit) == builder.with_pool(pool),
        builder.with_pool(pool).with_thread_pool_recv_timeout(timeout) == builder.with_pool(pool),
        builder.with_pool(pool).pool_builder.yields(create, other) <==> cloned(pool, other),
{
}

/// The limit and the timeout of new pools are set independently, and what is set
/// last counts.
pub proof fn law_last_pool_setting_counts<P>(
    builder: ProactorBuilder<P>,
    limit: usize,
    other_limit: usize,
    timeout: TimeSpan,
    other_timeout: TimeSpan,
)
    ensures
        builder.with_thread_pool_limit(other_limit).with_thread_pool_limit(limit)
            == builder.with_thread_pool_limit(limit),
        builder.with_thread_pool_recv_timeout(other_timeout).with_thread_pool_recv_timeout(timeout)
            == builder.with_thread_pool_recv_timeout(timeout),
        builder.with_thread_pool_limit(limit).with_thread_pool_recv_timeout(timeout)
            == builder.with_thread_pool_recv_timeout(timeout).with_thread_pool_limit(limit),
{
}

/// The lengths of time in a configuration stay proper ones, whatever is set.
pub proof fn law_time_spans_stay_proper<P>(
    builder: ProactorBuilder<P>,
    capacity: u32,
    limit: usize,
    span: TimeSpan,
    pool: P,
    enable: bool,
    fd: RawFd,
)
    requires
        builder.wf(),
        span.wf(),
    ensures
        ProactorBuilder::<P>::initial().wf(),
        (ProactorBuilder { capacity, ..builder }).wf(),
        builder.with_thread_pool_limit(limit).wf(),
        builder.with_thread_pool_recv_timeout(span).wf(),
        builder.with_pool(pool).wf(),
        (ProactorBuilder { sqpoll_idle: Some(span), ..builder }).wf(),
        (ProactorBuilder { coop_taskrun: enable, ..builder }).wf(),
        (ProactorBuilder { taskrun_flag: enable, ..builder }).wf(),
        (ProactorBuilder { eventfd: Some(fd), ..builder }).wf(),
{
}

/// The idle time of sqpoll is rounded down to milliseconds: it is zero below one
/// millisecond, never longer than what was asked for, and less than a millisecond
/// shorter.
pub proof fn law_idle_is_rounded_down(idle: TimeSpan)
    ensures
        idle.total_nanos() < 1_000_000 <==> idle.total_nanos() / 1_000_000 == 0,
        idle.total_nanos() / 1_000_000 * 1_000_000 <= idle.total_nanos(),
        idle.total_nanos() < (idle.total_nanos() / 1_000_000 + 1) * 1_000_000,
{
}

/// A number of buffers is rounded up in one way only, and a power of two not at
/// all.
pub proof fn law_rounding_up_is_unique(len: int, other: int, n: int)
    requires
        is_rounded_up(len, n),
    ensures
        is_rounded_up(other, n) ==> other == len,
        is_power_of_two(n) ==> len == n,
        is_rounded_up(len, len),
{
}

} // verus!
