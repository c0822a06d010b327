//! What is done to one operation, field by field: what becomes of its mark, its
//! result, its flags and the operation itself, and what is handed out.
use std::io;
use std::task::Waker;

use vstd::prelude::*;

use crate::entry::Entry;
use crate::key::Key;
use crate::op::{BufResult, RawOp};
use crate::operations::Operations;
use crate::proactor::{CancelAction, Proactor};
use crate::push_entry::PushEntry;
use crate::state::{
    after_cancel, after_notify, after_pop, after_push, after_update_waker, after_work,
    cancel_result, no_spent, pop_result, push_result,
};
use crate::syscall::Poll;

verus! {

/// Taking the ready value undoes making it, and there is none in what is pending.
pub proof fn law_ready_is_what_was_put_in<K, R>(key: K, res: R)
    ensures
        PushEntry::<K, R>::Ready(res).ready() == Some(res),
        PushEntry::<K, R>::Pending(key).ready() == None::<R>,
{
}

/// A new operation holds what was given, is neither cancelled nor completed, has
/// no flags, and nobody waits for it.
pub proof fn law_new_operations_are_blank<T>(op: T)
    ensures
        RawOp::fresh(op).op == op,
        !RawOp::fresh(op).cancelled,
        RawOp::fresh(op).flags == 0,
        RawOp::fresh(op).result matches PushEntry::Pending(waker) && waker is None,
{
}

/// An operation is either completed, with a result, or someone may wait for it.
/// What is handed out of a completed one is that result and the operation.
pub proof fn law_operations_are_completed_or_awaited<T>(raw: RawOp<T>)
    ensures
        match raw.result {
            PushEntry::Pending(waker) => !raw.completed() && raw.waiting() == waker,
            PushEntry::Ready(res) => {
                &&& raw.completed()
                &&& raw.waiting() is None
                &&& raw.outcome().0 == res
                &&& raw.outcome().1 == raw.op
            },
        },
{
}

/// Completing an operation gives it the result, in place of any before, and
/// touches nothing else.
pub proof fn law_completing_sets_the_result_only<T>(
    raw: RawOp<T>,
    earlier: Result<usize, io::Error>,
    res: Result<usize, io::Error>,
)
    ensures
        raw.with_result(res).result == PushEntry::<Option<Waker>, Result<usize, io::Error>>::Ready(
            res,
        ),
        raw.with_result(res).op == raw.op,
        raw.with_result(res).flags == raw.flags,
        raw.with_result(res).cancelled == raw.cancelled,
        raw.with_result(earlier).with_result(res) == raw.with_result(res),
{
}

/// Waiting for an operation that is not completed replaces whoever waited before;
/// waiting for a completed one keeps its result. Nothing else is touched.
pub proof fn law_waiting_sets_the_waker_only<T>(raw: RawOp<T>, waker: Waker)
    ensures
        match raw.result {
            PushEntry::Pending(_) => raw.with_waker(waker).result matches PushEntry::Pending(w)
                && w == Some(waker),
            PushEntry::Ready(res) => raw.with_waker(waker).result matches PushEntry::Ready(r)
                && r == res,
        },
        raw.with_waker(waker).op == raw.op,
        raw.with_waker(waker).flags == raw.flags,
        raw.with_waker(waker).cancelled == raw.cancelled,
{
}

/// Whatever the state of the operation, a reply with a result hands it out with
/// exactly that result and nothing of it stays; without one, the key comes back
/// and nothing changes.
pub proof fn law_push_hands_out_the_reply<T>(
    ops: Map<usize, RawOp<T>>,
    key: Key,
    res: Result<usize, io::Error>,
)
    requires
        ops.contains_key(key.user_data()),
    ensures
        push_result(ops, key, Poll::Ready(res)) matches PushEntry::Ready(outcome) && outcome.0
            == res && outcome.1 == ops[key.user_data()].op,
        after_push(ops, key, Poll::Ready(res)) == ops.remove(key.user_data()),
        push_result(ops, key, Poll::Pending) matches PushEntry::Pending(k) && k == key,
        after_push(ops, key, Poll::Pending) == ops,
{
}

/// Working on an operation changes the operation, and leaves its mark, its
/// result, whoever waits for it, its flags, and all other operations as they
/// were.
pub proof fn law_work_changes_the_operation_only<T>(
    ops: Map<usize, RawOp<T>>,
    k: usize,
    op: T,
)
    requires
        ops.contains_key(k),
    ensures
        after_work(ops, k, op).dom() == ops.dom(),
        after_work(ops, k, op)[k].op == op,
        after_work(ops, k, op)[k].cancelled == ops[k].cancelled,
        after_work(ops, k, op)[k].result == ops[k].result,
        after_work(ops, k, op)[k].flags == ops[k].flags,
        forall|j: usize| j != k ==> #[trigger] after_work(ops, k, op)[j] == ops[j],
{
    assert(after_work(ops, k, op).dom() =~= ops.dom());
}

/// An operation that is created, worked on, and completed at once is handed out
/// as the driver left it, with the driver's result, and leaves nothing behind.
pub proof fn law_worked_on_push_hands_out_the_reply<T>(
    ops: Map<usize, RawOp<T>>,
    key: Key,
    op: T,
    worked: T,
    res: Result<usize, io::Error>,
)
    requires
        !ops.contains_key(key.user_data()),
    ensures
        ({
            let created = ops.insert(key.user_data(), RawOp::fresh(op));
            let there = after_work(created, key.user_data(), worked);
            &&& push_result(there, key, Poll::Ready(res)) matches PushEntry::Ready(outcome)
                && outcome.0 == res && outcome.1 == worked
            &&& after_push(there, key, Poll::Ready(res)) == ops
        }),
{
    let created = ops.insert(key.user_data(), RawOp::fresh(op));
    let there = after_work(created, key.user_data(), worked);
    assert(after_push(there, key, Poll::Ready(res)) =~= ops);
}

/// Delivering a completion to an operation that is not cancelled stores exactly
/// the result and the flags of the completion and keeps the operation; one that
/// is cancelled goes. No other operation is touched.
pub proof fn law_notify_stores_the_completion<T>(ops: Map<usize, RawOp<T>>, entry: Entry)
    requires
        ops.contains_key(entry.user_data),
    ensures
        ops[entry.user_data].cancelled ==> after_notify(ops, entry) == ops.remove(
            entry.user_data,
        ),
        !ops[entry.user_data].cancelled ==> {
            let after = after_notify(ops, entry);
            &&& after.dom() == ops.dom()
            &&& after[entry.user_data].result matches PushEntry::Ready(res) && res == entry.result
            &&& after[entry.user_data].flags == entry.flags
            &&& after[entry.user_data].op == ops[entry.user_data].op
            &&& !after[entry.user_data].cancelled
        },
        forall|j: usize|
            j != entry.user_data ==> #[trigger] after_notify(ops, entry)[j] == ops[j],
{
    if !ops[entry.user_data].cancelled {
        assert(after_notify(ops, entry).dom() =~= ops.dom());
    }
}

/// Popping a completed operation gives exactly the result, the operation and the
/// flags that are stored, and takes it out; one that is not completed stays, and
/// its key comes back.
pub proof fn law_pop_gives_what_is_stored<T>(ops: Map<usize, RawOp<T>>, key: Key)
    requires
        ops.contains_key(key.user_data()),
    ensures
        match ops[key.user_data()].result {
            PushEntry::Ready(res) => {
                &&& pop_result(ops, key) matches PushEntry::Ready((outcome, flags)) && outcome.0
                    == res && outcome.1 == ops[key.user_data()].op && flags
                    == ops[key.user_data()].flags
                &&& after_pop(ops, key) == ops.remove(key.user_data())
            },
            PushEntry::Pending(_) => {
                &&& pop_result(ops, key) matches PushEntry::Pending(k) && k == key
                &&& after_pop(ops, key) == ops
            },
        },
{
}

/// Cancelling a completed operation gives exactly the result and the operation
/// that are stored, and takes it out. Cancelling any other asks for its user data
/// to be passed on, marks it, and touches nothing else.
pub proof fn law_cancel_gives_what_is_stored_or_marks<T>(ops: Map<usize, RawOp<T>>, key: Key)
    requires
        ops.contains_key(key.user_data()),
    ensures
        match ops[key.user_data()].result {
            PushEntry::Ready(res) => {
                &&& cancel_result(ops, key) matches CancelAction::Return(outcome) && outcome.0
                    == res && outcome.1 == ops[key.user_data()].op
                &&& after_cancel(ops, key) == ops.remove(key.user_data())
            },
            PushEntry::Pending(waker) => {
                let after = after_cancel(ops, key);
                &&& cancel_result(ops, key) matches CancelAction::Forward(k) && k
                    == key.user_data()
                &&& after.dom() == ops.dom()
                &&& after[key.user_data()].cancelled
                &&& after[key.user_data()].result matches PushEntry::Pending(w) && w == waker
                &&& after[key.user_data()].flags == ops[key.user_data()].flags
                &&& after[key.user_data()].op == ops[key.user_data()].op
            },
        },
        forall|j: usize|
            j != key.user_data() ==> #[trigger] after_cancel(ops, key)[j] == ops[j],
{
    if ops[key.user_data()].result is Pending {
        assert(after_cancel(ops, key).dom() =~= ops.dom());
    }
}

/// Setting a waker keeps every operation, and touches nothing but who waits for
/// the one, and that only if it is not completed.
pub proof fn law_update_waker_sets_the_waker_only<T>(
    ops: Map<usize, RawOp<T>>,
    key: Key,
    waker: Waker,
)
    requires
        ops.contains_key(key.user_data()),
    ensures
        ({
            let k = key.user_data();
            let after = after_update_waker(ops, key, waker);
            &&& after.dom() == ops.dom()
            &&& after[k].op == ops[k].op
            &&& after[k].flags == ops[k].flags
            &&& after[k].cancelled == ops[k].cancelled
            &&& match ops[k].result {
                PushEntry::Pending(_) => after[k].result matches PushEntry::Pending(w) && w
                    == Some(waker),
                PushEntry::Ready(res) => after[k].result matches PushEntry::Ready(r) && r == res,
            }
        }),
        forall|j: usize|
            j != key.user_data() ==> #[trigger] after_update_waker(ops, key, waker)[j] == ops[j],
{
    assert(after_update_waker(ops, key, waker).dom() =~= ops.dom());
}

/// Setting a waker, or working on an operation, changes neither what popping it
/// nor what cancelling it hands out, but for the operation that was worked on.
pub proof fn law_results_survive_work_and_waiting<T>(
    ops: Map<usize, RawOp<T>>,
    key: Key,
    waker: Waker,
    op: T,
)
    requires
        ops.contains_key(key.user_data()),
        ops[key.user_data()].result is Ready,
    ensures
        ({
            let k = key.user_data();
            let there = after_work(after_update_waker(ops, key, waker), k, op);
            &&& pop_result(ops, key) matches PushEntry::Ready((before, flags)) && pop_result(
                there,
                key,
            ) matches PushEntry::Ready((after, same_flags)) && after.0 == before.0 && after.1
                == op && same_flags == flags
            &&& cancel_result(ops, key) matches CancelAction::Return(before) && cancel_result(
                there,
                key,
            ) matches CancelAction::Return(after) && after.0 == before.0 && after.1 == op
        }),
{
}

/// A proactor is in order exactly if its operations are and none of them is both
/// cancelled and completed.
pub proof fn law_order_means_nothing_spent<D, T>(proactor: Proactor<D, T>)
    ensures
        proactor.wf() <==> proactor.ops.wf() && forall|k: usize| #[trigger]
            proactor.ops@.contains_key(k) && proactor.ops@[k].cancelled
                ==> proactor.ops@[k].result is Pending,
        no_spent(proactor.ops@) <==> forall|k: usize| #[trigger]
            proactor.ops@.contains_key(k) && proactor.ops@[k].cancelled
                ==> proactor.ops@[k].result is Pending,
{
}

/// A key is good with the operations of the proactor that made it, as long as its
/// own is among them, and with no others.
pub proof fn law_keys_are_good_with_their_owner<T>(ops: Operations<T>, key: Key)
    ensures
        ops.owns(&key) <==> key.owner() == ops.owner() && ops@.contains_key(key.user_data()),
{
}

} // verus!
