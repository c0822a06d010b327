//! Histories: what is done to a proactor, one step after the other.
use std::io;
use std::task::Waker;

use vstd::prelude::*;

use crate::entry::Entry;
use crate::key::Key;
use crate::op::RawOp;
use crate::state::{
    after_cancel, after_notify, after_pop, after_push, after_update_waker, after_work,
    no_spent,
};
use crate::syscall::Poll;

verus! {

/// Something that is done to a proactor.
pub enum Step<T> {
    /// An operation is created under a key.
    Create(Key, T),
    /// The driver replies to the submission of an operation.
    Push(Key, Poll<Result<usize, io::Error>>),
    /// The driver works on an operation and leaves it as this.
    Work(usize, T),
    /// An operation is cancelled.
    Cancel(Key),
    /// An operation is popped, or was tried to be.
    Pop(Key),
    /// Someone waits for an operation.
    UpdateWaker(Key, Waker),
    /// An operation is completed.
    Notify(Entry),
}

impl<T> Step<T> {
    /// The operation that the step is about.
    pub open spec fn user_data(self) -> usize {
        match self {
            Step::Create(key, _) => key.user_data(),
            Step::Push(key, _) => key.user_data(),
            Step::Work(user_data, _) => user_data,
            Step::Cancel(key) => key.user_data(),
            Step::Pop(key) => key.user_data(),
            Step::UpdateWaker(key, _) => key.user_data(),
            Step::Notify(entry) => entry.user_data,
        }
    }

    /// New operations get user data that is not in use; all other steps are
    /// about operations that are there.
    pub open spec fn enabled(self, ops: Map<usize, RawOp<T>>) -> bool {
        ops.contains_key(self.user_data()) == !(self is Create)
    }

    /// The operations after the step.
    pub open spec fn apply(self, ops: Map<usize, RawOp<T>>) -> Map<usize, RawOp<T>> {
        match self {
            Step::Create(key, op) => ops.insert(key.user_data(), RawOp::fresh(op)),
            Step::Push(key, reply) => after_push(ops, key, reply),
            Step::Work(user_data, op) => after_work(ops, user_data, op),
            Step::Cancel(key) => after_cancel(ops, key),
            Step::Pop(key) => after_pop(ops, key),
            Step::UpdateWaker(key, waker) => after_update_waker(ops, key, waker),
            Step::Notify(entry) => after_notify(ops, entry),
        }
    }

    /// The step hands the operation back with its result.
    pub open spec fn hands_back(self, ops: Map<usize, RawOp<T>>) -> bool {
        match self {
            Step::Push(_, reply) => reply is Ready,
            Step::Cancel(key) => ops[key.user_data()].completed(),
            Step::Pop(key) => ops[key.user_data()].completed(),
            _ => false,
        }
    }

    /// The step releases an operation that nobody waits for.
    pub open spec fn releases(self, ops: Map<usize, RawOp<T>>) -> bool {
        self matches Step::Notify(entry) && ops[entry.user_data].cancelled
    }
}

/// The operations after a history that began with none.
pub open spec fn after_history<T>(steps: Seq<Step<T>>) -> Map<usize, RawOp<T>>
    decreases steps.len(),
{
    if steps.len() == 0 {
        Map::empty()
    } else {
        steps.last().apply(after_history(steps.drop_last()))
    }
}

/// Every step could be taken when it was.
pub open spec fn is_history<T>(steps: Seq<Step<T>>) -> bool
    decreases steps.len(),
{
    steps.len() > 0 ==> {
        &&& is_history(steps.drop_last())
        &&& steps.last().enabled(after_history(steps.drop_last()))
    }
}

/// How many operations were created.
pub open spec fn created<T>(steps: Seq<Step<T>>) -> nat
    decreases steps.len(),
{
    if steps.len() == 0 {
        0
    } else {
        created(steps.drop_last()) + if steps.last() is Create {
            1nat
        } else {
            0
        }
    }
}

/// How many operations were handed back.
pub open spec fn handed_back<T>(steps: Seq<Step<T>>) -> nat
    decreases steps.len(),
{
    if steps.len() == 0 {
        0
    } else {
        handed_back(steps.drop_last()) + if steps.last().hands_back(
            after_history(steps.drop_last()),
        ) {
            1nat
        } else {
            0
        }
    }
}

/// How many operations were released.
pub open spec fn released<T>(steps: Seq<Step<T>>) -> nat
    decreases steps.len(),
{
    if steps.len() == 0 {
        0
    } else {
        released(steps.drop_last()) + if steps.last().releases(
            after_history(steps.drop_last()),
        ) {
            1nat
        } else {
            0
        }
    }
}

/// In every history each operation that was created is either still there, or was
/// handed back once, or was released once: none is lost, and none is given out
/// twice. None that is both completed and cancelled is still there.
pub proof fn law_every_operation_is_accounted_for<T>(steps: Seq<Step<T>>)
    requires
        is_history(steps),
    ensures
        after_history(steps).dom().finite(),
        created(steps) == after_history(steps).len() + handed_back(steps) + released(steps),
        no_spent(after_history(steps)),
    decreases steps.len(),
{
    if steps.len() > 0 {
        law_every_operation_is_accounted_for(steps.drop_last());
        let ops = after_history(steps.drop_last());
        let k = steps.last().user_data();
        let after = after_history(steps);
        if after.contains_key(k) {
            assert(after.dom() =~= ops.dom().insert(k));
        } else {
            assert(after.dom() =~= ops.dom().remove(k));
        }
    }
}

} // verus!
