//! The proactor: operations go in, results come out.
use std::io;
use std::task::Waker;

use vstd::prelude::*;

use crate::builder::ProactorBuilder;
use crate::entry::Entry;
use crate::key::Key;
use crate::op::{BufResult, RawOp};
use crate::operations::Operations;
use crate::push_entry::PushEntry;
use crate::state::{
    after_cancel, after_notify_all, after_pop, after_push, after_update_waker, cancel_result,
    deliverable, no_spent, pop_result, push_result, woken,
};
use crate::syscall::Poll;

verus! {

/// What is left to do to cancel an operation.
pub enum CancelAction<T> {
    /// Nothing: the operation was completed, and this is its result.
    Return(BufResult<usize, T>),
    /// The driver is to be told to cancel the operation with this user data.
    Forward(usize),
}

/// Low-level actions of completion-based IO.
/// It owns the operations to keep the driver safe.
pub struct Proactor<D, T> {
    /// The platform driver.
    pub driver: D,
    /// The operations that the driver works on.
    pub ops: Operations<T>,
}

impl<D, T> Proactor<D, T> {
    /// The operations are in order, and those that are of no use are gone.
    pub open spec fn wf(&self) -> bool {
        self.ops.wf() && no_spent(self.ops@)
    }

    /// Whether `proactor` is what comes of `id` and `builder` when drivers come
    /// from `open`: no proactor without a driver, and no operations to begin with.
    pub open spec fn opened<P, F: FnOnce(&ProactorBuilder<P>) -> Result<D, io::Error>>(
        id: u64,
        builder: &ProactorBuilder<P>,
        open: F,
        proactor: Result<Proactor<D, T>, io::Error>,
    ) -> bool {
        match proactor {
            Ok(proactor) => {
                &&& call_ensures(open, (builder,), Ok(proactor.driver))
                &&& proactor.wf()
                &&& proactor.ops.owner() == id
                &&& proactor.ops@ == Map::<usize, RawOp<T>>::empty()
            },
            Err(e) => call_ensures(open, (builder,), Err(e)),
        }
    }

    /// Create [`Proactor`] with 1024 entries, with the driver that `open` makes
    /// of the default configuration. `id` is what its keys name as their owner:
    /// no two proactors are to have the same.
    pub fn new<P, F: FnOnce(&ProactorBuilder<P>) -> Result<D, io::Error>>(
        id: u64,
        open: F,
    ) -> (proactor: Result<Self, io::Error>)
        requires
            call_requires(open, (&ProactorBuilder::<P>::initial(),)),
        ensures
            Self::opened(id, &ProactorBuilder::<P>::initial(), open, proactor),
    {
        Self::builder().build(id, open)
    }

    /// Create [`ProactorBuilder`] to config the proactor.
    pub fn builder<P>() -> (builder: ProactorBuilder<P>)
        ensures
            builder == ProactorBuilder::<P>::initial(),
    {
        ProactorBuilder::new()
    }

    /// A proactor without operations, with the driver that `open` makes of
    /// `builder`.
    pub(crate) fn with_builder<P, F: FnOnce(&ProactorBuilder<P>) -> Result<D, io::Error>>(
        id: u64,
        builder: &ProactorBuilder<P>,
        open: F,
    ) -> (proactor: Result<Self, io::Error>)
        requires
            call_requires(open, (builder,)),
        ensures
            Self::opened(id, builder, open, proactor),
    {
        match open(builder) {
            Ok(driver) => Ok(Proactor { driver, ops: Operations::new(id) }),
            Err(e) => Err(e),
        }
    }

    /// Store an operation that is about to be pushed, and return the unique key,
    /// called user-defined data, associated with it. The driver is to be handed
    /// the operation next, and its reply goes to [`Proactor::push`].
    pub fn create_op(&mut self, op: T) -> (key: Key)
        requires
            old(self).wf(),
        ensures
            final(self).wf(),
            final(self).driver == old(self).driver,
            final(self).ops.owner() == old(self).ops.owner(),
            key.owner() == old(self).ops.owner(),
            !old(self).ops@.contains_key(key.user_data()),
            final(self).ops@ == old(self).ops@.insert(key.user_data(), RawOp::fresh(op)),
    {
        let user_data: usize = self.ops.insert(RawOp::new(op));
        self.ops.key(user_data)
    }

    /// Push an operation into the driver: `op` is its key, and `reply` what the
    /// driver said when it was handed the operation. The key is one that this
    /// proactor made.
    pub fn push(&mut self, op: Key, reply: Poll<Result<usize, io::Error>>) -> (pushed: PushEntry<
        Key,
        BufResult<usize, T>,
    >)
        requires
            old(self).wf(),
            old(self).ops.owns(&op),
        ensures
            final(self).wf(),
            final(self).driver == old(self).driver,
            final(self).ops.owner() == old(self).ops.owner(),
            final(self).ops@ == after_push(old(self).ops@, op, reply),
            pushed == push_result(old(self).ops@, op, reply),
    {
        match reply {
            Poll::Pending => PushEntry::Pending(op),
            Poll::Ready(res) => {
                let mut raw = self.ops.remove(op.user_data());
                raw.set_result(res);
                PushEntry::Ready(raw.into_inner())
            },
        }
    }

    /// Cancel an operation with the pushed user-defined data.
    ///
    /// The cancellation is not reliable. The underlying operation may continue,
    /// but just don't return from [`Proactor::poll`]. Therefore, although an
    /// operation is cancelled, you should not reuse its `user_data`.
    ///
    /// The key is one that this proactor made.
    pub fn cancel(&mut self, op: Key) -> (action: CancelAction<T>)
        requires
            old(self).wf(),
            old(self).ops.owns(&op),
        ensures
            final(self).wf(),
            final(self).driver == old(self).driver,
            final(self).ops.owner() == old(self).ops.owner(),
            final(self).ops@ == after_cancel(old(self).ops@, op),
            action == cancel_result(old(self).ops@, op),
    {
        let user_data: usize = op.user_data();
        if self.ops.get_mut(user_data).set_cancelled() {
            // Completed.
            let raw = self.ops.remove(user_data);
            assert(self.ops@ =~= after_cancel(old(self).ops@, op));
            CancelAction::Return(raw.into_inner())
        } else {
            CancelAction::Forward(user_data)
        }
    }

    /// Poll the driver and get completed entries: `reply` is what the driver
    /// found. Returns those to be woken.
    /// You need to call [`Proactor::pop`] to get the pushed
    /// operations.
    pub fn poll(&mut self, reply: Result<Vec<Entry>, io::Error>) -> (wakers: Result<
        Vec<Waker>,
        io::Error,
    >)
        requires
            old(self).wf(),
            reply matches Ok(entries) ==> deliverable(old(self).ops@, entries@),
        ensures
            final(self).wf(),
            final(self).driver == old(self).driver,
            final(self).ops.owner() == old(self).ops.owner(),
            match reply {
                Ok(entries) => {
                    &&& final(self).ops@ == after_notify_all(old(self).ops@, entries@)
                    &&& wakers matches Ok(wakers) && wakers@ == woken(old(self).ops@, entries@)
                },
                Err(e) => {
                    &&& final(self).ops@ == old(self).ops@
                    &&& wakers == Err::<Vec<Waker>, io::Error>(e)
                },
            },
    {
        let entries = match reply {
            Ok(entries) => entries,
            Err(e) => {
                return Err(e);
            },
        };
        let mut wakers: Vec<Waker> = Vec::new();
        let ghost all = entries@;
        for entry in it: entries
            invariant
                it.seq() == all,
                self.wf(),
                self.driver == old(self).driver,
                self.ops.owner() == old(self).ops.owner(),
                deliverable(old(self).ops@, all),
                self.ops@ == after_notify_all(old(self).ops@, all.take(it.index())),
                wakers@ == woken(old(self).ops@, all.take(it.index())),
        {
            proof {
                lemma_deliverable_prefix(old(self).ops@, all, it.index() + 1);
                assert(all.take(it.index() + 1).drop_last() =~= all.take(it.index()));
            }
            if let Some(waker) = entry.notify(&mut self.ops) {
                wakers.push(waker);
            }
        }
        assert(all.take(all.len() as int) =~= all);
        Ok(wakers)
    }

    /// Get the pushed operations from the completion entries. The requested
    /// operation has been completed; [`Proactor::try_pop`] is for one that may
    /// not have been. The key is one that this proactor made.
    pub fn pop(&mut self, op: Key) -> (popped: PushEntry<Key, (BufResult<usize, T>, u32)>)
        requires
            old(self).wf(),
            old(self).ops.owns(&op),
            old(self).ops@[op.user_data()].completed(),
        ensures
            final(self).wf(),
            final(self).driver == old(self).driver,
            final(self).ops.owner() == old(self).ops.owner(),
            final(self).ops@ == after_pop(old(self).ops@, op),
            popped == pop_result(old(self).ops@, op),
            popped is Ready,
    {
        let raw = self.ops.remove(op.user_data());
        let flags: u32 = raw.flags;
        // Completed.
        PushEntry::Ready((raw.into_inner(), flags))
    }

    /// Get the pushed operations from the completion entries. The key comes back
    /// if the requested operation has not been completed. The key is one that
    /// this proactor made.
    pub fn try_pop(&mut self, op: Key) -> (popped: PushEntry<Key, (BufResult<usize, T>, u32)>)
        requires
            old(self).wf(),
            old(self).ops.owns(&op),
        ensures
            final(self).wf(),
            final(self).driver == old(self).driver,
            final(self).ops.owner() == old(self).ops.owner(),
            final(self).ops@ == after_pop(old(self).ops@, op),
            popped == pop_result(old(self).ops@, op),
    {
        if self.ops.has_result(op.user_data()) {
            self.pop(op)
        } else {
            PushEntry::Pending(op)
        }
    }

    /// Update the waker of the specified op. The key is one that this proactor
    /// made.
    pub fn update_waker(&mut self, op: &mut Key, waker: Waker)
        requires
            old(self).wf(),
            old(self).ops.owns(old(op)),
        ensures
            final(self).wf(),
            final(self).driver == old(self).driver,
            final(self).ops.owner() == old(self).ops.owner(),
            *final(op) == *old(op),
            final(self).ops@ == after_update_waker(old(self).ops@, *old(op), waker),
    {
        self.ops.get_mut(op.user_data()).set_waker(waker);
    }
}

/// The first completions of deliverable ones are deliverable.
pub(crate) proof fn lemma_deliverable_prefix<T>(
    ops: Map<usize, RawOp<T>>,
    entries: Seq<Entry>,
    n: int,
)
    requires
        deliverable(ops, entries),
        0 <= n <= entries.len(),
    ensures
        deliverable(ops, entries.take(n)),
    decreases entries.len(),
{
    if n == entries.len() {
        assert(entries.take(n) =~= entries);
    } else {
        lemma_deliverable_prefix(ops, entries.drop_last(), n);
        assert(entries.drop_last().take(n) =~= entries.take(n));
    }
}

} // verus!
