//! One operation and what is known of it while a driver works on it.
use std::io;
use std::task::Waker;

use vstd::prelude::*;

use crate::push_entry::PushEntry;

verus! {

/// [`std::io::Error`], declared so that it can be carried through. Nothing is
/// claimed of what is inside one.
#[verifier::external_type_specification]
#[verifier::external_body]
pub struct ExIoError(std::io::Error);

/// [`std::task::Waker`], declared so that it can be carried through. Nothing is
/// claimed of what is inside one.
#[verifier::external_type_specification]
#[verifier::external_body]
pub struct ExWaker(std::task::Waker);

/// The result of an operation, and the operation itself with its buffers.
pub struct BufResult<T, B>(pub Result<T, io::Error>, pub B);

/// An operation together with its state.
pub struct RawOp<T> {
    /// Nobody waits for the result any more.
    pub cancelled: bool,
    /// The result once the operation is completed; until then, whom to wake.
    pub result: PushEntry<Option<Waker>, Result<usize, io::Error>>,
    /// The flags that came with the completion.
    pub flags: u32,
    /// The operation.
    pub op: T,
}

impl<T> RawOp<T> {
    /// An operation that was just created.
    pub open spec fn fresh(op: T) -> RawOp<T> {
        RawOp { cancelled: false, result: PushEntry::Pending(None), flags: 0, op }
    }

    /// The operation has a result.
    pub open spec fn completed(self) -> bool {
        self.result is Ready
    }

    /// Who is to be woken when the operation completes.
    pub open spec fn waiting(self) -> Option<Waker> {
        match self.result {
            PushEntry::Pending(waker) => waker,
            PushEntry::Ready(_) => None,
        }
    }

    /// The operation with a result.
    pub open spec fn with_result(self, res: Result<usize, io::Error>) -> RawOp<T> {
        RawOp { result: PushEntry::Ready(res), ..self }
    }

    /// The operation with someone waiting, who replaces whoever waited before.
    /// Nobody waits for a completed operation.
    pub open spec fn with_waker(self, waker: Waker) -> RawOp<T> {
        match self.result {
            PushEntry::Pending(_) => RawOp { result: PushEntry::Pending(Some(waker)), ..self },
            PushEntry::Ready(_) => self,
        }
    }

    /// What is handed back of a completed operation.
    pub open spec fn outcome(self) -> BufResult<usize, T> {
        BufResult(self.result->Ready_0, self.op)
    }

    /// Wrap an operation that is about to be handed to a driver.
    pub fn new(op: T) -> (raw: RawOp<T>)
        ensures
            raw == RawOp::fresh(op),
    {
        RawOp { cancelled: false, result: PushEntry::Pending(None), flags: 0, op }
    }

    /// Whether the operation is completed.
    pub fn has_result(&self) -> (completed: bool)
        ensures
            completed == self.completed(),
    {
        self.result.is_ready()
    }

    /// Cancel the operation. Returns whether it is completed already.
    pub fn set_cancelled(&mut self) -> (completed: bool)
        ensures
            *final(self) == (RawOp { cancelled: true, ..*old(self) }),
            completed == old(self).completed(),
    {
        self.cancelled = true;
        self.has_result()
    }

    /// Complete the operation. Returns whether it was cancelled, and whom to
    /// wake.
    pub fn set_result(&mut self, res: Result<usize, io::Error>) -> (r: (bool, Option<Waker>))
        ensures
            *final(self) == old(self).with_result(res),
            r.0 == old(self).cancelled,
            r.1 == old(self).waiting(),
    {
        let mut previous = PushEntry::Ready(res);
        std::mem::swap(&mut self.result, &mut previous);
        let waiting = match previous {
            PushEntry::Pending(waker) => waker,
            PushEntry::Ready(_) => None,
        };
        (self.cancelled, waiting)
    }

    /// Record the flags of the completion.
    pub fn set_flags(&mut self, flags: u32)
        ensures
            *final(self) == (RawOp { flags, ..*old(self) }),
    {
        self.flags = flags;
    }

    /// Set whom to wake when the operation completes.
    pub fn set_waker(&mut self, waker: Waker)
        ensures
            *final(self) == old(self).with_waker(waker),
    {
        if !self.result.is_ready() {
            self.result = PushEntry::Pending(Some(waker));
        }
    }

    /// Take a completed operation apart.
    pub fn into_inner(self) -> (outcome: BufResult<usize, T>)
        requires
            self.completed(),
        ensures
            outcome == self.outcome(),
    {
        let RawOp { result, op, .. } = self;
        BufResult(result.take_ready().unwrap(), op)
    }
}

} // verus!
