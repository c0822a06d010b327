//! Completions that the kernel reports.
use std::io;
use std::task::Waker;

use vstd::prelude::*;

use crate::operations::Operations;
use crate::state::after_notify;

verus! {

/// A completed entry returned from kernel.
#[derive(Debug)]
pub struct Entry {
    /// The user data of the completed operation.
    pub user_data: usize,
    /// The result of the operation.
    pub result: Result<usize, io::Error>,
    /// The flags of the completion.
    pub flags: u32,
}

impl Entry {
    /// A completion without flags.
    pub fn new(user_data: usize, result: Result<usize, io::Error>) -> (entry: Entry)
        ensures
            entry == (Entry { user_data, result, flags: 0 }),
    {
        Entry { user_data, result, flags: 0 }
    }

    /// Set the flags.
    pub fn set_flags(&mut self, flags: u32)
        ensures
            *final(self) == (Entry { flags, ..*old(self) }),
    {
        self.flags = flags;
    }

    /// The user-defined data returned by [`Proactor::push`](crate::Proactor::push).
    pub fn user_data(&self) -> (user_data: usize)
        ensures
            user_data == self.user_data,
    {
        self.user_data
    }

    /// The flags of the completion.
    pub fn flags(&self) -> (flags: u32)
        ensures
            flags == self.flags,
    {
        self.flags
    }

    /// The result of the operation.
    pub fn into_result(self) -> (result: Result<usize, io::Error>)
        ensures
            result == self.result,
    {
        self.result
    }

    /// Deliver the completion to its operation. One that was cancelled is
    /// released; any other keeps the result until it is popped. Returns whom to
    /// wake.
    pub fn notify<T>(self, ops: &mut Operations<T>) -> (waiting: Option<Waker>)
        requires
            old(ops).wf(),
            old(ops)@.contains_key(self.user_data),
        ensures
            final(ops).wf(),
            final(ops).owner() == old(ops).owner(),
            final(ops)@ == after_notify(old(ops)@, self),
            waiting == old(ops)@[self.user_data].waiting(),
    {
        let user_data: usize = self.user_data();
        let raw = ops.get_mut(user_data);
        raw.set_flags(self.flags());
        let (cancelled, waiting) = raw.set_result(self.into_result());
        if cancelled {
            // Completed and cancelled.
            let _ = ops.remove(user_data);
            assert(ops@ =~= after_notify(old(ops)@, self));
        }
        waiting
    }
}

} // verus!
