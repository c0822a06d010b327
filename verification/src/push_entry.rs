//! What pushing or popping an operation yields.
use vstd::prelude::*;

verus! {

/// The return type of [`Proactor::push`](crate::Proactor::push).
pub enum PushEntry<K, R> {
    /// The operation is pushed to the submission queue.
    Pending(K),
    /// The operation is ready and returns.
    Ready(R),
}

impl<K, R> PushEntry<K, R> {
    /// Get if the current variant is [`PushEntry::Ready`].
    pub fn is_ready(&self) -> (ready: bool)
        ensures
            ready == (*self is Ready),
    {
        matches!(self, PushEntry::Ready(_))
    }

    /// The value of the ready variant, if that is the variant.
    pub open spec fn ready(self) -> Option<R> {
        match self {
            PushEntry::Pending(_) => None,
            PushEntry::Ready(res) => Some(res),
        }
    }

    /// Take the ready variant if exists.
    pub fn take_ready(self) -> (res: Option<R>)
        ensures
            res == self.ready(),
    {
        match self {
            PushEntry::Pending(_) => None,
            PushEntry::Ready(res) => Some(res),
        }
    }

    /// Map the [`PushEntry::Pending`] branch.
    pub fn map_pending<L>(self, f: impl FnOnce(K) -> L) -> (mapped: PushEntry<L, R>)
        requires
            self matches PushEntry::Pending(k) ==> call_requires(f, (k,)),
        ensures
            match self {
                PushEntry::Pending(k) => mapped matches PushEntry::Pending(l)
                    && call_ensures(f, (k,), l),
                PushEntry::Ready(r) => mapped == PushEntry::<L, R>::Ready(r),
            },
    {
        match self {
            PushEntry::Pending(k) => PushEntry::Pending(f(k)),
            PushEntry::Ready(r) => PushEntry::Ready(r),
        }
    }

    /// Map the [`PushEntry::Ready`] branch.
    pub fn map_ready<S>(self, f: impl FnOnce(R) -> S) -> (mapped: PushEntry<K, S>)
        requires
            self matches PushEntry::Ready(r) ==> call_requires(f, (r,)),
        ensures
            match self {
                PushEntry::Pending(k) => mapped == PushEntry::<K, S>::Pending(k),
                PushEntry::Ready(r) => mapped matches PushEntry::Ready(s)
                    && call_ensures(f, (r,), s),
            },
    {
        match self {
            PushEntry::Pending(k) => PushEntry::Pending(k),
            PushEntry::Ready(r) => PushEntry::Ready(f(r)),
        }
    }
}

} // verus!
