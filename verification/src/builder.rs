//! The configuration of a proactor.
use std::io;

use vstd::prelude::*;

use crate::proactor::Proactor;
use crate::time_span::TimeSpan;

verus! {

/// A file descriptor.
pub type RawFd = i32;

/// Where the thread pool of a proactor comes from.
#[derive(Debug)]
pub enum ThreadPoolBuilder<P> {
    /// A new pool, with at most `limit` threads, of which each waits at most
    /// `recv_limit` for work.
    Create { limit: usize, recv_limit: TimeSpan },
    /// This pool.
    Reuse(P),
}

impl<P: Clone> Clone for ThreadPoolBuilder<P> {
    fn clone(&self) -> (copy: Self)
        ensures
            match *self {
                ThreadPoolBuilder::Create { .. } => copy == *self,
                ThreadPoolBuilder::Reuse(pool) => copy matches ThreadPoolBuilder::Reuse(handle)
                    && cloned(pool, handle),
            },
    {
        match self {
            ThreadPoolBuilder::Create { limit, recv_limit } => ThreadPoolBuilder::Create {
                limit: *limit,
                recv_limit: *recv_limit,
            },
            ThreadPoolBuilder::Reuse(pool) => ThreadPoolBuilder::Reuse(pool.clone()),
        }
    }
}

impl<P> Default for ThreadPoolBuilder<P> {
    fn default() -> (builder: Self)
        ensures
            builder == ThreadPoolBuilder::<P>::initial(),
    {
        Self::new()
    }
}

impl<P> ThreadPoolBuilder<P> {
    /// The default: a new pool of at most 256 threads, each waiting at most a
    /// minute.
    pub open spec fn initial() -> ThreadPoolBuilder<P> {
        ThreadPoolBuilder::Create {
            limit: 256,
            recv_limit: TimeSpan { secs: 60, subsec_nanos: 0 },
        }
    }

    /// The length of time is a proper one.
    pub open spec fn wf(self) -> bool {
        self matches ThreadPoolBuilder::Create { limit: _, recv_limit } ==> recv_limit.wf()
    }

    /// The default.
    pub fn new() -> (builder: Self)
        ensures
            builder == ThreadPoolBuilder::<P>::initial(),
            builder.wf(),
    {
        ThreadPoolBuilder::Create { limit: 256, recv_limit: TimeSpan::from_secs(60) }
    }
}

impl<P: Clone> ThreadPoolBuilder<P> {
    /// Whether `pool` is what comes of this configuration when new pools come
    /// from `create`.
    pub open spec fn yields<F: FnOnce(usize, TimeSpan) -> P>(self, create: F, pool: P) -> bool {
        match self {
            ThreadPoolBuilder::Create { limit, recv_limit } => call_ensures(
                create,
                (limit, recv_limit),
                pool,
            ),
            ThreadPoolBuilder::Reuse(reused) => cloned(reused, pool),
        }
    }

    /// A new pool, or a handle to the one that is to be reused.
    pub fn create_or_reuse<F: FnOnce(usize, TimeSpan) -> P>(&self, create: F) -> (pool: P)
        requires
            self matches ThreadPoolBuilder::Create { limit, recv_limit } ==> call_requires(
                create,
                (*limit, *recv_limit),
            ),
        ensures
            self.yields(create, pool),
    {
        match self {
            ThreadPoolBuilder::Create { limit, recv_limit } => create(*limit, *recv_limit),
            ThreadPoolBuilder::Reuse(pool) => pool.clone(),
        }
    }
}

/// Builder for [`Proactor`].
#[derive(Debug)]
pub struct ProactorBuilder<P> {
    /// See [`ProactorBuilder::capacity`].
    pub capacity: u32,
    /// Where the thread pool comes from.
    pub pool_builder: ThreadPoolBuilder<P>,
    /// See [`ProactorBuilder::sqpoll_idle`].
    pub sqpoll_idle: Option<TimeSpan>,
    /// See [`ProactorBuilder::coop_taskrun`].
    pub coop_taskrun: bool,
    /// See [`ProactorBuilder::taskrun_flag`].
    pub taskrun_flag: bool,
    /// See [`ProactorBuilder::register_eventfd`].
    pub eventfd: Option<RawFd>,
}

impl<P: Clone> Clone for ProactorBuilder<P> {
    fn clone(&self) -> (copy: Self)
        ensures
            copy == (ProactorBuilder { pool_builder: copy.pool_builder, ..*self }),
            match self.pool_builder {
                ThreadPoolBuilder::Create { .. } => copy.pool_builder == self.pool_builder,
                ThreadPoolBuilder::Reuse(pool) => copy.pool_builder matches
                    ThreadPoolBuilder::Reuse(handle) && cloned(pool, handle),
            },
    {
        ProactorBuilder {
            capacity: self.capacity,
            pool_builder: self.pool_builder.clone(),
            sqpoll_idle: self.sqpoll_idle,
            coop_taskrun: self.coop_taskrun,
            taskrun_flag: self.taskrun_flag,
            eventfd: self.eventfd,
        }
    }
}

impl<P> Default for ProactorBuilder<P> {
    fn default() -> (builder: Self)
        ensures
            builder == ProactorBuilder::<P>::initial(),
    {
        Self::new()
    }
}

impl<P> ProactorBuilder<P> {
    /// The default configuration.
    pub open spec fn initial() -> ProactorBuilder<P> {
        ProactorBuilder {
            capacity: 1024,
            pool_builder: ThreadPoolBuilder::initial(),
            sqpoll_idle: None,
            coop_taskrun: false,
            taskrun_flag: false,
            eventfd: None,
        }
    }

    /// The lengths of time are proper ones.
    pub open spec fn wf(self) -> bool {
        &&& self.pool_builder.wf()
        &&& self.sqpoll_idle matches Some(idle) ==> idle.wf()
    }

    /// Create the builder with default config.
    pub fn new() -> (builder: Self)
        ensures
            builder == ProactorBuilder::<P>::initial(),
            builder.wf(),
    {
        ProactorBuilder {
            capacity: 1024,
            pool_builder: ThreadPoolBuilder::new(),
            sqpoll_idle: None,
            coop_taskrun: false,
            taskrun_flag: false,
            eventfd: None,
        }
    }

    /// Set the capacity of the inner event queue or submission queue, if
    /// exists. The default value is 1024.
    pub fn capacity(&mut self, capacity: u32) -> (builder: &mut Self)
        ensures
            *builder == (ProactorBuilder { capacity, ..*old(self) }),
            *final(self) == *final(builder),
    {
        self.capacity = capacity;
        self
    }

    /// The configuration with another limit of the thread number. A pool that is
    /// reused stays as it is.
    pub open spec fn with_thread_pool_limit(self, value: usize) -> ProactorBuilder<P> {
        match self.pool_builder {
            ThreadPoolBuilder::Create { limit: _, recv_limit } => ProactorBuilder {
                pool_builder: ThreadPoolBuilder::Create { limit: value, recv_limit },
                ..self
            },
            ThreadPoolBuilder::Reuse(_) => self,
        }
    }

    /// Set the thread number limit of the inner thread pool, if exists. The
    /// default value is 256.
    ///
    /// It will be ignored if `reuse_thread_pool` is set.
    ///
    /// Warning: some operations don't work if the limit is set to zero:
    /// * `Asyncify` needs thread pool.
    /// * Operations except `Recv*`, `Send*`, `Connect`, `Accept` may need
    ///   thread pool.
    pub fn thread_pool_limit(&mut self, value: usize) -> (builder: &mut Self)
        ensures
            *builder == old(self).with_thread_pool_limit(value),
            *final(self) == *final(builder),
    {
        if let ThreadPoolBuilder::Create { limit, .. } = &mut self.pool_builder {
            *limit = value;
        }
        self
    }

    /// The configuration with another waiting timeout. A pool that is reused
    /// stays as it is.
    pub open spec fn with_thread_pool_recv_timeout(self, timeout: TimeSpan) -> ProactorBuilder<P> {
        match self.pool_builder {
            ThreadPoolBuilder::Create { limit, recv_limit: _ } => ProactorBuilder {
                pool_builder: ThreadPoolBuilder::Create { limit, recv_limit: timeout },
                ..self
            },
            ThreadPoolBuilder::Reuse(_) => self,
        }
    }

    /// Set the waiting timeout of the inner thread, if exists. The default is
    /// 60 seconds.
    ///
    /// It will be ignored if `reuse_thread_pool` is set.
    pub fn thread_pool_recv_timeout(&mut self, timeout: TimeSpan) -> (builder: &mut Self)
        requires
            timeout.wf(),
        ensures
            old(self).wf() ==> builder.wf(),
            *builder == old(self).with_thread_pool_recv_timeout(timeout),
            *final(self) == *final(builder),
    {
        if let ThreadPoolBuilder::Create { recv_limit, .. } = &mut self.pool_builder {
            *recv_limit = timeout;
        }
        self
    }

    /// The configuration that reuses `pool`.
    pub open spec fn with_pool(self, pool: P) -> ProactorBuilder<P> {
        ProactorBuilder { pool_builder: ThreadPoolBuilder::Reuse(pool), ..self }
    }

    /// Set to reuse an existing thread pool in this proactor.
    pub fn reuse_thread_pool(&mut self, pool: P) -> (builder: &mut Self)
        ensures
            *builder == old(self).with_pool(pool),
            *final(self) == *final(builder),
    {
        self.pool_builder = ThreadPoolBuilder::Reuse(pool);
        self
    }

    /// Set `io-uring` sqpoll idle milliseconds, when `sqpoll_idle` is set,
    /// io-uring sqpoll feature will be enabled
    ///
    /// # Notes
    ///
    /// - Only effective when the `io-uring` feature is enabled
    /// - `idle` must >= 1ms, otherwise will set sqpoll idle 0ms
    /// - `idle` will be rounded down
    pub fn sqpoll_idle(&mut self, idle: TimeSpan) -> (builder: &mut Self)
        requires
            idle.wf(),
        ensures
            old(self).wf() ==> builder.wf(),
            *builder == (ProactorBuilder { sqpoll_idle: Some(idle), ..*old(self) }),
            *final(self) == *final(builder),
    {
        self.sqpoll_idle = Some(idle);
        self
    }

    /// The milliseconds that `io-uring` sqpoll is to idle, rounded down, if
    /// `sqpoll_idle` is set.
    pub fn sqpoll_idle_millis(&self) -> (millis: Option<u128>)
        ensures
            match self.sqpoll_idle {
                Some(idle) => millis matches Some(m) && m == idle.total_nanos() / 1_000_000,
                None => millis is None,
            },
    {
        match &self.sqpoll_idle {
            Some(idle) => Some(idle.as_millis()),
            None => None,
        }
    }

    /// `coop_taskrun` feature has been available since Linux Kernel 5.19. This
    /// will optimize performance for most cases, especially compio is a single
    /// thread runtime.
    ///
    /// However, it can't run with sqpoll feature.
    ///
    /// # Notes
    ///
    /// - Only effective when the `io-uring` feature is enabled
    pub fn coop_taskrun(&mut self, enable: bool) -> (builder: &mut Self)
        ensures
            *builder == (ProactorBuilder { coop_taskrun: enable, ..*old(self) }),
            *final(self) == *final(builder),
    {
        self.coop_taskrun = enable;
        self
    }

    /// `taskrun_flag` feature has been available since Linux Kernel 5.19. This
    /// allows io-uring driver can know if any cqes are available when try to
    /// push sqe to sq. This should be enabled with
    /// [`coop_taskrun`](Self::coop_taskrun)
    ///
    /// # Notes
    ///
    /// - Only effective when the `io-uring` feature is enabled
    pub fn taskrun_flag(&mut self, enable: bool) -> (builder: &mut Self)
        ensures
            *builder == (ProactorBuilder { taskrun_flag: enable, ..*old(self) }),
            *final(self) == *final(builder),
    {
        self.taskrun_flag = enable;
        self
    }

    /// Register an eventfd to io-uring.
    ///
    /// # Notes
    ///
    /// - Only effective when the `io-uring` feature is enabled
    pub fn register_eventfd(&mut self, fd: RawFd) -> (builder: &mut Self)
        ensures
            *builder == (ProactorBuilder { eventfd: Some(fd), ..*old(self) }),
            *final(self) == *final(builder),
    {
        self.eventfd = Some(fd);
        self
    }

    /// Build the [`Proactor`], with the driver that `open` makes of this
    /// configuration. `id` is what its keys name as their owner: no two proactors
    /// are to have the same.
    pub fn build<D, T, F: FnOnce(&ProactorBuilder<P>) -> Result<D, io::Error>>(
        &self,
        id: u64,
        open: F,
    ) -> (proactor: Result<Proactor<D, T>, io::Error>)
        requires
            call_requires(open, (self,)),
        ensures
            Proactor::<D, T>::opened(id, self, open, proactor),
    {
        Proactor::with_builder(id, self, open)
    }
}

impl<P: Clone> ProactorBuilder<P> {
    /// Force reuse the thread pool for each proactor created by this builder,
    /// even `reuse_thread_pool` is not set. A new pool comes from `create`.
    pub fn force_reuse_thread_pool<F: FnOnce(usize, TimeSpan) -> P>(
        &mut self,
        create: F,
    ) -> (builder: &mut Self)
        requires
            old(self).pool_builder matches ThreadPoolBuilder::Create { limit, recv_limit }
                ==> call_requires(create, (limit, recv_limit)),
        ensures
            exists|pool: P| #[trigger]
                old(self).pool_builder.yields(create, pool) && *builder == old(self).with_pool(
                    pool,
                ),
            *final(self) == *final(builder),
    {
        let pool = self.create_or_get_thread_pool(create);
        self.reuse_thread_pool(pool)
    }

    /// Create or reuse the thread pool from the config. A new pool comes from
    /// `create`.
    pub fn create_or_get_thread_pool<F: FnOnce(usize, TimeSpan) -> P>(&self, create: F) -> (pool: P)
        requires
            self.pool_builder matches ThreadPoolBuilder::Create { limit, recv_limit }
                ==> call_requires(create, (limit, recv_limit)),
        ensures
            self.pool_builder.yields(create, pool),
    {
        self.pool_builder.create_or_reuse(create)
    }
}

} // verus!
