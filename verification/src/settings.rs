//! What the configuration means, setting by setting.
use std::io;

use vstd::arithmetic::power2::{
    lemma2_to64, lemma_pow2_pos, lemma_pow2_strictly_increases, lemma_pow2_unfold, pow2,
};
use vstd::prelude::*;

use crate::buffer_pool::{is_power_of_two, is_rounded_up};
use crate::builder::{ProactorBuilder, ThreadPoolBuilder};
use crate::proactor::Proactor;
use crate::time_span::TimeSpan;

verus! {

/// Without settings there are 1024 entries, no sqpoll, no taskrun feature, no
/// eventfd, and a new pool of 256 threads that each wait for 60 seconds.
pub proof fn law_defaults<P>()
    ensures
        ({
            let builder = ProactorBuilder::<P>::initial();
            &&& builder.capacity == 1024
            &&& builder.sqpoll_idle is None
            &&& !builder.coop_taskrun
            &&& !builder.taskrun_flag
            &&& builder.eventfd is None
            &&& builder.pool_builder == ThreadPoolBuilder::<P>::initial()
            &&& builder.pool_builder matches ThreadPoolBuilder::Create { limit, recv_limit }
                && limit == 256 && recv_limit.secs == 60 && recv_limit.subsec_nanos == 0
        }),
{
}

/// Choosing a pool to reuse changes where the pool comes from and nothing else.
pub proof fn law_reuse_changes_the_pool_only<P>(builder: ProactorBuilder<P>, pool: P)
    ensures
        builder.with_pool(pool).pool_builder matches ThreadPoolBuilder::Reuse(reused) && reused
            == pool,
        builder.with_pool(pool).capacity == builder.capacity,
        builder.with_pool(pool).sqpoll_idle == builder.sqpoll_idle,
        builder.with_pool(pool).coop_taskrun == builder.coop_taskrun,
        builder.with_pool(pool).taskrun_flag == builder.taskrun_flag,
        builder.with_pool(pool).eventfd == builder.eventfd,
{
}

/// Setting the limit of threads changes the limit of a new pool and nothing else,
/// and nothing at all where a pool is reused.
pub proof fn law_limit_changes_the_limit_only<P>(builder: ProactorBuilder<P>, value: usize)
    ensures
        match builder.pool_builder {
            ThreadPoolBuilder::Create { limit: _, recv_limit } => builder.with_thread_pool_limit(
                value,
            ).pool_builder matches ThreadPoolBuilder::Create { limit: l, recv_limit: r } && l
                == value && r == recv_limit,
            ThreadPoolBuilder::Reuse(pool) => builder.with_thread_pool_limit(value).pool_builder
                == builder.pool_builder,
        },
        builder.with_thread_pool_limit(value).capacity == builder.capacity,
        builder.with_thread_pool_limit(value).sqpoll_idle == builder.sqpoll_idle,
        builder.with_thread_pool_limit(value).coop_taskrun == builder.coop_taskrun,
        builder.with_thread_pool_limit(value).taskrun_flag == builder.taskrun_flag,
        builder.with_thread_pool_limit(value).eventfd == builder.eventfd,
{
}

/// Setting the timeout of threads changes the timeout of a new pool and nothing
/// else, and nothing at all where a pool is reused.
pub proof fn law_timeout_changes_the_timeout_only<P>(
    builder: ProactorBuilder<P>,
    timeout: TimeSpan,
)
    ensures
        match builder.pool_builder {
            ThreadPoolBuilder::Create {
                limit,
                recv_limit: _,
            } => builder.with_thread_pool_recv_timeout(timeout).pool_builder matches
                ThreadPoolBuilder::Create { limit: l, recv_limit: r } && l == limit && r
                == timeout,
            ThreadPoolBuilder::Reuse(pool) => builder.with_thread_pool_recv_timeout(
                timeout,
            ).pool_builder == builder.pool_builder,
        },
        builder.with_thread_pool_recv_timeout(timeout).capacity == builder.capacity,
        builder.with_thread_pool_recv_timeout(timeout).sqpoll_idle == builder.sqpoll_idle,
        builder.with_thread_pool_recv_timeout(timeout).coop_taskrun == builder.coop_taskrun,
        builder.with_thread_pool_recv_timeout(timeout).taskrun_flag == builder.taskrun_flag,
        builder.with_thread_pool_recv_timeout(timeout).eventfd == builder.eventfd,
{
}

/// A new pool is what the call with the limit and the timeout gives; a reused one
/// is a handle to the pool that was chosen.
pub proof fn law_pools_come_from_the_settings<P: Clone, F: FnOnce(usize, TimeSpan) -> P>(
    limit: usize,
    recv_limit: TimeSpan,
    chosen: P,
    create: F,
    pool: P,
)
    ensures
        (ThreadPoolBuilder::<P>::Create { limit, recv_limit }).yields(create, pool)
            <==> call_ensures(create, (limit, recv_limit), pool),
        ThreadPoolBuilder::Reuse(chosen).yields(create, pool) <==> cloned(chosen, pool),
{
}

/// A proactor is built exactly if the call with this very configuration gives its
/// driver, and begins without operations, under its own id; otherwise the error
/// of that call is what comes out.
pub proof fn law_building_opens_this_configuration<
    D,
    T,
    P,
    F: FnOnce(&ProactorBuilder<P>) -> Result<D, io::Error>,
>(id: u64, builder: &ProactorBuilder<P>, open: F, proactor: Proactor<D, T>, error: io::Error)
    ensures
        Proactor::<D, T>::opened(id, builder, open, Ok(proactor)) <==> {
            &&& call_ensures(open, (builder,), Ok(proactor.driver))
            &&& proactor.wf()
            &&& proactor.ops.owner() == id
            &&& forall|k: usize| !(#[trigger] proactor.ops@.contains_key(k))
        },
        Proactor::<D, T>::opened(id, builder, open, Err(error)) <==> call_ensures(
            open,
            (builder,),
            Err(error),
        ),
{
    if forall|k: usize| !(#[trigger] proactor.ops@.contains_key(k)) {
        assert(proactor.ops@ =~= Map::empty());
    }
}

/// A length of time in nanoseconds is that of its seconds and of the nanoseconds
/// past them, and its whole milliseconds are those of both.
pub proof fn law_time_spans_measure(span: TimeSpan)
    ensures
        span.total_nanos() == span.secs * 1_000_000_000 + span.subsec_nanos,
        span.total_nanos() / 1_000_000 == span.secs * 1000 + span.subsec_nanos / 1_000_000,
        span.wf() <==> span.subsec_nanos < 1_000_000_000,
{
}

/// A configuration is proper exactly if its lengths of time are.
pub proof fn law_proper_settings<P>(builder: ProactorBuilder<P>)
    ensures
        builder.wf() <==> {
            &&& builder.pool_builder matches ThreadPoolBuilder::Create { limit, recv_limit }
                ==> recv_limit.subsec_nanos < 1_000_000_000
            &&& builder.sqpoll_idle matches Some(idle) ==> idle.subsec_nanos < 1_000_000_000
        },
{
}

/// One is a power of two, any other is twice a power of two, and nothing below
/// one is.
pub proof fn law_powers_of_two_double(n: int)
    ensures
        is_power_of_two(1),
        n < 1 ==> !is_power_of_two(n),
        n > 1 ==> (is_power_of_two(n) <==> n % 2 == 0 && is_power_of_two(n / 2)),
{
    assert(pow2(0) == 1) by {
        lemma2_to64();
    }
    if is_power_of_two(n) {
        let e = choose|e: nat| n == #[trigger] pow2(e);
        lemma_pow2_pos(e);
        if n > 1 {
            lemma_pow2_unfold(e);
            assert(n / 2 == pow2((e - 1) as nat));
        }
    }
    if n > 1 && n % 2 == 0 && is_power_of_two(n / 2) {
        let e = choose|e: nat| n / 2 == #[trigger] pow2(e);
        lemma_pow2_unfold(e + 1);
        assert(n == pow2(e + 1));
    }
}

/// A number of buffers is rounded up to a power of two that is at least as many,
/// and less than twice as many; none is rounded up to one.
pub proof fn law_rounding_up_stays_close(len: int, n: int)
    ensures
        n >= 1 ==> (is_rounded_up(len, n) <==> is_power_of_two(len) && n <= len < 2 * n),
        n < 1 ==> (is_rounded_up(len, n) <==> len == 1),
{
    law_powers_of_two_double(len);
    if n < 1 {
        assert forall|p: int| #[trigger] is_power_of_two(p) implies 1 <= p by {
            law_powers_of_two_double(p);
        }
    }
    if n >= 1 && is_rounded_up(len, n) && len >= 2 * n {
        assert(is_power_of_two(len / 2));
        assert(false);
    }
    if n >= 1 && is_power_of_two(len) && n <= len < 2 * n {
        assert forall|p: int| #[trigger] is_power_of_two(p) && n <= p implies len <= p by {
            if p < len {
                let e = choose|e: nat| p == #[trigger] pow2(e);
                let f = choose|f: nat| len == #[trigger] pow2(f);
                if f <= e {
                    if f < e {
                        lemma_pow2_strictly_increases(f, e);
                    }
                } else {
                    if e + 1 < f {
                        lemma_pow2_strictly_increases(e + 1, f);
                    }
                    lemma_pow2_unfold(e + 1);
                }
            }
        }
    }
}

} // verus!
