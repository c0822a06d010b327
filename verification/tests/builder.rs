use std::io::{Error, ErrorKind};
use std::sync::Arc;

use compio_driver::{Proactor, ProactorBuilder, ThreadPoolBuilder, TimeSpan};

type Pool = Arc<(usize, TimeSpan)>;

fn pool(limit: usize, recv_limit: TimeSpan) -> Pool {
    Arc::new((limit, recv_limit))
}

#[test]
fn defaults() {
    for builder in [
        ProactorBuilder::<Pool>::new(),
        ProactorBuilder::default(),
        Proactor::<(), ()>::builder(),
    ] {
        assert_eq!(builder.capacity, 1024);
        assert!(matches!(
            builder.pool_builder,
            ThreadPoolBuilder::Create {
                limit: 256,
                recv_limit: TimeSpan {
                    secs: 60,
                    subsec_nanos: 0
                }
            }
        ));
        assert!(builder.sqpoll_idle.is_none());
        assert!(!builder.coop_taskrun);
        assert!(!builder.taskrun_flag);
        assert!(builder.eventfd.is_none());
    }
    let pool: ThreadPoolBuilder<Pool> = ThreadPoolBuilder::default();
    assert!(matches!(pool, ThreadPoolBuilder::Create { limit: 256, .. }));
}

#[test]
fn setters_chain() {
    let mut builder = ProactorBuilder::<Pool>::new();
    builder
        .capacity(8)
        .thread_pool_limit(3)
        .thread_pool_recv_timeout(TimeSpan::from_secs(5))
        .sqpoll_idle(TimeSpan::from_secs(2))
        .coop_taskrun(true)
        .taskrun_flag(true)
        .register_eventfd(42);
    assert_eq!(builder.capacity, 8);
    assert_eq!(builder.sqpoll_idle, Some(TimeSpan::from_secs(2)));
    assert!(builder.coop_taskrun);
    assert!(builder.taskrun_flag);
    assert_eq!(builder.eventfd, Some(42));
    let made = builder.create_or_get_thread_pool(pool);
    assert_eq!(*made, (3, TimeSpan::from_secs(5)));
}

#[test]
fn last_setting_counts() {
    let mut builder = ProactorBuilder::<Pool>::new();
    builder
        .thread_pool_limit(3)
        .thread_pool_recv_timeout(TimeSpan::from_secs(5))
        .thread_pool_limit(4)
        .thread_pool_recv_timeout(TimeSpan::from_secs(6));
    let made = builder.create_or_get_thread_pool(pool);
    assert_eq!(*made, (4, TimeSpan::from_secs(6)));
}

#[test]
fn reused_pool_ignores_settings() {
    let existing = pool(1, TimeSpan::from_secs(1));
    let mut builder = ProactorBuilder::new();
    builder
        .reuse_thread_pool(existing.clone())
        .thread_pool_limit(99)
        .thread_pool_recv_timeout(TimeSpan::from_secs(99));
    let got = builder.create_or_get_thread_pool(|_, _| panic!("a pool is reused"));
    assert!(Arc::ptr_eq(&got, &existing));
    assert_eq!(*got, (1, TimeSpan::from_secs(1)));
}

#[test]
fn new_pools_differ_unless_reuse_is_forced() {
    let mut builder = ProactorBuilder::<Pool>::new();
    let first = builder.create_or_get_thread_pool(pool);
    let second = builder.create_or_get_thread_pool(pool);
    assert!(!Arc::ptr_eq(&first, &second));

    builder.thread_pool_limit(7).force_reuse_thread_pool(pool);
    let first = builder.create_or_get_thread_pool(pool);
    let second = builder.create_or_get_thread_pool(pool);
    assert!(Arc::ptr_eq(&first, &second));
    assert_eq!(first.0, 7);

    builder.force_reuse_thread_pool(pool);
    assert!(Arc::ptr_eq(&first, &builder.create_or_get_thread_pool(pool)));
}

#[test]
fn pool_builder_creates_or_reuses() {
    let builder: ThreadPoolBuilder<Pool> = ThreadPoolBuilder::new();
    assert_eq!(*builder.create_or_reuse(pool), (256, TimeSpan::from_secs(60)));
    let existing = pool(1, TimeSpan::from_secs(1));
    let builder = ThreadPoolBuilder::Reuse(existing.clone());
    assert!(Arc::ptr_eq(&existing, &builder.create_or_reuse(pool)));
}

#[test]
fn clones_are_equal() {
    let existing = pool(1, TimeSpan::from_secs(1));
    let mut builder = ProactorBuilder::new();
    builder.capacity(5).register_eventfd(3).coop_taskrun(true);
    let copy = builder.clone();
    assert_eq!(copy.capacity, 5);
    assert_eq!(copy.eventfd, Some(3));
    assert!(copy.coop_taskrun);
    assert!(!copy.taskrun_flag);
    assert_eq!(copy.create_or_get_thread_pool(pool).0, 256);
    builder.reuse_thread_pool(existing.clone());
    let copy = builder.clone();
    assert!(Arc::ptr_eq(&existing, &copy.create_or_get_thread_pool(pool)));
}

#[test]
fn idle_is_rounded_down() {
    let mut builder = ProactorBuilder::<Pool>::new();
    assert_eq!(builder.sqpoll_idle_millis(), None);
    let mut millis = |secs, subsec_nanos| {
        builder.sqpoll_idle(TimeSpan { secs, subsec_nanos });
        builder.sqpoll_idle_millis().unwrap()
    };
    assert_eq!(millis(0, 999_999), 0);
    assert_eq!(millis(0, 1_000_000), 1);
    assert_eq!(millis(2, 1_999_999), 2001);
    assert_eq!(millis(u64::MAX, 999_999_999), u64::MAX as u128 * 1000 + 999);
}

#[test]
fn new_opens_the_default_driver() {
    let proactor = Proactor::<u32, ()>::new(1, |b: &ProactorBuilder<Pool>| Ok(b.capacity));
    assert_eq!(proactor.ok().unwrap().driver, 1024);
}

#[test]
fn build_opens_the_configured_driver() {
    let mut builder = ProactorBuilder::<Pool>::new();
    builder.capacity(16);
    let proactor = builder.build::<u32, (), _>(1, |b| Ok(b.capacity));
    assert_eq!(proactor.ok().unwrap().driver, 16);
}

#[test]
fn no_proactor_without_a_driver() {
    let proactor = ProactorBuilder::<Pool>::new()
        .build::<u32, (), _>(1, |_| Err(Error::from(ErrorKind::Unsupported)));
    assert_eq!(proactor.err().unwrap().kind(), ErrorKind::Unsupported);
}
