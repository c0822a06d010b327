use std::io::{Error, ErrorKind};
use std::sync::atomic::{AtomicUsize, Ordering};
use std::sync::Arc;
use std::task::{Wake, Waker};

use compio_driver::{
    BufResult, CancelAction, Entry, Key, Poll, Proactor, ProactorBuilder, PushEntry, RawOp,
};

struct Alarm(AtomicUsize);

impl Alarm {
    fn new() -> Arc<Alarm> {
        Arc::new(Alarm(AtomicUsize::new(0)))
    }

    fn count(&self) -> usize {
        self.0.load(Ordering::SeqCst)
    }
}

impl Wake for Alarm {
    fn wake(self: Arc<Self>) {
        self.0.fetch_add(1, Ordering::SeqCst);
    }
}

type Ops = Proactor<&'static str, String>;

fn proactor() -> Ops {
    numbered(7)
}

fn numbered(id: u64) -> Ops {
    Proactor::new(id, |_: &ProactorBuilder<()>| Ok("driver")).ok().unwrap()
}

fn push(p: &mut Ops, op: &str) -> Key {
    let key = p.create_op(op.to_string());
    match p.push(key, Poll::Pending) {
        PushEntry::Pending(key) => key,
        PushEntry::Ready(_) => panic!("the driver is not done"),
    }
}

fn entry(key: &Key, result: Result<usize, Error>, flags: u32) -> Entry {
    let mut entry = Entry::new(key.user_data(), result);
    entry.set_flags(flags);
    entry
}

fn poll(p: &mut Ops, entries: Vec<Entry>) -> Vec<Waker> {
    p.poll(Ok(entries)).unwrap()
}

#[test]
fn entries_carry_their_parts() {
    let mut entry = Entry::new(6, Ok(7));
    assert_eq!(entry.user_data(), 6);
    assert_eq!(entry.flags(), 0);
    entry.set_flags(8);
    assert_eq!(entry.flags(), 8);
    assert_eq!(entry.user_data(), 6);
    assert_eq!(entry.into_result().unwrap(), 7);
}

#[test]
fn ready_push_hands_back() {
    let mut p = proactor();
    let key = p.create_op("read".to_string());
    let user_data = key.user_data();
    assert!(p.ops.contains(user_data));
    match p.push(key, Poll::Ready(Ok(4))) {
        PushEntry::Ready(BufResult(res, op)) => {
            assert_eq!(res.unwrap(), 4);
            assert_eq!(op, "read");
        }
        PushEntry::Pending(_) => panic!("the driver is done"),
    }
    assert!(!p.ops.contains(user_data));
    let key = p.create_op("write".to_string());
    match p.push(key, Poll::Ready(Err(Error::from(ErrorKind::BrokenPipe)))) {
        PushEntry::Ready(BufResult(res, op)) => {
            assert_eq!(res.unwrap_err().kind(), ErrorKind::BrokenPipe);
            assert_eq!(op, "write");
        }
        PushEntry::Pending(_) => panic!("the driver is done"),
    }
    assert_eq!(p.driver, "driver");
}

#[test]
fn completed_push_pops() {
    let mut p = proactor();
    let read = push(&mut p, "read");
    let write = push(&mut p, "write");
    let user_data = read.user_data();
    assert_ne!(user_data, write.user_data());
    assert!(poll(&mut p, vec![entry(&read, Ok(10), 3)]).is_empty());
    assert!(p.ops.has_result(user_data));
    match p.pop(read) {
        PushEntry::Ready((BufResult(res, op), flags)) => {
            assert_eq!(res.unwrap(), 10);
            assert_eq!(op, "read");
            assert_eq!(flags, 3);
        }
        PushEntry::Pending(_) => panic!("the operation is completed"),
    }
    assert!(!p.ops.contains(user_data));
    assert!(p.ops.contains(write.user_data()));
}

#[test]
fn pop_waits_for_completion() {
    let mut p = proactor();
    let key = push(&mut p, "read");
    let user_data = key.user_data();
    assert!(!p.ops.has_result(user_data));
    let key = match p.try_pop(key) {
        PushEntry::Pending(key) => key,
        PushEntry::Ready(_) => panic!("the operation is not completed"),
    };
    assert_eq!(key.user_data(), user_data);
    let key = match p.try_pop(key) {
        PushEntry::Pending(key) => key,
        PushEntry::Ready(_) => panic!("the operation is not completed"),
    };
    poll(&mut p, vec![entry(&key, Err(Error::from(ErrorKind::TimedOut)), 0)]);
    match p.try_pop(key) {
        PushEntry::Ready((BufResult(res, _), 0)) => {
            assert_eq!(res.unwrap_err().kind(), ErrorKind::TimedOut)
        }
        _ => panic!("the operation is completed"),
    }
}

#[test]
fn cancel_of_completed_hands_back() {
    let mut p = proactor();
    let key = push(&mut p, "read");
    let user_data = key.user_data();
    poll(&mut p, vec![entry(&key, Ok(10), 3)]);
    match p.cancel(key) {
        CancelAction::Return(BufResult(res, op)) => {
            assert_eq!(res.unwrap(), 10);
            assert_eq!(op, "read");
        }
        CancelAction::Forward(_) => panic!("the operation is completed"),
    }
    assert!(!p.ops.contains(user_data));
}

#[test]
fn cancelled_stays_until_completed() {
    let mut p = proactor();
    let key = push(&mut p, "read");
    let user_data = key.user_data();
    let completion = entry(&key, Ok(1), 0);
    match p.cancel(key) {
        CancelAction::Forward(k) => assert_eq!(k, user_data),
        CancelAction::Return(_) => panic!("the operation is not completed"),
    }
    assert!(p.ops.contains(user_data));
    assert_eq!(p.ops.op_mut(user_data), "read");
    for _ in 0..10 {
        assert_ne!(push(&mut p, "write").user_data(), user_data);
    }
    poll(&mut p, vec![completion]);
    assert!(!p.ops.contains(user_data));
}

#[test]
fn keys_are_good_with_their_proactor_only() {
    let (mut p, mut q) = (numbered(1), numbered(2));
    let (ours, theirs) = (push(&mut p, "ours"), push(&mut q, "theirs"));
    assert_eq!((ours.owner(), theirs.owner()), (1, 2));
    assert_eq!(ours.user_data(), theirs.user_data());
    assert!(p.ops.owns(&ours));
    assert!(q.ops.owns(&theirs));
    assert!(!p.ops.owns(&theirs));
    assert!(!q.ops.owns(&ours));
    let ours = match p.try_pop(ours) {
        PushEntry::Pending(key) => key,
        PushEntry::Ready(_) => panic!("the operation is not completed"),
    };
    assert_eq!(ours.owner(), 1);
}

#[test]
fn released_places_are_used_again() {
    let mut p = proactor();
    let mut greatest = 0;
    for round in 0..100usize {
        let (a, b) = (push(&mut p, "a"), push(&mut p, "b"));
        greatest = greatest.max(a.user_data()).max(b.user_data());
        poll(&mut p, vec![entry(&a, Ok(round), 0), entry(&b, Ok(round), 0)]);
        p.pop(a);
        p.cancel(b);
    }
    assert_eq!(greatest, 1);
}

#[test]
fn keys_are_unique() {
    let mut p = proactor();
    let mut live: Vec<usize> = Vec::new();
    for round in 0..50usize {
        let key = push(&mut p, "op");
        assert!(!live.contains(&key.user_data()));
        if round % 3 == 0 {
            poll(&mut p, vec![entry(&key, Ok(round), 0)]);
            assert!(matches!(p.pop(key), PushEntry::Ready(_)));
        } else {
            live.push(key.user_data());
        }
    }
    assert!(live.iter().all(|k| p.ops.contains(*k)));
    assert_eq!(live.len(), 33);
}

#[test]
fn completion_wakes_the_last_waker() {
    let mut p = proactor();
    let (first, last) = (Alarm::new(), Alarm::new());
    let mut key = push(&mut p, "read");
    p.update_waker(&mut key, Waker::from(first.clone()));
    p.update_waker(&mut key, Waker::from(last.clone()));
    for waker in poll(&mut p, vec![entry(&key, Ok(0), 0)]) {
        waker.wake();
    }
    assert_eq!((first.count(), last.count()), (0, 1));
    p.update_waker(&mut key, Waker::from(first.clone()));
    assert!(poll(&mut p, vec![entry(&key, Ok(2), 5)]).is_empty());
    match p.pop(key) {
        PushEntry::Ready((BufResult(res, _), flags)) => assert_eq!((res.unwrap(), flags), (2, 5)),
        PushEntry::Pending(_) => panic!("the operation is completed"),
    }
}

#[test]
fn poll_completes_each() {
    let mut p = proactor();
    let alarms: Vec<Arc<Alarm>> = (0..3).map(|_| Alarm::new()).collect();
    let mut keys: Vec<Key> = Vec::new();
    for alarm in &alarms {
        let mut key = push(&mut p, "op");
        p.update_waker(&mut key, Waker::from(alarm.clone()));
        keys.push(key);
    }
    let entries = vec![entry(&keys[2], Ok(22), 2), entry(&keys[0], Ok(20), 0)];
    let cancelled = keys.remove(0);
    let gone = cancelled.user_data();
    p.cancel(cancelled);
    let wakers = poll(&mut p, entries);
    assert_eq!(wakers.len(), 2);
    assert!(wakers[0].will_wake(&Waker::from(alarms[2].clone())));
    assert!(wakers[1].will_wake(&Waker::from(alarms[0].clone())));
    assert!(!p.ops.contains(gone));
    let done = keys.pop().unwrap();
    match p.pop(done) {
        PushEntry::Ready((BufResult(res, _), flags)) => assert_eq!((res.unwrap(), flags), (22, 2)),
        PushEntry::Pending(_) => panic!("the operation is completed"),
    }
    assert!(matches!(p.try_pop(keys.pop().unwrap()), PushEntry::Pending(_)));
}

#[test]
fn poll_passes_the_error_on() {
    let mut p = proactor();
    let key = push(&mut p, "read");
    let failed = p.poll(Err(Error::from(ErrorKind::TimedOut)));
    assert_eq!(failed.unwrap_err().kind(), ErrorKind::TimedOut);
    assert!(matches!(p.try_pop(key), PushEntry::Pending(_)));
}

#[test]
fn driver_works_on_the_operation() {
    let mut p = proactor();
    let key = p.create_op("buffer".to_string());
    p.ops.op_mut(key.user_data()).push_str(" filled");
    match p.push(key, Poll::Ready(Ok(6))) {
        PushEntry::Ready(BufResult(_, op)) => assert_eq!(op, "buffer filled"),
        PushEntry::Pending(_) => panic!("the driver is done"),
    }
}

#[test]
fn operations_stay_in_place() {
    let mut p = proactor();
    let key = push(&mut p, "first");
    let place = format!("{:p}", p.ops.op_mut(key.user_data()));
    for _ in 0..1000 {
        push(&mut p, "more");
    }
    assert_eq!(format!("{:p}", p.ops.op_mut(key.user_data())), place);
}

#[test]
fn notify_releases_the_cancelled() {
    let mut p = proactor();
    let key = push(&mut p, "read");
    let completion = entry(&key, Ok(0), 0);
    let user_data = key.user_data();
    p.cancel(key);
    assert!(completion.notify(&mut p.ops).is_none());
    assert!(!p.ops.contains(user_data));
}

#[test]
fn raw_operations_go_through_their_states() {
    let mut raw = RawOp::new('x');
    assert!(!raw.has_result());
    let alarm = Alarm::new();
    raw.set_waker(Waker::from(alarm.clone()));
    assert!(!raw.set_cancelled());
    raw.set_flags(9);
    let (cancelled, waiting) = raw.set_result(Ok(3));
    assert!(cancelled);
    assert!(waiting.is_some());
    assert!(raw.has_result());
    assert!(raw.set_cancelled());
    let (cancelled, waiting) = raw.set_result(Ok(4));
    assert!(cancelled);
    assert!(waiting.is_none());
    assert_eq!(raw.flags, 9);
    let BufResult(res, op) = raw.into_inner();
    assert_eq!((res.unwrap(), op), (4, 'x'));
}

#[test]
fn cancel_and_completion_commute() {
    let mut p = proactor();
    let (first, second) = (push(&mut p, "first"), push(&mut p, "second"));
    let (k1, k2) = (first.user_data(), second.user_data());
    let (e1, e2) = (entry(&first, Ok(1), 0), entry(&second, Ok(2), 0));
    assert!(matches!(p.cancel(first), CancelAction::Forward(_)));
    poll(&mut p, vec![e1]);
    poll(&mut p, vec![e2]);
    assert!(matches!(p.cancel(second), CancelAction::Return(_)));
    assert!(!p.ops.contains(k1));
    assert!(!p.ops.contains(k2));
}

#[test]
fn other_operations_are_untouched() {
    let mut p = proactor();
    let alarm = Alarm::new();
    let mut other = push(&mut p, "other");
    p.update_waker(&mut other, Waker::from(alarm.clone()));
    let key = push(&mut p, "read");
    poll(&mut p, vec![entry(&key, Ok(1), 1)]);
    assert!(matches!(p.pop(key), PushEntry::Ready(_)));
    let key = push(&mut p, "write");
    p.cancel(key);
    assert_eq!(p.ops.op_mut(other.user_data()), "other");
    let wakers = poll(&mut p, vec![entry(&other, Ok(5), 6)]);
    assert!(wakers[0].will_wake(&Waker::from(alarm)));
    match p.pop(other) {
        PushEntry::Ready((BufResult(res, op), flags)) => {
            assert_eq!((res.unwrap(), op.as_str(), flags), (5, "other", 6))
        }
        PushEntry::Pending(_) => panic!("the operation is completed"),
    }
}

#[test]
fn every_operation_is_accounted_for() {
    let mut p = proactor();
    let (mut handed_back, mut released) = (0, 0);
    let mut live: Vec<usize> = Vec::new();
    for round in 0..40usize {
        let key = push(&mut p, "op");
        let user_data = key.user_data();
        match round % 4 {
            0 => {
                poll(&mut p, vec![entry(&key, Ok(round), 0)]);
                assert!(matches!(p.pop(key), PushEntry::Ready(_)));
                handed_back += 1;
            }
            1 => {
                let completion = entry(&key, Ok(round), 0);
                assert!(matches!(p.cancel(key), CancelAction::Forward(_)));
                assert!(p.ops.contains(user_data));
                poll(&mut p, vec![completion]);
                released += 1;
            }
            2 => {
                poll(&mut p, vec![entry(&key, Ok(round), 0)]);
                assert!(matches!(p.cancel(key), CancelAction::Return(_)));
                handed_back += 1;
            }
            _ => {
                assert!(matches!(p.try_pop(key), PushEntry::Pending(_)));
                live.push(user_data);
            }
        }
    }
    assert_eq!((handed_back, released, live.len()), (20, 10, 10));
    let there = (0..100usize).filter(|k| p.ops.contains(*k)).count();
    assert_eq!(there, live.len());
}

#[test]
fn operations_live_as_long_as_referred_to() {
    let mut p = proactor();
    // The driver reports first, then the key is given up.
    let key = push(&mut p, "read");
    let user_data = key.user_data();
    poll(&mut p, vec![entry(&key, Ok(1), 0)]);
    assert!(p.ops.contains(user_data));
    p.pop(key);
    assert!(!p.ops.contains(user_data));
    // The key is given up first, then the driver reports.
    let key = push(&mut p, "read");
    let user_data = key.user_data();
    let completion = entry(&key, Ok(1), 0);
    p.cancel(key);
    assert!(p.ops.contains(user_data));
    poll(&mut p, vec![completion]);
    assert!(!p.ops.contains(user_data));
}
