use std::io::{Error, ErrorKind};

use compio_driver::{
    error_step, syscall_bool, syscall_decision, syscall_handle, syscall_result, syscall_socket,
    syscall_step, Decision, Poll, SyscallErrorKind, SyscallStep,
};

fn os(code: i32) -> Error {
    Error::from_raw_os_error(code)
}

#[test]
fn minus_one_is_failure() {
    let failed = syscall_result(-1, os(libc::EBADF));
    assert_eq!(failed.unwrap_err().raw_os_error(), Some(libc::EBADF));
    assert_eq!(syscall_result(0, os(libc::EBADF)).unwrap(), 0);
    assert_eq!(syscall_result(5, os(libc::EBADF)).unwrap(), 5);
    assert_eq!(syscall_result(-2, os(libc::EBADF)).unwrap(), -2);
}

#[test]
fn zero_is_failure_of_bool() {
    assert!(syscall_bool(0, os(5)).is_err());
    assert_eq!(syscall_bool(1, os(5)).unwrap(), 1);
    assert_eq!(syscall_bool(-1, os(5)).unwrap(), -1);
}

#[test]
fn nonzero_is_failure_of_socket() {
    assert_eq!(syscall_socket(0, os(5)).unwrap(), 0);
    assert_eq!(syscall_socket(-1, os(5)).unwrap_err().raw_os_error(), Some(5));
}

#[test]
fn invalid_is_failure_of_handle() {
    assert!(syscall_handle(-1, -1, os(5)).is_err());
    assert_eq!(syscall_handle(0, -1, os(5)).unwrap(), 0);
}

#[test]
fn success_is_ready() {
    assert!(matches!(
        syscall_step(Ok(17)),
        SyscallStep::Break(Poll::Ready(Ok(17)))
    ));
    assert!(matches!(
        syscall_step(Ok(-2)),
        SyscallStep::Break(Poll::Ready(Ok(n))) if n == usize::MAX - 1
    ));
}

#[test]
fn blocking_is_pending() {
    assert!(matches!(
        syscall_step(Err(os(libc::EAGAIN))),
        SyscallStep::Break(Poll::Pending)
    ));
    assert!(matches!(
        syscall_step(Err(Error::from(ErrorKind::WouldBlock))),
        SyscallStep::Break(Poll::Pending)
    ));
}

#[test]
fn in_progress_is_pending() {
    assert!(matches!(
        syscall_step(Err(os(libc::EINPROGRESS))),
        SyscallStep::Break(Poll::Pending)
    ));
}

#[test]
fn interrupted_is_made_again() {
    assert!(matches!(syscall_step(Err(os(libc::EINTR))), SyscallStep::Retry));
    assert!(matches!(
        syscall_step(Err(Error::from(ErrorKind::Interrupted))),
        SyscallStep::Retry
    ));
}

#[test]
fn other_errors_are_ready() {
    match syscall_step(Err(os(libc::ECONNREFUSED))) {
        SyscallStep::Break(Poll::Ready(Err(e))) => {
            assert_eq!(e.raw_os_error(), Some(libc::ECONNREFUSED))
        }
        _ => panic!("the error is the outcome"),
    }
    match syscall_step(Err(Error::from(ErrorKind::TimedOut))) {
        SyscallStep::Break(Poll::Ready(Err(e))) => assert_eq!(e.kind(), ErrorKind::TimedOut),
        _ => panic!("the error is the outcome"),
    }
}

#[test]
fn errors_go_by_kind_and_code() {
    let step = |kind, code| error_step(os(9), kind, code, 36);
    assert!(matches!(
        step(SyscallErrorKind::WouldBlock, None),
        SyscallStep::Break(Poll::Pending)
    ));
    assert!(matches!(
        step(SyscallErrorKind::Other, Some(36)),
        SyscallStep::Break(Poll::Pending)
    ));
    assert!(matches!(
        step(SyscallErrorKind::Interrupted, Some(36)),
        SyscallStep::Break(Poll::Pending)
    ));
    assert!(matches!(
        step(SyscallErrorKind::Interrupted, Some(4)),
        SyscallStep::Retry
    ));
    assert!(matches!(
        step(SyscallErrorKind::Other, Some(37)),
        SyscallStep::Break(Poll::Ready(Err(_)))
    ));
}

#[test]
fn decisions_follow_outcomes() {
    assert!(matches!(
        syscall_decision(Poll::Pending, "readable"),
        Ok(Decision::Wait("readable"))
    ));
    assert!(matches!(
        syscall_decision(Poll::Ready(Ok(12)), "readable"),
        Ok(Decision::Completed(12))
    ));
    let failed = syscall_decision(Poll::Ready(Err(os(libc::EPIPE))), "readable");
    match failed {
        Err(e) => assert_eq!(e.raw_os_error(), Some(libc::EPIPE)),
        Ok(_) => panic!("the error comes out"),
    }
}
