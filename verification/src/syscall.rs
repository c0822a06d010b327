//! What becomes of the return value of a system call.
use std::io;

use vstd::prelude::*;

verus! {

/// Whether something has come out yet.
pub enum Poll<R> {
    /// Something has come out.
    Ready(R),
    /// Nothing has come out yet.
    Pending,
}

/// The kinds of errors that system calls are told apart by.
#[derive(Debug, Clone, Copy, PartialEq, Eq, Structural)]
pub enum SyscallErrorKind {
    /// The call would have to block.
    WouldBlock,
    /// The call was interrupted.
    Interrupted,
    /// Any other error.
    Other,
}

/// What to do after an attempt at a system call.
pub enum SyscallStep {
    /// Make no further attempt: this is the outcome.
    Break(Poll<Result<usize, io::Error>>),
    /// Make the call again.
    Retry,
}

/// How an operation goes on after its system call.
pub enum Decision<W> {
    /// The operation is completed with this result.
    Completed(usize),
    /// The operation is to wait for this.
    Wait(W),
}

/// The outcome of a system call that returns -1 on failure. `last_error` is the
/// last OS error as it is right after the call.
pub fn syscall_result(res: isize, last_error: io::Error) -> (result: Result<isize, io::Error>)
    ensures
        result == if res == -1 {
            Err::<isize, io::Error>(last_error)
        } else {
            Ok(res)
        },
{
    if res == -1 {
        Err(last_error)
    } else {
        Ok(res)
    }
}

/// The outcome of a Windows call that returns zero on failure.
pub fn syscall_bool(res: i32, last_error: io::Error) -> (result: Result<i32, io::Error>)
    ensures
        result == if res == 0 {
            Err::<i32, io::Error>(last_error)
        } else {
            Ok(res)
        },
{
    if res == 0 {
        Err(last_error)
    } else {
        Ok(res)
    }
}

/// The outcome of a Windows socket call, which returns zero on success.
pub fn syscall_socket(res: i32, last_error: io::Error) -> (result: Result<i32, io::Error>)
    ensures
        result == if res != 0 {
            Err::<i32, io::Error>(last_error)
        } else {
            Ok(res)
        },
{
    if res != 0 {
        Err(last_error)
    } else {
        Ok(res)
    }
}

/// The outcome of a Windows call that returns the handle `invalid` on failure.
pub fn syscall_handle(res: isize, invalid: isize, last_error: io::Error) -> (result: Result<
    isize,
    io::Error,
>)
    ensures
        result == if res == invalid {
            Err::<isize, io::Error>(last_error)
        } else {
            Ok(res)
        },
{
    if res == invalid {
        Err(last_error)
    } else {
        Ok(res)
    }
}

/// [`std::io::Error::kind`], with all kinds but two taken as one. Which kind an
/// error has is left open: it goes by the platform's error codes.
#[verifier::external_body]
pub(crate) fn error_kind(error: &io::Error) -> (kind: SyscallErrorKind) {
    match error.kind() {
        io::ErrorKind::WouldBlock => SyscallErrorKind::WouldBlock,
        io::ErrorKind::Interrupted => SyscallErrorKind::Interrupted,
        _ => SyscallErrorKind::Other,
    }
}

/// [`std::io::Error::raw_os_error`]. Which code an error has, and whether it has
/// one, is left open.
pub assume_specification[ std::io::Error::raw_os_error ](error: &std::io::Error) -> (code: Option<
    i32,
>);

/// [`libc::EINPROGRESS`]: the error code of an operation that has begun and goes
/// on. Which number it is is left open: it differs from platform to platform.
#[verifier::external_body]
pub(crate) fn in_progress_code() -> (code: i32) {
    libc::EINPROGRESS
}

/// What to do after a call failed with `error`, of this kind and code, where
/// `in_progress` is the code of an operation that goes on.
pub open spec fn spec_error_step(
    error: io::Error,
    kind: SyscallErrorKind,
    code: Option<i32>,
    in_progress: i32,
) -> SyscallStep {
    if kind is WouldBlock || code == Some(in_progress) {
        SyscallStep::Break(Poll::Pending)
    } else if kind is Interrupted {
        SyscallStep::Retry
    } else {
        SyscallStep::Break(Poll::Ready(Err(error)))
    }
}

/// What to do after a call failed with `error`, of this kind and code, where
/// `in_progress` is the code of an operation that goes on. A call that would
/// block, or goes on, is pending; one that was interrupted is made again; any
/// other error is the outcome.
pub fn error_step(
    error: io::Error,
    kind: SyscallErrorKind,
    code: Option<i32>,
    in_progress: i32,
) -> (step: SyscallStep)
    ensures
        step == spec_error_step(error, kind, code, in_progress),
{
    let goes_on = match code {
        Some(code) => code == in_progress,
        None => false,
    };
    if kind == SyscallErrorKind::WouldBlock || goes_on {
        SyscallStep::Break(Poll::Pending)
    } else if kind == SyscallErrorKind::Interrupted {
        SyscallStep::Retry
    } else {
        SyscallStep::Break(Poll::Ready(Err(error)))
    }
}

/// Whether `kind` and `code` are what the error itself says of its kind and its
/// code, and `in_progress` is the platform's code of an operation that goes on.
pub closed spec fn error_says(
    error: io::Error,
    kind: SyscallErrorKind,
    code: Option<i32>,
    in_progress: i32,
) -> bool {
    &&& call_ensures(error_kind, (&error,), kind)
    &&& call_ensures(std::io::Error::raw_os_error, (&error,), code)
    &&& call_ensures(in_progress_code, (), in_progress)
}

/// What to do after an attempt at a system call. A call that did not fail is
/// ready with what it returned; an error leads to what [`error_step`] says for
/// the kind and the code of that error.
pub fn syscall_step(attempt: Result<isize, io::Error>) -> (step: SyscallStep)
    ensures
        match attempt {
            Ok(res) => step == SyscallStep::Break(Poll::Ready(Ok(res as usize))),
            Err(error) => exists|kind: SyscallErrorKind, code: Option<i32>, in_progress: i32|
                step == #[trigger] spec_error_step(error, kind, code, in_progress) && error_says(
                    error,
                    kind,
                    code,
                    in_progress,
                ),
        },
{
    match attempt {
        Ok(res) => SyscallStep::Break(Poll::Ready(Ok(res as usize))),
        Err(error) => {
            let kind = error_kind(&error);
            let code = error.raw_os_error();
            error_step(error, kind, code, in_progress_code())
        },
    }
}

/// The call is made again if and only if it was interrupted and does not go on;
/// it is pending if and only if it would block or goes on; in all other cases the
/// outcome is this very error.
pub proof fn law_errors_are_told_apart(
    error: io::Error,
    kind: SyscallErrorKind,
    code: Option<i32>,
    in_progress: i32,
)
    ensures
        spec_error_step(error, kind, code, in_progress) is Retry <==> kind
            == SyscallErrorKind::Interrupted && code != Some(in_progress),
        spec_error_step(error, kind, code, in_progress) == SyscallStep::Break(Poll::Pending)
            <==> kind == SyscallErrorKind::WouldBlock || code == Some(in_progress),
        kind == SyscallErrorKind::Other && code != Some(in_progress) <==> spec_error_step(
            error,
            kind,
            code,
            in_progress,
        ) == SyscallStep::Break(Poll::Ready(Err(error))),
{
}

/// What an error says is what asking that error for its kind and its code gives,
/// and the code of an operation that goes on is the platform's.
pub(crate) proof fn law_errors_speak_for_themselves(
    error: io::Error,
    kind: SyscallErrorKind,
    code: Option<i32>,
    in_progress: i32,
)
    ensures
        error_says(error, kind, code, in_progress) <==> {
            &&& call_ensures(error_kind, (&error,), kind)
            &&& call_ensures(std::io::Error::raw_os_error, (&error,), code)
            &&& call_ensures(in_progress_code, (), in_progress)
        },
{
}

/// How an operation goes on once its system call is made: it waits for `wait`
/// if the call is pending.
pub fn syscall_decision<W>(outcome: Poll<Result<usize, io::Error>>, wait: W) -> (decision: Result<
    Decision<W>,
    io::Error,
>)
    ensures
        decision == match outcome {
            Poll::Pending => Ok(Decision::Wait(wait)),
            Poll::Ready(Ok(res)) => Ok(Decision::Completed(res)),
            Poll::Ready(Err(e)) => Err(e),
        },
{
    match outcome {
        Poll::Pending => Ok(Decision::Wait(wait)),
        Poll::Ready(Ok(res)) => Ok(Decision::Completed(res)),
        Poll::Ready(Err(e)) => Err(e),
    }
}

} // verus!
