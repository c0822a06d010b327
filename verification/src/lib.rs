//! Completion-based IO: the bookkeeping of operations between the moment they
//! are handed to a platform driver and the moment their results are taken back.
//!
//! A [`Proactor`] owns the operations and decides what becomes of them. It makes
//! no system calls: its functions take what the driver replied, and return what
//! the driver, or whoever waits, is to be told.
pub mod buffer_pool;
pub mod builder;
pub mod delivery;
pub mod effects;
pub mod entry;
pub mod history;
pub mod key;
pub mod laws;
pub mod op;
pub mod operations;
pub mod owners;
pub mod proactor;
pub mod push_entry;
pub mod settings;
pub mod state;
pub mod syscall;
pub mod time_span;

pub use buffer_pool::buffer_pool_len;
pub use builder::{ProactorBuilder, RawFd, ThreadPoolBuilder};
pub use entry::Entry;
pub use key::Key;
pub use op::{BufResult, RawOp};
pub use operations::Operations;
pub use proactor::{CancelAction, Proactor};
pub use push_entry::PushEntry;
pub use syscall::{
    error_step, syscall_bool, syscall_decision, syscall_handle, syscall_result, syscall_socket,
    syscall_step, Decision, Poll, SyscallErrorKind, SyscallStep,
};
pub use time_span::TimeSpan;
