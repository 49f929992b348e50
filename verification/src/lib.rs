//! Advisory whole-file locking primitives and a PID-file lifecycle model.
//!
//! The locking side normalizes the operation space `{shared, exclusive,
//! unlock}`, each optionally non-blocking, into composed operation codes,
//! and provides the pure mapping that emulates whole-file locking through
//! a record-locking primitive on platforms that lack the primary syscall.
//! The [`pid`] module models a PID file: its path, its decimal content,
//! and its construct/destroy lifecycle.
//!
//! Performing the syscalls themselves is left to the embedding program,
//! which feeds their raw results back into [`flock_outcome`].

pub mod pid;

use vstd::prelude::*;

verus! {

/// A composed lock operation code: one lock kind, optionally combined
/// with the non-blocking modifier.
pub type Operation = i32;

/// Place a shared lock. More than one process may hold a shared lock
/// for a given file at a given time.
pub const LOCK_SH: Operation = 1;

/// Place an exclusive lock. Only one process may hold an exclusive lock
/// for a given file at a given time.
pub const LOCK_EX: Operation = 2;

/// Modifier: fail immediately instead of waiting if the lock is unavailable.
pub const LOCK_NB: Operation = 4;

/// Remove an existing lock held by this process.
pub const LOCK_UN: Operation = 8;

/// The three lock kinds an operation code can carry.
#[derive(PartialEq, Eq, Structural, Clone, Copy, Debug)]
pub enum LockKind {
    Shared,
    Exclusive,
    Unlock,
}

/// An error surfaced by a lock operation: either the OS reported a
/// failure (carrying its error code), or the composed operation code
/// was invalid on the emulation path, which is a programming error
/// rather than an environmental one.
#[derive(PartialEq, Eq, Structural, Clone, Copy, Debug)]
pub enum LockError {
    Os { code: i32 },
    UnsupportedOperation,
}

/// The operation code that a lock kind composes to, with or without
/// the non-blocking modifier.
pub open spec fn spec_compose(kind: LockKind, nonblocking: bool) -> Operation {
    let base: Operation = match kind {
        LockKind::Shared => LOCK_SH,
        LockKind::Exclusive => LOCK_EX,
        LockKind::Unlock => LOCK_UN,
    };
    if nonblocking {
        base | LOCK_NB
    } else {
        base
    }
}

/// Composes an operation code from a lock kind and the non-blocking
/// modifier, exactly as the five public locking operations do:
/// `lock_shared` is `(Shared, false)`, `try_lock_exclusive` is
/// `(Exclusive, true)`, `unlock` is `(Unlock, false)`, and so on.
pub fn compose(kind: LockKind, nonblocking: bool) -> (op: Operation)
    ensures
        op == spec_compose(kind, nonblocking),
{
    let base: Operation = match kind {
        LockKind::Shared => LOCK_SH,
        LockKind::Exclusive => LOCK_EX,
        LockKind::Unlock => LOCK_UN,
    };
    if nonblocking {
        base | LOCK_NB
    } else {
        base
    }
}

/// The record-lock type a whole-file operation code maps to on the
/// emulation path: remove the record lock, write-lock, or read-lock.
#[derive(PartialEq, Eq, Structural, Clone, Copy, Debug)]
pub enum RecordLockType {
    Read,
    Write,
    Unlock,
}

/// The record-locking command variant: wait for the lock, or fail
/// immediately if it cannot be granted.
#[derive(PartialEq, Eq, Structural, Clone, Copy, Debug)]
pub enum RecordCmd {
    Wait,
    NoWait,
}

/// The record-lock type an operation code asks for, if it asks for any:
/// unlock takes precedence, then exclusive, then shared; a code that
/// carries none of the three is invalid.
pub open spec fn spec_record_lock_type(op: Operation) -> Option<RecordLockType> {
    if op & LOCK_UN != 0 {
        Some(RecordLockType::Unlock)
    } else if op & LOCK_EX != 0 {
        Some(RecordLockType::Write)
    } else if op & LOCK_SH != 0 {
        Some(RecordLockType::Read)
    } else {
        None
    }
}

/// The record-locking command an operation code asks for: the
/// non-waiting variant exactly when the non-blocking modifier is set.
pub open spec fn spec_record_cmd(op: Operation) -> RecordCmd {
    if op & LOCK_NB != 0 {
        RecordCmd::NoWait
    } else {
        RecordCmd::Wait
    }
}

/// Maps a composed whole-file operation code to the record-locking
/// command and lock type that emulate it, whole-file range implied.
/// A code that is neither an unlock, nor combined with exclusive, nor
/// combined with shared is rejected as unsupported.
pub fn record_lock_plan(op: Operation) -> (r: Result<(RecordCmd, RecordLockType), LockError>)
    ensures
        r matches Ok(plan) ==> {
            &&& spec_record_lock_type(op) == Some(plan.1)
            &&& spec_record_cmd(op) == plan.0
        },
        r is Ok <==> spec_record_lock_type(op) is Some,
        r is Err ==> r == Err::<(RecordCmd, RecordLockType), LockError>(
            LockError::UnsupportedOperation,
        ),
{
    let lock_type = if op & LOCK_UN != 0 {
        RecordLockType::Unlock
    } else if op & LOCK_EX != 0 {
        RecordLockType::Write
    } else if op & LOCK_SH != 0 {
        RecordLockType::Read
    } else {
        return Err(LockError::UnsupportedOperation);
    };
    let cmd = if op & LOCK_NB != 0 {
        RecordCmd::NoWait
    } else {
        RecordCmd::Wait
    };
    Ok((cmd, lock_type))
}

/// The five public locking operations compose only valid codes: on the
/// emulation path each maps to the record-lock type matching its kind
/// and to the command matching its non-blocking modifier, and none is
/// ever rejected as unsupported. The unsupported-operation error is
/// reachable only by handing the emulation a code these operations
/// never compose.
pub proof fn lemma_composed_operation_supported(kind: LockKind, nonblocking: bool)
    ensures
        spec_record_lock_type(spec_compose(kind, nonblocking)) == Some(
            match kind {
                LockKind::Shared => RecordLockType::Read,
                LockKind::Exclusive => RecordLockType::Write,
                LockKind::Unlock => RecordLockType::Unlock,
            },
        ),
        spec_record_cmd(spec_compose(kind, nonblocking)) == (if nonblocking {
            RecordCmd::NoWait
        } else {
            RecordCmd::Wait
        }),
{
    assert((1i32 | 4i32) == 5i32 && (2i32 | 4i32) == 6i32 && (8i32 | 4i32) == 12i32)
        by (bit_vector);
    assert(1i32 & 8i32 == 0 && 1i32 & 2i32 == 0 && 1i32 & 1i32 != 0 && 1i32 & 4i32 == 0)
        by (bit_vector);
    assert(5i32 & 8i32 == 0 && 5i32 & 2i32 == 0 && 5i32 & 1i32 != 0 && 5i32 & 4i32 != 0)
        by (bit_vector);
    assert(2i32 & 8i32 == 0 && 2i32 & 2i32 != 0 && 2i32 & 4i32 == 0) by (bit_vector);
    assert(6i32 & 8i32 == 0 && 6i32 & 2i32 != 0 && 6i32 & 4i32 != 0) by (bit_vector);
    assert(8i32 & 8i32 != 0 && 8i32 & 4i32 == 0) by (bit_vector);
    assert(12i32 & 8i32 != 0 && 12i32 & 4i32 != 0) by (bit_vector);
}

/// Converts a locking syscall's raw return value into the operation's
/// result: a negative return is a failure carrying the OS error code
/// that was current at the call, anything else is success. A failure is
/// returned as-is; it is never retried or discarded, and a non-blocking
/// attempt that lost the race surfaces here as the OS's "would block"
/// code like any other syscall failure.
pub fn flock_outcome(ret: i32, os_code: i32) -> (r: Result<(), LockError>)
    ensures
        ret < 0 ==> r == Err::<(), LockError>(LockError::Os { code: os_code }),
        ret >= 0 ==> r == Ok::<(), LockError>(()),
{
    if ret < 0 {
        Err(LockError::Os { code: os_code })
    } else {
        Ok(())
    }
}

impl LockError {
    /// The OS error code this error carries, if it came from the OS.
    pub fn os_code(&self) -> (r: Option<i32>)
        ensures
            r matches Some(c) ==> *self == (LockError::Os { code: c }),
            r is None ==> *self == LockError::UnsupportedOperation,
    {
        match self {
            LockError::Os { code } => Some(*code),
            LockError::UnsupportedOperation => None,
        }
    }

    /// Whether this error is a lock-contention report: an OS failure
    /// whose code is the platform's "resource temporarily unavailable"
    /// code, which the caller supplies. Contention is distinguished by
    /// inspecting the code, not by a separate variant.
    pub fn is_contention(&self, would_block_code: i32) -> (r: bool)
        ensures
            r <==> *self == (LockError::Os { code: would_block_code }),
    {
        match self {
            LockError::Os { code } => *code == would_block_code,
            LockError::UnsupportedOperation => false,
        }
    }
}

} // verus!
