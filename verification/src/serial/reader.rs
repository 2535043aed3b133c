//! The decisions of the task that reads from the port: what to do after
//! polling for pending bytes, and after a read.
use vstd::prelude::*;
use vstd::string::*;

verus! {

/// Why reading stopped.
#[derive(Debug, Clone, Copy, PartialEq, Eq, Structural)]
pub enum ReaderFault {
    /// Asking for the number of pending bytes failed.
    PollFailed,
    /// A read failed other than by timing out.
    ReadFailed,
}

/// What the reader does next.
#[derive(Debug, Clone, Copy, PartialEq, Eq, Structural)]
pub enum ReaderStep {
    /// Leave the loop.
    Stop,
    /// Sleep briefly, then poll again.
    Wait,
    /// Read the pending bytes.
    Read,
    /// Poll again at once.
    Retry,
    /// Forward the first `n` bytes of the buffer.
    Forward(usize),
    /// Report the fault, then leave the loop.
    Fail(ReaderFault),
}

/// The outcome of a read.
#[derive(Debug, Clone, Copy, PartialEq, Eq, Structural)]
pub enum ReadOutcome {
    /// `n` bytes were read (possibly none).
    Bytes(usize),
    /// The read timed out.
    TimedOut,
    /// The read failed otherwise.
    Failed,
}

/// The step after polling: stop when asked to; wait while nothing is
/// pending; read when something is; fail when the poll failed.
pub open spec fn poll_step(running: bool, pending: Option<u32>) -> ReaderStep {
    if !running {
        ReaderStep::Stop
    } else {
        match pending {
            Some(n) => if n == 0 {
                ReaderStep::Wait
            } else {
                ReaderStep::Read
            },
            None => ReaderStep::Fail(ReaderFault::PollFailed),
        }
    }
}

/// The step after a read: forward what arrived, wait after an empty read,
/// retry after a timeout, fail otherwise.
pub open spec fn read_step(outcome: ReadOutcome) -> ReaderStep {
    match outcome {
        ReadOutcome::Bytes(n) => if n > 0 {
            ReaderStep::Forward(n)
        } else {
            ReaderStep::Wait
        },
        ReadOutcome::TimedOut => ReaderStep::Retry,
        ReadOutcome::Failed => ReaderStep::Fail(ReaderFault::ReadFailed),
    }
}

/// Decides the step after polling (`pending` is `None` where the poll failed).
pub fn after_poll(running: bool, pending: Option<u32>) -> (res: ReaderStep)
    ensures
        res == poll_step(running, pending),
{
    if !running {
        return ReaderStep::Stop;
    }
    match pending {
        Some(n) => if n == 0 {
            ReaderStep::Wait
        } else {
            ReaderStep::Read
        },
        None => ReaderStep::Fail(ReaderFault::PollFailed),
    }
}

/// Decides the step after a read.
pub fn after_read(outcome: ReadOutcome) -> (res: ReaderStep)
    ensures
        res == read_step(outcome),
{
    match outcome {
        ReadOutcome::Bytes(n) => if n > 0 {
            ReaderStep::Forward(n)
        } else {
            ReaderStep::Wait
        },
        ReadOutcome::TimedOut => ReaderStep::Retry,
        ReadOutcome::Failed => ReaderStep::Fail(ReaderFault::ReadFailed),
    }
}

/// The message reported for a fault.
pub open spec fn fault_text(f: ReaderFault) -> Seq<char> {
    match f {
        ReaderFault::PollFailed => "\u{4e32}\u{53e3}\u{8bfb}\u{53d6}\u{9519}\u{8bef}"@,
        ReaderFault::ReadFailed => "\u{4e32}\u{53e3}\u{8bfb}\u{53d6}\u{65ad}\u{5f00}"@,
    }
}

impl ReaderFault {
    /// The message reported to the application for this fault.
    pub fn message(&self) -> (res: String)
        ensures
            res@ == fault_text(*self),
    {
        match self {
            ReaderFault::PollFailed => String::from_str(
                "\u{4e32}\u{53e3}\u{8bfb}\u{53d6}\u{9519}\u{8bef}",
            ),
            ReaderFault::ReadFailed => String::from_str(
                "\u{4e32}\u{53e3}\u{8bfb}\u{53d6}\u{65ad}\u{5f00}",
            ),
        }
    }
}

} // verus!
