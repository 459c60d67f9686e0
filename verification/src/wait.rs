//! Watching a child: the reading of what a wait for it gave.

use vstd::prelude::*;
use crate::config::{Limits, LimitsView};
use crate::errors::{Error, ErrorView, FFIError, FFIErrorView};
use crate::run_info::{exceeded, RunInfo, RunInfoResult, RunUsage};

verus! {

/// `libc::WIFEXITED`: whether a wait status is that of a process that
/// ended by itself, which it is when its low seven bits are all zero.
pub assume_specification[ libc::WIFEXITED ](status: libc::c_int) -> (r: bool)
    ensures
        r == ((status & 0x7f) == 0),
;

/// `libc::WEXITSTATUS`: the exit code in a wait status, its second byte.
pub assume_specification[ libc::WEXITSTATUS ](status: libc::c_int) -> (code: libc::c_int)
    ensures
        code == (status >> 8) & 0xff,
;

/// `libc::WIFSIGNALED`: whether a wait status is that of a process that a
/// signal ended. The low seven bits plus one, kept to eight bits and read as
/// a signed number, must be two at least: the bits are then neither all zero
/// nor all one.
pub assume_specification[ libc::WIFSIGNALED ](status: libc::c_int) -> (r: bool)
    ensures
        r == ((((status & 0x7f) + 1) as i8) >= 2),
;

/// `libc::WTERMSIG`: the signal in a wait status, its low seven bits.
pub assume_specification[ libc::WTERMSIG ](status: libc::c_int) -> (signal: libc::c_int)
    ensures
        signal == status & 0x7f,
;

/// `libc::WIFSTOPPED`: whether a wait status is that of a process that was
/// stopped, which it is when its low byte is `0x7f`.
pub assume_specification[ libc::WIFSTOPPED ](status: libc::c_int) -> (r: bool)
    ensures
        r == ((status & 0xff) == 0x7f),
;

/// `libc::WIFCONTINUED`: whether a wait status is that of a process that was
/// resumed, which it is when it equals `0xffff`.
pub assume_specification[ libc::WIFCONTINUED ](status: libc::c_int) -> (r: bool)
    ensures
        r == (status == 0xffff),
;

/// `libc::EINTR`, the error number of a call that a signal interrupted. On
/// Linux it is 4.
#[verifier::external_body]
fn interrupted() -> (code: i32)
    ensures
        code == 4,
{
    libc::EINTR
}

/// `libc::SIGKILL`, the signal that ends a process at once. On Linux it
/// is 9.
#[verifier::external_body]
fn kill_signal() -> (signal: i32)
    ensures
        signal == 9,
{
    libc::SIGKILL
}

/// What a wait for a child gave.
#[derive(Debug, PartialEq, Eq, Clone)]
pub enum WaitEvent {
    /// The wait failed with this error number, which the system explains by
    /// `message`.
    Failed { code: i32, message: String },
    /// The child changed its state; this is its wait status.
    Status(i32),
}

/// What a `WaitEvent` holds.
pub enum WaitEventView {
    Failed { code: i32, message: Seq<char> },
    Status(i32),
}

impl View for WaitEvent {
    type V = WaitEventView;

    open spec fn view(&self) -> WaitEventView {
        match self {
            WaitEvent::Failed { code, message } => WaitEventView::Failed {
                code: *code,
                message: message@,
            },
            WaitEvent::Status(status) => WaitEventView::Status(*status),
        }
    }
}

/// What was found on the pipe of a child once the child had closed it.
#[derive(Debug)]
pub enum Piped<T> {
    /// Nothing: the child started its program, or ended without a word.
    Nothing,
    /// This report.
    Report(T),
    /// Bytes that are no report, for this reason.
    Garbled(String),
}

/// What the child said on its pipe. A child that has started its program
/// has said nothing. Bytes that cannot be read as a report are an error.
pub fn report<T>(piped: Piped<T>) -> (r: Result<Option<T>, Error>)
    ensures
        match piped {
            Piped::Nothing => r == Ok::<Option<T>, Error>(None),
            Piped::Report(said) => r == Ok::<Option<T>, Error>(Some(said)),
            Piped::Garbled(reason) => r matches Err(error) && error@
                == ErrorView::DeserializeError(reason@),
        },
{
    match piped {
        Piped::Nothing => Ok(None),
        Piped::Report(said) => Ok(Some(said)),
        Piped::Garbled(reason) => Err(Error::DeserializeError(reason)),
    }
}

/// What a wait status tells of a child.
#[derive(Debug, PartialEq, Eq, Structural, Copy, Clone)]
pub enum Ending {
    /// It ended by itself, with this exit code.
    Exited(u32),
    /// This signal ended it.
    Signaled(u32),
    /// It was stopped or resumed, and goes on.
    Suspended,
    /// Nothing that is known.
    Unclear,
}

/// The low seven bits of a wait status.
pub open spec fn low_bits(status: i32) -> i32 {
    status & 0x7f
}

/// The second byte of a wait status.
pub open spec fn second_byte(status: i32) -> i32 {
    (status >> 8) & 0xff
}

/// What `status` tells of a child. A status whose low seven bits are zero
/// is an exit, with the code in the second byte. One whose low seven bits
/// are neither all zero nor all one is a death by the signal that they
/// spell. One whose low byte is `0x7f`, or that equals `0xffff`, is a stop or
/// a resumption.
pub open spec fn ending_spec(status: i32) -> Ending {
    if low_bits(status) == 0 {
        Ending::Exited(second_byte(status) as u32)
    } else if low_bits(status) != 0x7f {
        Ending::Signaled(low_bits(status) as u32)
    } else if (status & 0xff) == 0x7f || status == 0xffff {
        Ending::Suspended
    } else {
        Ending::Unclear
    }
}

/// The parts of a wait status lie in the range of their bits.
pub proof fn lemma_status_ranges(status: i32)
    ensures
        0 <= low_bits(status) <= 0x7f,
        0 <= second_byte(status) <= 0xff,
        ((((low_bits(status)) + 1) as i8) >= 2) == (low_bits(status) != 0 && low_bits(status)
            != 0x7f),
{
    assert(0 <= (status & 0x7f) <= 0x7f) by (bit_vector);
    assert(0 <= ((status >> 8) & 0xff) <= 0xff) by (bit_vector);
    let low = status & 0x7f;
    assert((((low + 1) as i8) >= 2) == (low != 0 && low != 0x7f)) by (bit_vector)
        requires
            0 <= low <= 0x7f,
    ;
}

/// What `status` tells of a child.
pub fn read_status(status: i32) -> (ending: Ending)
    ensures
        ending == ending_spec(status),
{
    proof {
        lemma_status_ranges(status);
    }
    if libc::WIFEXITED(status) {
        Ending::Exited(libc::WEXITSTATUS(status) as u32)
    } else if libc::WIFSIGNALED(status) {
        Ending::Signaled(libc::WTERMSIG(status) as u32)
    } else if libc::WIFSTOPPED(status) || libc::WIFCONTINUED(status) {
        Ending::Suspended
    } else {
        Ending::Unclear
    }
}

/// The one who waits for a child and what the child reported before it
/// started its program.
#[derive(Debug)]
pub struct CloneHandle<T> {
    pid: i32,
    report: Option<T>,
}

/// What became of a wait.
#[derive(Debug)]
pub enum Waited<T> {
    /// Nothing yet: take the usage and wait again.
    Again(CloneHandle<T>),
    /// The child is gone; this is how it ended.
    Finished(RunInfo<Option<T>>),
    /// The child cannot be waited for.
    Failed(Error),
}

/// What a `Waited` holds.
pub enum WaitedView<T> {
    Again,
    Finished(RunInfo<Option<T>>),
    Failed(ErrorView),
}

/// What a wait that gave `event` comes to, for a child that reported
/// `report` and has used `usage`.
///
/// A wait that a signal interrupted is taken up again; one that failed
/// otherwise is an error. A child that ended with code zero has succeeded,
/// and its success carries its report; with another code it has not. A child
/// that a signal ended was killed by it. A child that was stopped or resumed
/// is an error. A status that tells nothing is waited on again.
pub open spec fn wait_spec<T>(report: Option<T>, usage: RunUsage, event: WaitEventView) -> WaitedView<
    T,
> {
    match event {
        WaitEventView::Failed { code, message } => if code == 4 {
            WaitedView::Again
        } else {
            WaitedView::Failed(ErrorView::FFIError(FFIErrorView::WaitPidError(message)))
        },
        WaitEventView::Status(status) => match ending_spec(status) {
            Ending::Exited(code) => if code == 0 {
                WaitedView::Finished(RunInfo::spec_new(RunInfoResult::Success(report), usage))
            } else {
                WaitedView::Finished(
                    RunInfo::spec_new(RunInfoResult::NonZeroExitStatus(code), usage),
                )
            },
            Ending::Signaled(signal) => WaitedView::Finished(
                RunInfo::spec_new(RunInfoResult::KilledBySignal(signal), usage),
            ),
            Ending::Suspended => WaitedView::Failed(ErrorView::StoppedContinuedError),
            Ending::Unclear => WaitedView::Again,
        },
    }
}

impl<T> CloneHandle<T> {
    /// The process that is waited for.
    pub closed spec fn spec_pid(&self) -> i32 {
        self.pid
    }

    /// What the child reported before it started its program.
    pub closed spec fn spec_report(&self) -> Option<T> {
        self.report
    }

    #[verifier::type_invariant]
    closed spec fn alive(self) -> bool {
        self.pid > 0
    }

    /// The one who waits for the child `pid`, which has closed its pipe after
    /// it wrote `report` to it, or nothing.
    pub fn new(pid: i32, report: Option<T>) -> (handle: CloneHandle<T>)
        requires
            pid > 0,
        ensures
            handle.spec_pid() == pid,
            handle.spec_report() == report,
    {
        CloneHandle { pid, report }
    }

    pub fn pid(&self) -> (pid: i32)
        ensures
            pid == self.spec_pid(),
            pid > 0,
    {
        proof {
            use_type_invariant(self);
        }
        self.pid
    }

    /// Whom to kill, and by which signal, when the wait is given up: the
    /// child, and the process group that it leads.
    pub fn kill_targets(&self) -> (r: (i32, i32, i32))
        ensures
            r.0 == self.spec_pid(),
            r.1 == -self.spec_pid(),
            r.2 == 9,
    {
        proof {
            use_type_invariant(self);
        }
        (self.pid, -self.pid, kill_signal())
    }

    /// The verdict on `usage` if it goes beyond one of `limits`: the child is
    /// then not waited for and is to be killed.
    pub fn check(&self, limits: Limits, usage: RunUsage) -> (r: Option<RunInfo<Option<T>>>)
        ensures
            r == match exceeded::<Option<T>>(usage@, limits@) {
                Some(result) => Some(RunInfo::spec_new(result, usage)),
                None => None,
            },
    {
        usage.check_limits(limits)
    }

    /// What a wait for the child that gave `event` comes to, the child
    /// having used `usage`.
    pub fn wait(self, usage: RunUsage, event: WaitEvent) -> (r: Waited<T>)
        ensures
            match wait_spec(self.spec_report(), usage, event@) {
                WaitedView::Again => r matches Waited::Again(handle) && handle == self,
                WaitedView::Finished(info) => r matches Waited::Finished(found) && found == info,
                WaitedView::Failed(error) => r matches Waited::Failed(found) && found@ == error,
            },
    {
        match event {
            WaitEvent::Failed { code, message } => {
                if code == interrupted() {
                    Waited::Again(self)
                } else {
                    Waited::Failed(Error::FFIError(FFIError::WaitPidError(message)))
                }
            },
            WaitEvent::Status(status) => match read_status(status) {
                Ending::Exited(exit_code) => {
                    if exit_code == 0 {
                        let CloneHandle { pid: _, report } = self;
                        Waited::Finished(RunInfo::new(RunInfoResult::Success(report), usage))
                    } else {
                        Waited::Finished(
                            RunInfo::new(RunInfoResult::NonZeroExitStatus(exit_code), usage),
                        )
                    }
                },
                Ending::Signaled(signal) => Waited::Finished(
                    RunInfo::new(RunInfoResult::KilledBySignal(signal), usage),
                ),
                Ending::Suspended => Waited::Failed(Error::StoppedContinuedError),
                Ending::Unclear => Waited::Again(self),
            },
        }
    }
}

/// `result` as it stands once the memory limit is taken into account. A
/// payload that was killed outright under a memory limit, and whose memory
/// had reached the limit, was killed for the limit.
pub open spec fn promoted<T>(result: RunInfoResult<T>, memory: nat, limits: LimitsView) -> RunInfoResult<
    T,
> {
    match (result, limits.memory) {
        (RunInfoResult::KilledBySignal(signal), Some(limit)) => if signal == 9 && memory >= limit@ {
            RunInfoResult::MemoryLimitExceeded
        } else {
            result
        },
        _ => result,
    }
}

/// `info` with its result as it stands once the memory limit is taken into
/// account.
pub fn promote<T>(info: RunInfo<T>, limits: Limits) -> (r: RunInfo<T>)
    ensures
        r.spec_usage() == info.spec_usage(),
        r.spec_result() == promoted(info.spec_result(), info.spec_usage()@.memory, limits@),
{
    let usage = *info.usage();
    let killed = match info.result() {
        RunInfoResult::KilledBySignal(signal) => *signal as i64 == kill_signal() as i64,
        _ => false,
    };
    let over = match limits.memory() {
        Some(limit) => usage.memory().as_bytes() >= limit.as_bytes(),
        None => false,
    };
    if killed && over {
        RunInfo::new(RunInfoResult::MemoryLimitExceeded, usage)
    } else {
        info
    }
}

} // verus!
