//! What follows from the answer of the system to a step.
//!
//! Whoever performs a step tells what came of it; here it is decided whether
//! to go on, to try again, or to give up, and with which error.

use vstd::prelude::*;
use crate::errors::{
    CGroupError,
    CGroupErrorView,
    ChildError,
    ChildErrorView,
    FFIError,
    FFIErrorView,
};
use crate::steps::{IdMap, Plan, Step, StepView};
use crate::text::{as_chars, copy_bytes, push_signed_text, signed_decimal};
use crate::setup::copy_all;

verus! {

/// How many times a program is started before a busy program file is given
/// up on.
pub const EXEC_RETRIES: usize = 10;

/// How long to wait before a program whose file was busy is started again,
/// in microseconds.
pub const RETRY_DELAY: u32 = 50_000;

/// `libc::ETXTBSY`, the error number for a program file that someone has
/// open for writing. On Linux it is 26.
#[verifier::external_body]
fn text_busy() -> (code: i32)
    ensures
        code == 26,
{
    libc::ETXTBSY
}

/// `libc::EBUSY`, the error number for a resource that is in use. On Linux
/// it is 16.
#[verifier::external_body]
fn busy() -> (code: i32)
    ensures
        code == 16,
{
    libc::EBUSY
}

/// `libc::EINVAL`, the error number for an argument that is not valid. On
/// Linux it is 22.
#[verifier::external_body]
fn invalid() -> (code: i32)
    ensures
        code == 22,
{
    libc::EINVAL
}

/// `libc::ENOTDIR`, the error number for a path that is no directory. On
/// Linux it is 20.
#[verifier::external_body]
fn not_a_directory() -> (code: i32)
    ensures
        code == 20,
{
    libc::ENOTDIR
}

/// `libc::EPERM`, the error number for an operation that is not permitted.
/// On Linux it is 1.
#[verifier::external_body]
fn not_permitted() -> (code: i32)
    ensures
        code == 1,
{
    libc::EPERM
}

/// What the system answered to a step.
#[derive(Debug, PartialEq, Eq, Clone)]
pub enum Event {
    /// The call came back with this value and without an error. Where a file
    /// was opened the value is its descriptor.
    Done(i32),
    /// The call failed with this error number, which the system explains by
    /// `message`. `opening` tells, of a step that opens a file and then
    /// writes to it, that the file could not be opened.
    Failed { opening: bool, code: i32, message: String },
}

/// What an `Event` holds.
pub enum EventView {
    Done(i32),
    Failed { opening: bool, code: i32, message: Seq<char> },
}

impl View for Event {
    type V = EventView;

    open spec fn view(&self) -> EventView {
        match self {
            Event::Done(value) => EventView::Done(*value),
            Event::Failed { opening, code, message } => EventView::Failed {
                opening: *opening,
                code: *code,
                message: message@,
            },
        }
    }
}

/// What to do after a step.
#[derive(Debug, PartialEq, Eq, Clone)]
pub enum Directive {
    /// Go on with the next step.
    Proceed,
    /// Wait for `micros` microseconds and perform the same step again.
    Retry { micros: u32 },
    /// Give up, and report this error.
    Abort(ChildError),
}

/// What a `Directive` holds.
pub enum DirectiveView {
    Proceed,
    Retry { micros: u32 },
    Abort(ChildErrorView),
}

impl View for Directive {
    type V = DirectiveView;

    open spec fn view(&self) -> DirectiveView {
        match self {
            Directive::Proceed => DirectiveView::Proceed,
            Directive::Retry { micros } => DirectiveView::Retry { micros: *micros },
            Directive::Abort(error) => DirectiveView::Abort(error@),
        }
    }
}

/// Why the root could not be changed, in words. The four error numbers that
/// the change of root is known to fail with are explained; for any other
/// the explanation of the system stands.
pub open spec fn pivot_root_reason(code: i32, message: Seq<char>) -> Seq<char> {
    if code == 16 {
        "new_root or put_old are on the current root filesystem, or a filesystem is already mounted on put_old."@
    } else if code == 22 {
        "put_old is not underneath new_root"@
    } else if code == 20 {
        "new_root or put_old is not a directory"@
    } else if code == 1 {
        "The calling process does not have the CAP_SYS_ADMIN capability"@
    } else {
        message
    }
}

/// The error of a change of root to `new_root`, with the old root put at
/// `old_root`, that failed with `code`.
pub open spec fn sys_pivot_root_spec(
    new_root: Seq<u8>,
    old_root: Seq<u8>,
    code: i32,
    message: Seq<char>,
) -> FFIErrorView {
    FFIErrorView::PivotRootError { new_root, old_root, error: pivot_root_reason(code, message) }
}

pub fn sys_pivot_root(new_root: &[u8], old_root: &[u8], code: i32, message: String) -> (error:
    FFIError)
    ensures
        error@ == sys_pivot_root_spec(new_root@, old_root@, code, message@),
{
    let reason = if code == busy() {
        String::from_str(
            "new_root or put_old are on the current root filesystem, or a filesystem is already mounted on put_old.",
        )
    } else if code == invalid() {
        String::from_str("put_old is not underneath new_root")
    } else if code == not_a_directory() {
        String::from_str("new_root or put_old is not a directory")
    } else if code == not_permitted() {
        String::from_str("The calling process does not have the CAP_SYS_ADMIN capability")
    } else {
        message
    };
    FFIError::PivotRootError {
        new_root: copy_bytes(new_root),
        old_root: copy_bytes(old_root),
        error: reason,
    }
}

/// What is said of a file that was opened under another descriptor than
/// the one it was opened for.
pub open spec fn wrong_descriptor(value: i32) -> Seq<char> {
    "Wrong file descriptor opened "@ + as_chars(signed_decimal(value as int))
}

/// The error that is reported when `step` fails with `code`.
pub open spec fn failure_spec(step: StepView, opening: bool, code: i32, message: Seq<char>) -> ChildErrorView {
    match step {
        StepView::InstallAlarmHandler => ChildErrorView::FFIError(
            FFIErrorView::SigActionError { signal: "SIGALRM"@, error: message },
        ),
        StepView::MakePipe => ChildErrorView::FFIError(FFIErrorView::Pipe2Error(message)),
        StepView::Clone { .. } => ChildErrorView::FFIError(FFIErrorView::CloneError(message)),
        StepView::ArmTimer { .. } => ChildErrorView::FFIError(
            FFIErrorView::SetITimerError(message),
        ),
        StepView::KillOnParentDeath => ChildErrorView::FFIError(
            FFIErrorView::PrSetPDeathSigError(message),
        ),
        StepView::CloseStream { stream } => ChildErrorView::FFIError(
            FFIErrorView::CloseFdError {
                fd: stream.descriptor(),
                name: stream.label(),
                error: message,
            },
        ),
        StepView::OpenStream { stream, .. } => ChildErrorView::FFIError(
            FFIErrorView::OpenFdError {
                fd: stream.descriptor(),
                name: stream.label(),
                error: message,
            },
        ),
        StepView::SetStackLimit { .. } => ChildErrorView::FFIError(
            FFIErrorView::SetRLimitError(message),
        ),
        StepView::RequireController { path } => ChildErrorView::CGroupError(
            CGroupErrorView::ControllerMissing(path),
        ),
        StepView::CreateInstance { controller_path, instance_name } => ChildErrorView::CGroupError(
            CGroupErrorView::InstanceControllerCreateError {
                controller_path,
                instance_name,
                error: message,
            },
        ),
        StepView::WriteControl { controller_path, file, .. } => ChildErrorView::CGroupError(
            if opening {
                CGroupErrorView::OpenCGroupFileError { controller_path, file, error: message }
            } else {
                CGroupErrorView::WriteCGroupFileError { controller_path, file, error: message }
            },
        ),
        StepView::UnshareCgroup => ChildErrorView::FFIError(
            FFIErrorView::UnshareCGroupError(message),
        ),
        StepView::Mount { blame, .. } => ChildErrorView::FFIError(
            FFIErrorView::MountError { path: blame, error: message },
        ),
        StepView::CreateDir { path, .. } => ChildErrorView::FFIError(
            FFIErrorView::CreateDirError { path, error: message },
        ),
        StepView::Chdir { path } => ChildErrorView::FFIError(
            FFIErrorView::ChdirError { path, error: message },
        ),
        StepView::PivotRoot { new_root, old_root } => ChildErrorView::FFIError(
            sys_pivot_root_spec(new_root, old_root, code, message),
        ),
        StepView::Chroot { path } => ChildErrorView::FFIError(
            FFIErrorView::ChrootError { path, error: message },
        ),
        StepView::Unmount { path } => ChildErrorView::FFIError(
            FFIErrorView::UMountError { path, error: message },
        ),
        StepView::WriteIdMap { map, .. } => ChildErrorView::FFIError(
            match map {
                IdMap::SetGroups => FFIErrorView::WriteSetGroupsError(message),
                IdMap::Uid => FFIErrorView::WriteUidError(message),
                IdMap::Gid => FFIErrorView::WriteGidError(message),
            },
        ),
        StepView::DetachProcessGroup => ChildErrorView::FFIError(
            FFIErrorView::SetpgidError { pid: 0, pgid: 0, error: message },
        ),
        StepView::Exec { command, arguments, .. } => ChildErrorView::FFIError(
            FFIErrorView::ExecError { command, arguments, error: message },
        ),
    }
}

/// The error that is reported when `step` fails with `code`.
pub fn failure(step: &Step, opening: bool, code: i32, message: String) -> (error: ChildError)
    ensures
        error@ == failure_spec(step@, opening, code, message@),
{
    match step {
        Step::InstallAlarmHandler => ChildError::FFIError(
            FFIError::SigActionError { signal: String::from_str("SIGALRM"), error: message },
        ),
        Step::MakePipe => ChildError::FFIError(FFIError::Pipe2Error(message)),
        Step::Clone { .. } => ChildError::FFIError(FFIError::CloneError(message)),
        Step::ArmTimer { .. } => ChildError::FFIError(FFIError::SetITimerError(message)),
        Step::KillOnParentDeath => ChildError::FFIError(FFIError::PrSetPDeathSigError(message)),
        Step::CloseStream { stream } => ChildError::FFIError(
            FFIError::CloseFdError { fd: stream.fd(), name: stream.name(), error: message },
        ),
        Step::OpenStream { stream, .. } => ChildError::FFIError(
            FFIError::OpenFdError { fd: stream.fd(), name: stream.name(), error: message },
        ),
        Step::SetStackLimit { .. } => ChildError::FFIError(FFIError::SetRLimitError(message)),
        Step::RequireController { path } => ChildError::CGroupError(
            CGroupError::ControllerMissing(copy_bytes(path.as_slice())),
        ),
        Step::CreateInstance { controller_path, instance_name } => ChildError::CGroupError(
            CGroupError::InstanceControllerCreateError {
                controller_path: copy_bytes(controller_path.as_slice()),
                instance_name: copy_bytes(instance_name.as_slice()),
                error: message,
            },
        ),
        Step::WriteControl { controller_path, file, .. } => ChildError::CGroupError(
            if opening {
                CGroupError::OpenCGroupFileError {
                    controller_path: copy_bytes(controller_path.as_slice()),
                    file: copy_bytes(file.as_slice()),
                    error: message,
                }
            } else {
                CGroupError::WriteCGroupFileError {
                    controller_path: copy_bytes(controller_path.as_slice()),
                    file: copy_bytes(file.as_slice()),
                    error: message,
                }
            },
        ),
        Step::UnshareCgroup => ChildError::FFIError(FFIError::UnshareCGroupError(message)),
        Step::Mount { blame, .. } => ChildError::FFIError(
            FFIError::MountError { path: copy_bytes(blame.as_slice()), error: message },
        ),
        Step::CreateDir { path, .. } => ChildError::FFIError(
            FFIError::CreateDirError { path: copy_bytes(path.as_slice()), error: message },
        ),
        Step::Chdir { path } => ChildError::FFIError(
            FFIError::ChdirError { path: copy_bytes(path.as_slice()), error: message },
        ),
        Step::PivotRoot { new_root, old_root } => ChildError::FFIError(
            sys_pivot_root(new_root.as_slice(), old_root.as_slice(), code, message),
        ),
        Step::Chroot { path } => ChildError::FFIError(
            FFIError::ChrootError { path: copy_bytes(path.as_slice()), error: message },
        ),
        Step::Unmount { path } => ChildError::FFIError(
            FFIError::UMountError { path: copy_bytes(path.as_slice()), error: message },
        ),
        Step::WriteIdMap { map, .. } => ChildError::FFIError(
            match map {
                IdMap::SetGroups => FFIError::WriteSetGroupsError(message),
                IdMap::Uid => FFIError::WriteUidError(message),
                IdMap::Gid => FFIError::WriteGidError(message),
            },
        ),
        Step::DetachProcessGroup => ChildError::FFIError(
            FFIError::SetpgidError { pid: 0, pgid: 0, error: message },
        ),
        Step::Exec { command, arguments, .. } => ChildError::FFIError(
            FFIError::ExecError {
                command: copy_bytes(command.as_slice()),
                arguments: copy_all(arguments),
                error: message,
            },
        ),
    }
}

/// What to do after `step`, performed for the `attempt`-th time counting
/// from zero, was answered by `event`.
///
/// A step that came back without an error is followed by the next, unless it
/// opened a file for a stream under another descriptor than that of the
/// stream, which is an error. A write to a control file that may fail is
/// followed by the next step whatever came of it. A program whose file is
/// busy is started again after a pause, as long as this leaves the number of
/// starts within `EXEC_RETRIES`. Any other failure ends the plan with the
/// error of the step.
pub open spec fn resolve_spec(step: StepView, attempt: nat, event: EventView) -> DirectiveView {
    match event {
        EventView::Done(value) => match step {
            StepView::OpenStream { stream, .. } => if value == stream.descriptor() {
                DirectiveView::Proceed
            } else {
                DirectiveView::Abort(failure_spec(step, false, 0, wrong_descriptor(value)))
            },
            _ => DirectiveView::Proceed,
        },
        EventView::Failed { opening, code, message } => match step {
            StepView::WriteControl { required: false, .. } => DirectiveView::Proceed,
            StepView::Exec { .. } => if code == 26 && attempt + 1 < EXEC_RETRIES {
                DirectiveView::Retry { micros: RETRY_DELAY }
            } else {
                DirectiveView::Abort(failure_spec(step, opening, code, message))
            },
            _ => DirectiveView::Abort(failure_spec(step, opening, code, message)),
        },
    }
}

pub fn resolve(step: &Step, attempt: usize, event: Event) -> (directive: Directive)
    ensures
        directive@ == resolve_spec(step@, attempt as nat, event@),
{
    match event {
        Event::Done(value) => match step {
            Step::OpenStream { stream, .. } => {
                if value == stream.fd() {
                    Directive::Proceed
                } else {
                    let mut message = String::from_str("Wrong file descriptor opened ");
                    push_signed_text(&mut message, value as i64);
                    Directive::Abort(failure(step, false, 0, message))
                }
            },
            _ => Directive::Proceed,
        },
        Event::Failed { opening, code, message } => match step {
            Step::WriteControl { required: false, .. } => Directive::Proceed,
            Step::Exec { .. } => {
                if code == text_busy() && attempt < EXEC_RETRIES - 1 {
                    Directive::Retry { micros: RETRY_DELAY }
                } else {
                    Directive::Abort(failure(step, opening, code, message))
                }
            },
            _ => Directive::Abort(failure(step, opening, code, message)),
        },
    }
}

/// The error of a pause of `micros` microseconds that failed.
pub fn sleep_failure(micros: u32, message: String) -> (error: ChildError)
    ensures
        error@ == ChildErrorView::FFIError(FFIErrorView::UsleepError { time: micros, error: message@ }),
{
    ChildError::FFIError(FFIError::UsleepError { time: micros, error: message })
}

/// How far a plan has been performed.
///
/// The runner holds the plan and points at the step that is due. Whoever
/// performs the steps asks for the step that is due, performs it, and feeds
/// the answer of the system back.
#[derive(Debug)]
pub struct Runner {
    plan: Plan,
    position: usize,
    attempt: usize,
    aborted: bool,
}

/// What a `Runner` holds.
pub struct RunnerView {
    /// The steps of the plan.
    pub steps: Seq<StepView>,
    /// How many steps are done with.
    pub position: nat,
    /// How many times the step that is due was performed in vain.
    pub attempt: nat,
    /// Whether an error has ended the plan.
    pub aborted: bool,
}

impl RunnerView {
    /// The state before the first step of `steps`.
    pub open spec fn start(steps: Seq<StepView>) -> RunnerView {
        RunnerView { steps, position: 0, attempt: 0, aborted: false }
    }

    /// This state with `position` steps done with and the next one not yet
    /// tried.
    pub open spec fn with_position(self, position: nat) -> RunnerView {
        RunnerView { position, attempt: 0, ..self }
    }

    /// Whether a step is due: no error has ended the plan and not all steps
    /// are done with.
    pub open spec fn running(self) -> bool {
        !self.aborted && self.position < self.steps.len()
    }

    /// What the answer `event` to the step that is due asks for.
    pub open spec fn directive(self, event: EventView) -> DirectiveView {
        resolve_spec(self.steps[self.position as int], self.attempt, event)
    }

    /// The state after the step that is due was answered by `event`. A
    /// runner for which no step is due stays as it is.
    pub open spec fn fed(self, event: EventView) -> RunnerView {
        if !self.running() {
            self
        } else {
            match self.directive(event) {
                DirectiveView::Proceed => RunnerView {
                    position: self.position + 1,
                    attempt: 0,
                    ..self
                },
                DirectiveView::Retry { .. } => RunnerView { attempt: self.attempt + 1, ..self },
                DirectiveView::Abort(_) => RunnerView { aborted: true, ..self },
            }
        }
    }

    /// The state after `events` were fed one after the other.
    pub open spec fn fed_all(self, events: Seq<EventView>) -> RunnerView
        decreases events.len(),
    {
        if events.len() == 0 {
            self
        } else {
            self.fed_all(events.drop_last()).fed(events.last())
        }
    }

    /// Whether `event`, fed now, ends the plan with an error.
    pub open spec fn fatal(self, event: EventView) -> bool {
        self.running() && self.directive(event) is Abort
    }
}

impl View for Runner {
    type V = RunnerView;

    closed spec fn view(&self) -> RunnerView {
        RunnerView {
            steps: self.plan@,
            position: self.position as nat,
            attempt: self.attempt as nat,
            aborted: self.aborted,
        }
    }
}

impl Runner {
    #[verifier::type_invariant]
    closed spec fn within(self) -> bool {
        self.position <= self.plan@.len() && self.attempt < EXEC_RETRIES
    }

    /// A runner that is about to perform the first step of `plan`.
    pub fn new(plan: Plan) -> (runner: Runner)
        ensures
            runner@ == RunnerView::start(plan@),
    {
        Runner { plan, position: 0, attempt: 0, aborted: false }
    }

    /// The step that is due, if one is.
    pub fn due(&self) -> (step: Option<&Step>)
        ensures
            step is Some == self@.running(),
            step matches Some(found) ==> found@ == self@.steps[self@.position as int],
    {
        proof {
            use_type_invariant(self);
        }
        if self.aborted {
            None
        } else {
            self.plan.get(self.position)
        }
    }

    /// Whether an error has ended the plan.
    pub fn aborted(&self) -> (r: bool)
        ensures
            r == self@.aborted,
    {
        self.aborted
    }

    /// Whether every step was performed and none ended the plan.
    pub fn finished(&self) -> (r: bool)
        ensures
            r == (!self@.aborted && self@.position == self@.steps.len()),
    {
        proof {
            use_type_invariant(self);
        }
        !self.aborted && self.position == self.plan.len()
    }

    /// Takes the answer `event` to the step that is due, and tells what to
    /// do next. Where the plan is given up, the directive holds the error to
    /// report.
    pub fn feed(&mut self, event: Event) -> (directive: Directive)
        requires
            old(self)@.running(),
        ensures
            directive@ == old(self)@.directive(event@),
            final(self)@ == old(self)@.fed(event@),
    {
        proof {
            use_type_invariant(&*self);
        }
        let length = self.plan.len();
        let directive = match self.plan.get(self.position) {
            Some(step) => resolve(step, self.attempt, event),
            None => Directive::Proceed,
        };
        match &directive {
            Directive::Proceed => {
                if self.position < length {
                    self.position = self.position + 1;
                    self.attempt = 0;
                }
            },
            Directive::Retry { .. } => {
                if self.attempt < EXEC_RETRIES - 1 {
                    self.attempt = self.attempt + 1;
                }
            },
            Directive::Abort(_) => {
                self.aborted = true;
            },
        }
        directive
    }
}

} // verus!
