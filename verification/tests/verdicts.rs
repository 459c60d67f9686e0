use ia_sandbox::config::{Limits, SpaceUsage};
use ia_sandbox::errors::{CGroupError, ChildError, Error, FFIError};
use ia_sandbox::outcome::{
    failure, resolve, sleep_failure, sys_pivot_root, Directive, Event, Runner, EXEC_RETRIES,
    RETRY_DELAY,
};
use ia_sandbox::run_info::{RunInfo, RunInfoResult, RunUsage};
use ia_sandbox::setup::clone_flags;
use ia_sandbox::steps::{IdMap, MountFlags, Plan, Step, Stream};
use ia_sandbox::wait::{promote, read_status, report, CloneHandle, Ending, Piped, WaitEvent, Waited};
use ia_sandbox::config::ShareNet;
use ia_sandbox::{conclude, resolve as resolve_supervisor, Duration, JailHandle, JailWaited};

fn usage(user_ms: u64, wall_ms: u64, bytes: u64) -> RunUsage {
    RunUsage::new(Duration::from_millis(user_ms), Duration::from_millis(wall_ms), SpaceUsage::from_bytes(bytes))
}

fn limits(user_ms: Option<u64>, wall_ms: Option<u64>, bytes: Option<u64>) -> Limits {
    Limits::new(
        wall_ms.map(Duration::from_millis),
        user_ms.map(Duration::from_millis),
        bytes.map(SpaceUsage::from_bytes),
        None,
        None,
    )
}

fn failed(code: i32, message: &str) -> Event {
    Event::Failed { opening: false, code, message: message.to_string() }
}

fn exec_step() -> Step {
    Step::Exec { command: b"/bin/p".to_vec(), arguments: vec![b"x".to_vec()], environment: None }
}

fn ffi(step: Step, message: &str) -> FFIError {
    match failure(&step, false, 5, message.to_string()) {
        ChildError::FFIError(error) => error,
        other => panic!("expected a system call error, got {:?}", other),
    }
}

fn cgroup(step: Step, opening: bool, message: &str) -> CGroupError {
    match failure(&step, opening, 5, message.to_string()) {
        ChildError::CGroupError(error) => error,
        other => panic!("expected a control group error, got {:?}", other),
    }
}

#[test]
fn usage_within_limits_is_no_verdict() {
    assert_eq!(usage(500, 600, 100).check_limits::<()>(Limits::default()), None);
    assert_eq!(usage(500, 600, 100).check_limits::<()>(limits(Some(500), Some(600), Some(100))), None);
    assert_eq!(usage(500, 600, 100).check_limits::<()>(limits(Some(600), Some(2200), Some(26_000_000))), None);
}

#[test]
fn usage_beyond_a_limit_is_that_verdict() {
    let used = usage(500, 600, 100);
    assert_eq!(
        used.check_limits::<()>(limits(Some(450), None, None)),
        Some(RunInfo::new(RunInfoResult::TimeLimitExceeded, used))
    );
    assert_eq!(
        used.check_limits::<()>(limits(None, Some(599), None)),
        Some(RunInfo::new(RunInfoResult::WallTimeLimitExceeded, used))
    );
    assert_eq!(
        used.check_limits::<()>(limits(None, None, Some(99))),
        Some(RunInfo::new(RunInfoResult::MemoryLimitExceeded, used))
    );
}

#[test]
fn the_first_limit_that_is_exceeded_decides() {
    let used = usage(500, 600, 100);
    assert_eq!(
        *used.check_limits::<()>(limits(Some(1), Some(1), Some(1))).unwrap().result(),
        RunInfoResult::TimeLimitExceeded
    );
    assert_eq!(
        *used.check_limits::<()>(limits(Some(500), Some(1), Some(1))).unwrap().result(),
        RunInfoResult::WallTimeLimitExceeded
    );
    assert_eq!(
        *used.check_limits::<()>(limits(Some(500), Some(600), Some(1))).unwrap().result(),
        RunInfoResult::MemoryLimitExceeded
    );
}

#[test]
fn results_are_described() {
    assert_eq!(RunInfoResult::Success(()).describe(), "Success");
    assert_eq!(RunInfoResult::<()>::NonZeroExitStatus(23).describe(), "Non zero exit status: 23");
    assert_eq!(RunInfoResult::<()>::KilledBySignal(11).describe(), "Killed by Signal 11");
    assert_eq!(RunInfoResult::<()>::MemoryLimitExceeded.describe(), "Memory limit exceeded");
    assert_eq!(RunInfoResult::<()>::TimeLimitExceeded.describe(), "Time limit exceeded");
    assert_eq!(RunInfoResult::<()>::WallTimeLimitExceeded.describe(), "Wall time limit exceeded");
}

#[test]
fn results_are_taken_apart() {
    assert!(RunInfoResult::Success(3).is_success());
    assert!(!RunInfoResult::<u8>::KilledBySignal(9).is_success());
    assert_eq!(RunInfoResult::Success(3).success(), Some(3));
    assert_eq!(RunInfoResult::<u8>::TimeLimitExceeded.success(), None);
    assert_eq!(
        RunInfoResult::Success(3).and_then(|n| Ok::<u8, ()>(n + 1)),
        Ok(RunInfoResult::Success(4))
    );
    assert_eq!(RunInfoResult::Success(3).and_then(|_| Err::<u8, &str>("no")), Err("no"));
    assert_eq!(
        RunInfoResult::<u8>::NonZeroExitStatus(2).and_then(|_| Err::<u8, &str>("no")),
        Ok(RunInfoResult::NonZeroExitStatus(2))
    );
    assert_eq!(
        RunInfoResult::<u8>::WallTimeLimitExceeded.and_then(|n| Ok::<u8, ()>(n)),
        Ok(RunInfoResult::WallTimeLimitExceeded)
    );
}

#[test]
fn run_info_is_taken_apart() {
    let used = usage(1, 2, 3);
    let info = RunInfo::new(RunInfoResult::Success(7), used);
    assert_eq!(*info.result(), RunInfoResult::Success(7));
    assert_eq!(*info.usage(), used);
    assert!(info.is_success());
    assert_eq!(info.success(), Some(7));
    assert_eq!(info.and_then(|n| Ok::<u8, ()>(n * 2)), Ok(RunInfo::new(RunInfoResult::Success(14), used)));
    assert_eq!(info.and_then(|_| Err::<u8, u8>(1)), Err(1));
    let killed = RunInfo::<u8>::new(RunInfoResult::KilledBySignal(8), used);
    assert!(!killed.is_success());
    assert_eq!(killed.success(), None);
    assert_eq!(killed.and_then(|_| Err::<(), u8>(1)), Ok(RunInfo::new(RunInfoResult::KilledBySignal(8), used)));
    assert_eq!(info.success_or_result::<()>(), Ok(7));
    assert_eq!(killed.success_or_result::<()>(), Err(RunInfoResult::KilledBySignal(8)));
    assert_eq!(used.user_time(), Duration::from_millis(1));
    assert_eq!(used.wall_time(), Duration::from_millis(2));
    assert_eq!(used.memory(), SpaceUsage::from_bytes(3));
    assert_eq!(RunUsage::default(), usage(0, 0, 0));
}

#[test]
fn wait_statuses_are_read() {
    assert_eq!(read_status(0), Ending::Exited(0));
    assert_eq!(read_status(23 << 8), Ending::Exited(23));
    assert_eq!(read_status(255 << 8), Ending::Exited(255));
    assert_eq!(read_status(9), Ending::Signaled(9));
    assert_eq!(read_status(11 | 0x80), Ending::Signaled(11));
    assert_eq!(read_status(126), Ending::Signaled(126));
    assert_eq!(read_status(0x137f), Ending::Suspended);
    assert_eq!(read_status(0xffff), Ending::Suspended);
    assert_eq!(read_status(0x12ff), Ending::Unclear);
    assert_eq!(read_status(0x7fff_0f00), Ending::Exited(15));
}

#[test]
fn an_interrupted_wait_is_taken_up_again() {
    let handle = CloneHandle::new(40, Some(1u8));
    match handle.wait(usage(0, 0, 0), WaitEvent::Failed { code: 4, message: "Interrupted system call".into() }) {
        Waited::Again(again) => assert_eq!(again.pid(), 40),
        other => panic!("expected to wait again, got {:?}", other),
    }
    let handle = CloneHandle::new(40, Some(1u8));
    assert!(matches!(handle.wait(usage(0, 0, 0), WaitEvent::Status(0x12ff)), Waited::Again(_)));
}

#[test]
fn a_failed_wait_is_an_error() {
    let handle = CloneHandle::<u8>::new(40, None);
    match handle.wait(usage(0, 0, 0), WaitEvent::Failed { code: 10, message: "No child processes".into() }) {
        Waited::Failed(error) => {
            assert_eq!(error, Error::FFIError(FFIError::WaitPidError("No child processes".into())))
        }
        other => panic!("expected an error, got {:?}", other),
    }
    let handle = CloneHandle::<u8>::new(40, None);
    assert!(matches!(
        handle.wait(usage(0, 0, 0), WaitEvent::Status(0x137f)),
        Waited::Failed(Error::StoppedContinuedError)
    ));
    let handle = CloneHandle::<u8>::new(40, None);
    assert!(matches!(
        handle.wait(usage(0, 0, 0), WaitEvent::Status(0xffff)),
        Waited::Failed(Error::StoppedContinuedError)
    ));
}

#[test]
fn an_ended_child_has_a_verdict() {
    let used = usage(5, 6, 7);
    let finished = |report: Option<u8>, status: i32| match CloneHandle::new(40, report).wait(used, WaitEvent::Status(status)) {
        Waited::Finished(info) => info,
        other => panic!("expected a verdict, got {:?}", other),
    };
    assert_eq!(finished(Some(3), 0), RunInfo::new(RunInfoResult::Success(Some(3)), used));
    assert_eq!(finished(None, 0), RunInfo::new(RunInfoResult::Success(None), used));
    assert_eq!(finished(Some(3), 23 << 8), RunInfo::new(RunInfoResult::NonZeroExitStatus(23), used));
    assert_eq!(finished(Some(3), 8), RunInfo::new(RunInfoResult::KilledBySignal(8), used));
    assert_eq!(finished(None, 11), RunInfo::new(RunInfoResult::KilledBySignal(11), used));
}

#[test]
fn a_handle_checks_limits_and_names_whom_to_kill() {
    let handle = CloneHandle::<u8>::new(123, None);
    assert_eq!(handle.pid(), 123);
    assert_eq!(handle.kill_targets(), (123, -123, 9));
    assert_eq!(handle.check(limits(Some(10), None, None), usage(10, 0, 0)), None);
    assert_eq!(
        handle.check(limits(Some(10), None, None), usage(11, 0, 0)),
        Some(RunInfo::new(RunInfoResult::TimeLimitExceeded, usage(11, 0, 0)))
    );
    assert_eq!(JailHandle::new(77, None).kill_targets(), (77, -77, 9));
}

#[test]
fn a_kill_at_the_memory_limit_is_the_limit() {
    let limit = limits(None, None, Some(1_000));
    let killed = |bytes: u64, signal: u32| RunInfo::<()>::new(RunInfoResult::KilledBySignal(signal), usage(0, 0, bytes));
    assert_eq!(*promote(killed(1_000, 9), limit).result(), RunInfoResult::MemoryLimitExceeded);
    assert_eq!(*promote(killed(17_384, 9), limit).result(), RunInfoResult::MemoryLimitExceeded);
    assert_eq!(*promote(killed(999, 9), limit).result(), RunInfoResult::KilledBySignal(9));
    assert_eq!(*promote(killed(5_000, 11), limit).result(), RunInfoResult::KilledBySignal(11));
    assert_eq!(*promote(killed(5_000, 9), Limits::default()).result(), RunInfoResult::KilledBySignal(9));
    let exited = RunInfo::<()>::new(RunInfoResult::NonZeroExitStatus(9), usage(0, 0, 5_000));
    assert_eq!(promote(exited, limit), exited);
    assert_eq!(*promote(killed(5_000, 9), limit).usage(), usage(0, 0, 5_000));
}

#[test]
fn what_a_child_said_on_its_pipe() {
    assert_eq!(report::<u8>(Piped::Nothing), Ok(None));
    assert_eq!(report(Piped::Report(4u8)), Ok(Some(4)));
    assert_eq!(report::<u8>(Piped::Garbled("eof".into())), Err(Error::DeserializeError("eof".into())));
}

#[test]
fn the_supervisor_concludes() {
    let used = usage(1, 2, 3);
    let none = Limits::default();
    let done = |result| RunInfo::<Option<Result<(), ChildError>>>::new(result, used);
    assert_eq!(conclude(done(RunInfoResult::Success(None)), none), Ok(RunInfo::new(RunInfoResult::Success(()), used)));
    assert_eq!(
        conclude(done(RunInfoResult::Success(Some(Ok(())))), none),
        Ok(RunInfo::new(RunInfoResult::Success(()), used))
    );
    let error = ChildError::FFIError(FFIError::SetRLimitError("no".into()));
    assert_eq!(
        conclude(done(RunInfoResult::Success(Some(Err(error.clone())))), none),
        Err(Error::ChildError(error))
    );
    assert_eq!(
        conclude(done(RunInfoResult::NonZeroExitStatus(23)), none),
        Ok(RunInfo::new(RunInfoResult::NonZeroExitStatus(23), used))
    );
    assert_eq!(
        conclude(done(RunInfoResult::KilledBySignal(9)), limits(None, None, Some(3))),
        Ok(RunInfo::new(RunInfoResult::MemoryLimitExceeded, used))
    );
    assert_eq!(
        conclude(done(RunInfoResult::KilledBySignal(9)), limits(None, None, Some(4))),
        Ok(RunInfo::new(RunInfoResult::KilledBySignal(9), used))
    );
    assert_eq!(
        conclude(done(RunInfoResult::WallTimeLimitExceeded), none),
        Ok(RunInfo::new(RunInfoResult::WallTimeLimitExceeded, used))
    );
}

#[test]
fn the_driver_resolves() {
    let used = usage(1, 2, 3);
    let verdict = RunInfo::new(RunInfoResult::KilledBySignal(8), used);
    let of = |result| RunInfo::<Option<Result<RunInfo<()>, Error>>>::new(result, RunUsage::default());
    assert_eq!(resolve_supervisor(of(RunInfoResult::Success(Some(Ok(verdict))))), Ok(verdict));
    assert_eq!(
        resolve_supervisor(of(RunInfoResult::Success(Some(Err(Error::StoppedContinuedError))))),
        Err(Error::StoppedContinuedError)
    );
    assert_eq!(resolve_supervisor(of(RunInfoResult::Success(None))), Err(Error::SupervisorProcessDiedError));
    assert_eq!(resolve_supervisor(of(RunInfoResult::KilledBySignal(9))), Err(Error::SupervisorProcessDiedError));
    assert_eq!(resolve_supervisor(of(RunInfoResult::NonZeroExitStatus(1))), Err(Error::SupervisorProcessDiedError));
}

#[test]
fn the_driver_waits() {
    let verdict = RunInfo::new(RunInfoResult::Success(()), usage(1, 2, 3));
    let answer = |report, event| match JailHandle::new(5, report).wait(event) {
        JailWaited::Finished(answer) => Some(answer),
        JailWaited::Again(_) => None,
    };
    assert_eq!(answer(Some(Ok(verdict)), WaitEvent::Status(0)), Some(Ok(verdict)));
    assert_eq!(answer(None, WaitEvent::Status(0)), Some(Err(Error::SupervisorProcessDiedError)));
    assert_eq!(answer(Some(Ok(verdict)), WaitEvent::Status(9)), Some(Err(Error::SupervisorProcessDiedError)));
    assert_eq!(answer(Some(Ok(verdict)), WaitEvent::Status(1 << 8)), Some(Err(Error::SupervisorProcessDiedError)));
    assert_eq!(
        answer(Some(Ok(verdict)), WaitEvent::Failed { code: 4, message: "Interrupted system call".into() }),
        None
    );
    assert_eq!(
        answer(Some(Ok(verdict)), WaitEvent::Failed { code: 10, message: "gone".into() }),
        Some(Err(Error::FFIError(FFIError::WaitPidError("gone".into()))))
    );
    assert_eq!(answer(Some(Ok(verdict)), WaitEvent::Status(0x137f)), Some(Err(Error::StoppedContinuedError)));
}

#[test]
fn each_step_fails_with_its_error() {
    let path = || b"/p".to_vec();
    assert_eq!(
        ffi(Step::InstallAlarmHandler, "m"),
        FFIError::SigActionError { signal: "SIGALRM".into(), error: "m".into() }
    );
    assert_eq!(ffi(Step::MakePipe, "m"), FFIError::Pipe2Error("m".into()));
    assert_eq!(
        ffi(Step::Clone { clone_flags: clone_flags(ShareNet::Share), stack_size: 1 }, "m"),
        FFIError::CloneError("m".into())
    );
    assert_eq!(ffi(Step::ArmTimer { seconds: 0, microseconds: 1 }, "m"), FFIError::SetITimerError("m".into()));
    assert_eq!(ffi(Step::KillOnParentDeath, "m"), FFIError::PrSetPDeathSigError("m".into()));
    assert_eq!(
        ffi(Step::CloseStream { stream: Stream::Stderr }, "m"),
        FFIError::CloseFdError { fd: 2, name: "stderr".into(), error: "m".into() }
    );
    assert_eq!(
        ffi(Step::OpenStream { stream: Stream::Stdin, path: path() }, "m"),
        FFIError::OpenFdError { fd: 0, name: "stdin".into(), error: "m".into() }
    );
    assert_eq!(ffi(Step::SetStackLimit { bytes: None }, "m"), FFIError::SetRLimitError("m".into()));
    assert_eq!(ffi(Step::UnshareCgroup, "m"), FFIError::UnshareCGroupError("m".into()));
    assert_eq!(
        ffi(
            Step::Mount {
                source: None,
                target: b"/jail/mount".to_vec(),
                kind: None,
                flags: MountFlags::empty(),
                options: None,
                blame: b"/mount".to_vec(),
            },
            "m"
        ),
        FFIError::MountError { path: b"/mount".to_vec(), error: "m".into() }
    );
    assert_eq!(
        ffi(Step::CreateDir { path: path(), parents: true }, "m"),
        FFIError::CreateDirError { path: path(), error: "m".into() }
    );
    assert_eq!(ffi(Step::Chdir { path: path() }, "m"), FFIError::ChdirError { path: path(), error: "m".into() });
    assert_eq!(ffi(Step::Chroot { path: path() }, "m"), FFIError::ChrootError { path: path(), error: "m".into() });
    assert_eq!(ffi(Step::Unmount { path: path() }, "m"), FFIError::UMountError { path: path(), error: "m".into() });
    assert_eq!(
        ffi(Step::WriteIdMap { map: IdMap::SetGroups, data: vec![] }, "m"),
        FFIError::WriteSetGroupsError("m".into())
    );
    assert_eq!(ffi(Step::WriteIdMap { map: IdMap::Uid, data: vec![] }, "m"), FFIError::WriteUidError("m".into()));
    assert_eq!(ffi(Step::WriteIdMap { map: IdMap::Gid, data: vec![] }, "m"), FFIError::WriteGidError("m".into()));
    assert_eq!(
        ffi(Step::DetachProcessGroup, "m"),
        FFIError::SetpgidError { pid: 0, pgid: 0, error: "m".into() }
    );
    assert_eq!(
        ffi(exec_step(), "m"),
        FFIError::ExecError { command: b"/bin/p".to_vec(), arguments: vec![b"x".to_vec()], error: "m".into() }
    );
    assert_eq!(
        ffi(Step::PivotRoot { new_root: b"/n".to_vec(), old_root: b"/n/o".to_vec() }, "m"),
        FFIError::PivotRootError { new_root: b"/n".to_vec(), old_root: b"/n/o".to_vec(), error: "m".into() }
    );
}

#[test]
fn each_control_group_step_fails_with_its_error() {
    assert_eq!(
        cgroup(Step::RequireController { path: b"/c".to_vec() }, false, "m"),
        CGroupError::ControllerMissing(b"/c".to_vec())
    );
    assert_eq!(
        cgroup(Step::CreateInstance { controller_path: b"/c".to_vec(), instance_name: b"job".to_vec() }, false, "m"),
        CGroupError::InstanceControllerCreateError {
            controller_path: b"/c".to_vec(),
            instance_name: b"job".to_vec(),
            error: "m".into(),
        }
    );
    let write = || Step::WriteControl {
        controller_path: b"/c/job".to_vec(),
        file: b"pids.max".to_vec(),
        data: b"4\n".to_vec(),
        required: true,
    };
    assert_eq!(
        cgroup(write(), true, "m"),
        CGroupError::OpenCGroupFileError {
            controller_path: b"/c/job".to_vec(),
            file: b"pids.max".to_vec(),
            error: "m".into(),
        }
    );
    assert_eq!(
        cgroup(write(), false, "m"),
        CGroupError::WriteCGroupFileError {
            controller_path: b"/c/job".to_vec(),
            file: b"pids.max".to_vec(),
            error: "m".into(),
        }
    );
}

#[test]
fn a_failed_change_of_root_is_explained() {
    let reason = |code: i32| match sys_pivot_root(b"/n", b"/n/o", code, "as the system says".into()) {
        FFIError::PivotRootError { new_root, old_root, error } => {
            assert_eq!(new_root, b"/n".to_vec());
            assert_eq!(old_root, b"/n/o".to_vec());
            error
        }
        other => panic!("expected a change of root error, got {:?}", other),
    };
    assert_eq!(
        reason(16),
        "new_root or put_old are on the current root filesystem, or a filesystem is already mounted on put_old."
    );
    assert_eq!(reason(22), "put_old is not underneath new_root");
    assert_eq!(reason(20), "new_root or put_old is not a directory");
    assert_eq!(reason(1), "The calling process does not have the CAP_SYS_ADMIN capability");
    assert_eq!(reason(2), "as the system says");
    assert_eq!(reason(0), "as the system says");
}

#[test]
fn a_pause_that_fails() {
    assert_eq!(
        sleep_failure(50_000, "m".into()),
        ChildError::FFIError(FFIError::UsleepError { time: 50_000, error: "m".into() })
    );
}

#[test]
fn a_step_that_came_back_is_followed_by_the_next() {
    assert_eq!(resolve(&Step::UnshareCgroup, 0, Event::Done(0)), Directive::Proceed);
    assert_eq!(resolve(&Step::UnshareCgroup, 0, Event::Done(17)), Directive::Proceed);
    assert_eq!(resolve(&exec_step(), 0, Event::Done(0)), Directive::Proceed);
    let open = Step::OpenStream { stream: Stream::Stdout, path: b"/out".to_vec() };
    assert_eq!(resolve(&open, 0, Event::Done(1)), Directive::Proceed);
}

#[test]
fn a_file_opened_under_another_descriptor_is_an_error() {
    let open = Step::OpenStream { stream: Stream::Stdout, path: b"/out".to_vec() };
    assert_eq!(
        resolve(&open, 0, Event::Done(3)),
        Directive::Abort(ChildError::FFIError(FFIError::OpenFdError {
            fd: 1,
            name: "stdout".into(),
            error: "Wrong file descriptor opened 3".into(),
        }))
    );
    assert_eq!(
        resolve(&open, 0, Event::Done(-7)),
        Directive::Abort(ChildError::FFIError(FFIError::OpenFdError {
            fd: 1,
            name: "stdout".into(),
            error: "Wrong file descriptor opened -7".into(),
        }))
    );
}

#[test]
fn a_failure_ends_the_plan() {
    assert_eq!(
        resolve(&Step::UnshareCgroup, 0, failed(1, "Operation not permitted")),
        Directive::Abort(ChildError::FFIError(FFIError::UnshareCGroupError("Operation not permitted".into())))
    );
    assert_eq!(
        resolve(&Step::UnshareCgroup, 0, failed(26, "Text file busy")),
        Directive::Abort(ChildError::FFIError(FFIError::UnshareCGroupError("Text file busy".into())))
    );
    let write = |required| Step::WriteControl {
        controller_path: b"/c".to_vec(),
        file: b"f".to_vec(),
        data: vec![],
        required,
    };
    assert!(matches!(resolve(&write(true), 0, failed(2, "m")), Directive::Abort(_)));
    assert_eq!(resolve(&write(false), 0, failed(2, "m")), Directive::Proceed);
    assert_eq!(
        resolve(&write(false), 0, Event::Failed { opening: true, code: 2, message: "m".into() }),
        Directive::Proceed
    );
}

#[test]
fn a_busy_program_is_started_again() {
    assert_eq!(EXEC_RETRIES, 10);
    assert_eq!(RETRY_DELAY, 50_000);
    for attempt in 0..9 {
        assert_eq!(
            resolve(&exec_step(), attempt, failed(26, "Text file busy")),
            Directive::Retry { micros: 50_000 }
        );
    }
    let gone = Directive::Abort(ChildError::FFIError(FFIError::ExecError {
        command: b"/bin/p".to_vec(),
        arguments: vec![b"x".to_vec()],
        error: "Text file busy".into(),
    }));
    assert_eq!(resolve(&exec_step(), 9, failed(26, "Text file busy")), gone);
    assert_eq!(resolve(&exec_step(), 100, failed(26, "Text file busy")), gone);
    assert!(matches!(resolve(&exec_step(), 0, failed(2, "No such file or directory")), Directive::Abort(_)));
    assert!(matches!(resolve(&exec_step(), 0, failed(16, "busy")), Directive::Abort(_)));
}

#[test]
fn a_runner_walks_its_plan() {
    let mut plan = Plan::new();
    plan.push(Step::UnshareCgroup);
    plan.push(Step::DetachProcessGroup);
    plan.push(exec_step());
    let mut runner = Runner::new(plan);
    assert_eq!(runner.due(), Some(&Step::UnshareCgroup));
    assert!(!runner.finished() && !runner.aborted());
    assert_eq!(runner.feed(Event::Done(0)), Directive::Proceed);
    assert_eq!(runner.due(), Some(&Step::DetachProcessGroup));
    assert_eq!(runner.feed(Event::Done(0)), Directive::Proceed);
    assert_eq!(runner.due(), Some(&exec_step()));
    for _ in 0..9 {
        assert_eq!(runner.feed(failed(26, "Text file busy")), Directive::Retry { micros: 50_000 });
        assert_eq!(runner.due(), Some(&exec_step()));
    }
    assert!(matches!(runner.feed(failed(26, "Text file busy")), Directive::Abort(_)));
    assert!(runner.aborted());
    assert!(!runner.finished());
    assert_eq!(runner.due(), None);
}

#[test]
fn a_runner_ends_its_plan() {
    let mut plan = Plan::new();
    plan.push(Step::UnshareCgroup);
    let mut runner = Runner::new(plan);
    assert_eq!(runner.feed(Event::Done(0)), Directive::Proceed);
    assert!(runner.finished());
    assert!(!runner.aborted());
    assert_eq!(runner.due(), None);
    let empty = Runner::new(Plan::new());
    assert!(empty.finished());
    assert_eq!(empty.due(), None);
}

#[test]
fn a_runner_stops_at_the_first_failure() {
    let mut plan = Plan::new();
    plan.push(Step::UnshareCgroup);
    plan.push(Step::DetachProcessGroup);
    let mut runner = Runner::new(plan);
    assert_eq!(
        runner.feed(failed(1, "no")),
        Directive::Abort(ChildError::FFIError(FFIError::UnshareCGroupError("no".into())))
    );
    assert!(runner.aborted());
    assert_eq!(runner.due(), None);
}

#[test]
fn errors_are_wrapped() {
    let ffi = FFIError::CloneError("m".into());
    let cgroup = CGroupError::ControllerMissing(b"/c".to_vec());
    assert_eq!(ChildError::from(ffi.clone()), ChildError::FFIError(ffi.clone()));
    assert_eq!(ChildError::from(cgroup.clone()), ChildError::CGroupError(cgroup.clone()));
    assert_eq!(Error::from(ffi.clone()), Error::FFIError(ffi.clone()));
    assert_eq!(Error::from(cgroup.clone()), Error::CGroupError(cgroup.clone()));
    assert_eq!(Error::from(ChildError::from(ffi.clone())), Error::ChildError(ChildError::FFIError(ffi)));
}

#[test]
fn wait_statuses_follow_their_bits() {
    for status in 0..=0x2_ffff {
        let low = status & 0x7f;
        let wanted = if low == 0 {
            Ending::Exited(((status >> 8) & 0xff) as u32)
        } else if low != 0x7f {
            Ending::Signaled(low as u32)
        } else if status & 0xff == 0x7f || status == 0xffff {
            Ending::Suspended
        } else {
            Ending::Unclear
        };
        assert_eq!(read_status(status), wanted, "status {:#x}", status);
    }
    assert_eq!(read_status(-1), Ending::Unclear);
    assert_eq!(read_status(i32::MIN), Ending::Exited(0));
    assert_eq!(read_status(i32::MIN | 9), Ending::Signaled(9));
    assert_eq!(read_status(-256), Ending::Exited(255));
}
