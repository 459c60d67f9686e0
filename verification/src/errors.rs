//! What can go wrong while a jail is set up and watched.
//!
//! An error names the operation that failed, the path or argument it failed
//! on, and the reason the system gave.

use vstd::prelude::*;
use vstd::std_specs::convert::FromSpecImpl;
use crate::text::byte_views;

verus! {

/// A system call that failed.
#[derive(Debug, PartialEq, Eq, Clone)]
pub enum FFIError {
    ChdirError { path: Vec<u8>, error: String },
    ChrootError { path: Vec<u8>, error: String },
    CloneError(String),
    CloseFdError { fd: i32, name: String, error: String },
    DupFdError { fd: i32, name: String, error: String },
    CreateDirError { path: Vec<u8>, error: String },
    ExecError { command: Vec<u8>, arguments: Vec<Vec<u8>>, error: String },
    MountError { path: Vec<u8>, error: String },
    OpenFdError { fd: i32, name: String, error: String },
    Pipe2Error(String),
    PivotRootError { new_root: Vec<u8>, old_root: Vec<u8>, error: String },
    PrSetPDeathSigError(String),
    SetITimerError(String),
    SetpgidError { pid: i32, pgid: i32, error: String },
    SetRLimitError(String),
    SigActionError { signal: String, error: String },
    UMountError { path: Vec<u8>, error: String },
    UnshareCGroupError(String),
    UsleepError { time: u32, error: String },
    WriteUidError(String),
    WriteGidError(String),
    WaitPidError(String),
    WriteSetGroupsError(String),
}

/// What an `FFIError` holds.
pub enum FFIErrorView {
    ChdirError { path: Seq<u8>, error: Seq<char> },
    ChrootError { path: Seq<u8>, error: Seq<char> },
    CloneError(Seq<char>),
    CloseFdError { fd: i32, name: Seq<char>, error: Seq<char> },
    DupFdError { fd: i32, name: Seq<char>, error: Seq<char> },
    CreateDirError { path: Seq<u8>, error: Seq<char> },
    ExecError { command: Seq<u8>, arguments: Seq<Seq<u8>>, error: Seq<char> },
    MountError { path: Seq<u8>, error: Seq<char> },
    OpenFdError { fd: i32, name: Seq<char>, error: Seq<char> },
    Pipe2Error(Seq<char>),
    PivotRootError { new_root: Seq<u8>, old_root: Seq<u8>, error: Seq<char> },
    PrSetPDeathSigError(Seq<char>),
    SetITimerError(Seq<char>),
    SetpgidError { pid: i32, pgid: i32, error: Seq<char> },
    SetRLimitError(Seq<char>),
    SigActionError { signal: Seq<char>, error: Seq<char> },
    UMountError { path: Seq<u8>, error: Seq<char> },
    UnshareCGroupError(Seq<char>),
    UsleepError { time: u32, error: Seq<char> },
    WriteUidError(Seq<char>),
    WriteGidError(Seq<char>),
    WaitPidError(Seq<char>),
    WriteSetGroupsError(Seq<char>),
}

impl View for FFIError {
    type V = FFIErrorView;

    open spec fn view(&self) -> FFIErrorView {
        match self {
            FFIError::ChdirError { path, error } => FFIErrorView::ChdirError {
                path: path@,
                error: error@,
            },
            FFIError::ChrootError { path, error } => FFIErrorView::ChrootError {
                path: path@,
                error: error@,
            },
            FFIError::CloneError(error) => FFIErrorView::CloneError(error@),
            FFIError::CloseFdError { fd, name, error } => FFIErrorView::CloseFdError {
                fd: *fd,
                name: name@,
                error: error@,
            },
            FFIError::DupFdError { fd, name, error } => FFIErrorView::DupFdError {
                fd: *fd,
                name: name@,
                error: error@,
            },
            FFIError::CreateDirError { path, error } => FFIErrorView::CreateDirError {
                path: path@,
                error: error@,
            },
            FFIError::ExecError { command, arguments, error } => FFIErrorView::ExecError {
                command: command@,
                arguments: byte_views(arguments@),
                error: error@,
            },
            FFIError::MountError { path, error } => FFIErrorView::MountError {
                path: path@,
                error: error@,
            },
            FFIError::OpenFdError { fd, name, error } => FFIErrorView::OpenFdError {
                fd: *fd,
                name: name@,
                error: error@,
            },
            FFIError::Pipe2Error(error) => FFIErrorView::Pipe2Error(error@),
            FFIError::PivotRootError { new_root, old_root, error } => FFIErrorView::PivotRootError {
                new_root: new_root@,
                old_root: old_root@,
                error: error@,
            },
            FFIError::PrSetPDeathSigError(error) => FFIErrorView::PrSetPDeathSigError(error@),
            FFIError::SetITimerError(error) => FFIErrorView::SetITimerError(error@),
            FFIError::SetpgidError { pid, pgid, error } => FFIErrorView::SetpgidError {
                pid: *pid,
                pgid: *pgid,
                error: error@,
            },
            FFIError::SetRLimitError(error) => FFIErrorView::SetRLimitError(error@),
            FFIError::SigActionError { signal, error } => FFIErrorView::SigActionError {
                signal: signal@,
                error: error@,
            },
            FFIError::UMountError { path, error } => FFIErrorView::UMountError {
                path: path@,
                error: error@,
            },
            FFIError::UnshareCGroupError(error) => FFIErrorView::UnshareCGroupError(error@),
            FFIError::UsleepError { time, error } => FFIErrorView::UsleepError {
                time: *time,
                error: error@,
            },
            FFIError::WriteUidError(error) => FFIErrorView::WriteUidError(error@),
            FFIError::WriteGidError(error) => FFIErrorView::WriteGidError(error@),
            FFIError::WaitPidError(error) => FFIErrorView::WaitPidError(error@),
            FFIError::WriteSetGroupsError(error) => FFIErrorView::WriteSetGroupsError(error@),
        }
    }
}

/// A control group that could not be entered or read.
#[derive(Debug, PartialEq, Eq, Clone)]
pub enum CGroupError {
    ControllerMissing(Vec<u8>),
    InstanceControllerCreateError { controller_path: Vec<u8>, instance_name: Vec<u8>, error: String },
    OpenCGroupFileError { controller_path: Vec<u8>, file: Vec<u8>, error: String },
    ParseCGroupFileError { controller_path: Vec<u8>, file: Vec<u8>, buffer: Vec<u8>, error: String },
    ReadCGroupFileError { controller_path: Vec<u8>, file: Vec<u8>, error: String },
    WriteCGroupFileError { controller_path: Vec<u8>, file: Vec<u8>, error: String },
}

/// What a `CGroupError` holds.
pub enum CGroupErrorView {
    ControllerMissing(Seq<u8>),
    InstanceControllerCreateError {
        controller_path: Seq<u8>,
        instance_name: Seq<u8>,
        error: Seq<char>,
    },
    OpenCGroupFileError { controller_path: Seq<u8>, file: Seq<u8>, error: Seq<char> },
    ParseCGroupFileError {
        controller_path: Seq<u8>,
        file: Seq<u8>,
        buffer: Seq<u8>,
        error: Seq<char>,
    },
    ReadCGroupFileError { controller_path: Seq<u8>, file: Seq<u8>, error: Seq<char> },
    WriteCGroupFileError { controller_path: Seq<u8>, file: Seq<u8>, error: Seq<char> },
}

impl View for CGroupError {
    type V = CGroupErrorView;

    open spec fn view(&self) -> CGroupErrorView {
        match self {
            CGroupError::ControllerMissing(path) => CGroupErrorView::ControllerMissing(path@),
            CGroupError::InstanceControllerCreateError { controller_path, instance_name, error } =>
                CGroupErrorView::InstanceControllerCreateError {
                    controller_path: controller_path@,
                    instance_name: instance_name@,
                    error: error@,
                },
            CGroupError::OpenCGroupFileError { controller_path, file, error } =>
                CGroupErrorView::OpenCGroupFileError {
                    controller_path: controller_path@,
                    file: file@,
                    error: error@,
                },
            CGroupError::ParseCGroupFileError { controller_path, file, buffer, error } =>
                CGroupErrorView::ParseCGroupFileError {
                    controller_path: controller_path@,
                    file: file@,
                    buffer: buffer@,
                    error: error@,
                },
            CGroupError::ReadCGroupFileError { controller_path, file, error } =>
                CGroupErrorView::ReadCGroupFileError {
                    controller_path: controller_path@,
                    file: file@,
                    error: error@,
                },
            CGroupError::WriteCGroupFileError { controller_path, file, error } =>
                CGroupErrorView::WriteCGroupFileError {
                    controller_path: controller_path@,
                    file: file@,
                    error: error@,
                },
        }
    }
}

/// What a process inside the jail reports when it cannot go on.
#[derive(Debug, PartialEq, Eq, Clone)]
pub enum ChildError {
    CGroupError(CGroupError),
    FFIError(FFIError),
}

/// What a `ChildError` holds.
pub enum ChildErrorView {
    CGroupError(CGroupErrorView),
    FFIError(FFIErrorView),
}

impl View for ChildError {
    type V = ChildErrorView;

    open spec fn view(&self) -> ChildErrorView {
        match self {
            ChildError::CGroupError(error) => ChildErrorView::CGroupError(error@),
            ChildError::FFIError(error) => ChildErrorView::FFIError(error@),
        }
    }
}

impl From<CGroupError> for ChildError {
    fn from(err: CGroupError) -> (r: ChildError) {
        ChildError::CGroupError(err)
    }
}

impl FromSpecImpl<CGroupError> for ChildError {
    open spec fn obeys_from_spec() -> bool {
        true
    }

    open spec fn from_spec(err: CGroupError) -> ChildError {
        ChildError::CGroupError(err)
    }
}

impl From<FFIError> for ChildError {
    fn from(err: FFIError) -> (r: ChildError) {
        ChildError::FFIError(err)
    }
}

impl FromSpecImpl<FFIError> for ChildError {
    open spec fn obeys_from_spec() -> bool {
        true
    }

    open spec fn from_spec(err: FFIError) -> ChildError {
        ChildError::FFIError(err)
    }
}

/// What the caller of the sandbox is told when no verdict could be reached.
#[derive(Debug, PartialEq, Eq, Clone)]
pub enum Error {
    CGroupError(CGroupError),
    ChildError(ChildError),
    ContinuedPastExecError(String),
    DeserializeError(String),
    FFIError(FFIError),
    StoppedContinuedError,
    SupervisorProcessDiedError,
}

/// What an `Error` holds.
pub enum ErrorView {
    CGroupError(CGroupErrorView),
    ChildError(ChildErrorView),
    ContinuedPastExecError(Seq<char>),
    DeserializeError(Seq<char>),
    FFIError(FFIErrorView),
    StoppedContinuedError,
    SupervisorProcessDiedError,
}

impl View for Error {
    type V = ErrorView;

    open spec fn view(&self) -> ErrorView {
        match self {
            Error::CGroupError(error) => ErrorView::CGroupError(error@),
            Error::ChildError(error) => ErrorView::ChildError(error@),
            Error::ContinuedPastExecError(error) => ErrorView::ContinuedPastExecError(error@),
            Error::DeserializeError(error) => ErrorView::DeserializeError(error@),
            Error::FFIError(error) => ErrorView::FFIError(error@),
            Error::StoppedContinuedError => ErrorView::StoppedContinuedError,
            Error::SupervisorProcessDiedError => ErrorView::SupervisorProcessDiedError,
        }
    }
}

impl From<CGroupError> for Error {
    fn from(err: CGroupError) -> (r: Error) {
        Error::CGroupError(err)
    }
}

impl FromSpecImpl<CGroupError> for Error {
    open spec fn obeys_from_spec() -> bool {
        true
    }

    open spec fn from_spec(err: CGroupError) -> Error {
        Error::CGroupError(err)
    }
}

impl From<ChildError> for Error {
    fn from(err: ChildError) -> (r: Error) {
        Error::ChildError(err)
    }
}

impl FromSpecImpl<ChildError> for Error {
    open spec fn obeys_from_spec() -> bool {
        true
    }

    open spec fn from_spec(err: ChildError) -> Error {
        Error::ChildError(err)
    }
}

impl From<FFIError> for Error {
    fn from(err: FFIError) -> (r: Error) {
        Error::FFIError(err)
    }
}

impl FromSpecImpl<FFIError> for Error {
    open spec fn obeys_from_spec() -> bool {
        true
    }

    open spec fn from_spec(err: FFIError) -> Error {
        Error::FFIError(err)
    }
}

} // verus!
