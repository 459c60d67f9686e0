//! The single operations that set a jail up, as values.
//!
//! A `Step` says what is asked of the system, with every argument spelled
//! out. A `Plan` is a list of steps to be performed in order. Nothing in this
//! module touches the system: whoever holds a plan performs it.

use vstd::prelude::*;
use crate::text::{byte_views, option_view};

verus! {

/// One of the three standard streams of a process.
#[derive(Debug, PartialEq, Eq, Structural, Copy, Clone)]
pub enum Stream {
    Stdin,
    Stdout,
    Stderr,
}

impl Stream {
    /// The descriptor of the stream.
    pub open spec fn descriptor(self) -> i32 {
        match self {
            Stream::Stdin => 0,
            Stream::Stdout => 1,
            Stream::Stderr => 2,
        }
    }

    /// The name of the stream.
    pub open spec fn label(self) -> Seq<char> {
        match self {
            Stream::Stdin => "stdin"@,
            Stream::Stdout => "stdout"@,
            Stream::Stderr => "stderr"@,
        }
    }

    /// Whether the stream is written to. A stream that is written to is
    /// opened for writing only, created with mode 0666 if missing and emptied;
    /// the other is opened for reading only.
    pub open spec fn written(self) -> bool {
        self != Stream::Stdin
    }

    pub fn fd(&self) -> (r: i32)
        ensures
            r == self.descriptor(),
    {
        match self {
            Stream::Stdin => 0,
            Stream::Stdout => 1,
            Stream::Stderr => 2,
        }
    }

    pub fn name(&self) -> (r: String)
        ensures
            r@ == self.label(),
    {
        match self {
            Stream::Stdin => String::from_str("stdin"),
            Stream::Stdout => String::from_str("stdout"),
            Stream::Stderr => String::from_str("stderr"),
        }
    }

    pub fn is_written(&self) -> (r: bool)
        ensures
            r == self.written(),
    {
        match self {
            Stream::Stdin => false,
            _ => true,
        }
    }
}

/// One of the three files that map the users and groups of a namespace.
#[derive(Debug, PartialEq, Eq, Structural, Copy, Clone)]
pub enum IdMap {
    /// `/proc/self/setgroups`
    SetGroups,
    /// `/proc/self/uid_map`
    Uid,
    /// `/proc/self/gid_map`
    Gid,
}

/// What a mount call is asked for. Each field stands for one flag of
/// `mount(2)`.
#[derive(Debug, PartialEq, Eq, Structural, Copy, Clone)]
pub struct MountFlags {
    /// `MS_BIND`: make a directory visible at a second place.
    pub bind: bool,
    /// `MS_REC`: apply to every mount below the target as well.
    pub recursive: bool,
    /// `MS_PRIVATE`: keep mount events from passing in or out.
    pub private: bool,
    /// `MS_REMOUNT`: change the flags of a mount that exists.
    pub remount: bool,
    /// `MS_RDONLY`: allow no writing.
    pub read_only: bool,
    /// `MS_NOSUID`: do not honour set-user-id bits.
    pub no_suid: bool,
    /// `MS_NODEV`: do not honour device files.
    pub no_dev: bool,
    /// `MS_NOEXEC`: do not run programs.
    pub no_exec: bool,
}

impl MountFlags {
    /// No flag set.
    pub open spec fn none() -> MountFlags {
        MountFlags {
            bind: false,
            recursive: false,
            private: false,
            remount: false,
            read_only: false,
            no_suid: false,
            no_dev: false,
            no_exec: false,
        }
    }

    pub fn empty() -> (flags: MountFlags)
        ensures
            flags == Self::none(),
    {
        MountFlags {
            bind: false,
            recursive: false,
            private: false,
            remount: false,
            read_only: false,
            no_suid: false,
            no_dev: false,
            no_exec: false,
        }
    }
}

/// What a new process is given of its own, and how its parent hears of it.
/// Each field stands for one flag of `clone(2)`.
#[derive(Debug, PartialEq, Eq, Structural, Copy, Clone)]
pub struct CloneFlags {
    /// `CLONE_NEWUSER`: users and groups of its own.
    pub new_user: bool,
    /// `CLONE_NEWPID`: process numbers of its own.
    pub new_pid: bool,
    /// `CLONE_NEWIPC`: message queues and shared memory of its own.
    pub new_ipc: bool,
    /// `CLONE_NEWUTS`: a host name of its own.
    pub new_uts: bool,
    /// `CLONE_NEWNS`: mounts of its own.
    pub new_mount: bool,
    /// `CLONE_NEWNET`: a network of its own.
    pub new_net: bool,
    /// `CLONE_VFORK`: the parent is held until the child has started its
    /// program or ended.
    pub vfork: bool,
    /// `SIGCHLD`: the parent is sent a child signal when the child ends.
    pub signal_parent: bool,
}

/// One operation asked of the system.
#[derive(Debug, PartialEq, Eq, Clone)]
pub enum Step {
    /// Install a handler for the alarm signal that does nothing.
    InstallAlarmHandler,
    /// Open the pipe on which the child reports, closed in whatever program
    /// the child starts.
    MakePipe,
    /// Start the child on a stack of `stack_size` bytes.
    Clone { clone_flags: CloneFlags, stack_size: usize },
    /// Have the alarm signal sent every `seconds` seconds and `microseconds`
    /// microseconds of real time, from now on.
    ArmTimer { seconds: i64, microseconds: i64 },
    /// Ask to be killed when the parent dies.
    KillOnParentDeath,
    /// Close the descriptor of `stream`.
    CloseStream { stream: Stream },
    /// Open `path` for `stream`; the call must hand out the descriptor of
    /// `stream`.
    OpenStream { stream: Stream, path: Vec<u8> },
    /// Limit the stack to `bytes`, or lift the limit.
    SetStackLimit { bytes: Option<u64> },
    /// See that the controller at `path` is there.
    RequireController { path: Vec<u8> },
    /// Make the directory `instance_name` under `controller_path` unless it
    /// is there.
    CreateInstance { controller_path: Vec<u8>, instance_name: Vec<u8> },
    /// Write `data` to `file` under `controller_path`. A write that is not
    /// `required` may fail.
    WriteControl { controller_path: Vec<u8>, file: Vec<u8>, data: Vec<u8>, required: bool },
    /// Leave the control group namespace of the parent.
    UnshareCgroup,
    /// Mount `source` at `target` as a file system of `kind`, with `options`
    /// for it. A failure is reported for `blame`.
    Mount {
        source: Option<Vec<u8>>,
        target: Vec<u8>,
        kind: Option<Vec<u8>>,
        flags: MountFlags,
        options: Option<Vec<u8>>,
        blame: Vec<u8>,
    },
    /// Make the directory `path`: with all its missing parents, or, without
    /// `parents`, only itself and only if it is missing.
    CreateDir { path: Vec<u8>, parents: bool },
    Chdir { path: Vec<u8> },
    /// Make `new_root` the root and put the old root at `old_root`.
    PivotRoot { new_root: Vec<u8>, old_root: Vec<u8> },
    Chroot { path: Vec<u8> },
    /// Detach what is mounted at `path`, at once for new users and for good
    /// when the last one is gone.
    Unmount { path: Vec<u8> },
    /// Write `data` to the file of `map`.
    WriteIdMap { map: IdMap, data: Vec<u8> },
    /// Make the process the leader of a process group of its own.
    DetachProcessGroup,
    /// Replace the process by `command`, run with `arguments` after its own
    /// name and with `environment`, or with the environment as it is.
    Exec { command: Vec<u8>, arguments: Vec<Vec<u8>>, environment: Option<Vec<Vec<u8>>> },
}

/// What a `Step` holds.
pub enum StepView {
    InstallAlarmHandler,
    MakePipe,
    Clone { clone_flags: CloneFlags, stack_size: usize },
    ArmTimer { seconds: i64, microseconds: i64 },
    KillOnParentDeath,
    CloseStream { stream: Stream },
    OpenStream { stream: Stream, path: Seq<u8> },
    SetStackLimit { bytes: Option<u64> },
    RequireController { path: Seq<u8> },
    CreateInstance { controller_path: Seq<u8>, instance_name: Seq<u8> },
    WriteControl { controller_path: Seq<u8>, file: Seq<u8>, data: Seq<u8>, required: bool },
    UnshareCgroup,
    Mount {
        source: Option<Seq<u8>>,
        target: Seq<u8>,
        kind: Option<Seq<u8>>,
        flags: MountFlags,
        options: Option<Seq<u8>>,
        blame: Seq<u8>,
    },
    CreateDir { path: Seq<u8>, parents: bool },
    Chdir { path: Seq<u8> },
    PivotRoot { new_root: Seq<u8>, old_root: Seq<u8> },
    Chroot { path: Seq<u8> },
    Unmount { path: Seq<u8> },
    WriteIdMap { map: IdMap, data: Seq<u8> },
    DetachProcessGroup,
    Exec { command: Seq<u8>, arguments: Seq<Seq<u8>>, environment: Option<Seq<Seq<u8>>> },
}

impl View for Step {
    type V = StepView;

    open spec fn view(&self) -> StepView {
        match self {
            Step::InstallAlarmHandler => StepView::InstallAlarmHandler,
            Step::MakePipe => StepView::MakePipe,
            Step::Clone { clone_flags, stack_size } => StepView::Clone {
                clone_flags: *clone_flags,
                stack_size: *stack_size,
            },
            Step::ArmTimer { seconds, microseconds } => StepView::ArmTimer {
                seconds: *seconds,
                microseconds: *microseconds,
            },
            Step::KillOnParentDeath => StepView::KillOnParentDeath,
            Step::CloseStream { stream } => StepView::CloseStream { stream: *stream },
            Step::OpenStream { stream, path } => StepView::OpenStream {
                stream: *stream,
                path: path@,
            },
            Step::SetStackLimit { bytes } => StepView::SetStackLimit { bytes: *bytes },
            Step::RequireController { path } => StepView::RequireController { path: path@ },
            Step::CreateInstance { controller_path, instance_name } => StepView::CreateInstance {
                controller_path: controller_path@,
                instance_name: instance_name@,
            },
            Step::WriteControl { controller_path, file, data, required } => StepView::WriteControl {
                controller_path: controller_path@,
                file: file@,
                data: data@,
                required: *required,
            },
            Step::UnshareCgroup => StepView::UnshareCgroup,
            Step::Mount { source, target, kind, flags, options, blame } => StepView::Mount {
                source: option_view(*source),
                target: target@,
                kind: option_view(*kind),
                flags: *flags,
                options: option_view(*options),
                blame: blame@,
            },
            Step::CreateDir { path, parents } => StepView::CreateDir {
                path: path@,
                parents: *parents,
            },
            Step::Chdir { path } => StepView::Chdir { path: path@ },
            Step::PivotRoot { new_root, old_root } => StepView::PivotRoot {
                new_root: new_root@,
                old_root: old_root@,
            },
            Step::Chroot { path } => StepView::Chroot { path: path@ },
            Step::Unmount { path } => StepView::Unmount { path: path@ },
            Step::WriteIdMap { map, data } => StepView::WriteIdMap { map: *map, data: data@ },
            Step::DetachProcessGroup => StepView::DetachProcessGroup,
            Step::Exec { command, arguments, environment } => StepView::Exec {
                command: command@,
                arguments: byte_views(arguments@),
                environment: match environment {
                    Some(variables) => Some(byte_views(variables@)),
                    None => None,
                },
            },
        }
    }
}

/// Steps to be performed one after the other.
#[derive(Debug, PartialEq, Eq, Clone)]
pub struct Plan {
    steps: Vec<Step>,
}

impl View for Plan {
    type V = Seq<StepView>;

    closed spec fn view(&self) -> Seq<StepView> {
        self.steps@.map_values(|step: Step| step@)
    }
}

impl Plan {
    /// The plan without any step.
    pub fn new() -> (plan: Plan)
        ensures
            plan@ == Seq::<StepView>::empty(),
    {
        let plan = Plan { steps: Vec::new() };
        assert(plan@ =~= Seq::<StepView>::empty());
        plan
    }

    /// Adds `step` at the end.
    pub fn push(&mut self, step: Step)
        ensures
            final(self)@ == old(self)@.push(step@),
    {
        self.steps.push(step);
        assert(self@ =~= old(self)@.push(step@));
    }

    /// Adds the steps of `other` at the end, in their order.
    pub fn extend(&mut self, other: Plan)
        ensures
            final(self)@ == old(self)@ + other@,
    {
        let mut other = other;
        let ghost added = other@;
        self.steps.append(&mut other.steps);
        assert(self@ =~= old(self)@ + added);
    }

    pub fn len(&self) -> (n: usize)
        ensures
            n == self@.len(),
    {
        self.steps.len()
    }

    /// The step at `index`.
    pub fn get(&self, index: usize) -> (step: Option<&Step>)
        ensures
            index < self@.len() ==> (step matches Some(found) && found@ == self@[index as int]),
            index >= self@.len() ==> step is None,
    {
        if index < self.steps.len() {
            Some(&self.steps[index])
        } else {
            None
        }
    }

    /// The steps, in their order.
    pub fn steps(&self) -> (steps: &Vec<Step>)
        ensures
            steps@.map_values(|step: Step| step@) == self@,
    {
        &self.steps
    }
}

} // verus!
