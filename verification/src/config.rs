//! The description of one sandboxed run.

use vstd::prelude::*;
use crate::text::{byte_views, option_view};
use crate::time::Duration;

verus! {

/// Whether the payload sees the network of the caller.
#[derive(Debug, PartialEq, Eq, Structural, Copy, Clone)]
pub enum ShareNet {
    Share,
    Unshare,
}

/// Whether standard output is opened before standard input.
#[derive(Debug, PartialEq, Eq, Structural, Copy, Clone)]
pub enum SwapRedirects {
    Yes,
    No,
}

/// Whether the counters of the control groups are reset, and limits written,
/// when the payload enters them.
#[derive(Debug, PartialEq, Eq, Structural, Copy, Clone)]
pub enum ClearUsage {
    Yes,
    No,
}

/// Whether the payload stays in the process group of the caller.
#[derive(Debug, PartialEq, Eq, Structural, Copy, Clone)]
pub enum Interactive {
    Yes,
    No,
}

/// An amount of memory, in bytes.
#[derive(Debug, PartialEq, Eq, Structural, Copy, Clone, PartialOrd, Ord)]
pub struct SpaceUsage(u64);

impl View for SpaceUsage {
    type V = nat;

    closed spec fn view(&self) -> nat {
        self.0 as nat
    }
}

impl SpaceUsage {
    /// The amount of `bytes` bytes.
    pub closed spec fn spec_from_bytes(bytes: u64) -> SpaceUsage {
        SpaceUsage(bytes)
    }

    pub fn from_bytes(bytes: u64) -> (s: SpaceUsage)
        ensures
            s@ == bytes,
            s == Self::spec_from_bytes(bytes),
    {
        SpaceUsage(bytes)
    }

    pub fn from_kilobytes(kilobytes: u64) -> (s: SpaceUsage)
        requires
            kilobytes * 1_000 <= u64::MAX,
        ensures
            s@ == kilobytes * 1_000,
    {
        SpaceUsage::from_bytes(kilobytes * 1_000)
    }

    pub fn from_megabytes(megabytes: u64) -> (s: SpaceUsage)
        requires
            megabytes * 1_000_000 <= u64::MAX,
        ensures
            s@ == megabytes * 1_000_000,
    {
        SpaceUsage::from_kilobytes(megabytes * 1_000)
    }

    pub fn from_gigabytes(gigabytes: u64) -> (s: SpaceUsage)
        requires
            gigabytes * 1_000_000_000 <= u64::MAX,
        ensures
            s@ == gigabytes * 1_000_000_000,
    {
        SpaceUsage::from_megabytes(gigabytes * 1_000)
    }

    pub fn from_kibibytes(kibibytes: u64) -> (s: SpaceUsage)
        requires
            kibibytes * 1_024 <= u64::MAX,
        ensures
            s@ == kibibytes * 1_024,
    {
        SpaceUsage::from_bytes(kibibytes * 1_024)
    }

    pub fn from_mebibytes(mebibytes: u64) -> (s: SpaceUsage)
        requires
            mebibytes * 1_048_576 <= u64::MAX,
        ensures
            s@ == mebibytes * 1_048_576,
    {
        SpaceUsage::from_kibibytes(mebibytes * 1_024)
    }

    pub fn from_gibibytes(gibibytes: u64) -> (s: SpaceUsage)
        requires
            gibibytes * 1_073_741_824 <= u64::MAX,
        ensures
            s@ == gibibytes * 1_073_741_824,
    {
        SpaceUsage::from_mebibytes(gibibytes * 1_024)
    }

    pub fn as_bytes(&self) -> (bytes: u64)
        ensures
            bytes == self@,
    {
        self.0
    }

    /// The amount in whole kilobytes, rounded down.
    pub fn as_kilobytes(&self) -> (kilobytes: u64)
        ensures
            kilobytes == self@ / 1_000,
    {
        self.0 / 1_000
    }
}

/// What a payload may use. A limit that is `None` is not imposed.
#[derive(Debug, PartialEq, Eq, Copy, Clone)]
pub struct Limits {
    wall_time: Option<Duration>,
    user_time: Option<Duration>,
    memory: Option<SpaceUsage>,
    stack: Option<SpaceUsage>,
    pids: Option<usize>,
}

/// What a `Limits` holds.
pub struct LimitsView {
    pub wall_time: Option<Duration>,
    pub user_time: Option<Duration>,
    pub memory: Option<SpaceUsage>,
    pub stack: Option<SpaceUsage>,
    pub pids: Option<usize>,
}

impl View for Limits {
    type V = LimitsView;

    closed spec fn view(&self) -> LimitsView {
        LimitsView {
            wall_time: self.wall_time,
            user_time: self.user_time,
            memory: self.memory,
            stack: self.stack,
            pids: self.pids,
        }
    }
}

impl Limits {
    pub fn new(
        wall_time: Option<Duration>,
        user_time: Option<Duration>,
        memory: Option<SpaceUsage>,
        stack: Option<SpaceUsage>,
        pids: Option<usize>,
    ) -> (limits: Limits)
        ensures
            limits@ == (LimitsView { wall_time, user_time, memory, stack, pids }),
    {
        Limits { wall_time, user_time, memory, stack, pids }
    }

    pub fn wall_time(&self) -> (r: Option<Duration>)
        ensures
            r == self@.wall_time,
    {
        self.wall_time
    }

    pub fn user_time(&self) -> (r: Option<Duration>)
        ensures
            r == self@.user_time,
    {
        self.user_time
    }

    pub fn memory(&self) -> (r: Option<SpaceUsage>)
        ensures
            r == self@.memory,
    {
        self.memory
    }

    pub fn stack(&self) -> (r: Option<SpaceUsage>)
        ensures
            r == self@.stack,
    {
        self.stack
    }

    pub fn pids(&self) -> (r: Option<usize>)
        ensures
            r == self@.pids,
    {
        self.pids
    }

    /// Whether a limit is set that is written to a control group: user time,
    /// memory or the number of tasks. Such a limit cannot be honoured when the
    /// groups are entered without clearing them.
    pub fn restricts_group(&self) -> (r: bool)
        ensures
            r == (self@.user_time is Some || self@.memory is Some || self@.pids is Some),
    {
        self.user_time.is_some() || self.memory.is_some() || self.pids.is_some()
    }
}

impl Default for Limits {
    fn default() -> (limits: Limits)
        ensures
            limits@ == (LimitsView {
                wall_time: None,
                user_time: None,
                memory: None,
                stack: None,
                pids: None,
            }),
    {
        Limits::new(None, None, None, None, None)
    }
}

/// Where the controllers of the three control groups are mounted. A path
/// that is `None` stands for the controller's usual place.
#[derive(Debug, PartialEq, Eq, Clone)]
pub struct ControllerPath {
    cpuacct: Option<Vec<u8>>,
    memory: Option<Vec<u8>>,
    pids: Option<Vec<u8>>,
}

/// What a `ControllerPath` holds.
pub struct ControllerPathView {
    pub cpuacct: Option<Seq<u8>>,
    pub memory: Option<Seq<u8>>,
    pub pids: Option<Seq<u8>>,
}

impl View for ControllerPath {
    type V = ControllerPathView;

    closed spec fn view(&self) -> ControllerPathView {
        ControllerPathView {
            cpuacct: option_view(self.cpuacct),
            memory: option_view(self.memory),
            pids: option_view(self.pids),
        }
    }
}

impl ControllerPath {
    pub fn new(cpuacct: Option<Vec<u8>>, memory: Option<Vec<u8>>, pids: Option<Vec<u8>>) -> (paths:
        ControllerPath)
        ensures
            paths@ == (ControllerPathView {
                cpuacct: option_view(cpuacct),
                memory: option_view(memory),
                pids: option_view(pids),
            }),
    {
        ControllerPath { cpuacct, memory, pids }
    }

    pub fn cpuacct(&self) -> (r: Option<&Vec<u8>>)
        ensures
            r is Some == self@.cpuacct is Some,
            r matches Some(path) ==> self@.cpuacct == Some(path@),
    {
        self.cpuacct.as_ref()
    }

    pub fn memory(&self) -> (r: Option<&Vec<u8>>)
        ensures
            r is Some == self@.memory is Some,
            r matches Some(path) ==> self@.memory == Some(path@),
    {
        self.memory.as_ref()
    }

    pub fn pids(&self) -> (r: Option<&Vec<u8>>)
        ensures
            r is Some == self@.pids is Some,
            r matches Some(path) ==> self@.pids == Some(path@),
    {
        self.pids.as_ref()
    }
}

impl Default for ControllerPath {
    fn default() -> (paths: ControllerPath)
        ensures
            paths@ == (ControllerPathView { cpuacct: None, memory: None, pids: None }),
    {
        ControllerPath::new(None, None, None)
    }
}

/// How a directory is mounted inside the new root.
#[derive(Debug, PartialEq, Eq, Structural, Copy, Clone)]
pub struct MountOptions {
    read_only: bool,
    executable: bool,
    dev: bool,
}

/// What a `MountOptions` holds.
pub struct MountOptionsView {
    pub read_only: bool,
    pub executable: bool,
    pub dev: bool,
}

impl View for MountOptions {
    type V = MountOptionsView;

    closed spec fn view(&self) -> MountOptionsView {
        MountOptionsView { read_only: self.read_only, executable: self.executable, dev: self.dev }
    }
}

impl MountOptions {
    pub fn read_only(&self) -> (r: bool)
        ensures
            r == self@.read_only,
    {
        self.read_only
    }

    /// Whether programs may be run from the mounted directory.
    pub fn executable(&self) -> (r: bool)
        ensures
            r == self@.executable,
    {
        self.executable
    }

    pub fn dev(&self) -> (r: bool)
        ensures
            r == self@.dev,
    {
        self.dev
    }

    pub fn set_read_only(&mut self, read_only: bool)
        ensures
            final(self)@ == (MountOptionsView { read_only, ..old(self)@ }),
    {
        self.read_only = read_only;
    }

    pub fn set_executable(&mut self, executable: bool)
        ensures
            final(self)@ == (MountOptionsView { executable, ..old(self)@ }),
    {
        self.executable = executable;
    }

    pub fn set_dev(&mut self, dev: bool)
        ensures
            final(self)@ == (MountOptionsView { dev, ..old(self)@ }),
    {
        self.dev = dev;
    }
}

impl Default for MountOptions {
    /// Read-only, with no programs run from it and no device files honoured.
    fn default() -> (options: MountOptions)
        ensures
            options@ == (MountOptionsView { read_only: true, executable: false, dev: false }),
    {
        MountOptions { read_only: true, executable: false, dev: false }
    }
}

/// A directory outside the jail that is to appear inside it.
#[derive(Debug, PartialEq, Eq, Clone)]
pub struct Mount {
    source: Vec<u8>,
    destination: Vec<u8>,
    mount_options: MountOptions,
}

/// What a `Mount` holds.
pub struct MountView {
    pub source: Seq<u8>,
    pub destination: Seq<u8>,
    pub options: MountOptionsView,
}

impl View for Mount {
    type V = MountView;

    closed spec fn view(&self) -> MountView {
        MountView {
            source: self.source@,
            destination: self.destination@,
            options: self.mount_options@,
        }
    }
}

impl Mount {
    pub fn new(source: Vec<u8>, destination: Vec<u8>, mount_options: MountOptions) -> (mount: Mount)
        ensures
            mount@ == (MountView {
                source: source@,
                destination: destination@,
                options: mount_options@,
            }),
    {
        Mount { source, destination, mount_options }
    }

    pub fn source(&self) -> (r: &Vec<u8>)
        ensures
            r@ == self@.source,
    {
        &self.source
    }

    pub fn destination(&self) -> (r: &Vec<u8>)
        ensures
            r@ == self@.destination,
    {
        &self.destination
    }

    pub fn mount_options(&self) -> (r: MountOptions)
        ensures
            r@ == self@.options,
    {
        self.mount_options
    }
}

/// The views of a sequence of mounts.
pub open spec fn mount_views(mounts: Seq<Mount>) -> Seq<MountView> {
    mounts.map_values(|mount: Mount| mount@)
}

/// The environment that the payload starts with.
#[derive(Debug, PartialEq, Eq, Clone)]
pub enum Environment {
    /// The environment of the caller.
    Forward,
    /// These variables, each a name and a value, and no others.
    EnvList(Vec<(Vec<u8>, Vec<u8>)>),
}

/// What an `Environment` holds.
pub enum EnvironmentView {
    Forward,
    EnvList(Seq<(Seq<u8>, Seq<u8>)>),
}

/// The views of a sequence of variables.
pub open spec fn variable_views(variables: Seq<(Vec<u8>, Vec<u8>)>) -> Seq<(Seq<u8>, Seq<u8>)> {
    variables.map_values(|variable: (Vec<u8>, Vec<u8>)| (variable.0@, variable.1@))
}

impl View for Environment {
    type V = EnvironmentView;

    open spec fn view(&self) -> EnvironmentView {
        match self {
            Environment::Forward => EnvironmentView::Forward,
            Environment::EnvList(variables) => EnvironmentView::EnvList(variable_views(variables@)),
        }
    }
}

/// One sandboxed run: what to execute, in which surroundings, under which
/// limits.
#[derive(Debug, PartialEq, Eq)]
pub struct Config {
    command: Vec<u8>,
    args: Vec<Vec<u8>>,
    new_root: Option<Vec<u8>>,
    share_net: ShareNet,
    redirect_stdin: Option<Vec<u8>>,
    redirect_stdout: Option<Vec<u8>>,
    redirect_stderr: Option<Vec<u8>>,
    limits: Limits,
    instance_name: Option<Vec<u8>>,
    controller_path: ControllerPath,
    mounts: Vec<Mount>,
    swap_redirects: SwapRedirects,
    clear_usage: ClearUsage,
    interactive: Interactive,
    environment: Environment,
}

/// What a `Config` holds.
pub struct ConfigView {
    pub command: Seq<u8>,
    pub args: Seq<Seq<u8>>,
    pub new_root: Option<Seq<u8>>,
    pub share_net: ShareNet,
    pub redirect_stdin: Option<Seq<u8>>,
    pub redirect_stdout: Option<Seq<u8>>,
    pub redirect_stderr: Option<Seq<u8>>,
    pub limits: LimitsView,
    pub instance_name: Option<Seq<u8>>,
    pub controller_path: ControllerPathView,
    pub mounts: Seq<MountView>,
    pub swap_redirects: SwapRedirects,
    pub clear_usage: ClearUsage,
    pub interactive: Interactive,
    pub environment: EnvironmentView,
}

impl View for Config {
    type V = ConfigView;

    closed spec fn view(&self) -> ConfigView {
        ConfigView {
            command: self.command@,
            args: byte_views(self.args@),
            new_root: option_view(self.new_root),
            share_net: self.share_net,
            redirect_stdin: option_view(self.redirect_stdin),
            redirect_stdout: option_view(self.redirect_stdout),
            redirect_stderr: option_view(self.redirect_stderr),
            limits: self.limits@,
            instance_name: option_view(self.instance_name),
            controller_path: self.controller_path@,
            mounts: mount_views(self.mounts@),
            swap_redirects: self.swap_redirects,
            clear_usage: self.clear_usage,
            interactive: self.interactive,
            environment: self.environment@,
        }
    }
}

impl Config {
    pub fn new(
        command: Vec<u8>,
        args: Vec<Vec<u8>>,
        new_root: Option<Vec<u8>>,
        share_net: ShareNet,
        redirect_stdin: Option<Vec<u8>>,
        redirect_stdout: Option<Vec<u8>>,
        redirect_stderr: Option<Vec<u8>>,
        limits: Limits,
        instance_name: Option<Vec<u8>>,
        controller_path: ControllerPath,
        mounts: Vec<Mount>,
        swap_redirects: SwapRedirects,
        clear_usage: ClearUsage,
        interactive: Interactive,
        environment: Environment,
    ) -> (config: Config)
        ensures
            config@ == (ConfigView {
                command: command@,
                args: byte_views(args@),
                new_root: option_view(new_root),
                share_net,
                redirect_stdin: option_view(redirect_stdin),
                redirect_stdout: option_view(redirect_stdout),
                redirect_stderr: option_view(redirect_stderr),
                limits: limits@,
                instance_name: option_view(instance_name),
                controller_path: controller_path@,
                mounts: mount_views(mounts@),
                swap_redirects,
                clear_usage,
                interactive,
                environment: environment@,
            }),
    {
        Config {
            command,
            args,
            new_root,
            share_net,
            redirect_stdin,
            redirect_stdout,
            redirect_stderr,
            limits,
            instance_name,
            controller_path,
            mounts,
            swap_redirects,
            clear_usage,
            interactive,
            environment,
        }
    }

    pub fn command(&self) -> (r: &Vec<u8>)
        ensures
            r@ == self@.command,
    {
        &self.command
    }

    pub fn args(&self) -> (r: &Vec<Vec<u8>>)
        ensures
            byte_views(r@) == self@.args,
    {
        &self.args
    }

    pub fn new_root(&self) -> (r: Option<&Vec<u8>>)
        ensures
            r is Some == self@.new_root is Some,
            r matches Some(path) ==> self@.new_root == Some(path@),
    {
        self.new_root.as_ref()
    }

    pub fn share_net(&self) -> (r: ShareNet)
        ensures
            r == self@.share_net,
    {
        self.share_net
    }

    pub fn redirect_stdin(&self) -> (r: Option<&Vec<u8>>)
        ensures
            r is Some == self@.redirect_stdin is Some,
            r matches Some(path) ==> self@.redirect_stdin == Some(path@),
    {
        self.redirect_stdin.as_ref()
    }

    pub fn redirect_stdout(&self) -> (r: Option<&Vec<u8>>)
        ensures
            r is Some == self@.redirect_stdout is Some,
            r matches Some(path) ==> self@.redirect_stdout == Some(path@),
    {
        self.redirect_stdout.as_ref()
    }

    pub fn redirect_stderr(&self) -> (r: Option<&Vec<u8>>)
        ensures
            r is Some == self@.redirect_stderr is Some,
            r matches Some(path) ==> self@.redirect_stderr == Some(path@),
    {
        self.redirect_stderr.as_ref()
    }

    pub fn limits(&self) -> (r: Limits)
        ensures
            r@ == self@.limits,
    {
        self.limits
    }

    pub fn instance_name(&self) -> (r: Option<&Vec<u8>>)
        ensures
            r is Some == self@.instance_name is Some,
            r matches Some(name) ==> self@.instance_name == Some(name@),
    {
        self.instance_name.as_ref()
    }

    pub fn controller_path(&self) -> (r: &ControllerPath)
        ensures
            r@ == self@.controller_path,
    {
        &self.controller_path
    }

    pub fn mounts(&self) -> (r: &Vec<Mount>)
        ensures
            mount_views(r@) == self@.mounts,
    {
        &self.mounts
    }

    pub fn swap_redirects(&self) -> (r: SwapRedirects)
        ensures
            r == self@.swap_redirects,
    {
        self.swap_redirects
    }

    pub fn clear_usage(&self) -> (r: ClearUsage)
        ensures
            r == self@.clear_usage,
    {
        self.clear_usage
    }

    pub fn interactive(&self) -> (r: Interactive)
        ensures
            r == self@.interactive,
    {
        self.interactive
    }

    pub fn environment(&self) -> (r: &Environment)
        ensures
            r@ == self@.environment,
    {
        &self.environment
    }
}

} // verus!
