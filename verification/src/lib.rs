//! A process sandbox for online-judge workloads, as a verified planning core.
//!
//! The sandbox runs an untrusted program in fresh Linux namespaces under
//! cgroup accounting and reports how it ended. Three processes take part:
//! the driver, which is the caller; the supervisor, first in a process
//! namespace of its own, so that its death takes every descendant with it;
//! and the payload, which sets its own jail up and then becomes the program.
//!
//! Everything that decides anything lives here: the ordered steps that each
//! process performs, the text written to control files, the reading of wait
//! statuses and usage counters, the limit checks and the verdict. Whoever
//! uses the library performs the steps and feeds back what the system
//! answered.

use vstd::prelude::*;

pub mod args;
pub mod cgroups;
pub mod config;
pub mod errors;
pub mod laws;
pub mod outcome;
pub mod run_info;
pub mod setup;
pub mod steps;
pub mod text;
pub mod time;
pub mod utils;
pub mod wait;

pub use errors::{CGroupError, ChildError, Error, FFIError};
pub use time::Duration;

use crate::cgroups::{borrowed_view, enter_all_cgroups, enter_all_cgroups_spec};
use crate::config::{
    Config,
    ConfigView,
    Interactive,
    Limits,
    LimitsView,
    Mount,
    MountView,
    ShareNet,
    SwapRedirects,
    mount_views,
};
use crate::run_info::{RunInfo, RunInfoResult, RunUsage};
use crate::setup::{
    GroupId,
    UserId,
    clone_spec,
    exec_command,
    exec_command_spec,
    kill_on_parent_death,
    limit_bytes,
    mount_inside,
    mount_inside_spec,
    mount_proc,
    mount_proc_spec,
    move_to_different_process_group,
    pivot_root,
    pivot_root_spec,
    redirect_fd,
    redirect_fd_spec,
    remount_private,
    remount_private_spec,
    set_sig_alarm_handler,
    set_stack_limit,
    set_uid_gid_maps,
    set_uid_gid_maps_spec,
    unshare_cgroup,
};
use crate::steps::{Plan, StepView, Stream};
use crate::wait::{CloneHandle, WaitEvent, Waited, WaitedView, promote, promoted, wait_spec};

verus! {

/// The steps that point `stream` at `path`, if there is one.
pub open spec fn redirect_spec(stream: Stream, path: Option<Seq<u8>>) -> Seq<StepView> {
    match path {
        Some(target) => redirect_fd_spec(stream, target),
        None => Seq::<StepView>::empty(),
    }
}

/// The steps that point the standard streams of the payload where the
/// configuration says: input before output, or output before input where
/// the two are swapped, and errors last.
pub open spec fn redirects_spec(config: ConfigView) -> Seq<StepView> {
    let input = redirect_spec(Stream::Stdin, config.redirect_stdin);
    let output = redirect_spec(Stream::Stdout, config.redirect_stdout);
    let errors = redirect_spec(Stream::Stderr, config.redirect_stderr);
    if config.swap_redirects == SwapRedirects::Yes {
        output + input + errors
    } else {
        input + output + errors
    }
}

/// The steps that make each of `mounts` appear below `new_root`, in their
/// order.
pub open spec fn mounts_spec(new_root: Seq<u8>, mounts: Seq<MountView>) -> Seq<StepView>
    decreases mounts.len(),
{
    if mounts.len() == 0 {
        Seq::<StepView>::empty()
    } else {
        mounts_spec(new_root, mounts.drop_last()) + mount_inside_spec(new_root, mounts.last())
    }
}

/// The steps that give the payload its view of the files. With a new root,
/// the mounts are made below it, the root is changed to it, and the process
/// file system is mounted in the new root before the old one is detached.
/// Without, only the process file system is mounted afresh.
pub open spec fn root_spec(config: ConfigView) -> Seq<StepView> {
    match config.new_root {
        Some(new_root) => mounts_spec(new_root, config.mounts) + pivot_root_spec(
            new_root,
            mount_proc_spec(),
        ),
        None => mount_proc_spec(),
    }
}

/// The step that takes the payload out of the process group of its parent,
/// unless it is to stay there.
pub open spec fn process_group_spec(interactive: Interactive) -> Seq<StepView> {
    if interactive == Interactive::No {
        seq![StepView::DetachProcessGroup]
    } else {
        Seq::<StepView>::empty()
    }
}

/// What the payload, the process `pid`, does from its first moment until it
/// becomes the program. The order matters throughout. The streams are
/// pointed to their files and the control groups entered while the files of
/// the outside can still be reached. The control group namespace is left
/// once the payload is in its groups. The mounts are cut off from the
/// outside before anything is mounted. The process file system is mounted
/// after the root is changed, and the users are mapped after that, through
/// it. The start of the program is the last step.
pub open spec fn payload_spec(config: ConfigView, pid: u32) -> Seq<StepView> {
    redirects_spec(config) + seq![StepView::SetStackLimit { bytes: limit_bytes(config.limits.stack) }]
        + enter_all_cgroups_spec(
        config.controller_path,
        config.instance_name,
        config.limits,
        config.clear_usage,
        pid,
    ) + seq![StepView::UnshareCgroup] + remount_private_spec() + root_spec(config)
        + set_uid_gid_maps_spec(UserId(0), GroupId(0)) + process_group_spec(config.interactive)
        + exec_command_spec(config.command, config.args, config.environment)
}

/// What the supervisor does before it starts the payload: it asks to die
/// with its parent, mounts the process file system of its own process
/// namespace, maps the caller to the first user inside, and starts the
/// payload.
pub open spec fn supervisor_spec(config: ConfigView, user: UserId, group: GroupId) -> Seq<StepView> {
    seq![StepView::KillOnParentDeath] + mount_proc_spec() + set_uid_gid_maps_spec(user, group)
        + clone_spec(config.share_net)
}

/// What the driver does: it sees to it that its waits can be interrupted,
/// and starts the supervisor, which shares its network.
pub open spec fn driver_spec() -> Seq<StepView> {
    seq![StepView::InstallAlarmHandler] + clone_spec(ShareNet::Share)
}

fn redirect(stream: Stream, path: Option<&Vec<u8>>) -> (plan: Plan)
    ensures
        plan@ == redirect_spec(stream, borrowed_view(path)),
{
    match path {
        Some(target) => redirect_fd(stream, target.as_slice()),
        None => Plan::new(),
    }
}

fn mounts_plan(new_root: &[u8], mounts: &Vec<Mount>) -> (plan: Plan)
    ensures
        plan@ == mounts_spec(new_root@, mount_views(mounts@)),
{
    let mut plan = Plan::new();
    let mut i: usize = 0;
    while i < mounts.len()
        invariant
            i <= mounts.len(),
            plan@ == mounts_spec(new_root@, mount_views(mounts@).take(i as int)),
        decreases mounts.len() - i,
    {
        plan.extend(mount_inside(new_root, &mounts[i]));
        proof {
            let longer = mount_views(mounts@).take(i as int + 1);
            assert(longer.drop_last() =~= mount_views(mounts@).take(i as int));
            assert(longer.last() == mounts@[i as int]@);
        }
        i += 1;
    }
    assert(mount_views(mounts@).take(mounts.len() as int) =~= mount_views(mounts@));
    plan
}

/// What the payload, the process `pid`, does from its first moment until it
/// becomes the program.
pub fn payload_plan(config: &Config, pid: u32) -> (plan: Plan)
    ensures
        plan@ == payload_spec(config@, pid),
{
    let mut plan = Plan::new();
    if config.swap_redirects() == SwapRedirects::Yes {
        plan.extend(redirect(Stream::Stdout, config.redirect_stdout()));
    }
    plan.extend(redirect(Stream::Stdin, config.redirect_stdin()));
    if config.swap_redirects() == SwapRedirects::No {
        plan.extend(redirect(Stream::Stdout, config.redirect_stdout()));
    }
    plan.extend(redirect(Stream::Stderr, config.redirect_stderr()));
    assert(plan@ =~= redirects_spec(config@));
    plan.extend(set_stack_limit(config.limits().stack()));
    plan.extend(
        enter_all_cgroups(
            config.controller_path(),
            config.instance_name(),
            config.limits(),
            config.clear_usage(),
            pid,
        ),
    );
    plan.extend(unshare_cgroup());
    plan.extend(remount_private());
    match config.new_root() {
        Some(new_root) => {
            plan.extend(mounts_plan(new_root.as_slice(), config.mounts()));
            plan.extend(pivot_root(new_root.as_slice(), mount_proc()));
        },
        None => {
            plan.extend(mount_proc());
        },
    }
    plan.extend(set_uid_gid_maps(UserId::root(), GroupId::root()));
    if config.interactive() == Interactive::No {
        plan.extend(move_to_different_process_group());
    }
    plan.extend(
        exec_command(config.command().as_slice(), config.args(), config.environment()),
    );
    assert(plan@ =~= payload_spec(config@, pid));
    plan
}

/// What the supervisor does before it watches the payload.
pub fn supervisor_plan(config: &Config, user: UserId, group: GroupId) -> (plan: Plan)
    ensures
        plan@ == supervisor_spec(config@, user, group),
{
    let mut plan = kill_on_parent_death();
    plan.extend(mount_proc());
    plan.extend(set_uid_gid_maps(user, group));
    plan.extend(crate::setup::clone(config.share_net()));
    plan
}

/// The plans of a jail: what the driver does, and what the supervisor does
/// once the driver has started it. What the payload does is planned by the
/// payload itself, which alone knows its process number.
#[derive(Debug)]
pub struct Jail {
    pub driver: Plan,
    pub supervisor: Plan,
}

/// Plans the jail for `config`, called by the user `user` of the group
/// `group`.
pub fn spawn_jail(config: &Config, user: UserId, group: GroupId) -> (jail: Jail)
    ensures
        jail.driver@ == driver_spec(),
        jail.supervisor@ == supervisor_spec(config@, user, group),
{
    let mut driver = set_sig_alarm_handler();
    driver.extend(crate::setup::clone(ShareNet::Share));
    Jail { driver, supervisor: supervisor_plan(config, user, group) }
}

/// What the supervisor tells the driver of a payload that ended as `info`
/// says, under `limits`.
///
/// A payload that reported an error before it started its program has
/// failed with that error, whatever its exit code of zero says. Any other
/// ending is the verdict; a payload that was killed outright when its
/// memory had reached its limit exceeded that limit.
pub open spec fn conclude_spec(
    info: RunInfo<Option<Result<(), ChildError>>>,
    limits: LimitsView,
) -> Result<RunInfo<()>, Error> {
    match info.spec_result() {
        RunInfoResult::Success(Some(Err(error))) => Err(Error::ChildError(error)),
        other => Ok(
            RunInfo::spec_new(
                promoted(other.with(()), info.spec_usage()@.memory, limits),
                info.spec_usage(),
            ),
        ),
    }
}

pub fn conclude(info: RunInfo<Option<Result<(), ChildError>>>, limits: Limits) -> (r: Result<
    RunInfo<()>,
    Error,
>)
    ensures
        r == conclude_spec(info, limits@),
{
    let usage = *info.usage();
    let result: RunInfoResult<()> = match info.success_or_result() {
        Ok(Some(Err(error))) => {
            return Err(Error::ChildError(error));
        },
        Ok(_) => RunInfoResult::Success(()),
        Err(other) => other,
    };
    let verdict = promote(RunInfo::new(result, usage), limits);
    proof {
        if !(info.spec_result() is Success) {
            info.spec_result().lemma_with_any((), arbitrary::<()>());
        }
        let wanted = promoted(info.spec_result().with(()), info.spec_usage()@.memory, limits@);
        RunInfo::<()>::lemma_parts(wanted, info.spec_usage());
        verdict.lemma_same(RunInfo::spec_new(wanted, info.spec_usage()));
    }
    Ok(verdict)
}

/// What the driver tells its caller of a supervisor that ended as `info`
/// says: the verdict or the error that the supervisor reported. A
/// supervisor that did not end well, or reported nothing, has died.
pub open spec fn resolve_spec(info: RunInfo<Option<Result<RunInfo<()>, Error>>>) -> Result<
    RunInfo<()>,
    Error,
> {
    match info.spec_result() {
        RunInfoResult::Success(Some(answer)) => answer,
        _ => Err(Error::SupervisorProcessDiedError),
    }
}

pub fn resolve(info: RunInfo<Option<Result<RunInfo<()>, Error>>>) -> (r: Result<RunInfo<()>, Error>)
    ensures
        r == resolve_spec(info),
{
    match info.success() {
        Some(Some(answer)) => answer,
        _ => Err(Error::SupervisorProcessDiedError),
    }
}

/// The driver as it waits for the supervisor.
#[derive(Debug)]
pub struct JailHandle {
    handle: CloneHandle<Result<RunInfo<()>, Error>>,
}

/// What became of a wait of the driver.
#[derive(Debug)]
pub enum JailWaited {
    /// Nothing yet: wait again.
    Again(JailHandle),
    /// The supervisor is gone; this is the verdict, or why there is none.
    Finished(Result<RunInfo<()>, Error>),
}

impl JailHandle {
    /// What the supervisor reported, if it has.
    pub closed spec fn spec_report(&self) -> Option<Result<RunInfo<()>, Error>> {
        self.handle.spec_report()
    }

    /// The supervisor that is waited for.
    pub closed spec fn spec_pid(&self) -> i32 {
        self.handle.spec_pid()
    }

    /// The driver as it waits for the supervisor `pid`, which has closed its
    /// pipe after it wrote `report` to it, or nothing.
    pub fn new(pid: i32, report: Option<Result<RunInfo<()>, Error>>) -> (handle: JailHandle)
        requires
            pid > 0,
        ensures
            handle.spec_report() == report,
            handle.spec_pid() == pid,
    {
        JailHandle { handle: CloneHandle::new(pid, report) }
    }

    /// Whom to kill, and by which signal, when the wait is given up: the
    /// supervisor, and the process group that it leads.
    pub fn kill_targets(&self) -> (r: (i32, i32, i32))
        ensures
            r.0 == self.spec_pid(),
            r.1 == -self.spec_pid(),
            r.2 == 9,
    {
        self.handle.kill_targets()
    }

    /// What a wait for the supervisor that gave `event` comes to. The
    /// supervisor is held to no limit and its own usage is of no interest.
    pub fn wait(self, event: WaitEvent) -> (r: JailWaited)
        ensures
            match wait_spec(self.spec_report(), RunUsage::zero(), event@) {
                WaitedView::Again => r matches JailWaited::Again(handle) && handle == self,
                WaitedView::Finished(info) => r matches JailWaited::Finished(answer) && answer
                    == resolve_spec(info),
                WaitedView::Failed(error) => r matches JailWaited::Finished(Err(found)) && found@
                    == error,
            },
    {
        match self.handle.wait(RunUsage::default(), event) {
            Waited::Again(handle) => JailWaited::Again(JailHandle { handle }),
            Waited::Finished(info) => JailWaited::Finished(resolve(info)),
            Waited::Failed(error) => JailWaited::Finished(Err(error)),
        }
    }
}

} // verus!
