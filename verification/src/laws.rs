//! What holds of the sandbox as a whole.

use vstd::prelude::*;
use vstd::string::StringSliceAdditionalSpecFns;
use crate::cgroups::{
    cpuacct_default_path,
    enter_all_cgroups_spec,
    enter_cgroup_spec,
    enter_cpuacct_cgroup_spec,
    enter_memory_cgroup_spec,
    enter_pids_cgroup_spec,
    get_instance_path_spec,
    instance_path_spec,
    memory_default_path,
    memory_limit_writes,
    memory_reset_writes,
    path_or,
    pids_default_path,
    pids_line,
};
use crate::config::{ClearUsage, ConfigView, Interactive, LimitsView, MountView, SwapRedirects};
use crate::outcome::{EventView, RunnerView};
use crate::errors::{ChildError, Error};
use crate::run_info::{exceeded, RunInfo, RunInfoResult, RunUsage, RunUsageView};
use crate::wait::{WaitEventView, WaitedView, low_bits, second_byte, wait_spec};
use crate::setup::{
    GroupId,
    UserId,
    exec_command_spec,
    environment_lines,
    limit_bytes,
    mount_inside_spec,
    mount_proc_spec,
    old_root_name,
    pivot_root_spec,
    remount_private_spec,
    root_dir,
    set_uid_gid_maps_spec,
};
use crate::steps::{IdMap, StepView, Stream};
use crate::text::{SEPARATOR, is_absolute, join_spec};
use crate::{
    conclude_spec,
    mounts_spec,
    payload_spec,
    process_group_spec,
    redirect_spec,
    redirects_spec,
    root_spec,
};

verus! {

/// Usage beyond a limit earns the verdict of that limit, unless a limit that
/// is looked at earlier is exceeded as well: user time comes before wall
/// time, and wall time before memory. Usage within all three limits earns
/// none.
pub proof fn lemma_limits_decide<T>(usage: RunUsageView, limits: LimitsView)
    ensures
        (limits.user_time matches Some(limit) && limit@ < usage.user_time) ==> exceeded::<T>(
            usage,
            limits,
        ) == Some(RunInfoResult::<T>::TimeLimitExceeded),
        (limits.wall_time matches Some(limit) && limit@ < usage.wall_time) && !(
        limits.user_time matches Some(limit) && limit@ < usage.user_time) ==> exceeded::<T>(
            usage,
            limits,
        ) == Some(RunInfoResult::<T>::WallTimeLimitExceeded),
        (limits.memory matches Some(limit) && limit@ < usage.memory) && !(
        limits.user_time matches Some(limit) && limit@ < usage.user_time) && !(
        limits.wall_time matches Some(limit) && limit@ < usage.wall_time) ==> exceeded::<T>(
            usage,
            limits,
        ) == Some(RunInfoResult::<T>::MemoryLimitExceeded),
        exceeded::<T>(usage, limits) is Some <==> ((limits.user_time matches Some(limit) && limit@
            < usage.user_time) || (limits.wall_time matches Some(limit) && limit@
            < usage.wall_time) || (limits.memory matches Some(limit) && limit@ < usage.memory)),
{
}

/// Usage that equals its limits is within them.
pub proof fn lemma_limit_is_allowed<T>(usage: RunUsageView, limits: LimitsView)
    requires
        limits.user_time matches Some(limit) ==> usage.user_time <= limit@,
        limits.wall_time matches Some(limit) ==> usage.wall_time <= limit@,
        limits.memory matches Some(limit) ==> usage.memory <= limit@,
    ensures
        exceeded::<T>(usage, limits) is None,
{
}

/// Whether `name` is one name and not a path: it is not empty and holds no
/// separator.
pub open spec fn plain_name(name: Seq<u8>) -> bool {
    name.len() > 0 && forall|i: int| 0 <= i < name.len() ==> name[i] != SEPARATOR
}

/// `base` as it stands before a name that is adjoined to it: with a
/// separator at its end, unless it is empty.
pub open spec fn opened(base: Seq<u8>) -> Seq<u8> {
    if base.len() == 0 || base.last() == SEPARATOR {
        base
    } else {
        base.push(SEPARATOR)
    }
}

proof fn lemma_join_relative(base: Seq<u8>, name: Seq<u8>)
    requires
        !is_absolute(name),
    ensures
        join_spec(base, name) == opened(base) + name,
{
    assert(join_spec(base, name) =~= opened(base) + name);
}

proof fn lemma_same_start(start: Seq<u8>, one: Seq<u8>, other: Seq<u8>)
    requires
        start + one == start + other,
    ensures
        one == other,
{
    assert((start + one).len() == start.len() + one.len());
    assert((start + other).len() == start.len() + other.len());
    assert forall|i: int| 0 <= i < one.len() implies one[i] == other[i] by {
        assert((start + one)[start.len() + i] == one[i]);
        assert((start + other)[start.len() + i] == other[i]);
    }
    assert(one =~= other);
}

proof fn lemma_plain_names_end(one: Seq<u8>, other: Seq<u8>, after: Seq<u8>, beyond: Seq<u8>)
    requires
        plain_name(one),
        plain_name(other),
        one.push(SEPARATOR) + after == other.push(SEPARATOR) + beyond,
    ensures
        one == other,
{
    let left = one.push(SEPARATOR) + after;
    let right = other.push(SEPARATOR) + beyond;
    if one.len() < other.len() {
        assert(left[one.len() as int] == SEPARATOR);
        assert(right[one.len() as int] == other[one.len() as int]);
    } else if other.len() < one.len() {
        assert(right[other.len() as int] == SEPARATOR);
        assert(left[other.len() as int] == one[other.len() as int]);
    } else {
        assert forall|i: int| 0 <= i < one.len() implies one[i] == other[i] by {
            assert(left[i] == one[i]);
            assert(right[i] == other[i]);
        }
        assert(one =~= other);
    }
}

/// Two sandboxes whose instances have different plain names share no file
/// of a controller: whatever lies under the directory of the one does not
/// lie under that of the other.
pub proof fn lemma_instances_apart(
    controller_path: Seq<u8>,
    one: Seq<u8>,
    other: Seq<u8>,
    file: Seq<u8>,
    another: Seq<u8>,
)
    requires
        plain_name(one),
        plain_name(other),
        one != other,
        !is_absolute(file),
        !is_absolute(another),
    ensures
        instance_path_spec(controller_path, Some(one)) != instance_path_spec(
            controller_path,
            Some(other),
        ),
        join_spec(instance_path_spec(controller_path, Some(one)), file) != join_spec(
            instance_path_spec(controller_path, Some(other)),
            another,
        ),
{
    let start = opened(controller_path);
    let left = instance_path_spec(controller_path, Some(one));
    let right = instance_path_spec(controller_path, Some(other));
    assert(one[0] != SEPARATOR);
    assert(other[0] != SEPARATOR);
    lemma_join_relative(controller_path, one);
    lemma_join_relative(controller_path, other);
    assert(left == start + one);
    assert(right == start + other);
    if left == right {
        lemma_same_start(start, one, other);
    }
    lemma_join_relative(left, file);
    lemma_join_relative(right, another);
    assert(left.last() == one.last());
    assert(right.last() == other.last());
    assert(opened(left) == left.push(SEPARATOR));
    assert(opened(right) == right.push(SEPARATOR));
    let deep_left = join_spec(left, file);
    let deep_right = join_spec(right, another);
    if deep_left == deep_right {
        assert(deep_left =~= start + (one.push(SEPARATOR) + file));
        assert(deep_right =~= start + (other.push(SEPARATOR) + another));
        lemma_same_start(start, one.push(SEPARATOR) + file, other.push(SEPARATOR) + another);
        lemma_plain_names_end(one, other, file, another);
    }
}

/// Where a directory of the outside appears in the jail lies below the new
/// root, wherever it was asked to appear.
pub proof fn lemma_mounts_stay_inside(new_root: Seq<u8>, destination: Seq<u8>)
    ensures
        crate::setup::inner_path(new_root, destination).len() >= new_root.len(),
        crate::setup::inner_path(new_root, destination).take(new_root.len() as int) == new_root,
{
    crate::text::lemma_leading_separators_bound(destination);
    let inner = crate::setup::inner_path(new_root, destination);
    assert(inner.take(new_root.len() as int) =~= new_root);
}

/// The payload starts its program last, and only then. Before that, and
/// directly so, it leaves the process group of its parent, unless it is to
/// stay there.
pub proof fn lemma_program_starts_last(config: ConfigView, pid: u32)
    ensures
        payload_spec(config, pid).len() >= 2,
        payload_spec(config, pid).last() == (StepView::Exec {
            command: config.command,
            arguments: config.args,
            environment: environment_lines(config.environment),
        }),
        (config.interactive == Interactive::No) == (payload_spec(config, pid)[payload_spec(
            config,
            pid,
        ).len() - 2] == StepView::DetachProcessGroup),
{
    let plan = payload_spec(config, pid);
    let maps = set_uid_gid_maps_spec(UserId(0), GroupId(0));
    let group = process_group_spec(config.interactive);
    let start = exec_command_spec(config.command, config.args, config.environment);
    assert(maps.len() == 3);
    assert(start.len() == 1);
    let head = plan.take(plan.len() - start.len() - group.len() - maps.len());
    assert(plan =~= head + maps + group + start);
    if config.interactive == Interactive::No {
        assert(group.len() == 1);
        assert(plan[plan.len() - 2] == group[0]);
    } else {
        assert(group.len() == 0);
        assert(plan[plan.len() - 2] == maps[2]);
    }
}

/// With a new root, the payload changes its root to it, and detaches the old
/// root afterwards and before it starts its program. Between the two it
/// mounts the process file system, which is thus mounted inside the new
/// root.
pub proof fn lemma_new_root_is_entered(config: ConfigView, pid: u32)
    requires
        config.new_root is Some,
    ensures
        exists|i: int|
            0 <= i && i + 5 < payload_spec(config, pid).len() && #[trigger] payload_spec(
                config,
                pid,
            )[i] == (StepView::PivotRoot {
                new_root: config.new_root->0,
                old_root: join_spec(config.new_root->0, old_root_name()),
            }) && payload_spec(config, pid).subrange(i + 2, i + 4) == mount_proc_spec()
                && payload_spec(config, pid)[i + 4] == (StepView::Unmount {
                path: join_spec(root_dir(), old_root_name()),
            }),
{
    let plan = payload_spec(config, pid);
    let new_root = config.new_root->0;
    let root = root_spec(config);
    let mounts = mounts_spec(new_root, config.mounts);
    let pivot = pivot_root_spec(new_root, mount_proc_spec());
    assert(root == mounts + pivot);
    assert(mount_proc_spec().len() == 2);
    assert(pivot.len() == 8);
    let maps = set_uid_gid_maps_spec(UserId(0), GroupId(0));
    let group = process_group_spec(config.interactive);
    let start = exec_command_spec(config.command, config.args, config.environment);
    let tail = maps + group + start;
    let head = plan.take(plan.len() - tail.len() - root.len());
    assert(plan =~= head + mounts + pivot + tail);
    let i: int = (head.len() + mounts.len() + 3) as int;
    assert(plan[i] == pivot[3]);
    assert(plan[i + 4] == pivot[7]);
    assert(plan.subrange(i + 2, i + 4) =~= mount_proc_spec()) by {
        assert(plan[i + 2] == pivot[5]);
        assert(plan[i + 3] == pivot[6]);
    }
    assert(tail.len() >= 4);
}

/// Group lists are denied before the group map is written, and the user map
/// is written between the two.
pub proof fn lemma_groups_denied_first(uid: UserId, gid: GroupId)
    ensures
        set_uid_gid_maps_spec(uid, gid).len() == 3,
        set_uid_gid_maps_spec(uid, gid)[0] matches StepView::WriteIdMap { map: IdMap::SetGroups, .. },
        set_uid_gid_maps_spec(uid, gid)[1] matches StepView::WriteIdMap { map: IdMap::Uid, .. },
        set_uid_gid_maps_spec(uid, gid)[2] matches StepView::WriteIdMap { map: IdMap::Gid, .. },
{
}

/// A plan ends with an error exactly when one of the answers that were fed
/// was fatal at its time. So a process that performs its plan has an error
/// to report if and only if a step failed for good; a payload that reports
/// nothing has come to start its program.
pub proof fn lemma_abort_iff_fatal(start: RunnerView, events: Seq<EventView>)
    requires
        !start.aborted,
    ensures
        start.fed_all(events).steps == start.steps,
        start.fed_all(events).aborted <==> exists|i: int|
            0 <= i < events.len() && #[trigger] start.fed_all(events.take(i)).fatal(events[i]),
    decreases events.len(),
{
    if events.len() > 0 {
        let init = events.drop_last();
        let last = events.last();
        lemma_abort_iff_fatal(start, init);
        let before = start.fed_all(init);
        let after = start.fed_all(events);
        assert(after == before.fed(last));
        assert(events.take(init.len() as int) =~= init);
        assert forall|i: int| 0 <= i < init.len() implies events.take(i) == init.take(i)
            && events[i] == init[i] by {
            assert(events.take(i) =~= init.take(i));
        }
        if after.aborted {
            if before.aborted {
                let i = choose|i: int|
                    0 <= i < init.len() && #[trigger] start.fed_all(init.take(i)).fatal(init[i]);
                assert(start.fed_all(events.take(i)).fatal(events[i]));
            } else {
                assert(before.fatal(last));
                assert(start.fed_all(events.take(init.len() as int)).fatal(
                    events[init.len() as int],
                ));
            }
        }
        if exists|i: int|
            0 <= i < events.len() && #[trigger] start.fed_all(events.take(i)).fatal(events[i]) {
            let i = choose|i: int|
                0 <= i < events.len() && #[trigger] start.fed_all(events.take(i)).fatal(events[i]);
            if i < init.len() {
                assert(start.fed_all(init.take(i)).fatal(init[i]));
                assert(before.aborted);
            } else {
                assert(before.fatal(last));
            }
        }
    }
}

/// A plan whose every answer is that the call came back, with the wanted
/// descriptor where one is wanted, is performed to its end.
pub proof fn lemma_plan_runs_through(start: RunnerView, events: Seq<EventView>)
    requires
        start == RunnerView::start(start.steps),
        events.len() == start.steps.len(),
        forall|i: int|
            0 <= i < events.len() ==> start.with_position(i as nat).directive(#[trigger] events[i])
                is Proceed,
    ensures
        start.fed_all(events) == start.with_position(events.len()),
{
    lemma_runs_through_prefix(start, events, events.len() as int);
    assert(events.take(events.len() as int) =~= events);
}

proof fn lemma_runs_through_prefix(start: RunnerView, events: Seq<EventView>, count: int)
    requires
        start == RunnerView::start(start.steps),
        events.len() == start.steps.len(),
        0 <= count <= events.len(),
        forall|i: int|
            0 <= i < events.len() ==> start.with_position(i as nat).directive(#[trigger] events[i])
                is Proceed,
    ensures
        start.fed_all(events.take(count)) == start.with_position(count as nat),
    decreases count,
{
    if count > 0 {
        lemma_runs_through_prefix(start, events, count - 1);
        assert(events.take(count).drop_last() =~= events.take(count - 1));
        assert(events.take(count).last() == events[count - 1]);
        let before = start.with_position((count - 1) as nat);
        assert(before.running());
        assert(before.directive(events[count - 1]) is Proceed);
    }
}

/// A payload that reported nothing, stayed within its limits and ended with
/// exit code zero has succeeded, with the usage that was taken last; and the
/// driver hands on what the supervisor has found.
pub proof fn lemma_clean_exit_succeeds(status: i32, usage: RunUsage, limits: LimitsView)
    requires
        low_bits(status) == 0,
        second_byte(status) == 0,
    ensures
        wait_spec::<Result<(), ChildError>>(None, usage, WaitEventView::Status(status))
            == WaitedView::Finished(
            RunInfo::<Option<Result<(), ChildError>>>::spec_new(RunInfoResult::Success(None), usage),
        ),
        conclude_spec(
            RunInfo::<Option<Result<(), ChildError>>>::spec_new(RunInfoResult::Success(None), usage),
            limits,
        ) == Ok::<RunInfo<()>, Error>(RunInfo::spec_new(RunInfoResult::Success(()), usage)),
        crate::resolve_spec(
            RunInfo::spec_new(
                RunInfoResult::Success(Some(Ok(RunInfo::spec_new(RunInfoResult::Success(()), usage)))),
                RunUsage::zero(),
            ),
        ) == Ok::<RunInfo<()>, Error>(RunInfo::spec_new(RunInfoResult::Success(()), usage)),
{
    RunInfo::<Option<Result<(), ChildError>>>::lemma_parts(RunInfoResult::Success(None), usage);
    RunInfo::<Option<Result<RunInfo<()>, Error>>>::lemma_parts(
        RunInfoResult::Success(Some(Ok(RunInfo::spec_new(RunInfoResult::Success(()), usage)))),
        RunUsage::zero(),
    );
}

/// Whether `step` touches a control group.
pub open spec fn touches_group(step: StepView) -> bool {
    step is RequireController || step is CreateInstance || step is WriteControl
}

/// Whether `step` changes what the process sees of the files: a mount, a
/// change of root or of directory, or the making of a directory for one of
/// them.
pub open spec fn changes_files(step: StepView) -> bool {
    step is Mount || step is CreateDir || step is Chdir || step is PivotRoot || step is Chroot
        || step is Unmount
}

proof fn lemma_mounts_change_files(new_root: Seq<u8>, mounts: Seq<MountView>)
    ensures
        forall|i: int|
            0 <= i < mounts_spec(new_root, mounts).len() ==> changes_files(
                #[trigger] mounts_spec(new_root, mounts)[i],
            ),
    decreases mounts.len(),
{
    if mounts.len() > 0 {
        lemma_mounts_change_files(new_root, mounts.drop_last());
        let before = mounts_spec(new_root, mounts.drop_last());
        let last = mount_inside_spec(new_root, mounts.last());
        assert forall|i: int| 0 <= i < mounts_spec(new_root, mounts).len() implies changes_files(
            #[trigger] mounts_spec(new_root, mounts)[i],
        ) by {
            if i >= before.len() {
                assert(mounts_spec(new_root, mounts)[i] == last[i - before.len()]);
            } else {
                assert(mounts_spec(new_root, mounts)[i] == before[i]);
            }
        }
    }
}

proof fn lemma_root_changes_files(config: ConfigView)
    ensures
        forall|i: int|
            0 <= i < root_spec(config).len() ==> changes_files(#[trigger] root_spec(config)[i]),
{
    match config.new_root {
        Some(new_root) => {
            lemma_mounts_change_files(new_root, config.mounts);
            let mounts = mounts_spec(new_root, config.mounts);
            let pivot = pivot_root_spec(new_root, mount_proc_spec());
            assert(pivot.len() == 8);
            assert forall|i: int| 0 <= i < root_spec(config).len() implies changes_files(
                #[trigger] root_spec(config)[i],
            ) by {
                if i >= mounts.len() {
                    assert(root_spec(config)[i] == pivot[i - mounts.len()]);
                } else {
                    assert(root_spec(config)[i] == mounts[i]);
                }
            }
        },
        None => {},
    }
}

proof fn lemma_one_group_entered(steps: Seq<StepView>, instance: Seq<StepView>, writes: Seq<StepView>, enter: Seq<StepView>)
    requires
        steps == instance + writes + enter,
        forall|i: int| 0 <= i < instance.len() ==> touches_group(#[trigger] instance[i]),
        forall|i: int| 0 <= i < writes.len() ==> touches_group(#[trigger] writes[i]),
        forall|i: int| 0 <= i < enter.len() ==> touches_group(#[trigger] enter[i]),
    ensures
        forall|i: int| 0 <= i < steps.len() ==> touches_group(#[trigger] steps[i]),
{
    assert forall|i: int| 0 <= i < steps.len() implies touches_group(#[trigger] steps[i]) by {
        if i < instance.len() {
            assert(steps[i] == instance[i]);
        } else if i < instance.len() + writes.len() {
            assert(steps[i] == writes[i - instance.len()]);
        } else {
            assert(steps[i] == enter[i - instance.len() - writes.len()]);
        }
    }
}

proof fn lemma_groups_touch_groups(config: ConfigView, pid: u32)
    ensures
        forall|i: int|
            0 <= i < enter_all_cgroups_spec(
                config.controller_path,
                config.instance_name,
                config.limits,
                config.clear_usage,
                pid,
            ).len() ==> touches_group(
                #[trigger] enter_all_cgroups_spec(
                    config.controller_path,
                    config.instance_name,
                    config.limits,
                    config.clear_usage,
                    pid,
                )[i],
            ),
{
    let name = config.instance_name;
    let clear = config.clear_usage;
    let cpu_root = path_or(config.controller_path.cpuacct, cpuacct_default_path());
    let memory_root = path_or(config.controller_path.memory, memory_default_path());
    let pids_root = path_or(config.controller_path.pids, pids_default_path());
    let cpu = enter_cpuacct_cgroup_spec(config.controller_path.cpuacct, name, clear, pid);
    let memory = enter_memory_cgroup_spec(
        config.controller_path.memory,
        name,
        config.limits.memory,
        clear,
        pid,
    );
    let pids = enter_pids_cgroup_spec(config.controller_path.pids, name, config.limits.pids, clear, pid);
    let empty = Seq::<StepView>::empty();
    lemma_one_group_entered(
        cpu,
        get_instance_path_spec(cpu_root, name),
        if clear == ClearUsage::Yes {
            seq![
                StepView::WriteControl {
                    controller_path: instance_path_spec(cpu_root, name),
                    file: "cpuacct.usage".spec_bytes(),
                    data: "0\n".spec_bytes(),
                    required: true,
                },
            ]
        } else {
            empty
        },
        enter_cgroup_spec(instance_path_spec(cpu_root, name), pid),
    );
    let memory_instance = instance_path_spec(memory_root, name);
    let memory_writes = if clear == ClearUsage::Yes {
        memory_reset_writes(memory_instance) + memory_limit_writes(
            memory_instance,
            config.limits.memory,
        )
    } else {
        empty
    };
    assert forall|i: int| 0 <= i < memory_writes.len() implies touches_group(
        #[trigger] memory_writes[i],
    ) by {
        if clear == ClearUsage::Yes {
            let reset = memory_reset_writes(memory_instance);
            let limit = memory_limit_writes(memory_instance, config.limits.memory);
            if i < reset.len() {
                assert(memory_writes[i] == reset[i]);
            } else {
                assert(memory_writes[i] == limit[i - reset.len()]);
            }
        }
    }
    lemma_one_group_entered(
        memory,
        get_instance_path_spec(memory_root, name),
        memory_writes,
        enter_cgroup_spec(memory_instance, pid),
    );
    lemma_one_group_entered(
        pids,
        get_instance_path_spec(pids_root, name),
        if clear == ClearUsage::Yes {
            seq![
                StepView::WriteControl {
                    controller_path: instance_path_spec(pids_root, name),
                    file: "pids.max".spec_bytes(),
                    data: pids_line(config.limits.pids),
                    required: true,
                },
            ]
        } else {
            empty
        },
        enter_cgroup_spec(instance_path_spec(pids_root, name), pid),
    );
    lemma_one_group_entered(
        enter_all_cgroups_spec(config.controller_path, name, config.limits, clear, pid),
        cpu,
        memory,
        pids,
    );
}

/// The payload is done with its control groups before it touches its
/// mounts: every step that touches a control group comes before every step
/// that changes what the payload sees of the files. And the first of these
/// cuts the mounts off from the outside, so that nothing mounted afterwards
/// shows there.
pub proof fn lemma_groups_before_mounts(config: ConfigView, pid: u32)
    ensures
        forall|i: int, j: int|
            0 <= i < payload_spec(config, pid).len() && 0 <= j < payload_spec(config, pid).len()
                && touches_group(#[trigger] payload_spec(config, pid)[i]) && changes_files(
                #[trigger] payload_spec(config, pid)[j],
            ) ==> i < j,
        forall|j: int|
            0 <= j < payload_spec(config, pid).len() && changes_files(
                #[trigger] payload_spec(config, pid)[j],
            ) ==> exists|k: int|
                0 <= k <= j && #[trigger] payload_spec(config, pid)[k] == remount_private_spec()[0],
{
    let plan = payload_spec(config, pid);
    let redirects = redirects_spec(config);
    let input = redirect_spec(Stream::Stdin, config.redirect_stdin);
    let output = redirect_spec(Stream::Stdout, config.redirect_stdout);
    let errors = redirect_spec(Stream::Stderr, config.redirect_stderr);
    let stack = seq![StepView::SetStackLimit { bytes: limit_bytes(config.limits.stack) }];
    let groups = enter_all_cgroups_spec(
        config.controller_path,
        config.instance_name,
        config.limits,
        config.clear_usage,
        pid,
    );
    let unshare = seq![StepView::UnshareCgroup];
    let private = remount_private_spec();
    let root = root_spec(config);
    let maps = set_uid_gid_maps_spec(UserId(0), GroupId(0));
    let group = process_group_spec(config.interactive);
    let start = exec_command_spec(config.command, config.args, config.environment);
    lemma_groups_touch_groups(config, pid);
    lemma_root_changes_files(config);
    assert forall|i: int| 0 <= i < redirects.len() implies !touches_group(
        #[trigger] redirects[i],
    ) && !changes_files(redirects[i]) by {
        let (first, second) = if config.swap_redirects == SwapRedirects::Yes {
            (output, input)
        } else {
            (input, output)
        };
        assert(redirects == first + second + errors);
        if i < first.len() {
            assert(redirects[i] == first[i]);
        } else if i < first.len() + second.len() {
            assert(redirects[i] == second[i - first.len()]);
        } else {
            assert(redirects[i] == errors[i - first.len() - second.len()]);
        }
    }
    let a = redirects.len() + stack.len();
    let b = a + groups.len();
    let c = b + unshare.len();
    let d = c + private.len();
    let e = d + root.len();
    assert(private.len() == 1);
    assert(plan == redirects + stack + groups + unshare + private + root + maps + group + start);
    assert forall|i: int| 0 <= i < plan.len() implies (touches_group(#[trigger] plan[i]) ==> a <= i
        < b) && (changes_files(plan[i]) ==> c <= i < e) by {
        if i < redirects.len() {
            assert(plan[i] == redirects[i]);
        } else if i < a {
            assert(plan[i] == stack[i - redirects.len()]);
        } else if i < b {
            assert(plan[i] == groups[i - a]);
        } else if i < c {
            assert(plan[i] == unshare[i - b]);
        } else if i < d {
            assert(plan[i] == private[i - c]);
        } else if i < e {
            assert(plan[i] == root[i - d]);
        } else if i < e + maps.len() {
            assert(plan[i] == maps[i - e]);
        } else if i < e + maps.len() + group.len() {
            assert(plan[i] == group[i - e - maps.len()]);
        } else {
            assert(plan[i] == start[i - e - maps.len() - group.len()]);
        }
    }
    assert(plan[c as int] == private[0]);
    assert forall|j: int| 0 <= j < plan.len() && changes_files(#[trigger] plan[j]) implies exists|
        k: int,
    | 0 <= k <= j && #[trigger] plan[k] == remount_private_spec()[0] by {
        assert(c <= j);
        assert(plan[c as int] == remount_private_spec()[0]);
    }
}

} // verus!
