//! The recipes of the jail: for each thing to set up, the steps that do it.

use vstd::prelude::*;
use vstd::string::StringSliceAdditionalSpecFns;
use crate::config::{
    Environment,
    EnvironmentView,
    Mount,
    MountOptions,
    MountOptionsView,
    MountView,
    ShareNet,
    SpaceUsage,
};
use crate::steps::{CloneFlags, IdMap, MountFlags, Plan, Step, StepView, Stream};
use crate::text::{
    append_bytes,
    append_literal,
    byte_views,
    bytes_of,
    lemma_byte_views_push,
    copy_bytes,
    decimal,
    join,
    join_spec,
    push_decimal,
    relative_part,
    strip_root,
};

verus! {

/// The size of the stack that a cloned process starts on, in bytes.
pub const DEFAULT_STACK_SIZE: usize = 262_144;

/// How often the alarm signal interrupts a wait, in microseconds.
pub const ALARM_TIMER_INTERVAL: i64 = 5_000;

/// Where the new root keeps the old one until it is detached.
pub open spec fn old_root_name() -> Seq<u8> {
    ".old_root".spec_bytes()
}

/// The root directory.
pub open spec fn root_dir() -> Seq<u8> {
    "/".spec_bytes()
}

/// Where the process file system is mounted.
pub open spec fn proc_dir() -> Seq<u8> {
    "/proc".spec_bytes()
}

/// The name and the kind of the process file system.
pub open spec fn proc_kind() -> Seq<u8> {
    "proc".spec_bytes()
}

/// A user of the system.
#[derive(Debug, PartialEq, Eq, Structural, Copy, Clone)]
pub struct UserId(pub u32);

/// A group of the system.
#[derive(Debug, PartialEq, Eq, Structural, Copy, Clone)]
pub struct GroupId(pub u32);

impl UserId {
    /// The user that owns everything.
    pub fn root() -> (user: UserId)
        ensures
            user == UserId(0),
    {
        UserId(0)
    }
}

impl GroupId {
    /// The group of the user that owns everything.
    pub fn root() -> (group: GroupId)
        ensures
            group == GroupId(0),
    {
        GroupId(0)
    }
}

/// The line that maps the one identity 0 inside a namespace to `id` outside.
pub open spec fn id_map_line(id: u32) -> Seq<u8> {
    "0 ".spec_bytes() + decimal(id as nat) + " 1\n".spec_bytes()
}

/// The steps that make the process `uid` and `gid` of the outside appear as
/// user and group 0 inside: group lists are denied first, without which the
/// group map may not be written, then the user map and the group map.
pub open spec fn set_uid_gid_maps_spec(uid: UserId, gid: GroupId) -> Seq<StepView> {
    seq![
        StepView::WriteIdMap { map: IdMap::SetGroups, data: "deny".spec_bytes() },
        StepView::WriteIdMap { map: IdMap::Uid, data: id_map_line(uid.0) },
        StepView::WriteIdMap { map: IdMap::Gid, data: id_map_line(gid.0) },
    ]
}

fn map_line(id: u32) -> (line: Vec<u8>)
    ensures
        line@ == id_map_line(id),
{
    let mut line = bytes_of("0 ");
    push_decimal(&mut line, id as u128);
    append_literal(&mut line, " 1\n");
    line
}

pub fn set_uid_gid_maps(uid: UserId, gid: GroupId) -> (plan: Plan)
    ensures
        plan@ == set_uid_gid_maps_spec(uid, gid),
{
    let mut plan = Plan::new();
    plan.push(Step::WriteIdMap { map: IdMap::SetGroups, data: bytes_of("deny") });
    plan.push(Step::WriteIdMap { map: IdMap::Uid, data: map_line(uid.0) });
    plan.push(Step::WriteIdMap { map: IdMap::Gid, data: map_line(gid.0) });
    assert(plan@ =~= set_uid_gid_maps_spec(uid, gid));
    plan
}

/// The step that lets a blocking wait be interrupted by the alarm signal.
pub fn set_sig_alarm_handler() -> (plan: Plan)
    ensures
        plan@ == seq![StepView::InstallAlarmHandler],
{
    let mut plan = Plan::new();
    plan.push(Step::InstallAlarmHandler);
    assert(plan@ =~= seq![StepView::InstallAlarmHandler]);
    plan
}

/// The step that has the alarm signal sent every `interval` microseconds.
pub fn set_alarm_interval(interval: i64) -> (plan: Plan)
    requires
        interval >= 0,
    ensures
        plan@ == seq![
            StepView::ArmTimer {
                seconds: (interval / 1_000_000) as i64,
                microseconds: (interval % 1_000_000) as i64,
            },
        ],
{
    let mut plan = Plan::new();
    plan.push(
        Step::ArmTimer { seconds: interval / 1_000_000, microseconds: interval % 1_000_000 },
    );
    assert(plan@ =~= seq![
        StepView::ArmTimer {
            seconds: (interval / 1_000_000) as i64,
            microseconds: (interval % 1_000_000) as i64,
        },
    ]);
    plan
}

/// What a cloned process is given: users, processes, messages, host name and
/// mounts of its own, and a network of its own unless it shares that of its
/// parent. The parent is held until the child runs its program or ends, and
/// is signalled when the child ends.
pub open spec fn clone_flags_spec(share_net: ShareNet) -> CloneFlags {
    CloneFlags {
        new_user: true,
        new_pid: true,
        new_ipc: true,
        new_uts: true,
        new_mount: true,
        new_net: share_net == ShareNet::Unshare,
        vfork: true,
        signal_parent: true,
    }
}

pub fn clone_flags(share_net: ShareNet) -> (flags: CloneFlags)
    ensures
        flags == clone_flags_spec(share_net),
{
    CloneFlags {
        new_user: true,
        new_pid: true,
        new_ipc: true,
        new_uts: true,
        new_mount: true,
        new_net: share_net == ShareNet::Unshare,
        vfork: true,
        signal_parent: true,
    }
}

/// The steps that start a child: the pipe for its report, the child itself,
/// and the timer that keeps the wait for it from blocking for long.
pub open spec fn clone_spec(share_net: ShareNet) -> Seq<StepView> {
    seq![
        StepView::MakePipe,
        StepView::Clone { clone_flags: clone_flags_spec(share_net), stack_size: DEFAULT_STACK_SIZE },
        StepView::ArmTimer { seconds: 0, microseconds: ALARM_TIMER_INTERVAL },
    ]
}

pub fn clone(share_net: ShareNet) -> (plan: Plan)
    ensures
        plan@ == clone_spec(share_net),
{
    let mut plan = Plan::new();
    plan.push(Step::MakePipe);
    plan.push(Step::Clone { clone_flags: clone_flags(share_net), stack_size: DEFAULT_STACK_SIZE });
    plan.extend(set_alarm_interval(ALARM_TIMER_INTERVAL));
    assert(plan@ =~= clone_spec(share_net));
    plan
}

pub fn unshare_cgroup() -> (plan: Plan)
    ensures
        plan@ == seq![StepView::UnshareCgroup],
{
    let mut plan = Plan::new();
    plan.push(Step::UnshareCgroup);
    assert(plan@ =~= seq![StepView::UnshareCgroup]);
    plan
}

/// The step that cuts every mount of the process off from the mounts
/// outside: nothing mounted from here on shows there.
pub open spec fn remount_private_spec() -> Seq<StepView> {
    seq![
        StepView::Mount {
            source: None,
            target: root_dir(),
            kind: None,
            flags: MountFlags { recursive: true, private: true, ..MountFlags::none() },
            options: None,
            blame: root_dir(),
        },
    ]
}

pub fn remount_private() -> (plan: Plan)
    ensures
        plan@ == remount_private_spec(),
{
    let mut flags = MountFlags::empty();
    flags.recursive = true;
    flags.private = true;
    let mut plan = Plan::new();
    plan.push(
        Step::Mount {
            source: None,
            target: bytes_of("/"),
            kind: None,
            flags,
            options: None,
            blame: bytes_of("/"),
        },
    );
    assert(plan@ =~= remount_private_spec());
    plan
}

/// Where `destination` lies once `new_root` is the root: below `new_root`,
/// whether or not it was given from the root.
pub open spec fn inner_path(new_root: Seq<u8>, destination: Seq<u8>) -> Seq<u8> {
    join_spec(new_root, relative_part(destination))
}

/// How a directory is bound into the jail: set-user-id bits never count,
/// and writing, device files and running programs only where `options`
/// allow them.
pub open spec fn bind_flags(options: MountOptionsView) -> MountFlags {
    MountFlags {
        bind: true,
        no_suid: true,
        read_only: options.read_only,
        no_dev: !options.dev,
        no_exec: !options.executable,
        ..MountFlags::none()
    }
}

/// The steps that make `mount` appear below `new_root`: the directory to
/// mount on, the binding, and the same binding once more as a remount,
/// since a first binding does not take the read-only flag.
pub open spec fn mount_inside_spec(new_root: Seq<u8>, mount: MountView) -> Seq<StepView> {
    let target = inner_path(new_root, mount.destination);
    let flags = bind_flags(mount.options);
    seq![
        StepView::CreateDir { path: target, parents: true },
        StepView::Mount {
            source: Some(mount.source),
            target,
            kind: Some("none".spec_bytes()),
            flags,
            options: Some("".spec_bytes()),
            blame: mount.destination,
        },
        StepView::Mount {
            source: Some(mount.source),
            target,
            kind: Some("none".spec_bytes()),
            flags: MountFlags { remount: true, ..flags },
            options: Some("".spec_bytes()),
            blame: mount.destination,
        },
    ]
}

pub fn mount_flags(options: MountOptions) -> (flags: MountFlags)
    ensures
        flags == bind_flags(options@),
{
    let mut flags = MountFlags::empty();
    flags.bind = true;
    flags.no_suid = true;
    if options.read_only() {
        flags.read_only = true;
    }
    if !options.dev() {
        flags.no_dev = true;
    }
    if !options.executable() {
        flags.no_exec = true;
    }
    flags
}

pub fn mount_inside(new_root: &[u8], mount: &Mount) -> (plan: Plan)
    ensures
        plan@ == mount_inside_spec(new_root@, mount@),
{
    let relative = strip_root(mount.destination().as_slice());
    let inner = join(new_root, relative.as_slice());
    let flags = mount_flags(mount.mount_options());
    let mut again = flags;
    again.remount = true;
    let mut plan = Plan::new();
    plan.push(Step::CreateDir { path: copy_bytes(inner.as_slice()), parents: true });
    plan.push(
        Step::Mount {
            source: Some(copy_bytes(mount.source().as_slice())),
            target: copy_bytes(inner.as_slice()),
            kind: Some(bytes_of("none")),
            flags,
            options: Some(bytes_of("")),
            blame: copy_bytes(mount.destination().as_slice()),
        },
    );
    plan.push(
        Step::Mount {
            source: Some(copy_bytes(mount.source().as_slice())),
            target: inner,
            kind: Some(bytes_of("none")),
            flags: again,
            options: Some(bytes_of("")),
            blame: copy_bytes(mount.destination().as_slice()),
        },
    );
    assert(plan@ =~= mount_inside_spec(new_root@, mount@));
    plan
}

/// The steps that mount the process file system at its place, made if it is
/// missing.
pub open spec fn mount_proc_spec() -> Seq<StepView> {
    seq![
        StepView::CreateDir { path: proc_dir(), parents: false },
        StepView::Mount {
            source: Some(proc_kind()),
            target: proc_dir(),
            kind: Some(proc_kind()),
            flags: MountFlags::none(),
            options: None,
            blame: proc_dir(),
        },
    ]
}

pub fn mount_proc() -> (plan: Plan)
    ensures
        plan@ == mount_proc_spec(),
{
    let mut plan = Plan::new();
    plan.push(Step::CreateDir { path: bytes_of("/proc"), parents: false });
    plan.push(
        Step::Mount {
            source: Some(bytes_of("proc")),
            target: bytes_of("/proc"),
            kind: Some(bytes_of("proc")),
            flags: MountFlags::empty(),
            options: None,
            blame: bytes_of("/proc"),
        },
    );
    assert(plan@ =~= mount_proc_spec());
    plan
}

/// The steps that make `new_root` the root of the process and let go of the
/// old one. The old root is parked in a directory of the new one. The new
/// root is bound onto itself, which the change of root asks for, and entered.
/// After the change the root is set once more to where the process stands.
/// Then come the steps of `before_umount`, and last the old root is detached.
pub open spec fn pivot_root_spec(new_root: Seq<u8>, before_umount: Seq<StepView>) -> Seq<StepView> {
    let old_root = join_spec(new_root, old_root_name());
    seq![
        StepView::CreateDir { path: old_root, parents: false },
        StepView::Mount {
            source: Some(new_root),
            target: new_root,
            kind: None,
            flags: MountFlags { recursive: true, bind: true, private: true, ..MountFlags::none() },
            options: None,
            blame: new_root,
        },
        StepView::Chdir { path: new_root },
        StepView::PivotRoot { new_root, old_root },
        StepView::Chroot { path: ".".spec_bytes() },
    ] + before_umount + seq![StepView::Unmount { path: join_spec(root_dir(), old_root_name()) }]
}

pub fn pivot_root(new_root: &[u8], before_umount: Plan) -> (plan: Plan)
    ensures
        plan@ == pivot_root_spec(new_root@, before_umount@),
{
    let name = bytes_of(".old_root");
    let old_root = join(new_root, name.as_slice());
    let mut flags = MountFlags::empty();
    flags.recursive = true;
    flags.bind = true;
    flags.private = true;
    let mut plan = Plan::new();
    plan.push(Step::CreateDir { path: copy_bytes(old_root.as_slice()), parents: false });
    plan.push(
        Step::Mount {
            source: Some(copy_bytes(new_root)),
            target: copy_bytes(new_root),
            kind: None,
            flags,
            options: None,
            blame: copy_bytes(new_root),
        },
    );
    plan.push(Step::Chdir { path: copy_bytes(new_root) });
    plan.push(Step::PivotRoot { new_root: copy_bytes(new_root), old_root });
    plan.push(Step::Chroot { path: bytes_of(".") });
    plan.extend(before_umount);
    let root = bytes_of("/");
    plan.push(Step::Unmount { path: join(root.as_slice(), name.as_slice()) });
    assert(plan@ =~= pivot_root_spec(new_root@, before_umount@));
    plan
}

/// One variable as a program finds it: the name, an equals sign, the value.
pub open spec fn variable_line(variable: (Seq<u8>, Seq<u8>)) -> Seq<u8> {
    variable.0 + "=".spec_bytes() + variable.1
}

/// The variables that a program is started with, or `None` where it keeps
/// those of the process that starts it.
pub open spec fn environment_lines(environment: EnvironmentView) -> Option<Seq<Seq<u8>>> {
    match environment {
        EnvironmentView::Forward => None,
        EnvironmentView::EnvList(variables) => Some(
            variables.map_values(|variable: (Seq<u8>, Seq<u8>)| variable_line(variable)),
        ),
    }
}

/// The step that replaces the process by `command`.
pub open spec fn exec_command_spec(
    command: Seq<u8>,
    arguments: Seq<Seq<u8>>,
    environment: EnvironmentView,
) -> Seq<StepView> {
    seq![StepView::Exec { command, arguments, environment: environment_lines(environment) }]
}

/// The strings that the program finds as its arguments: its own name first.
pub open spec fn argv_spec(command: Seq<u8>, arguments: Seq<Seq<u8>>) -> Seq<Seq<u8>> {
    seq![command] + arguments
}

/// A copy of `items`.
pub fn copy_all(items: &Vec<Vec<u8>>) -> (out: Vec<Vec<u8>>)
    ensures
        byte_views(out@) == byte_views(items@),
{
    let mut out: Vec<Vec<u8>> = Vec::new();
    let mut i: usize = 0;
    while i < items.len()
        invariant
            i <= items.len(),
            byte_views(out@) == byte_views(items@).take(i as int),
        decreases items.len() - i,
    {
        let ghost before = out@;
        out.push(copy_bytes(items[i].as_slice()));
        proof {
            assert(out@ =~= before.push(out@.last()));
            lemma_byte_views_push(before, out@.last());
            assert(byte_views(items@).take(i as int + 1) =~= byte_views(items@).take(
                i as int,
            ).push(items@[i as int]@));
        }
        i += 1;
    }
    assert(byte_views(items@).take(items.len() as int) =~= byte_views(items@));
    out
}

/// The strings that the program finds as its arguments.
pub fn argv(command: &[u8], arguments: &Vec<Vec<u8>>) -> (out: Vec<Vec<u8>>)
    ensures
        byte_views(out@) == argv_spec(command@, byte_views(arguments@)),
{
    let mut out: Vec<Vec<u8>> = Vec::new();
    out.push(copy_bytes(command));
    assert(byte_views(out@) =~= seq![command@] + byte_views(arguments@).take(0));
    let mut i: usize = 0;
    while i < arguments.len()
        invariant
            i <= arguments.len(),
            byte_views(out@) == seq![command@] + byte_views(arguments@).take(i as int),
        decreases arguments.len() - i,
    {
        let ghost before = out@;
        out.push(copy_bytes(arguments[i].as_slice()));
        proof {
            assert(out@ =~= before.push(out@.last()));
            lemma_byte_views_push(before, out@.last());
            assert(seq![command@] + byte_views(arguments@).take(i as int + 1) =~= (seq![command@]
                + byte_views(arguments@).take(i as int)).push(arguments@[i as int]@));
        }
        i += 1;
    }
    assert(byte_views(arguments@).take(arguments.len() as int) =~= byte_views(arguments@));
    out
}

fn environment_list(environment: &Environment) -> (out: Option<Vec<Vec<u8>>>)
    ensures
        match out {
            Some(lines) => Some(byte_views(lines@)),
            None => None,
        } == environment_lines(environment@),
{
    match environment {
        Environment::Forward => None,
        Environment::EnvList(variables) => {
            let mut lines: Vec<Vec<u8>> = Vec::new();
            let ghost wanted = environment_lines(environment@).unwrap();
            let mut i: usize = 0;
            while i < variables.len()
                invariant
                    i <= variables.len(),
                    environment@ == EnvironmentView::EnvList(
                        crate::config::variable_views(variables@),
                    ),
                    wanted == environment_lines(environment@).unwrap(),
                    byte_views(lines@) == wanted.take(i as int),
                decreases variables.len() - i,
            {
                let mut line = copy_bytes(variables[i].0.as_slice());
                append_literal(&mut line, "=");
                append_bytes(&mut line, variables[i].1.as_slice());
                let ghost before = lines@;
                lines.push(line);
                proof {
                    assert(lines@ =~= before.push(lines@.last()));
                    lemma_byte_views_push(before, lines@.last());
                    let pair = crate::config::variable_views(variables@)[i as int];
                    assert(pair == (variables@[i as int].0@, variables@[i as int].1@));
                    assert(wanted[i as int] == variable_line(pair));
                    assert(wanted.take(i as int + 1) =~= wanted.take(i as int).push(
                        wanted[i as int],
                    ));
                }
                i += 1;
            }
            assert(wanted.take(variables.len() as int) =~= wanted);
            Some(lines)
        },
    }
}

pub fn exec_command(command: &[u8], arguments: &Vec<Vec<u8>>, environment: &Environment) -> (plan:
    Plan)
    ensures
        plan@ == exec_command_spec(command@, byte_views(arguments@), environment@),
{
    let mut plan = Plan::new();
    plan.push(
        Step::Exec {
            command: copy_bytes(command),
            arguments: copy_all(arguments),
            environment: environment_list(environment),
        },
    );
    assert(plan@ =~= exec_command_spec(command@, byte_views(arguments@), environment@));
    plan
}

/// The steps that point `stream` at `path`: the stream is closed, then
/// `path` is opened, which must take the descriptor that was freed.
pub open spec fn redirect_fd_spec(stream: Stream, path: Seq<u8>) -> Seq<StepView> {
    seq![StepView::CloseStream { stream }, StepView::OpenStream { stream, path }]
}

pub fn redirect_fd(stream: Stream, path: &[u8]) -> (plan: Plan)
    ensures
        plan@ == redirect_fd_spec(stream, path@),
{
    let mut plan = Plan::new();
    plan.push(Step::CloseStream { stream });
    plan.push(Step::OpenStream { stream, path: copy_bytes(path) });
    assert(plan@ =~= redirect_fd_spec(stream, path@));
    plan
}

/// The step that takes the process out of the process group of its parent,
/// so that a signal sent to its own group does not reach the parent.
pub fn move_to_different_process_group() -> (plan: Plan)
    ensures
        plan@ == seq![StepView::DetachProcessGroup],
{
    let mut plan = Plan::new();
    plan.push(Step::DetachProcessGroup);
    assert(plan@ =~= seq![StepView::DetachProcessGroup]);
    plan
}

/// The step that has the process killed when its parent dies.
pub fn kill_on_parent_death() -> (plan: Plan)
    ensures
        plan@ == seq![StepView::KillOnParentDeath],
{
    let mut plan = Plan::new();
    plan.push(Step::KillOnParentDeath);
    assert(plan@ =~= seq![StepView::KillOnParentDeath]);
    plan
}

/// The bytes of a limit, if there is one.
pub open spec fn limit_bytes(limit: Option<SpaceUsage>) -> Option<u64> {
    match limit {
        Some(usage) => Some(usage@ as u64),
        None => None,
    }
}

/// The step that limits the stack to `stack`, or lifts the limit where
/// there is none.
pub fn set_stack_limit(stack: Option<SpaceUsage>) -> (plan: Plan)
    ensures
        plan@ == seq![StepView::SetStackLimit { bytes: limit_bytes(stack) }],
{
    let bytes = match stack {
        Some(usage) => Some(usage.as_bytes()),
        None => None,
    };
    let mut plan = Plan::new();
    plan.push(Step::SetStackLimit { bytes });
    assert(plan@ =~= seq![StepView::SetStackLimit { bytes: limit_bytes(stack) }]);
    plan
}

} // verus!
