//! Control groups: the steps by which a payload enters them, the limits
//! written on the way, and the reading of what it used.
//!
//! Each controller has a directory for every instance of the sandbox, and in
//! it a group named `isolated` that holds the payload. The counters and
//! limits are those of the instance directory.

use vstd::prelude::*;
use vstd::string::StringSliceAdditionalSpecFns;
use crate::config::{ClearUsage, ControllerPath, ControllerPathView, Limits, LimitsView, SpaceUsage};
use crate::errors::{CGroupError, CGroupErrorView};
use crate::run_info::{RunUsage, RunUsageView};
use crate::steps::{Plan, Step, StepView};
use crate::text::{
    append_literal,
    bytes_of,
    copy_bytes,
    decimal,
    all_digits,
    join,
    join_spec,
    parse_u64,
    parse_u64_spec,
    push_decimal,
    trim,
    trim_spec,
    unsigned_part,
};
use crate::time::Duration;

verus! {

/// What a memory limit is raised by when it is written, in bytes. A payload
/// that goes beyond its limit uses up this room and is killed; its usage
/// then shows that it was the limit that killed it.
pub const EXTRA_MEMORY_GIVEN: u64 = 16_384;

/// The name of the group that holds the payload.
pub open spec fn isolated_name() -> Seq<u8> {
    "isolated".spec_bytes()
}

/// The instance that a sandbox belongs to when it was given no name.
pub open spec fn default_instance_name() -> Seq<u8> {
    "default".spec_bytes()
}

/// The usual place of the controller that accounts for processor time.
pub open spec fn cpuacct_default_path() -> Seq<u8> {
    "/sys/fs/cgroup/cpuacct/ia-sandbox".spec_bytes()
}

/// The usual place of the controller of memory.
pub open spec fn memory_default_path() -> Seq<u8> {
    "/sys/fs/cgroup/memory/ia-sandbox".spec_bytes()
}

/// The usual place of the controller of the number of tasks.
pub open spec fn pids_default_path() -> Seq<u8> {
    "/sys/fs/cgroup/pids/ia-sandbox".spec_bytes()
}

/// `path` if it is given, `usual` if it is not.
pub open spec fn path_or(path: Option<Seq<u8>>, usual: Seq<u8>) -> Seq<u8> {
    match path {
        Some(given) => given,
        None => usual,
    }
}

/// The directory of the instance `instance_name` under `controller_path`.
pub open spec fn instance_path_spec(controller_path: Seq<u8>, instance_name: Option<Seq<u8>>) -> Seq<
    u8,
> {
    join_spec(controller_path, path_or(instance_name, default_instance_name()))
}

/// A number on a line of its own.
pub open spec fn number_line(n: nat) -> Seq<u8> {
    decimal(n) + "\n".spec_bytes()
}

/// The step that writes `data` to `file` under `controller_path`.
pub open spec fn cgroup_write_spec(
    controller_path: Seq<u8>,
    file: Seq<u8>,
    data: Seq<u8>,
    required: bool,
) -> StepView {
    StepView::WriteControl { controller_path, file, data, required }
}

/// The steps that see to the directory of an instance. The controller must
/// be there: it is a mount of the system and is never made here. The
/// directory of the instance is made if it is missing.
pub open spec fn get_instance_path_spec(
    controller_path: Seq<u8>,
    instance_name: Option<Seq<u8>>,
) -> Seq<StepView> {
    seq![
        StepView::RequireController { path: controller_path },
        StepView::CreateInstance {
            controller_path,
            instance_name: path_or(instance_name, default_instance_name()),
        },
    ]
}

/// The steps that put the process `pid` into the group of the payload under
/// `instance_path`: the group is made if it is missing, then the process is
/// entered in its list of tasks.
pub open spec fn enter_cgroup_spec(instance_path: Seq<u8>, pid: u32) -> Seq<StepView> {
    seq![
        StepView::CreateInstance { controller_path: instance_path, instance_name: isolated_name() },
        cgroup_write_spec(
            join_spec(instance_path, isolated_name()),
            "tasks".spec_bytes(),
            number_line(pid as nat),
            true,
        ),
    ]
}

/// The steps by which the process `pid` enters the group that accounts for
/// its processor time. With `clear_usage` the time used so far is set to
/// zero first.
pub open spec fn enter_cpuacct_cgroup_spec(
    controller_path: Option<Seq<u8>>,
    instance_name: Option<Seq<u8>>,
    clear_usage: ClearUsage,
    pid: u32,
) -> Seq<StepView> {
    let root = path_or(controller_path, cpuacct_default_path());
    let instance = instance_path_spec(root, instance_name);
    get_instance_path_spec(root, instance_name) + (if clear_usage == ClearUsage::Yes {
        seq![cgroup_write_spec(instance, "cpuacct.usage".spec_bytes(), "0\n".spec_bytes(), true)]
    } else {
        Seq::<StepView>::empty()
    }) + enter_cgroup_spec(instance, pid)
}

/// The writes that impose `memory_limit`: the limit, raised by the extra
/// room, on memory and on memory with swap. The second may fail, as it does
/// where swap is not accounted for.
pub open spec fn memory_limit_writes(instance: Seq<u8>, memory_limit: Option<SpaceUsage>) -> Seq<
    StepView,
> {
    match memory_limit {
        Some(limit) => seq![
            cgroup_write_spec(
                instance,
                "memory.limit_in_bytes".spec_bytes(),
                number_line(limit@ + EXTRA_MEMORY_GIVEN as nat),
                true,
            ),
            cgroup_write_spec(
                instance,
                "memory.memsw.limit_in_bytes".spec_bytes(),
                number_line(limit@ + EXTRA_MEMORY_GIVEN as nat),
                false,
            ),
        ],
        None => Seq::<StepView>::empty(),
    }
}

/// The writes that clear the memory group at `instance`: both peaks of usage
/// are set to zero and both limits are lifted, that on memory with swap
/// first, since the group never lets it fall below the one on memory. The
/// writes that concern swap may fail.
pub open spec fn memory_reset_writes(instance: Seq<u8>) -> Seq<StepView> {
    seq![
        cgroup_write_spec(
            instance,
            "memory.max_usage_in_bytes".spec_bytes(),
            "0\n".spec_bytes(),
            true,
        ),
        cgroup_write_spec(
            instance,
            "memory.memsw.max_usage_in_bytes".spec_bytes(),
            "0\n".spec_bytes(),
            false,
        ),
        cgroup_write_spec(
            instance,
            "memory.memsw.limit_in_bytes".spec_bytes(),
            "-1\n".spec_bytes(),
            false,
        ),
        cgroup_write_spec(
            instance,
            "memory.limit_in_bytes".spec_bytes(),
            "-1\n".spec_bytes(),
            true,
        ),
    ]
}

/// The steps by which the process `pid` enters the group that accounts for
/// its memory. With `clear_usage` the group is cleared and `memory_limit`
/// imposed first; without, the group is left as it is and no limit is
/// written.
pub open spec fn enter_memory_cgroup_spec(
    controller_path: Option<Seq<u8>>,
    instance_name: Option<Seq<u8>>,
    memory_limit: Option<SpaceUsage>,
    clear_usage: ClearUsage,
    pid: u32,
) -> Seq<StepView> {
    let root = path_or(controller_path, memory_default_path());
    let instance = instance_path_spec(root, instance_name);
    get_instance_path_spec(root, instance_name) + (if clear_usage == ClearUsage::Yes {
        memory_reset_writes(instance) + memory_limit_writes(instance, memory_limit)
    } else {
        Seq::<StepView>::empty()
    }) + enter_cgroup_spec(instance, pid)
}

/// What is written as the greatest number of tasks: the number, or `max`
/// where there is no limit.
pub open spec fn pids_line(pids_limit: Option<usize>) -> Seq<u8> {
    match pids_limit {
        Some(limit) => number_line(limit as nat),
        None => "max\n".spec_bytes(),
    }
}

/// The steps by which the process `pid` enters the group that counts its
/// tasks. With `clear_usage` the greatest number of tasks is written first.
pub open spec fn enter_pids_cgroup_spec(
    controller_path: Option<Seq<u8>>,
    instance_name: Option<Seq<u8>>,
    pids_limit: Option<usize>,
    clear_usage: ClearUsage,
    pid: u32,
) -> Seq<StepView> {
    let root = path_or(controller_path, pids_default_path());
    let instance = instance_path_spec(root, instance_name);
    get_instance_path_spec(root, instance_name) + (if clear_usage == ClearUsage::Yes {
        seq![cgroup_write_spec(instance, "pids.max".spec_bytes(), pids_line(pids_limit), true)]
    } else {
        Seq::<StepView>::empty()
    }) + enter_cgroup_spec(instance, pid)
}

/// The steps by which the process `pid` enters all three groups: processor
/// time, memory, tasks.
pub open spec fn enter_all_cgroups_spec(
    controller_path: ControllerPathView,
    instance_name: Option<Seq<u8>>,
    limits: LimitsView,
    clear_usage: ClearUsage,
    pid: u32,
) -> Seq<StepView> {
    enter_cpuacct_cgroup_spec(controller_path.cpuacct, instance_name, clear_usage, pid)
        + enter_memory_cgroup_spec(
        controller_path.memory,
        instance_name,
        limits.memory,
        clear_usage,
        pid,
    ) + enter_pids_cgroup_spec(controller_path.pids, instance_name, limits.pids, clear_usage, pid)
}

/// The view of an optional byte string that is held by reference.
pub open spec fn borrowed_view(item: Option<&Vec<u8>>) -> Option<Seq<u8>> {
    match item {
        Some(bytes) => Some(bytes@),
        None => None,
    }
}

fn or_default(path: Option<&Vec<u8>>, usual: &str) -> (out: Vec<u8>)
    ensures
        out@ == path_or(borrowed_view(path), usual.spec_bytes()),
{
    match path {
        Some(given) => copy_bytes(given.as_slice()),
        None => bytes_of(usual),
    }
}

fn line_of(n: u128) -> (line: Vec<u8>)
    ensures
        line@ == number_line(n as nat),
{
    let mut line: Vec<u8> = Vec::new();
    push_decimal(&mut line, n);
    append_literal(&mut line, "\n");
    line
}

/// The plan of the one step that writes `line` to `file` under
/// `controller_path`, and must not fail.
pub fn cgroup_write(controller_path: &[u8], file: &str, line: Vec<u8>) -> (plan: Plan)
    ensures
        plan@ == seq![cgroup_write_spec(controller_path@, file.spec_bytes(), line@, true)],
{
    let mut plan = Plan::new();
    plan.push(write_step(controller_path, file, line, true));
    assert(plan@ =~= seq![cgroup_write_spec(controller_path@, file.spec_bytes(), line@, true)]);
    plan
}

fn write_step(controller_path: &[u8], file: &str, line: Vec<u8>, required: bool) -> (step: Step)
    ensures
        step@ == cgroup_write_spec(controller_path@, file.spec_bytes(), line@, required),
{
    Step::WriteControl {
        controller_path: copy_bytes(controller_path),
        file: bytes_of(file),
        data: line,
        required,
    }
}

/// The steps that put the process `pid` into the group of the payload under
/// `controller_path`, the directory of an instance.
pub fn enter_cgroup(controller_path: &[u8], pid: u32) -> (plan: Plan)
    ensures
        plan@ == enter_cgroup_spec(controller_path@, pid),
{
    let name = bytes_of("isolated");
    let isolated = join(controller_path, name.as_slice());
    let mut plan = Plan::new();
    plan.push(
        Step::CreateInstance { controller_path: copy_bytes(controller_path), instance_name: name },
    );
    plan.push(write_step(isolated.as_slice(), "tasks", line_of(pid as u128), true));
    assert(plan@ =~= enter_cgroup_spec(controller_path@, pid));
    plan
}

/// The directory of the instance `instance_name` under `controller_path`,
/// with the steps that see to it.
pub fn get_instance_path(controller_path: &[u8], instance_name: Option<&Vec<u8>>) -> (r: (
    Plan,
    Vec<u8>,
))
    ensures
        r.0@ == get_instance_path_spec(controller_path@, borrowed_view(instance_name)),
        r.1@ == instance_path_spec(controller_path@, borrowed_view(instance_name)),
{
    let instance = or_default(instance_name, "default");
    let instance_path = join(controller_path, instance.as_slice());
    let mut plan = Plan::new();
    plan.push(Step::RequireController { path: copy_bytes(controller_path) });
    plan.push(
        Step::CreateInstance {
            controller_path: copy_bytes(controller_path),
            instance_name: instance,
        },
    );
    assert(plan@ =~= get_instance_path_spec(controller_path@, borrowed_view(instance_name)));
    (plan, instance_path)
}

pub fn enter_cpuacct_cgroup(
    controller_path: Option<&Vec<u8>>,
    instance_name: Option<&Vec<u8>>,
    clear_usage: ClearUsage,
    pid: u32,
) -> (plan: Plan)
    ensures
        plan@ == enter_cpuacct_cgroup_spec(
            borrowed_view(controller_path),
            borrowed_view(instance_name),
            clear_usage,
            pid,
        ),
{
    let root = or_default(controller_path, "/sys/fs/cgroup/cpuacct/ia-sandbox");
    let (mut plan, instance_path) = get_instance_path(root.as_slice(), instance_name);
    if clear_usage == ClearUsage::Yes {
        plan.extend(cgroup_write(instance_path.as_slice(), "cpuacct.usage", bytes_of("0\n")));
    }
    plan.extend(enter_cgroup(instance_path.as_slice(), pid));
    assert(plan@ =~= enter_cpuacct_cgroup_spec(
        borrowed_view(controller_path),
        borrowed_view(instance_name),
        clear_usage,
        pid,
    ));
    plan
}

pub fn enter_memory_cgroup(
    controller_path: Option<&Vec<u8>>,
    instance_name: Option<&Vec<u8>>,
    memory_limit: Option<SpaceUsage>,
    clear_usage: ClearUsage,
    pid: u32,
) -> (plan: Plan)
    ensures
        plan@ == enter_memory_cgroup_spec(
            borrowed_view(controller_path),
            borrowed_view(instance_name),
            memory_limit,
            clear_usage,
            pid,
        ),
{
    let root = or_default(controller_path, "/sys/fs/cgroup/memory/ia-sandbox");
    let (mut plan, instance_path) = get_instance_path(root.as_slice(), instance_name);
    let instance = instance_path.as_slice();
    if clear_usage == ClearUsage::Yes {
        plan.push(write_step(instance, "memory.max_usage_in_bytes", bytes_of("0\n"), true));
        plan.push(
            write_step(instance, "memory.memsw.max_usage_in_bytes", bytes_of("0\n"), false),
        );
        plan.push(write_step(instance, "memory.memsw.limit_in_bytes", bytes_of("-1\n"), false));
        plan.push(write_step(instance, "memory.limit_in_bytes", bytes_of("-1\n"), true));
        if let Some(limit) = memory_limit {
            let raised: u128 = limit.as_bytes() as u128 + EXTRA_MEMORY_GIVEN as u128;
            plan.push(write_step(instance, "memory.limit_in_bytes", line_of(raised), true));
            plan.push(write_step(instance, "memory.memsw.limit_in_bytes", line_of(raised), false));
        }
    }
    plan.extend(enter_cgroup(instance, pid));
    assert(plan@ =~= enter_memory_cgroup_spec(
        borrowed_view(controller_path),
        borrowed_view(instance_name),
        memory_limit,
        clear_usage,
        pid,
    ));
    plan
}

pub fn enter_pids_cgroup(
    controller_path: Option<&Vec<u8>>,
    instance_name: Option<&Vec<u8>>,
    pids_limit: Option<usize>,
    clear_usage: ClearUsage,
    pid: u32,
) -> (plan: Plan)
    ensures
        plan@ == enter_pids_cgroup_spec(
            borrowed_view(controller_path),
            borrowed_view(instance_name),
            pids_limit,
            clear_usage,
            pid,
        ),
{
    let root = or_default(controller_path, "/sys/fs/cgroup/pids/ia-sandbox");
    let (mut plan, instance_path) = get_instance_path(root.as_slice(), instance_name);
    if clear_usage == ClearUsage::Yes {
        let line = match pids_limit {
            Some(limit) => line_of(limit as u128),
            None => bytes_of("max\n"),
        };
        plan.extend(cgroup_write(instance_path.as_slice(), "pids.max", line));
    }
    plan.extend(enter_cgroup(instance_path.as_slice(), pid));
    assert(plan@ =~= enter_pids_cgroup_spec(
        borrowed_view(controller_path),
        borrowed_view(instance_name),
        pids_limit,
        clear_usage,
        pid,
    ));
    plan
}

pub fn enter_all_cgroups(
    controller_path: &ControllerPath,
    instance_name: Option<&Vec<u8>>,
    limits: Limits,
    clear_usage: ClearUsage,
    pid: u32,
) -> (plan: Plan)
    ensures
        plan@ == enter_all_cgroups_spec(
            controller_path@,
            borrowed_view(instance_name),
            limits@,
            clear_usage,
            pid,
        ),
{
    let mut plan = enter_cpuacct_cgroup(controller_path.cpuacct(), instance_name, clear_usage, pid);
    plan.extend(
        enter_memory_cgroup(
            controller_path.memory(),
            instance_name,
            limits.memory(),
            clear_usage,
            pid,
        ),
    );
    plan.extend(
        enter_pids_cgroup(controller_path.pids(), instance_name, limits.pids(), clear_usage, pid),
    );
    plan
}

/// What came of reading a file.
#[derive(Debug, PartialEq, Eq, Clone)]
pub enum FileRead {
    /// The file could not be opened, for this reason.
    Unopened(String),
    /// The file was opened and could not be read, for this reason.
    Unread(String),
    /// The file held this.
    Content(Vec<u8>),
}

/// What a `FileRead` holds.
pub enum FileReadView {
    Unopened(Seq<char>),
    Unread(Seq<char>),
    Content(Seq<u8>),
}

impl View for FileRead {
    type V = FileReadView;

    open spec fn view(&self) -> FileReadView {
        match self {
            FileRead::Unopened(reason) => FileReadView::Unopened(reason@),
            FileRead::Unread(reason) => FileReadView::Unread(reason@),
            FileRead::Content(content) => FileReadView::Content(content@),
        }
    }
}

/// Why `text` does not hold a number: it is empty, or a byte of it is no
/// digit, or the number is too large.
pub open spec fn parse_complaint(text: Seq<u8>) -> Seq<char> {
    if text.len() == 0 {
        "cannot parse integer from empty string"@
    } else if unsigned_part(text).len() == 0 || !all_digits(unsigned_part(text)) {
        "invalid digit found in string"@
    } else {
        "number too large to fit in target type"@
    }
}

/// The counter that `file` under `controller_path` held: the number that is
/// left when the blanks around it are taken away. Where the file could not
/// be opened or read, or holds no such number, the error that says so.
pub open spec fn cgroup_read_spec(controller_path: Seq<u8>, file: Seq<u8>, read: FileReadView) -> Result<
    u64,
    CGroupErrorView,
> {
    match read {
        FileReadView::Unopened(error) => Err(
            CGroupErrorView::OpenCGroupFileError { controller_path, file, error },
        ),
        FileReadView::Unread(error) => Err(
            CGroupErrorView::ReadCGroupFileError { controller_path, file, error },
        ),
        FileReadView::Content(buffer) => match parse_u64_spec(trim_spec(buffer)) {
            Some(value) => Ok(value),
            None => Err(
                CGroupErrorView::ParseCGroupFileError {
                    controller_path,
                    file,
                    buffer,
                    error: parse_complaint(trim_spec(buffer)),
                },
            ),
        },
    }
}

/// The view of what reading a counter gave.
pub open spec fn counter_view(r: Result<u64, CGroupError>) -> Result<u64, CGroupErrorView> {
    match r {
        Ok(value) => Ok(value),
        Err(error) => Err(error@),
    }
}

fn complaint(text: &[u8]) -> (reason: String)
    requires
        parse_u64_spec(text@) is None,
    ensures
        reason@ == parse_complaint(text@),
{
    if text.len() == 0 {
        return String::from_str("cannot parse integer from empty string");
    }
    let start: usize = if text[0] == crate::text::PLUS {
        1
    } else {
        0
    };
    let ghost digits = unsigned_part(text@);
    assert(digits =~= text@.skip(start as int));
    let mut i: usize = start;
    while i < text.len()
        invariant
            start <= i <= text.len(),
            digits == text@.skip(start as int),
            digits == unsigned_part(text@),
            forall|j: int| 0 <= j < i - start ==> crate::text::is_digit(#[trigger] digits[j]),
        decreases text.len() - i,
    {
        if text[i] < 48 || text[i] > 57 {
            assert(!crate::text::is_digit(digits[i - start]));
            return String::from_str("invalid digit found in string");
        }
        i += 1;
    }
    if start == text.len() {
        String::from_str("invalid digit found in string")
    } else {
        assert(all_digits(digits));
        String::from_str("number too large to fit in target type")
    }
}

/// The counter that `file` under `controller_path` held, given what came of
/// reading it.
pub fn cgroup_read(controller_path: &[u8], file: &str, read: FileRead) -> (r: Result<
    u64,
    CGroupError,
>)
    ensures
        counter_view(r) == cgroup_read_spec(controller_path@, file.spec_bytes(), read@),
{
    match read {
        FileRead::Unopened(error) => Err(
            CGroupError::OpenCGroupFileError {
                controller_path: copy_bytes(controller_path),
                file: bytes_of(file),
                error,
            },
        ),
        FileRead::Unread(error) => Err(
            CGroupError::ReadCGroupFileError {
                controller_path: copy_bytes(controller_path),
                file: bytes_of(file),
                error,
            },
        ),
        FileRead::Content(buffer) => {
            let trimmed = trim(buffer.as_slice());
            match parse_u64(trimmed.as_slice()) {
                Some(value) => Ok(value),
                None => Err(
                    CGroupError::ParseCGroupFileError {
                        controller_path: copy_bytes(controller_path),
                        file: bytes_of(file),
                        buffer,
                        error: complaint(trimmed.as_slice()),
                    },
                ),
            }
        },
    }
}

/// The files that hold what a payload used.
#[derive(Debug, PartialEq, Eq, Clone)]
pub struct UsageFiles {
    /// The processor time used, in nanoseconds.
    pub usage: Vec<u8>,
    /// The most memory used at one time, in bytes.
    pub peak: Vec<u8>,
    /// The most memory and swap used at one time, in bytes. This file is
    /// missing where swap is not accounted for.
    pub swap_peak: Vec<u8>,
}

/// Where the instance `instance_name` keeps its processor time.
pub open spec fn cpuacct_instance(controller_path: ControllerPathView, instance_name: Option<Seq<u8>>) -> Seq<
    u8,
> {
    instance_path_spec(path_or(controller_path.cpuacct, cpuacct_default_path()), instance_name)
}

/// Where the instance `instance_name` keeps its memory.
pub open spec fn memory_instance(controller_path: ControllerPathView, instance_name: Option<Seq<u8>>) -> Seq<
    u8,
> {
    instance_path_spec(path_or(controller_path.memory, memory_default_path()), instance_name)
}

/// The files that hold what the payload of the instance `instance_name`
/// used.
pub fn usage_files(controller_path: &ControllerPath, instance_name: Option<&Vec<u8>>) -> (files:
    UsageFiles)
    ensures
        files.usage@ == join_spec(
            cpuacct_instance(controller_path@, borrowed_view(instance_name)),
            "cpuacct.usage".spec_bytes(),
        ),
        files.peak@ == join_spec(
            memory_instance(controller_path@, borrowed_view(instance_name)),
            "memory.max_usage_in_bytes".spec_bytes(),
        ),
        files.swap_peak@ == join_spec(
            memory_instance(controller_path@, borrowed_view(instance_name)),
            "memory.memsw.max_usage_in_bytes".spec_bytes(),
        ),
{
    let instance = or_default(instance_name, "default");
    let cpuacct_root = or_default(controller_path.cpuacct(), "/sys/fs/cgroup/cpuacct/ia-sandbox");
    let memory_root = or_default(controller_path.memory(), "/sys/fs/cgroup/memory/ia-sandbox");
    let cpuacct = join(cpuacct_root.as_slice(), instance.as_slice());
    let memory = join(memory_root.as_slice(), instance.as_slice());
    UsageFiles {
        usage: join(cpuacct.as_slice(), bytes_of("cpuacct.usage").as_slice()),
        peak: join(memory.as_slice(), bytes_of("memory.max_usage_in_bytes").as_slice()),
        swap_peak: join(memory.as_slice(), bytes_of("memory.memsw.max_usage_in_bytes").as_slice()),
    }
}

/// What the payload of the instance `instance_name` used, given what came of
/// reading its three counters. The user time is the processor time that was
/// counted. The memory is the greater of the two peaks, or the peak of
/// memory alone where that of memory with swap cannot be had. The wall time
/// is taken as given. A counter of processor time or of memory that cannot
/// be had is an error, that of processor time first.
pub open spec fn get_usage_spec(
    controller_path: ControllerPathView,
    instance_name: Option<Seq<u8>>,
    wall_time: nat,
    usage: FileReadView,
    peak: FileReadView,
    swap_peak: FileReadView,
) -> Result<RunUsageView, CGroupErrorView> {
    let cpuacct = cpuacct_instance(controller_path, instance_name);
    let memory = memory_instance(controller_path, instance_name);
    match cgroup_read_spec(cpuacct, "cpuacct.usage".spec_bytes(), usage) {
        Err(error) => Err(error),
        Ok(nanos) => match cgroup_read_spec(
            memory,
            "memory.max_usage_in_bytes".spec_bytes(),
            peak,
        ) {
            Err(error) => Err(error),
            Ok(plain) => {
                let with_swap = match cgroup_read_spec(
                    memory,
                    "memory.memsw.max_usage_in_bytes".spec_bytes(),
                    swap_peak,
                ) {
                    Ok(value) => value,
                    Err(_) => 0,
                };
                Ok(
                    RunUsageView {
                        user_time: nanos as nat,
                        wall_time,
                        memory: if plain >= with_swap {
                            plain as nat
                        } else {
                            with_swap as nat
                        },
                    },
                )
            },
        },
    }
}

/// The view of what `get_usage` gave.
pub open spec fn usage_view(r: Result<RunUsage, CGroupError>) -> Result<RunUsageView, CGroupErrorView> {
    match r {
        Ok(usage) => Ok(usage@),
        Err(error) => Err(error@),
    }
}

pub fn get_usage(
    controller_path: &ControllerPath,
    instance_name: Option<&Vec<u8>>,
    wall_time: Duration,
    usage: FileRead,
    peak: FileRead,
    swap_peak: FileRead,
) -> (r: Result<RunUsage, CGroupError>)
    ensures
        usage_view(r) == get_usage_spec(
            controller_path@,
            borrowed_view(instance_name),
            wall_time@,
            usage@,
            peak@,
            swap_peak@,
        ),
        r matches Ok(found) ==> found.spec_wall_time() == wall_time,
{
    let instance = or_default(instance_name, "default");
    let cpuacct_root = or_default(controller_path.cpuacct(), "/sys/fs/cgroup/cpuacct/ia-sandbox");
    let memory_root = or_default(controller_path.memory(), "/sys/fs/cgroup/memory/ia-sandbox");
    let cpuacct = join(cpuacct_root.as_slice(), instance.as_slice());
    let memory = join(memory_root.as_slice(), instance.as_slice());
    let nanos = match cgroup_read(cpuacct.as_slice(), "cpuacct.usage", usage) {
        Ok(value) => value,
        Err(error) => {
            return Err(error);
        },
    };
    let plain = match cgroup_read(memory.as_slice(), "memory.max_usage_in_bytes", peak) {
        Ok(value) => value,
        Err(error) => {
            return Err(error);
        },
    };
    let with_swap = match cgroup_read(
        memory.as_slice(),
        "memory.memsw.max_usage_in_bytes",
        swap_peak,
    ) {
        Ok(value) => value,
        Err(_) => 0,
    };
    let most = if plain >= with_swap {
        plain
    } else {
        with_swap
    };
    Ok(RunUsage::new(Duration::from_nanos(nanos), wall_time, SpaceUsage::from_bytes(most)))
}

} // verus!
