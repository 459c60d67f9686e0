use ia_sandbox::cgroups::{get_usage, usage_files, FileRead};
use ia_sandbox::config::{
    ClearUsage, Config, ControllerPath, Environment, Interactive, Limits, Mount, MountOptions,
    ShareNet, SpaceUsage, SwapRedirects,
};
use ia_sandbox::errors::{ChildError, Error, FFIError};
use ia_sandbox::outcome::{Directive, Event, Runner};
use ia_sandbox::run_info::{RunInfo, RunInfoResult};
use ia_sandbox::setup::{GroupId, UserId, ALARM_TIMER_INTERVAL};
use ia_sandbox::steps::{Plan, Step};
use ia_sandbox::text::{join, parse_u64, strip_root, trim};
use ia_sandbox::wait::{CloneHandle, WaitEvent, Waited};
use ia_sandbox::{conclude, payload_plan, spawn_jail, Duration, JailHandle, JailWaited};

const HELLO_WORLD: &str = "./target/release/hello_world";

const EXIT_WITH_INPUT: &str = "./target/release/exit_with_input";

const EXIT_WITH_LAST_ARGUMENT: &str = "./target/release/exit_with_last_argument";

const KILL_WITH_SIGNAL_ARG: &str = "./target/debug/kill_with_signal_arg";

const SLEEP_2_SECOND: &str = "./target/release/sleep_2_seconds";

const LOOP_500_MS: &str = "./target/release/loop_500_ms";

const THREADS_LOOP_500_MS: &str = "./target/release/threads_loop_500_ms";

const ALLOCATE_20_MEGABYTES: &str = "./target/release/allocate_20_megabytes";

const THREADS_ALLOCATE_20_MEGABYTES: &str = "./target/release/threads_allocate_20_megabytes";

const EXIT_WITH_ARG_FILE: &str = "./target/release/exit_with_arg_file";

const MEGABYTE: u64 = 1_000_000;

// ---------------------------------------------------------------------------
// A small model of the system: files, directories, and what the test
// programs do when they are started.
// ---------------------------------------------------------------------------

#[derive(Clone)]
struct World {
    files: Vec<(Vec<u8>, Vec<u8>)>,
    dirs: Vec<Vec<u8>>,
}

impl World {
    fn new() -> World {
        let mut world = World { files: Vec::new(), dirs: Vec::new() };
        world.write(b"/dev/null", b"");
        for controller in ["cpuacct", "memory", "pids"] {
            world.dirs.push(format!("/sys/fs/cgroup/{}/ia-sandbox", controller).into_bytes());
        }
        world
    }

    fn read(&self, path: &[u8]) -> Option<Vec<u8>> {
        self.files.iter().rev().find(|(name, _)| name.as_slice() == path).map(|(_, data)| data.clone())
    }

    fn write(&mut self, path: &[u8], data: &[u8]) {
        self.files.retain(|(name, _)| name.as_slice() != path);
        self.files.push((path.to_vec(), data.to_vec()));
    }

    fn append(&mut self, path: &[u8], data: &[u8]) {
        let mut content = self.read(path).unwrap_or_default();
        content.extend_from_slice(data);
        self.write(path, &content);
    }

    fn has_dir(&self, path: &[u8]) -> bool {
        self.dirs.iter().any(|dir| dir.as_slice() == path)
    }
}

/// What the payload has made of itself by the time it starts its program.
struct Process {
    streams: [Option<Vec<u8>>; 3],
    opened: [bool; 3],
    root: Option<Vec<u8>>,
    mounts: Vec<(Vec<u8>, Vec<u8>)>,
    started: Option<(Vec<u8>, Vec<Vec<u8>>)>,
}

impl Process {
    fn new() -> Process {
        Process {
            streams: [None, None, None],
            opened: [true, true, true],
            root: None,
            mounts: Vec::new(),
            started: None,
        }
    }

    /// Where a path of the jail lies outside.
    fn outside(&self, path: &[u8]) -> Vec<u8> {
        let host = match &self.root {
            Some(root) => join(root, &strip_root(path)),
            None => path.to_vec(),
        };
        for (target, source) in self.mounts.iter().rev() {
            if host.len() > target.len() && host.starts_with(target) && host[target.len()] == b'/' {
                return join(source, &host[target.len() + 1..]);
            }
        }
        host
    }
}

fn failed(code: i32, message: &str) -> Event {
    Event::Failed { opening: false, code, message: message.to_string() }
}

/// Performs one step of the payload on the model.
fn perform(step: &Step, world: &mut World, process: &mut Process) -> Event {
    match step {
        Step::CloseStream { stream } => {
            process.opened[stream.fd() as usize] = false;
            process.streams[stream.fd() as usize] = None;
            Event::Done(0)
        }
        Step::OpenStream { stream, path } => {
            let free = (0..3).find(|fd| !process.opened[*fd]).unwrap_or(3);
            if stream.is_written() {
                world.write(path, b"");
            } else if world.read(path).is_none() {
                return failed(2, "No such file or directory");
            }
            if free < 3 {
                process.opened[free] = true;
                process.streams[free] = Some(path.clone());
            }
            Event::Done(free as i32)
        }
        Step::RequireController { path } => {
            if world.has_dir(path) {
                Event::Done(0)
            } else {
                failed(2, "No such file or directory")
            }
        }
        Step::CreateInstance { controller_path, instance_name } => {
            let path = join(controller_path, instance_name);
            if !world.has_dir(&path) {
                world.dirs.push(path);
            }
            Event::Done(0)
        }
        Step::WriteControl { controller_path, file, data, .. } => {
            if !world.has_dir(controller_path) || file.starts_with(b"memory.memsw") {
                return Event::Failed {
                    opening: true,
                    code: 2,
                    message: "No such file or directory".to_string(),
                };
            }
            world.write(&join(controller_path, file), data);
            Event::Done(0)
        }
        Step::Mount { source: Some(source), target, flags, .. } if flags.bind && !flags.recursive => {
            process.mounts.retain(|(place, _)| place != target);
            process.mounts.push((target.clone(), source.clone()));
            Event::Done(0)
        }
        Step::PivotRoot { new_root, .. } => {
            process.root = Some(new_root.clone());
            Event::Done(0)
        }
        Step::Exec { command, arguments, .. } => {
            let host = process.outside(command);
            if world.read(&host).is_none() {
                return failed(2, "No such file or directory");
            }
            process.started = Some((host, arguments.clone()));
            Event::Done(0)
        }
        _ => Event::Done(0),
    }
}

/// Performs a plan on the model until it ends or is given up.
fn carry_out(plan: Plan, world: &mut World, process: &mut Process) -> Option<ChildError> {
    let mut runner = Runner::new(plan);
    loop {
        let step = match runner.due() {
            Some(step) => step.clone(),
            None => return None,
        };
        let event = perform(&step, world, process);
        match runner.feed(event) {
            Directive::Proceed => {}
            Directive::Retry { .. } => {}
            Directive::Abort(error) => return Some(error),
        }
        if process.started.is_some() {
            return None;
        }
    }
}

/// What a program does once it runs.
struct Behaviour {
    status: i32,
    user_millis: u64,
    wall_millis: u64,
    memory: u64,
    tasks: u64,
}

fn number(text: &[u8]) -> i32 {
    parse_u64(&trim(text)).expect("a number") as i32
}

fn behave(world: &mut World, process: &Process) -> Behaviour {
    let (program, arguments) = process.started.clone().expect("a started program");
    let name = program.rsplit(|byte| *byte == b'/').next().unwrap().to_vec();
    let mut behaviour = Behaviour { status: 0, user_millis: 1, wall_millis: 2, memory: MEGABYTE, tasks: 1 };
    match name.as_slice() {
        b"hello_world" => {
            if let Some(path) = &process.streams[1] {
                world.append(path, b"Hello World!\n");
            }
            if let Some(path) = &process.streams[2] {
                world.append(path, b"Hello stderr!\n");
            }
        }
        b"exit_with_input" => {
            let input = process.streams[0].as_ref().and_then(|path| world.read(path)).unwrap_or_default();
            behaviour.status = number(&input) << 8;
        }
        b"exit_with_last_argument" => {
            behaviour.status = number(arguments.last().expect("an argument")) << 8;
        }
        b"kill_with_signal_arg" => {
            behaviour.status = number(&arguments[0]);
        }
        b"sleep_2_seconds" => {
            behaviour.wall_millis = 2_000;
        }
        b"loop_500_ms" => {
            behaviour.user_millis = 500;
            behaviour.wall_millis = 500;
        }
        b"threads_loop_500_ms" => {
            behaviour.user_millis = 500;
            behaviour.wall_millis = 300;
        }
        b"allocate_20_megabytes" => {
            behaviour.memory = 21 * MEGABYTE;
        }
        b"threads_allocate_20_megabytes" => {
            behaviour.memory = 25 * MEGABYTE;
            behaviour.tasks = 5;
        }
        b"exit_with_arg_file" => {
            let content = world.read(&process.outside(&arguments[0])).expect("the file");
            behaviour.status = number(&content) << 8;
        }
        _ => panic!("unknown program"),
    }
    behaviour
}

fn read_file(world: &World, path: &[u8]) -> FileRead {
    match world.read(path) {
        Some(content) => FileRead::Content(content),
        None => FileRead::Unopened("No such file or directory".to_string()),
    }
}

/// The limit that the payload wrote to `file` of its group, if it wrote one.
fn written_limit(world: &World, config: &Config, controller: &str, file: &str) -> Option<u64> {
    let name = config.instance_name().cloned().unwrap_or(b"default".to_vec());
    let root = format!("/sys/fs/cgroup/{}/ia-sandbox", controller).into_bytes();
    let content = world.read(&join(&join(&root, &name), file.as_bytes()))?;
    parse_u64(&trim(&content))
}

/// The supervisor as it watches the payload: it takes the usage at every
/// tick of the timer and waits in between.
fn supervise(
    config: &Config,
    world: &mut World,
    behaviour: &Behaviour,
    report: Option<Result<(), ChildError>>,
) -> Result<RunInfo<()>, Error> {
    let files = usage_files(config.controller_path(), config.instance_name());
    let memory_limit = written_limit(world, config, "memory", "memory.limit_in_bytes");
    let pids_limit = written_limit(world, config, "pids", "pids.max");
    let mut status = behaviour.status;
    let mut memory = behaviour.memory;
    if let Some(limit) = memory_limit {
        if memory > limit {
            memory = limit;
            status = 9;
        }
    }
    if let Some(limit) = pids_limit {
        if behaviour.tasks > limit {
            status = 101 << 8;
        }
    }
    let tick = ALARM_TIMER_INTERVAL as u64 / 1_000;
    let mut handle = CloneHandle::new(2, report);
    let mut elapsed = 0;
    loop {
        let done = elapsed >= behaviour.wall_millis;
        let user = behaviour.user_millis * elapsed.min(behaviour.wall_millis) / behaviour.wall_millis;
        world.write(&files.usage, format!("{}\n", user * 1_000_000).as_bytes());
        world.write(&files.peak, format!("{}\n", memory).as_bytes());
        let usage = get_usage(
            config.controller_path(),
            config.instance_name(),
            Duration::from_millis(elapsed),
            read_file(world, &files.usage),
            read_file(world, &files.peak),
            read_file(world, &files.swap_peak),
        )
        .map_err(Error::CGroupError)?;
        if let Some(info) = handle.check(config.limits(), usage) {
            return conclude(info, config.limits());
        }
        let event = if done {
            WaitEvent::Status(status)
        } else {
            WaitEvent::Failed { code: 4, message: "Interrupted system call".to_string() }
        };
        match handle.wait(usage, event) {
            Waited::Again(again) => handle = again,
            Waited::Finished(info) => return conclude(info, config.limits()),
            Waited::Failed(error) => return Err(error),
        }
        elapsed += tick;
    }
}

/// Runs a jail on the model, from the driver down to the payload and back.
fn run_jail(config: &Config, world: &mut World) -> Result<RunInfo<()>, Error> {
    let jail = spawn_jail(config, UserId(1000), GroupId(1000));
    let mut outside = Process::new();
    if let Some(error) = carry_out(jail.driver, world, &mut outside) {
        return Err(Error::ChildError(error));
    }
    let mut supervisor = Process::new();
    let verdict = match carry_out(jail.supervisor, world, &mut supervisor) {
        Some(error) => Err(Error::ChildError(error)),
        None => {
            let mut payload = Process::new();
            let report = carry_out(payload_plan(config, 2), world, &mut payload).map(Err);
            let behaviour = match report {
                Some(_) => Behaviour { status: 0, user_millis: 0, wall_millis: 1, memory: 0, tasks: 1 },
                None => behave(world, &payload),
            };
            supervise(config, world, &behaviour, report)
        }
    };
    let mut handle = JailHandle::new(1, Some(verdict));
    loop {
        match handle.wait(WaitEvent::Status(0)) {
            JailWaited::Again(again) => handle = again,
            JailWaited::Finished(answer) => return answer,
        }
    }
}

// ---------------------------------------------------------------------------
// Builders and matchers.
// ---------------------------------------------------------------------------

struct ConfigBuilder {
    command: Vec<u8>,
    args: Vec<Vec<u8>>,
    new_root: Option<Vec<u8>>,
    share_net: bool,
    redirect_stdin: Option<Vec<u8>>,
    redirect_stdout: Option<Vec<u8>>,
    redirect_stderr: Option<Vec<u8>>,
    limits: Option<Limits>,
    instance_name: Option<Vec<u8>>,
    mounts: Vec<Mount>,
    world: World,
}

impl ConfigBuilder {
    fn new(command: &[u8]) -> ConfigBuilder {
        ConfigBuilder {
            command: command.to_vec(),
            args: vec![],
            new_root: None,
            share_net: true,
            redirect_stdin: Some(b"/dev/null".to_vec()),
            redirect_stdout: Some(b"/dev/null".to_vec()),
            redirect_stderr: Some(b"/dev/null".to_vec()),
            limits: None,
            instance_name: Some(b"test".to_vec()),
            mounts: vec![],
            world: World::new(),
        }
    }

    fn command(&mut self, command: &str) -> &mut ConfigBuilder {
        self.command = command.as_bytes().to_vec();
        self
    }

    fn arg(&mut self, arg: &str) -> &mut ConfigBuilder {
        self.args.push(arg.as_bytes().to_vec());
        self
    }

    fn args(&mut self, args: Vec<&str>) -> &mut ConfigBuilder {
        for arg in args {
            self.arg(arg);
        }
        self
    }

    fn new_root(&mut self, new_root: &[u8]) -> &mut ConfigBuilder {
        self.new_root = Some(new_root.to_vec());
        self
    }

    fn share_net(&mut self, share_net: bool) -> &mut ConfigBuilder {
        self.share_net = share_net;
        self
    }

    fn stdin(&mut self, path: &[u8]) -> &mut ConfigBuilder {
        self.redirect_stdin = Some(path.to_vec());
        self
    }

    fn stdout(&mut self, path: &[u8]) -> &mut ConfigBuilder {
        self.redirect_stdout = Some(path.to_vec());
        self
    }

    fn stderr(&mut self, path: &[u8]) -> &mut ConfigBuilder {
        self.redirect_stderr = Some(path.to_vec());
        self
    }

    fn limits(&mut self, limits: LimitsBuilder) -> &mut ConfigBuilder {
        self.limits = Some(limits.into());
        self
    }

    fn instance_name(&mut self, instance_name: &str) -> &mut ConfigBuilder {
        self.instance_name = Some(instance_name.as_bytes().to_vec());
        self
    }

    fn mount(&mut self, mount: Mount) -> &mut ConfigBuilder {
        self.mounts.push(mount);
        self
    }

    fn build_and_run(&mut self) -> Result<RunInfo<()>, Error> {
        let config = Config::new(
            self.command.clone(),
            self.args.clone(),
            self.new_root.clone(),
            if self.share_net { ShareNet::Share } else { ShareNet::Unshare },
            self.redirect_stdin.clone(),
            self.redirect_stdout.clone(),
            self.redirect_stderr.clone(),
            self.limits.unwrap_or_default(),
            self.instance_name.clone(),
            ControllerPath::default(),
            self.mounts.clone(),
            SwapRedirects::No,
            ClearUsage::Yes,
            Interactive::No,
            Environment::EnvList(Vec::new()),
        );
        run_jail(&config, &mut self.world)
    }
}

#[derive(Clone, Copy, Default)]
struct LimitsBuilder {
    wall_time: Option<Duration>,
    user_time: Option<Duration>,
    memory: Option<SpaceUsage>,
    stack: Option<SpaceUsage>,
    pids: Option<usize>,
}

impl LimitsBuilder {
    fn new() -> Self {
        LimitsBuilder { wall_time: None, user_time: None, memory: None, stack: None, pids: None }
    }

    fn wall_time(&mut self, wall_time: Duration) -> &mut LimitsBuilder {
        self.wall_time = Some(wall_time);
        self
    }

    fn user_time(&mut self, user_time: Duration) -> &mut LimitsBuilder {
        self.user_time = Some(user_time);
        self
    }

    fn memory(&mut self, memory: SpaceUsage) -> &mut LimitsBuilder {
        self.memory = Some(memory);
        self
    }

    fn pids(&mut self, pids: usize) -> &mut LimitsBuilder {
        self.pids = Some(pids);
        self
    }
}

impl From<LimitsBuilder> for Limits {
    fn from(builder: LimitsBuilder) -> Limits {
        Limits::new(builder.wall_time, builder.user_time, builder.memory, builder.stack, builder.pids)
    }
}

#[derive(Clone, Copy, PartialEq, Eq)]
enum PivotRoot {
    Pivot,
    DoNot,
}

struct TestRunnerHelper {
    temp_dir: Vec<u8>,
    config_builder: ConfigBuilder,
}

fn file_name(path: &str) -> &str {
    path.rsplit('/').next().unwrap()
}

impl TestRunnerHelper {
    fn for_simple_exec(test_name: &str, exec_path: &str, pivot_root: PivotRoot) -> TestRunnerHelper {
        let temp_dir = format!("/tmp/{}", test_name).into_bytes();
        let mut config_builder = match pivot_root {
            PivotRoot::Pivot => {
                let mut builder = ConfigBuilder::new(format!("/{}", file_name(exec_path)).as_bytes());
                builder.new_root(&temp_dir);
                builder
            }
            PivotRoot::DoNot => ConfigBuilder::new(exec_path.as_bytes()),
        };
        config_builder.world.write(exec_path.as_bytes(), b"program");
        config_builder.world.write(&join(&temp_dir, file_name(exec_path).as_bytes()), b"program");
        config_builder.instance_name(test_name);
        TestRunnerHelper { temp_dir, config_builder }
    }

    fn config_builder(&mut self) -> &mut ConfigBuilder {
        &mut self.config_builder
    }

    fn file_path(&mut self, path: &str) -> Vec<u8> {
        join(&self.temp_dir, path.as_bytes())
    }

    fn write_file(&mut self, path: &str, data: &[u8]) {
        let place = self.file_path(path);
        self.config_builder.world.write(&place, data);
    }

    fn read_line(&mut self, path: &[u8]) -> String {
        String::from_utf8(self.config_builder.world.read(path).unwrap()).unwrap()
    }
}

trait Matcher {
    fn assertion_string(&self) -> String;
    fn try_match(&self, run_info: &RunInfo<()>) -> bool;
}

struct IsSuccess;

impl Matcher for IsSuccess {
    fn assertion_string(&self) -> String {
        "result is Success".to_string()
    }

    fn try_match(&self, run_info: &RunInfo<()>) -> bool {
        run_info.is_success()
    }
}

#[derive(Clone, Copy)]
struct NonZeroExitStatus(Option<u32>);

impl NonZeroExitStatus {
    fn new(exit_status: u32) -> NonZeroExitStatus {
        NonZeroExitStatus(Some(exit_status))
    }

    fn any() -> NonZeroExitStatus {
        NonZeroExitStatus(None)
    }
}

impl Matcher for NonZeroExitStatus {
    fn assertion_string(&self) -> String {
        match self.0 {
            Some(x) => format!("result is NonZeroExitStatus({})", x),
            None => "result is NonZeroExitStatus(_)".to_string(),
        }
    }

    fn try_match(&self, run_info: &RunInfo<()>) -> bool {
        match *run_info.result() {
            RunInfoResult::NonZeroExitStatus(x) => self.0.map(|y| x == y).unwrap_or(true),
            _ => false,
        }
    }
}

#[derive(Clone, Copy)]
struct KilledBySignal(u32);

impl Matcher for KilledBySignal {
    fn assertion_string(&self) -> String {
        format!("result is KilledBySignal({})", self.0)
    }

    fn try_match(&self, run_info: &RunInfo<()>) -> bool {
        matches!(*run_info.result(), RunInfoResult::KilledBySignal(x) if x == self.0)
    }
}

struct WallTimeLimitExceeded;

impl Matcher for WallTimeLimitExceeded {
    fn assertion_string(&self) -> String {
        "result is WallTimeLimitExceeded".to_string()
    }

    fn try_match(&self, run_info: &RunInfo<()>) -> bool {
        matches!(*run_info.result(), RunInfoResult::WallTimeLimitExceeded)
    }
}

struct TimeLimitExceeded;

impl Matcher for TimeLimitExceeded {
    fn assertion_string(&self) -> String {
        "result is TimeLimitExceeded".to_string()
    }

    fn try_match(&self, run_info: &RunInfo<()>) -> bool {
        matches!(*run_info.result(), RunInfoResult::TimeLimitExceeded)
    }
}

struct MemoryLimitExceeded;

impl Matcher for MemoryLimitExceeded {
    fn assertion_string(&self) -> String {
        "result is MemoryLimitExceeded".to_string()
    }

    fn try_match(&self, run_info: &RunInfo<()>) -> bool {
        matches!(*run_info.result(), RunInfoResult::MemoryLimitExceeded)
    }
}

struct CompareLimits<T: Matcher> {
    matcher: T,
    limits: Limits,
}

impl<T: Matcher> CompareLimits<T> {
    fn new(matcher: T, limits: LimitsBuilder) -> CompareLimits<T> {
        CompareLimits { matcher, limits: limits.into() }
    }
}

impl<T: Matcher> Matcher for CompareLimits<T> {
    fn assertion_string(&self) -> String {
        format!("{} under {:?}", self.matcher.assertion_string(), self.limits)
    }

    fn try_match(&self, run_info: &RunInfo<()>) -> bool {
        self.matcher.try_match(run_info)
    }
}

trait RunInfoExt {
    fn must<F: Matcher>(self, matcher: F);
}

impl RunInfoExt for RunInfo<()> {
    fn must<F: Matcher>(self, matcher: F) {
        if !matcher.try_match(&self) {
            panic!("assertion failed: {}\n{}", matcher.assertion_string(), self.result().describe());
        }
    }
}

// ---------------------------------------------------------------------------
// The runs.
// ---------------------------------------------------------------------------

#[test]
fn test_basic_sandbox() {
    TestRunnerHelper::for_simple_exec("test_basic_sandbox", HELLO_WORLD, PivotRoot::DoNot)
        .config_builder()
        .build_and_run()
        .unwrap()
        .must(IsSuccess)
}

#[test]
fn test_exec_failed() {
    match TestRunnerHelper::for_simple_exec("test_exec_failed", HELLO_WORLD, PivotRoot::DoNot)
        .config_builder()
        .command("missing")
        .build_and_run()
        .unwrap_err()
    {
        Error::ChildError(ChildError::FFIError(FFIError::ExecError { .. })) => (),
        err => assert!(false, "Expected exec error, got {}", format!("{:?}", err)),
    }
}

#[test]
fn test_pivot_root() {
    TestRunnerHelper::for_simple_exec("test_pivot_root", HELLO_WORLD, PivotRoot::Pivot)
        .config_builder()
        .build_and_run()
        .unwrap()
        .must(IsSuccess)
}

#[test]
fn test_unshare_net() {
    TestRunnerHelper::for_simple_exec("test_unshare_net", HELLO_WORLD, PivotRoot::Pivot)
        .config_builder()
        .share_net(false)
        .build_and_run()
        .unwrap()
        .must(IsSuccess)
}

#[test]
fn test_redirect_stdin() {
    let mut helper =
        TestRunnerHelper::for_simple_exec("test_redirect_stdin", EXIT_WITH_INPUT, PivotRoot::Pivot);

    helper.write_file("input", b"0");
    let input_path = helper.file_path("input");
    helper.config_builder().stdin(&input_path).build_and_run().unwrap().must(IsSuccess);

    helper.write_file("input", b"23");
    helper.config_builder().build_and_run().unwrap().must(NonZeroExitStatus::new(23));
}

#[test]
fn test_redirect_stdout() {
    let mut helper =
        TestRunnerHelper::for_simple_exec("test_redirect_stdout", HELLO_WORLD, PivotRoot::Pivot);

    let output_path = helper.file_path("output");
    helper.config_builder().stdout(&output_path).build_and_run().unwrap().must(IsSuccess);

    assert_eq!(helper.read_line(&output_path), "Hello World!\n");
}

#[test]
fn test_redirect_stderr() {
    let mut helper =
        TestRunnerHelper::for_simple_exec("test_redirect_stderr", HELLO_WORLD, PivotRoot::Pivot);

    let stderr_path = helper.file_path("stderr");
    helper.config_builder().stderr(&stderr_path).build_and_run().unwrap().must(IsSuccess);

    assert_eq!(helper.read_line(&stderr_path), "Hello stderr!\n");
}

#[test]
fn test_arguments() {
    TestRunnerHelper::for_simple_exec("test_arguments", EXIT_WITH_LAST_ARGUMENT, PivotRoot::Pivot)
        .config_builder()
        .arg("0")
        .build_and_run()
        .unwrap()
        .must(IsSuccess);

    TestRunnerHelper::for_simple_exec("test_arguments", EXIT_WITH_LAST_ARGUMENT, PivotRoot::Pivot)
        .config_builder()
        .args(vec!["24", "0", "17"])
        .build_and_run()
        .unwrap()
        .must(NonZeroExitStatus::new(17))
}

#[test]
fn test_killed_by_signal() {
    TestRunnerHelper::for_simple_exec("test_killed_by_signal", KILL_WITH_SIGNAL_ARG, PivotRoot::Pivot)
        .config_builder()
        .arg("8")
        .build_and_run()
        .unwrap()
        .must(KilledBySignal(8));

    TestRunnerHelper::for_simple_exec("test_killed_by_signal", KILL_WITH_SIGNAL_ARG, PivotRoot::Pivot)
        .config_builder()
        .arg("11")
        .build_and_run()
        .unwrap()
        .must(KilledBySignal(11));
}

#[test]
fn test_wall_time_limit_exceeded() {
    let mut limits = LimitsBuilder::new();
    limits.wall_time(Duration::from_millis(2200));

    TestRunnerHelper::for_simple_exec("test_wall_time_limit_exceeded", SLEEP_2_SECOND, PivotRoot::Pivot)
        .config_builder()
        .limits(limits)
        .build_and_run()
        .unwrap()
        .must(CompareLimits::new(IsSuccess, limits));

    limits.wall_time(Duration::from_millis(1800));
    TestRunnerHelper::for_simple_exec("test_wall_time_limit_exceeded", SLEEP_2_SECOND, PivotRoot::Pivot)
        .config_builder()
        .limits(limits)
        .build_and_run()
        .unwrap()
        .must(CompareLimits::new(WallTimeLimitExceeded, limits));
}

#[test]
fn test_time_limit_exceeded() {
    let mut limits = LimitsBuilder::new();
    limits.user_time(Duration::from_millis(600));

    TestRunnerHelper::for_simple_exec("test_time_limit_exceeded", LOOP_500_MS, PivotRoot::Pivot)
        .config_builder()
        .limits(limits)
        .build_and_run()
        .unwrap()
        .must(CompareLimits::new(IsSuccess, limits));

    limits.user_time(Duration::from_millis(450));
    TestRunnerHelper::for_simple_exec("test_time_limit_exceeded", LOOP_500_MS, PivotRoot::Pivot)
        .config_builder()
        .limits(limits)
        .build_and_run()
        .unwrap()
        .must(CompareLimits::new(TimeLimitExceeded, limits));
}

#[test]
fn test_threads_time_limit_exceeded() {
    let mut limits = LimitsBuilder::new();
    limits.user_time(Duration::from_millis(600));

    TestRunnerHelper::for_simple_exec(
        "test_threads_time_limit_exceeded",
        THREADS_LOOP_500_MS,
        PivotRoot::Pivot,
    )
    .config_builder()
    .limits(limits)
    .build_and_run()
    .unwrap()
    .must(CompareLimits::new(IsSuccess, limits));

    limits.user_time(Duration::from_millis(450));
    TestRunnerHelper::for_simple_exec(
        "test_threads_time_limit_exceeded",
        THREADS_LOOP_500_MS,
        PivotRoot::Pivot,
    )
    .config_builder()
    .limits(limits)
    .build_and_run()
    .unwrap()
    .must(CompareLimits::new(TimeLimitExceeded, limits));
}

#[test]
fn test_threads_wall_time_limit_exceeded() {
    let mut limits = LimitsBuilder::new();
    limits.wall_time(Duration::from_millis(1000)).user_time(Duration::from_millis(600));

    TestRunnerHelper::for_simple_exec(
        "test_threads_wall_time_limit_exceeded",
        THREADS_LOOP_500_MS,
        PivotRoot::Pivot,
    )
    .config_builder()
    .limits(limits)
    .build_and_run()
    .unwrap()
    .must(CompareLimits::new(IsSuccess, limits));
}

#[test]
fn test_memory_limit_exceeded() {
    let mut limits = LimitsBuilder::new();
    limits.memory(SpaceUsage::from_megabytes(26));

    TestRunnerHelper::for_simple_exec("test_memory_limit_exceeded", ALLOCATE_20_MEGABYTES, PivotRoot::Pivot)
        .config_builder()
        .limits(limits)
        .build_and_run()
        .unwrap()
        .must(CompareLimits::new(IsSuccess, limits));

    limits.memory(SpaceUsage::from_megabytes(19));
    TestRunnerHelper::for_simple_exec("test_memory_limit_exceeded", ALLOCATE_20_MEGABYTES, PivotRoot::Pivot)
        .config_builder()
        .limits(limits)
        .build_and_run()
        .unwrap()
        .must(CompareLimits::new(MemoryLimitExceeded, limits));
}

#[test]
fn test_threads_memory_limit_exceeded() {
    let mut limits = LimitsBuilder::new();
    limits.memory(SpaceUsage::from_megabytes(40));

    TestRunnerHelper::for_simple_exec(
        "test_threads_memory_limit_exceeded",
        THREADS_ALLOCATE_20_MEGABYTES,
        PivotRoot::Pivot,
    )
    .config_builder()
    .limits(limits)
    .build_and_run()
    .unwrap()
    .must(CompareLimits::new(IsSuccess, limits));

    limits.memory(SpaceUsage::from_megabytes(19));
    TestRunnerHelper::for_simple_exec(
        "test_threads_memory_limit_exceeded",
        THREADS_ALLOCATE_20_MEGABYTES,
        PivotRoot::Pivot,
    )
    .config_builder()
    .limits(limits)
    .build_and_run()
    .unwrap()
    .must(CompareLimits::new(MemoryLimitExceeded, limits));
}

#[test]
fn test_pids_limit_exceeded() {
    let mut limits = LimitsBuilder::new();
    limits.pids(5);

    TestRunnerHelper::for_simple_exec(
        "test_pids_limit_exceeded",
        THREADS_ALLOCATE_20_MEGABYTES,
        PivotRoot::Pivot,
    )
    .config_builder()
    .limits(limits)
    .build_and_run()
    .unwrap()
    .must(CompareLimits::new(IsSuccess, limits));

    limits.pids(4);
    TestRunnerHelper::for_simple_exec(
        "test_pids_limit_exceeded",
        THREADS_ALLOCATE_20_MEGABYTES,
        PivotRoot::Pivot,
    )
    .config_builder()
    .limits(limits)
    .build_and_run()
    .unwrap()
    .must(CompareLimits::new(NonZeroExitStatus::any(), limits));
}

#[test]
fn test_mount_directory() {
    let temp_dir = b"/tmp/test_mount_directory_special".to_vec();
    let input_path = join(&temp_dir, b"input");

    let mut helper =
        TestRunnerHelper::for_simple_exec("test_mount_directory", EXIT_WITH_ARG_FILE, PivotRoot::Pivot);
    helper.config_builder.world.write(&input_path, "15\n".as_bytes());
    helper
        .config_builder()
        .mount(Mount::new(temp_dir, b"/mount".to_vec(), MountOptions::default()))
        .arg("/mount/input")
        .build_and_run()
        .unwrap()
        .must(NonZeroExitStatus::new(15));
}
