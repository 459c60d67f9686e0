//! How a run ended and what it used.

use vstd::prelude::*;
use crate::config::{Limits, LimitsView, SpaceUsage};
use crate::text::{as_chars, decimal, push_decimal_text};
use crate::time::Duration;

verus! {

/// How a run ended. `Success` carries what the run handed back.
#[derive(Copy, Clone, Debug, PartialEq, Eq)]
pub enum RunInfoResult<T> {
    Success(T),
    NonZeroExitStatus(u32),
    KilledBySignal(u32),
    MemoryLimitExceeded,
    TimeLimitExceeded,
    WallTimeLimitExceeded,
}

impl<T> RunInfoResult<T> {
    /// This result with `value` in place of what a `Success` carries; any
    /// other result stays as it is.
    pub open spec fn with<A>(self, value: A) -> RunInfoResult<A> {
        match self {
            RunInfoResult::Success(_) => RunInfoResult::Success(value),
            RunInfoResult::NonZeroExitStatus(code) => RunInfoResult::NonZeroExitStatus(code),
            RunInfoResult::KilledBySignal(signal) => RunInfoResult::KilledBySignal(signal),
            RunInfoResult::MemoryLimitExceeded => RunInfoResult::MemoryLimitExceeded,
            RunInfoResult::TimeLimitExceeded => RunInfoResult::TimeLimitExceeded,
            RunInfoResult::WallTimeLimitExceeded => RunInfoResult::WallTimeLimitExceeded,
        }
    }

    /// What a result other than `Success` would carry does not matter.
    pub proof fn lemma_with_any<A>(self, one: A, other: A)
        requires
            !(self is Success),
        ensures
            self.with(one) == self.with(other),
    {
    }

    /// The line that tells a reader how the run ended.
    pub open spec fn description(self) -> Seq<char> {
        match self {
            RunInfoResult::Success(_) => "Success"@,
            RunInfoResult::NonZeroExitStatus(code) => "Non zero exit status: "@ + as_chars(
                decimal(code as nat),
            ),
            RunInfoResult::KilledBySignal(signal) => "Killed by Signal "@ + as_chars(
                decimal(signal as nat),
            ),
            RunInfoResult::MemoryLimitExceeded => "Memory limit exceeded"@,
            RunInfoResult::TimeLimitExceeded => "Time limit exceeded"@,
            RunInfoResult::WallTimeLimitExceeded => "Wall time limit exceeded"@,
        }
    }

    pub fn is_success(&self) -> (r: bool)
        ensures
            r == (self is Success),
    {
        match self {
            RunInfoResult::Success(_) => true,
            _ => false,
        }
    }

    /// Hands what a `Success` carries to `cb` and carries its answer instead,
    /// or fails with its error. `cb` is not called for any other result.
    pub fn and_then<A, B, F: FnOnce(T) -> Result<A, B>>(self, cb: F) -> (r: Result<
        RunInfoResult<A>,
        B,
    >)
        requires
            self matches RunInfoResult::Success(obj) ==> cb.requires((obj,)),
        ensures
            match self {
                RunInfoResult::Success(obj) => match r {
                    Ok(RunInfoResult::Success(value)) => cb.ensures((obj,), Ok(value)),
                    Ok(_) => false,
                    Err(error) => cb.ensures((obj,), Err(error)),
                },
                _ => r == Ok::<RunInfoResult<A>, B>(self.with(arbitrary::<A>())),
            },
    {
        match self {
            RunInfoResult::Success(obj) => match cb(obj) {
                Ok(value) => Ok(RunInfoResult::Success(value)),
                Err(error) => Err(error),
            },
            RunInfoResult::NonZeroExitStatus(exit_status) => Ok(
                RunInfoResult::NonZeroExitStatus(exit_status),
            ),
            RunInfoResult::KilledBySignal(signal) => Ok(RunInfoResult::KilledBySignal(signal)),
            RunInfoResult::MemoryLimitExceeded => Ok(RunInfoResult::MemoryLimitExceeded),
            RunInfoResult::TimeLimitExceeded => Ok(RunInfoResult::TimeLimitExceeded),
            RunInfoResult::WallTimeLimitExceeded => Ok(RunInfoResult::WallTimeLimitExceeded),
        }
    }

    pub fn success(self) -> (r: Option<T>)
        ensures
            r == match self {
                RunInfoResult::Success(obj) => Some(obj),
                _ => None,
            },
    {
        match self {
            RunInfoResult::Success(obj) => Some(obj),
            _ => None,
        }
    }

    /// The line that tells a reader how the run ended.
    pub fn describe(&self) -> (line: String)
        ensures
            line@ == self.description(),
    {
        match self {
            RunInfoResult::Success(_) => String::from_str("Success"),
            RunInfoResult::NonZeroExitStatus(exit_code) => {
                let mut line = String::from_str("Non zero exit status: ");
                push_decimal_text(&mut line, *exit_code as u128);
                line
            },
            RunInfoResult::KilledBySignal(signal) => {
                let mut line = String::from_str("Killed by Signal ");
                push_decimal_text(&mut line, *signal as u128);
                line
            },
            RunInfoResult::MemoryLimitExceeded => String::from_str("Memory limit exceeded"),
            RunInfoResult::TimeLimitExceeded => String::from_str("Time limit exceeded"),
            RunInfoResult::WallTimeLimitExceeded => String::from_str("Wall time limit exceeded"),
        }
    }
}

/// What a run used.
#[derive(Copy, Clone, Debug, PartialEq, Eq, Structural)]
pub struct RunUsage {
    user_time: Duration,
    wall_time: Duration,
    memory: SpaceUsage,
}

/// What a `RunUsage` holds: two spans in nanoseconds and an amount in bytes.
pub struct RunUsageView {
    pub user_time: nat,
    pub wall_time: nat,
    pub memory: nat,
}

impl View for RunUsage {
    type V = RunUsageView;

    closed spec fn view(&self) -> RunUsageView {
        RunUsageView {
            user_time: self.user_time@,
            wall_time: self.wall_time@,
            memory: self.memory@,
        }
    }
}

/// The verdict that `usage` earns under `limits`, if it goes beyond one of
/// them. The limits are looked at in a fixed order: user time, wall time,
/// memory. The first that is exceeded decides. Usage equal to a limit is
/// within it.
pub open spec fn exceeded<T>(usage: RunUsageView, limits: LimitsView) -> Option<RunInfoResult<T>> {
    if limits.user_time matches Some(limit) && limit@ < usage.user_time {
        Some(RunInfoResult::TimeLimitExceeded)
    } else if limits.wall_time matches Some(limit) && limit@ < usage.wall_time {
        Some(RunInfoResult::WallTimeLimitExceeded)
    } else if limits.memory matches Some(limit) && limit@ < usage.memory {
        Some(RunInfoResult::MemoryLimitExceeded)
    } else {
        None
    }
}

impl RunUsage {
    pub fn new(user_time: Duration, wall_time: Duration, memory: SpaceUsage) -> (usage: RunUsage)
        ensures
            usage@ == (RunUsageView {
                user_time: user_time@,
                wall_time: wall_time@,
                memory: memory@,
            }),
            usage.spec_user_time() == user_time,
            usage.spec_wall_time() == wall_time,
            usage.spec_memory() == memory,
    {
        RunUsage { user_time, wall_time, memory }
    }

    /// The usage of a run that spent no time and used no memory.
    pub closed spec fn zero() -> RunUsage {
        RunUsage {
            user_time: Duration::spec_from_nanos(0),
            wall_time: Duration::spec_from_nanos(0),
            memory: SpaceUsage::spec_from_bytes(0),
        }
    }

    pub closed spec fn spec_user_time(&self) -> Duration {
        self.user_time
    }

    pub closed spec fn spec_wall_time(&self) -> Duration {
        self.wall_time
    }

    pub closed spec fn spec_memory(&self) -> SpaceUsage {
        self.memory
    }

    #[verifier::when_used_as_spec(spec_user_time)]
    pub fn user_time(&self) -> (r: Duration)
        ensures
            r == self.spec_user_time(),
            r@ == self@.user_time,
    {
        self.user_time
    }

    #[verifier::when_used_as_spec(spec_wall_time)]
    pub fn wall_time(&self) -> (r: Duration)
        ensures
            r == self.spec_wall_time(),
            r@ == self@.wall_time,
    {
        self.wall_time
    }

    #[verifier::when_used_as_spec(spec_memory)]
    pub fn memory(&self) -> (r: SpaceUsage)
        ensures
            r == self.spec_memory(),
            r@ == self@.memory,
    {
        self.memory
    }

    /// The verdict on this usage if it goes beyond one of `limits`, with the
    /// usage itself; `None` if it stays within all of them.
    pub fn check_limits<T>(self, limits: Limits) -> (r: Option<RunInfo<T>>)
        ensures
            r == match exceeded::<T>(self@, limits@) {
                Some(result) => Some(RunInfo::spec_new(result, self)),
                None => None,
            },
    {
        if let Some(time) = limits.user_time() {
            if time.shorter_than(&self.user_time) {
                return Some(RunInfo::new(RunInfoResult::TimeLimitExceeded, self));
            }
        }
        if let Some(time) = limits.wall_time() {
            if time.shorter_than(&self.wall_time) {
                return Some(RunInfo::new(RunInfoResult::WallTimeLimitExceeded, self));
            }
        }
        if let Some(memory) = limits.memory() {
            if memory.as_bytes() < self.memory.as_bytes() {
                return Some(RunInfo::new(RunInfoResult::MemoryLimitExceeded, self));
            }
        }
        None
    }
}

impl Default for RunUsage {
    /// No time spent and no memory used.
    fn default() -> (usage: RunUsage)
        ensures
            usage == RunUsage::zero(),
            usage@ == (RunUsageView { user_time: 0, wall_time: 0, memory: 0 }),
    {
        RunUsage::new(Duration::from_nanos(0), Duration::from_nanos(0), SpaceUsage::from_bytes(0))
    }
}

/// How a run ended, together with what it used.
#[derive(Copy, Clone, Debug, PartialEq, Eq)]
pub struct RunInfo<T> {
    result: RunInfoResult<T>,
    usage: RunUsage,
}

impl<T> RunInfo<T> {
    pub closed spec fn spec_new(result: RunInfoResult<T>, usage: RunUsage) -> RunInfo<T> {
        RunInfo { result, usage }
    }

    pub closed spec fn spec_result(&self) -> RunInfoResult<T> {
        self.result
    }

    pub closed spec fn spec_usage(&self) -> RunUsage {
        self.usage
    }

    /// A `RunInfo` is its result and its usage, and nothing else.
    pub broadcast proof fn lemma_parts(result: RunInfoResult<T>, usage: RunUsage)
        ensures
            (#[trigger] Self::spec_new(result, usage)).spec_result() == result,
            Self::spec_new(result, usage).spec_usage() == usage,
    {
    }

    /// Two `RunInfo`s with the same result and the same usage are the same.
    pub proof fn lemma_same(self, other: RunInfo<T>)
        requires
            self.spec_result() == other.spec_result(),
            self.spec_usage() == other.spec_usage(),
        ensures
            self == other,
    {
    }

    #[verifier::when_used_as_spec(spec_new)]
    pub fn new(result: RunInfoResult<T>, usage: RunUsage) -> (info: RunInfo<T>)
        ensures
            info == Self::spec_new(result, usage),
            info.spec_result() == result,
            info.spec_usage() == usage,
    {
        RunInfo { result, usage }
    }

    pub fn result(&self) -> (r: &RunInfoResult<T>)
        ensures
            *r == self.spec_result(),
    {
        &self.result
    }

    pub fn usage(&self) -> (r: &RunUsage)
        ensures
            *r == self.spec_usage(),
    {
        &self.usage
    }

    pub fn is_success(&self) -> (r: bool)
        ensures
            r == (self.spec_result() is Success),
    {
        self.result.is_success()
    }

    /// Hands what a successful run carries to `cb` and carries its answer
    /// instead, or fails with its error. The usage stays as it is.
    pub fn and_then<A, B, F: FnOnce(T) -> Result<A, B>>(self, cb: F) -> (r: Result<RunInfo<A>, B>)
        requires
            self.spec_result() matches RunInfoResult::Success(obj) ==> cb.requires((obj,)),
        ensures
            r matches Ok(info) ==> info.spec_usage() == self.spec_usage(),
            match self.spec_result() {
                RunInfoResult::Success(obj) => match r {
                    Ok(info) => info.spec_result() matches RunInfoResult::Success(value)
                        && cb.ensures((obj,), Ok(value)),
                    Err(error) => cb.ensures((obj,), Err(error)),
                },
                other => r matches Ok(info) && info.spec_result() == other.with(arbitrary::<A>()),
            },
    {
        let RunInfo { result, usage } = self;
        match result.and_then(cb) {
            Ok(result) => Ok(RunInfo::new(result, usage)),
            Err(error) => Err(error),
        }
    }

    pub fn success(self) -> (r: Option<T>)
        ensures
            r == match self.spec_result() {
                RunInfoResult::Success(obj) => Some(obj),
                _ => None,
            },
    {
        self.result.success()
    }

    /// What a successful run carries, or else how the run ended.
    pub fn success_or_result<A>(self) -> (r: Result<T, RunInfoResult<A>>)
        ensures
            r == match self.spec_result() {
                RunInfoResult::Success(obj) => Ok::<T, RunInfoResult<A>>(obj),
                other => Err(other.with(arbitrary::<A>())),
            },
    {
        match self.result {
            RunInfoResult::Success(obj) => Ok(obj),
            RunInfoResult::NonZeroExitStatus(code) => Err(RunInfoResult::NonZeroExitStatus(code)),
            RunInfoResult::KilledBySignal(signal) => Err(RunInfoResult::KilledBySignal(signal)),
            RunInfoResult::MemoryLimitExceeded => Err(RunInfoResult::MemoryLimitExceeded),
            RunInfoResult::TimeLimitExceeded => Err(RunInfoResult::TimeLimitExceeded),
            RunInfoResult::WallTimeLimitExceeded => Err(RunInfoResult::WallTimeLimitExceeded),
        }
    }
}

} // verus!
