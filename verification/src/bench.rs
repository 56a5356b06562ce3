//! The benchmark: its scenarios, and what each has workers and handlers do.

use vstd::prelude::*;
use vstd::string::StringExecFns;

use crate::identifier::{QueueName, TaskName};
use crate::json::{is_unsigned, Json, JsonObject};
use crate::number::NonZeroU16;
use crate::retry::RetryPolicy;
use crate::settings::{number_error_text, number_value, setting, NumberError};
use crate::task::EnqueueRequest;
use crate::text::{same_text, str_debug, str_debug_text};
use crate::time::{Duration, Timestamp, NANOS_PER_MILLI, NANOS_PER_SEC};
use crate::worker::{is_default_config, WorkerConfig};

verus! {

/// What a benchmark puts a strain on.
#[derive(Clone, Copy, Debug, PartialEq, Eq, Structural)]
pub enum Scenario {
    CpuBound,
    Noop,
    DelayedBurst,
    DatabaseDisconnect,
    IoBound,
    MultiScheduler,
    RateLimited,
    RetainedHistory,
    RetryStorm,
    WorkerDeath,
}

/// The name of a scenario.
pub open spec fn scenario_name(scenario: Scenario) -> Seq<char> {
    match scenario {
        Scenario::CpuBound => "cpu-bound"@,
        Scenario::Noop => "noop"@,
        Scenario::DelayedBurst => "delayed-burst"@,
        Scenario::DatabaseDisconnect => "database-disconnect"@,
        Scenario::IoBound => "io-bound"@,
        Scenario::MultiScheduler => "multi-scheduler"@,
        Scenario::RateLimited => "rate-limited"@,
        Scenario::RetainedHistory => "retained-history"@,
        Scenario::RetryStorm => "retry-storm"@,
        Scenario::WorkerDeath => "worker-death"@,
    }
}

/// Whether a text names a scenario.
pub open spec fn names_scenario(text: Seq<char>) -> bool {
    exists|scenario: Scenario| text == #[trigger] scenario_name(scenario)
}

/// The list of scenarios, each once.
spec fn all_scenarios() -> Seq<Scenario> {
    seq![
        Scenario::CpuBound,
        Scenario::Noop,
        Scenario::DelayedBurst,
        Scenario::DatabaseDisconnect,
        Scenario::IoBound,
        Scenario::MultiScheduler,
        Scenario::RateLimited,
        Scenario::RetainedHistory,
        Scenario::RetryStorm,
        Scenario::WorkerDeath,
    ]
}

impl Scenario {
    /// The scenario that a text names, and the one without strain where there is no text.
    pub fn from_environment(value: Option<&str>) -> (result: Result<Self, BenchError>)
        ensures
            match value {
                None => result == Ok::<_, BenchError>(Scenario::Noop),
                Some(text) => if names_scenario(text@) {
                    result is Ok && scenario_name(result->Ok_0) == text@
                } else {
                    result is Err && result->Err_0@ == BenchFault::UnknownScenario(text@)
                },
            },
    {
        let text = match value {
            None => return Ok(Scenario::Noop),
            Some(text) => text,
        };
        let scenarios = [
            Scenario::CpuBound,
            Scenario::Noop,
            Scenario::DelayedBurst,
            Scenario::DatabaseDisconnect,
            Scenario::IoBound,
            Scenario::MultiScheduler,
            Scenario::RateLimited,
            Scenario::RetainedHistory,
            Scenario::RetryStorm,
            Scenario::WorkerDeath,
        ];
        let mut index: usize = 0;
        while index < 10
            invariant
                index <= 10,
                value == Some(text),
                scenarios@ == all_scenarios(),
                forall|i: int| 0 <= i < index ==> text@ != scenario_name(#[trigger] scenarios@[i]),
            decreases 10 - index,
        {
            let scenario = scenarios[index];
            if same_text(text, scenario.name()) {
                assert(names_scenario(text@));
                return Ok(scenario);
            }
            index += 1;
        }
        proof {
            assert forall|scenario: Scenario| text@ != #[trigger] scenario_name(scenario) by {
                match scenario {
                    Scenario::CpuBound => assert(scenarios@[0] == scenario),
                    Scenario::Noop => assert(scenarios@[1] == scenario),
                    Scenario::DelayedBurst => assert(scenarios@[2] == scenario),
                    Scenario::DatabaseDisconnect => assert(scenarios@[3] == scenario),
                    Scenario::IoBound => assert(scenarios@[4] == scenario),
                    Scenario::MultiScheduler => assert(scenarios@[5] == scenario),
                    Scenario::RateLimited => assert(scenarios@[6] == scenario),
                    Scenario::RetainedHistory => assert(scenarios@[7] == scenario),
                    Scenario::RetryStorm => assert(scenarios@[8] == scenario),
                    Scenario::WorkerDeath => assert(scenarios@[9] == scenario),
                }
            }
        }
        Err(BenchError::UnknownScenario(text.to_owned()))
    }

    pub fn name(self) -> (result: &'static str)
        ensures
            result@ == scenario_name(self),
    {
        match self {
            Scenario::CpuBound => "cpu-bound",
            Scenario::Noop => "noop",
            Scenario::DelayedBurst => "delayed-burst",
            Scenario::DatabaseDisconnect => "database-disconnect",
            Scenario::IoBound => "io-bound",
            Scenario::MultiScheduler => "multi-scheduler",
            Scenario::RateLimited => "rate-limited",
            Scenario::RetainedHistory => "retained-history",
            Scenario::RetryStorm => "retry-storm",
            Scenario::WorkerDeath => "worker-death",
        }
    }
}

/// Every scenario is found by its name: no two have the same.
pub proof fn scenario_names_differ(left: Scenario, right: Scenario)
    requires
        scenario_name(left) == scenario_name(right),
    ensures
        left == right,
{
    reveal_strlit("cpu-bound");
    reveal_strlit("noop");
    reveal_strlit("delayed-burst");
    reveal_strlit("database-disconnect");
    reveal_strlit("io-bound");
    reveal_strlit("multi-scheduler");
    reveal_strlit("rate-limited");
    reveal_strlit("retained-history");
    reveal_strlit("retry-storm");
    reveal_strlit("worker-death");
    assert("cpu-bound"@.len() == 9 && "noop"@.len() == 4 && "delayed-burst"@.len() == 13
        && "database-disconnect"@.len() == 19 && "io-bound"@.len() == 8
        && "multi-scheduler"@.len() == 15 && "rate-limited"@.len() == 12
        && "retained-history"@.len() == 16 && "retry-storm"@.len() == 11
        && "worker-death"@.len() == 12);
    assert("rate-limited"@[0] != "worker-death"@[0]);
}

/// Why a benchmark cannot run.
#[derive(Debug, PartialEq, Eq)]
pub enum BenchError {
    Number(NumberError),
    OutOfRange,
    UnknownScenario(String),
    ZeroValue,
    TooFewAttempts,
    TooFewWorkers,
}

/// An error in the abstract.
pub enum BenchFault {
    Number(NumberError),
    OutOfRange,
    UnknownScenario(Seq<char>),
    ZeroValue,
    TooFewAttempts,
    TooFewWorkers,
}

impl View for BenchError {
    type V = BenchFault;

    open spec fn view(&self) -> BenchFault {
        match *self {
            BenchError::Number(error) => BenchFault::Number(error),
            BenchError::OutOfRange => BenchFault::OutOfRange,
            BenchError::UnknownScenario(name) => BenchFault::UnknownScenario(name@),
            BenchError::ZeroValue => BenchFault::ZeroValue,
            BenchError::TooFewAttempts => BenchFault::TooFewAttempts,
            BenchError::TooFewWorkers => BenchFault::TooFewWorkers,
        }
    }
}

/// What an error says.
pub open spec fn bench_fault_text(fault: BenchFault) -> Seq<char> {
    match fault {
        BenchFault::Number(error) => number_error_text(error),
        BenchFault::OutOfRange => "out of range integral type conversion attempted"@,
        BenchFault::UnknownScenario(name) => "unknown benchmark scenario "@ + str_debug_text(name),
        BenchFault::ZeroValue => {
            "task, batch, worker, concurrency, and timeout values must be greater than zero"@
        },
        BenchFault::TooFewAttempts => "retry storm attempts must be at least two"@,
        BenchFault::TooFewWorkers => "worker death requires at least two workers"@,
    }
}

impl BenchError {
    pub fn to_string(&self) -> (result: String)
        ensures
            result@ == bench_fault_text(self@),
    {
        match self {
            BenchError::Number(error) => error.to_string(),
            BenchError::OutOfRange => {
                "out of range integral type conversion attempted".to_owned()
            },
            BenchError::UnknownScenario(name) => {
                let mut text = "unknown benchmark scenario ".to_owned();
                text.append(str_debug(name.as_str()).as_str());
                text
            },
            BenchError::ZeroValue => {
                "task, batch, worker, concurrency, and timeout values must be greater than zero".to_owned()
            },
            BenchError::TooFewAttempts => "retry storm attempts must be at least two".to_owned(),
            BenchError::TooFewWorkers => "worker death requires at least two workers".to_owned(),
        }
    }
}

/// The settings of a benchmark as they come, each possibly missing.
#[derive(Debug, PartialEq, Eq)]
pub struct BenchSettings<'a> {
    pub tasks: Option<&'a str>,
    pub batch_size: Option<&'a str>,
    pub workers: Option<&'a str>,
    pub concurrency: Option<&'a str>,
    pub timeout_seconds: Option<&'a str>,
    pub scenario: Option<&'a str>,
    pub retry_attempts: Option<&'a str>,
}

/// A benchmark.
#[derive(Clone, Copy, Debug, PartialEq, Eq, Structural)]
pub struct Configuration {
    pub task_count: usize,
    pub batch_size: usize,
    pub worker_count: usize,
    pub concurrency: u16,
    pub timeout: Duration,
    pub scenario: Scenario,
    pub retry_attempts: u16,
}

/// The number that a setting stands for.
pub open spec fn size_setting(value: Option<&str>, default: nat) -> Result<nat, BenchFault> {
    match value {
        None => Ok(default),
        Some(text) => match number_value(text@, usize::MAX as nat) {
            Ok(number) => Ok(number),
            Err(error) => Err(BenchFault::Number(error)),
        },
    }
}

/// The small number that a setting stands for.
pub open spec fn short_setting(value: Option<&str>, default: nat) -> Result<nat, BenchFault> {
    match size_setting(value, default) {
        Ok(number) => if number <= u16::MAX {
            Ok(number)
        } else {
            Err(BenchFault::OutOfRange)
        },
        Err(fault) => Err(fault),
    }
}

/// The first fault of the settings, read in their order.
pub open spec fn settings_fault(settings: BenchSettings<'_>) -> Option<BenchFault> {
    if size_setting(settings.tasks, 1_000) is Err {
        Some(size_setting(settings.tasks, 1_000)->Err_0)
    } else if size_setting(settings.batch_size, 100) is Err {
        Some(size_setting(settings.batch_size, 100)->Err_0)
    } else if size_setting(settings.workers, 1) is Err {
        Some(size_setting(settings.workers, 1)->Err_0)
    } else if short_setting(settings.concurrency, 100) is Err {
        Some(short_setting(settings.concurrency, 100)->Err_0)
    } else if size_setting(settings.timeout_seconds, 300) is Err {
        Some(size_setting(settings.timeout_seconds, 300)->Err_0)
    } else if settings.scenario is Some && !names_scenario(settings.scenario->0@) {
        Some(BenchFault::UnknownScenario(settings.scenario->0@))
    } else if short_setting(settings.retry_attempts, 3) is Err {
        Some(short_setting(settings.retry_attempts, 3)->Err_0)
    } else {
        None
    }
}

/// Whether a configuration is what settings without a fault say.
pub open spec fn is_configured(config: Configuration, settings: BenchSettings<'_>) -> bool {
    &&& config.task_count == size_setting(settings.tasks, 1_000)->Ok_0
    &&& config.batch_size == size_setting(settings.batch_size, 100)->Ok_0
    &&& config.worker_count == size_setting(settings.workers, 1)->Ok_0
    &&& config.concurrency == short_setting(settings.concurrency, 100)->Ok_0
    &&& config.timeout@ == size_setting(settings.timeout_seconds, 300)->Ok_0 * NANOS_PER_SEC
    &&& match settings.scenario {
        Some(name) => scenario_name(config.scenario) == name@,
        None => config.scenario == Scenario::Noop,
    }
    &&& config.retry_attempts == short_setting(settings.retry_attempts, 3)->Ok_0
}

/// What is wrong with a configuration as a whole.
pub open spec fn configuration_fault(config: Configuration) -> Option<BenchFault> {
    if config.task_count == 0 || config.batch_size == 0 || config.worker_count == 0
        || config.concurrency == 0 || config.timeout@ == 0 {
        Some(BenchFault::ZeroValue)
    } else if config.scenario == Scenario::RetryStorm && config.retry_attempts < 2 {
        Some(BenchFault::TooFewAttempts)
    } else if config.scenario == Scenario::WorkerDeath && config.worker_count < 2 {
        Some(BenchFault::TooFewWorkers)
    } else {
        None
    }
}

fn read_size(value: Option<&str>, default: u64) -> (result: Result<usize, BenchError>)
    requires
        default <= usize::MAX,
    ensures
        match size_setting(value, default as nat) {
            Ok(number) => result is Ok && result->Ok_0 == number,
            Err(fault) => result is Err && result->Err_0@ == fault,
        },
{
    match setting(value, default, usize::MAX as u64) {
        Ok(number) => Ok(number as usize),
        Err(error) => Err(BenchError::Number(error)),
    }
}

fn read_short(value: Option<&str>, default: u64) -> (result: Result<u16, BenchError>)
    requires
        default <= usize::MAX,
    ensures
        match short_setting(value, default as nat) {
            Ok(number) => result is Ok && result->Ok_0 == number,
            Err(fault) => result is Err && result->Err_0@ == fault,
        },
{
    match read_size(value, default) {
        Ok(number) => if number <= u16::MAX as usize {
            Ok(number as u16)
        } else {
            Err(BenchError::OutOfRange)
        },
        Err(error) => Err(error),
    }
}

impl Configuration {
    /// Reads the settings of a benchmark.
    pub fn from_environment(settings: &BenchSettings<'_>) -> (result: Result<Self, BenchError>)
        ensures
            match settings_fault(*settings) {
                Some(fault) => result is Err && result->Err_0@ == fault,
                None => exists|config: Configuration|
                    {
                        &&& #[trigger] is_configured(config, *settings)
                        &&& match configuration_fault(config) {
                            Some(fault) => result is Err && result->Err_0@ == fault,
                            None => result == Ok::<_, BenchError>(config),
                        }
                    },
            },
    {
        let task_count: usize = match read_size(settings.tasks, 1_000) {
            Ok(number) => number,
            Err(error) => return Err(error),
        };
        let batch_size: usize = match read_size(settings.batch_size, 100) {
            Ok(number) => number,
            Err(error) => return Err(error),
        };
        let worker_count: usize = match read_size(settings.workers, 1) {
            Ok(number) => number,
            Err(error) => return Err(error),
        };
        let concurrency: u16 = match read_short(settings.concurrency, 100) {
            Ok(number) => number,
            Err(error) => return Err(error),
        };
        let timeout_seconds: usize = match read_size(settings.timeout_seconds, 300) {
            Ok(number) => number,
            Err(error) => return Err(error),
        };
        let scenario = match Scenario::from_environment(settings.scenario) {
            Ok(scenario) => scenario,
            Err(error) => return Err(error),
        };
        let retry_attempts: u16 = match read_short(settings.retry_attempts, 3) {
            Ok(number) => number,
            Err(error) => return Err(error),
        };
        let config = Configuration {
            task_count,
            batch_size,
            worker_count,
            concurrency,
            timeout: Duration::from_secs(timeout_seconds as u64),
            scenario,
            retry_attempts,
        };
        assert(is_configured(config, *settings));
        if config.task_count == 0 || config.batch_size == 0 || config.worker_count == 0
            || config.concurrency == 0 || config.timeout.is_zero() {
            return Err(BenchError::ZeroValue);
        }
        if config.scenario == Scenario::RetryStorm && config.retry_attempts < 2 {
            return Err(BenchError::TooFewAttempts);
        }
        if config.scenario == Scenario::WorkerDeath && config.worker_count < 2 {
            return Err(BenchError::TooFewWorkers);
        }
        Ok(config)
    }

    /// The `sequence`-th task of a benchmark. A burst is delayed until an instant, and the tasks
    /// of a retry storm have as many attempts as it takes.
    pub fn request(
        &self,
        task_name: &TaskName,
        queue_name: &QueueName,
        sequence: usize,
        delayed_until: Timestamp,
    ) -> (result: EnqueueRequest)
        ensures
            result.task_name@ == task_name@,
            result.handler_version@ == 1,
            result.payload matches Json::Object(payload) && payload@.dom() == set!["sequence"@]
                && is_unsigned(payload@["sequence"@], sequence as int),
            result.queue_name@ == queue_name@,
            result.run_at == if self.scenario == Scenario::DelayedBurst {
                Some(delayed_until)
            } else {
                None
            },
            result.priority == 0,
            result.max_attempts == if self.scenario == Scenario::RetryStorm {
                self.retry_attempts
            } else {
                5
            },
            result.idempotency_key is None,
            result.headers@ == Map::<Seq<char>, Json>::empty(),
    {
        let payload = JsonObject::new().with("sequence", Json::unsigned(sequence as u64));
        assert(payload@.dom() =~= set!["sequence"@]);
        let mut request = EnqueueRequest::new(task_name.clone(), Json::Object(payload));
        request.queue_name = queue_name.clone();
        if self.scenario == Scenario::DelayedBurst {
            request.run_at = Some(delayed_until);
        }
        if self.scenario == Scenario::RetryStorm {
            request.max_attempts = self.retry_attempts;
        }
        request
    }

    /// Whether a worker is made to die: the first one, where workers die.
    pub fn crashes(&self, worker_index: usize) -> (result: bool)
        ensures
            result == (self.scenario == Scenario::WorkerDeath && worker_index == 0),
    {
        self.scenario == Scenario::WorkerDeath && worker_index == 0
    }

    /// The retry policy of the handler.
    pub fn retry_policy(&self) -> (result: RetryPolicy)
        ensures
            if self.scenario == Scenario::RetryStorm {
                result matches RetryPolicy::Fixed { delay } && delay@ == NANOS_PER_MILLI
            } else {
                result == RetryPolicy::Never
            },
    {
        if self.scenario == Scenario::RetryStorm {
            RetryPolicy::Fixed { delay: Duration::from_millis(1) }
        } else {
            RetryPolicy::Never
        }
    }

    /// How the workers of a benchmark work.
    pub fn worker_config(&self, queue_name: &QueueName) -> (result: Option<WorkerConfig>)
        ensures
            result is Some <==> self.concurrency > 0,
            result matches Some(config) ==> {
                &&& config.queue_names@.len() == 1
                &&& config.queue_names@[0]@ == queue_name@
                &&& config.concurrency@ == self.concurrency
                &&& config.claim_batch_size@ == self.concurrency
                &&& config.scheduler_enabled == (self.scenario == Scenario::MultiScheduler)
                &&& config.lease_duration@ == if self.scenario == Scenario::WorkerDeath
                    || self.scenario == Scenario::DatabaseDisconnect {
                    2 * NANOS_PER_SEC as nat
                } else {
                    30 * NANOS_PER_SEC as nat
                }
                &&& exists|plain: WorkerConfig| #[trigger]
                    is_default_config(plain) && config == (WorkerConfig {
                        queue_names: config.queue_names,
                        concurrency: config.concurrency,
                        claim_batch_size: config.claim_batch_size,
                        scheduler_enabled: config.scheduler_enabled,
                        lease_duration: config.lease_duration,
                        ..plain
                    })
            },
    {
        let concurrency = match NonZeroU16::new(self.concurrency) {
            Some(concurrency) => concurrency,
            None => return None,
        };
        let mut config = WorkerConfig::new(queue_name.clone());
        let ghost plain = config;
        config.concurrency = concurrency;
        config.claim_batch_size = concurrency;
        config.scheduler_enabled = self.scenario == Scenario::MultiScheduler;
        if self.scenario == Scenario::WorkerDeath || self.scenario == Scenario::DatabaseDisconnect {
            config.lease_duration = Duration::from_secs(2);
        }
        assert(is_default_config(plain));
        Some(config)
    }

    /// What a handler of a benchmark does.
    pub fn handler_plan(&self, worker_index: usize, attempt: u16) -> (result: HandlerPlan)
        ensures
            result.hangs == (self.scenario == Scenario::WorkerDeath && worker_index == 0),
            match result.pause {
                Some(pause) => {
                    ||| self.scenario == Scenario::DatabaseDisconnect && pause@ == 100
                        * NANOS_PER_MILLI
                    ||| self.scenario == Scenario::IoBound && pause@ == 10 * NANOS_PER_MILLI
                },
                None => self.scenario != Scenario::DatabaseDisconnect && self.scenario
                    != Scenario::IoBound,
            },
            result.rate_limited == (self.scenario == Scenario::RateLimited),
            result.spins == (self.scenario == Scenario::CpuBound),
            result.fails == (self.scenario == Scenario::RetryStorm && attempt
                < self.retry_attempts),
    {
        let pause = if self.scenario == Scenario::DatabaseDisconnect {
            Some(Duration::from_millis(100))
        } else if self.scenario == Scenario::IoBound {
            Some(Duration::from_millis(10))
        } else {
            None
        };
        HandlerPlan {
            hangs: self.crashes(worker_index),
            pause,
            rate_limited: self.scenario == Scenario::RateLimited,
            spins: self.scenario == Scenario::CpuBound,
            fails: self.scenario == Scenario::RetryStorm && attempt < self.retry_attempts,
        }
    }

    /// Whether every task of a benchmark has succeeded.
    pub fn is_drained(&self, succeeded: u64) -> (result: bool)
        ensures
            result == (succeeded == self.task_count),
    {
        succeeded == self.task_count as u64
    }
}

/// What a handler does, in this order: it hangs for good, pauses, waits for its turn, works, and
/// fails or succeeds.
#[derive(Clone, Copy, Debug, PartialEq, Eq, Structural)]
pub struct HandlerPlan {
    pub hangs: bool,
    pub pause: Option<Duration>,
    pub rate_limited: bool,
    pub spins: bool,
    pub fails: bool,
}

/// A number after `rounds` rounds of a linear congruential generator.
pub open spec fn spun(seed: u64, rounds: nat) -> u64
    decreases rounds,
{
    if rounds == 0 {
        seed
    } else {
        spun(seed, (rounds - 1) as nat).wrapping_mul(6_364_136_223_846_793_005).wrapping_add(
            (rounds - 1) as u64,
        )
    }
}

/// Keeps the processor busy for a while.
pub fn spin(attempt: u16) -> (result: u64)
    ensures
        result == spun(attempt as u64, 100_000),
{
    let mut value: u64 = attempt as u64;
    let mut sequence: u64 = 0;
    while sequence < 100_000
        invariant
            sequence <= 100_000,
            value == spun(attempt as u64, sequence as nat),
        decreases 100_000 - sequence,
    {
        value = value.wrapping_mul(6_364_136_223_846_793_005).wrapping_add(sequence);
        sequence += 1;
    }
    value
}

/// Counts one batch of deleted history; whether another batch may follow.
pub fn count_deleted(deleted: u64, batch: u64) -> (result: Option<(u64, bool)>)
    ensures
        result == if deleted + batch <= u64::MAX {
            Some(((deleted + batch) as u64, batch > 0))
        } else {
            None
        },
{
    match deleted.checked_add(batch) {
        Some(total) => Some((total, batch > 0)),
        None => None,
    }
}

/// A setting that is missing has its default; one that is there is the number that it spells, where
/// that fits.
pub proof fn settings_are_read_as_written(text: &str, default: nat)
    ensures
        size_setting(None, default) == Ok::<nat, BenchFault>(default),
        number_value(text@, usize::MAX as nat) matches Ok(number) ==> size_setting(
            Some(text),
            default,
        ) == Ok::<nat, BenchFault>(number),
        number_value(text@, usize::MAX as nat) matches Err(error) ==> size_setting(
            Some(text),
            default,
        ) == Err::<nat, BenchFault>(BenchFault::Number(error)) && short_setting(Some(text), default)
            == Err::<nat, BenchFault>(BenchFault::Number(error)),
        number_value(text@, usize::MAX as nat) matches Ok(number) ==> short_setting(
            Some(text),
            default,
        ) == if number <= 65_535 {
            Ok::<nat, BenchFault>(number)
        } else {
            Err(BenchFault::OutOfRange)
        },
        default <= 65_535 ==> short_setting(None, default) == Ok::<nat, BenchFault>(default),
{
}

/// Without settings, a thousand tasks that do nothing are run in batches of a hundred by one worker
/// of a hundred handlers, in three attempts and five minutes at most; each setting changes its own
/// number and no other.
pub proof fn each_setting_has_its_place(config: Configuration, settings: BenchSettings<'_>)
    requires
        is_configured(config, settings),
        settings_fault(settings) is None,
    ensures
        settings.tasks is None ==> config.task_count == 1_000,
        settings.batch_size is None ==> config.batch_size == 100,
        settings.workers is None ==> config.worker_count == 1,
        settings.concurrency is None ==> config.concurrency == 100,
        settings.timeout_seconds is None ==> config.timeout@ == 300_000_000_000,
        settings.scenario is None ==> config.scenario == Scenario::Noop,
        settings.retry_attempts is None ==> config.retry_attempts == 3,
        settings.tasks matches Some(text) ==> number_value(text@, usize::MAX as nat) == Ok::<
            nat,
            NumberError,
        >(config.task_count as nat),
        settings.batch_size matches Some(text) ==> number_value(text@, usize::MAX as nat) == Ok::<
            nat,
            NumberError,
        >(config.batch_size as nat),
        settings.workers matches Some(text) ==> number_value(text@, usize::MAX as nat) == Ok::<
            nat,
            NumberError,
        >(config.worker_count as nat),
        settings.concurrency matches Some(text) ==> number_value(text@, usize::MAX as nat) == Ok::<
            nat,
            NumberError,
        >(config.concurrency as nat),
        settings.retry_attempts matches Some(text) ==> number_value(text@, usize::MAX as nat)
            == Ok::<nat, NumberError>(config.retry_attempts as nat),
        settings.timeout_seconds matches Some(text) ==> number_value(text@, usize::MAX as nat)
            is Ok && config.timeout@ == number_value(text@, usize::MAX as nat)->Ok_0
            * 1_000_000_000,
        settings.scenario matches Some(name) ==> name@ == scenario_name(config.scenario),
{
}

/// A configuration can be run exactly if none of its numbers is zero, a retry storm has a second
/// attempt, and a worker can die while another lives.
pub proof fn configurations_can_be_run(config: Configuration)
    ensures
        configuration_fault(config) is None <==> config.task_count > 0 && config.batch_size > 0
            && config.worker_count > 0 && config.concurrency > 0 && config.timeout@ > 0 && (
        config.scenario == Scenario::RetryStorm ==> config.retry_attempts >= 2) && (config.scenario
            == Scenario::WorkerDeath ==> config.worker_count >= 2),
        configuration_fault(config) == Some(BenchFault::ZeroValue) <==> config.task_count == 0
            || config.batch_size == 0 || config.worker_count == 0 || config.concurrency == 0
            || config.timeout@ == 0,
        configuration_fault(config) == Some(BenchFault::TooFewAttempts) ==> config.scenario
            == Scenario::RetryStorm && config.retry_attempts < 2,
        configuration_fault(config) == Some(BenchFault::TooFewWorkers) ==> config.scenario
            == Scenario::WorkerDeath && config.worker_count == 1,
{
}

/// Each round multiplies the number and adds the number of rounds before it, in the whole numbers
/// of a machine word.
pub proof fn each_round_multiplies_and_adds(seed: u64, rounds: nat)
    requires
        rounds <= u64::MAX,
    ensures
        spun(seed, 0) == seed,
        spun(seed, rounds + 1) as int == (spun(seed, rounds) as int * 6_364_136_223_846_793_005
            + rounds as int) % 0x1_0000_0000_0000_0000,
{
    let word: int = 0x1_0000_0000_0000_0000;
    let before = spun(seed, rounds);
    let product = before.wrapping_mul(6_364_136_223_846_793_005);
    assert(product as int == (before as int * 6_364_136_223_846_793_005) % word);
    assert(spun(seed, rounds + 1) == product.wrapping_add(rounds as u64));
    vstd::arithmetic::div_mod::lemma_add_mod_noop(
        before as int * 6_364_136_223_846_793_005,
        rounds as int,
        word,
    );
    assert(rounds as int % word == rounds as int);
}

} // verus!
