use pgtask::bench::{
    count_deleted, spin, BenchError, BenchSettings, Configuration, HandlerPlan, Scenario,
};
use pgtask::binding::{
    check_handlers, handler_error, handler_policy, handler_version, invalid_json, raised_error,
    store_config, wake_instant, worker_concurrency, Raised,
};
use pgtask::cli::{
    cancel_message, configured_message, drained_message, paused_message, queue_config,
    retention_message, smoke_command, smoke_queue, SmokeCommand,
};
use pgtask::identifier::{QueueName, TaskId, TaskName};
use pgtask::json::{Json, JsonObject};
use pgtask::number::NonZeroU64;
use pgtask::registry::HandlerError;
use pgtask::retry::RetryPolicy;
use pgtask::settings::{flag_setting, parse_unsigned, positive_setting, setting, NumberError};
use pgtask::time::{Duration, Timestamp};
use pgtask::unique::Uuid;

const NOTHING: BenchSettings<'static> = BenchSettings {
    tasks: None,
    batch_size: None,
    workers: None,
    concurrency: None,
    timeout_seconds: None,
    scenario: None,
    retry_attempts: None,
};

fn queue(name: &str) -> QueueName {
    QueueName::new(name).unwrap()
}

#[test]
fn numbers_are_read_as_the_standard_library_reads_them() {
    for text in [
        "", "0", "7", "+7", "+", "-", "-1", "++1", "007", " 1", "1 ", "65535", "65536", "99999999",
        "1x", "99999999x", "x99999999", "\u{664}",
    ] {
        let expected = text.parse::<u16>().map_err(|error| error.to_string());
        let found = parse_unsigned(text, u64::from(u16::MAX)).map_err(NumberError::to_string);
        assert_eq!(found.map(|number| number as u16), expected, "{text:?}");
    }
    assert_eq!(
        parse_unsigned("18446744073709551615", u64::MAX),
        Ok(u64::MAX)
    );
    assert_eq!(
        parse_unsigned("18446744073709551616", u64::MAX),
        Err(NumberError::TooLarge)
    );
    assert_eq!(setting(None, 9, 10), Ok(9));
    assert_eq!(setting(Some("3"), 9, 10), Ok(3));
    assert_eq!(setting(Some(""), 9, 10), Err(NumberError::Empty));
}

#[test]
fn settings_have_defaults_and_errors() {
    assert_eq!(positive_setting("NAME", None, 5).unwrap().get(), 5);
    assert_eq!(positive_setting("NAME", Some("6"), 5).unwrap().get(), 6);
    assert_eq!(
        positive_setting("NAME", Some("0"), 5).unwrap_err(),
        "NAME must be greater than zero"
    );
    assert_eq!(
        positive_setting("NAME", Some("many"), 5).unwrap_err(),
        "invalid digit found in string"
    );
    assert_eq!(flag_setting(None, true), Ok(true));
    assert_eq!(flag_setting(Some("false"), true), Ok(false));
    assert_eq!(flag_setting(Some("true"), false), Ok(true));
    assert_eq!(
        flag_setting(Some("yes"), true).unwrap_err(),
        "yes".parse::<bool>().unwrap_err().to_string()
    );
}

#[test]
fn scenarios_are_found_by_their_names() {
    for (scenario, name) in [
        (Scenario::CpuBound, "cpu-bound"),
        (Scenario::Noop, "noop"),
        (Scenario::DelayedBurst, "delayed-burst"),
        (Scenario::DatabaseDisconnect, "database-disconnect"),
        (Scenario::IoBound, "io-bound"),
        (Scenario::MultiScheduler, "multi-scheduler"),
        (Scenario::RateLimited, "rate-limited"),
        (Scenario::RetainedHistory, "retained-history"),
        (Scenario::RetryStorm, "retry-storm"),
        (Scenario::WorkerDeath, "worker-death"),
    ] {
        assert_eq!(scenario.name(), name);
        assert_eq!(Scenario::from_environment(Some(name)), Ok(scenario));
    }
    assert_eq!(Scenario::from_environment(None), Ok(Scenario::Noop));
    assert_eq!(
        Scenario::from_environment(Some("a \"b\"")).unwrap_err().to_string(),
        "unknown benchmark scenario \"a \\\"b\\\"\""
    );
}

#[test]
fn benchmarks_are_configured_by_settings() {
    assert_eq!(
        Configuration::from_environment(&NOTHING).unwrap(),
        Configuration {
            task_count: 1_000,
            batch_size: 100,
            worker_count: 1,
            concurrency: 100,
            timeout: Duration::from_secs(300),
            scenario: Scenario::Noop,
            retry_attempts: 3,
        }
    );
    let error = |settings: BenchSettings<'_>| Configuration::from_environment(&settings).unwrap_err();
    assert_eq!(
        error(BenchSettings {
            tasks: Some("0"),
            ..NOTHING
        }),
        BenchError::ZeroValue
    );
    assert_eq!(
        error(BenchSettings {
            timeout_seconds: Some("0"),
            ..NOTHING
        }),
        BenchError::ZeroValue
    );
    assert_eq!(
        error(BenchSettings {
            concurrency: Some("65536"),
            ..NOTHING
        }),
        BenchError::OutOfRange
    );
    assert_eq!(
        error(BenchSettings {
            workers: Some("none"),
            scenario: Some("none"),
            ..NOTHING
        }),
        BenchError::Number(NumberError::InvalidDigit)
    );
    assert_eq!(
        error(BenchSettings {
            scenario: Some("none"),
            ..NOTHING
        }),
        BenchError::UnknownScenario("none".to_owned())
    );
    assert_eq!(
        error(BenchSettings {
            scenario: Some("retry-storm"),
            retry_attempts: Some("1"),
            ..NOTHING
        }),
        BenchError::TooFewAttempts
    );
    assert_eq!(
        error(BenchSettings {
            scenario: Some("worker-death"),
            ..NOTHING
        }),
        BenchError::TooFewWorkers
    );
    for (error, text) in [
        (
            BenchError::OutOfRange,
            "out of range integral type conversion attempted",
        ),
        (
            BenchError::ZeroValue,
            "task, batch, worker, concurrency, and timeout values must be greater than zero",
        ),
        (
            BenchError::TooFewAttempts,
            "retry storm attempts must be at least two",
        ),
        (
            BenchError::TooFewWorkers,
            "worker death requires at least two workers",
        ),
        (
            BenchError::Number(NumberError::Empty),
            "cannot parse integer from empty string",
        ),
    ] {
        assert_eq!(error.to_string(), text);
    }
}

fn configuration(scenario: &'static str) -> Configuration {
    Configuration::from_environment(&BenchSettings {
        scenario: Some(scenario),
        workers: Some("2"),
        tasks: Some("7"),
        concurrency: Some("9"),
        ..NOTHING
    })
    .unwrap()
}

#[test]
fn scenarios_strain_different_parts() {
    let idle = HandlerPlan {
        hangs: false,
        pause: None,
        rate_limited: false,
        spins: false,
        fails: false,
    };
    assert_eq!(configuration("noop").handler_plan(0, 1), idle);
    assert_eq!(
        configuration("worker-death").handler_plan(0, 1),
        HandlerPlan { hangs: true, ..idle }
    );
    assert_eq!(configuration("worker-death").handler_plan(1, 1), idle);
    assert!(configuration("worker-death").crashes(0));
    assert!(!configuration("noop").crashes(0));
    assert_eq!(
        configuration("database-disconnect").handler_plan(0, 1),
        HandlerPlan {
            pause: Some(Duration::from_millis(100)),
            ..idle
        }
    );
    assert_eq!(
        configuration("io-bound").handler_plan(0, 1),
        HandlerPlan {
            pause: Some(Duration::from_millis(10)),
            ..idle
        }
    );
    assert_eq!(
        configuration("rate-limited").handler_plan(0, 1),
        HandlerPlan {
            rate_limited: true,
            ..idle
        }
    );
    assert_eq!(
        configuration("cpu-bound").handler_plan(0, 1),
        HandlerPlan { spins: true, ..idle }
    );
    let storm = configuration("retry-storm");
    assert_eq!(storm.handler_plan(0, 2), HandlerPlan { fails: true, ..idle });
    assert_eq!(storm.handler_plan(0, 3), idle);
    assert_eq!(
        storm.retry_policy(),
        RetryPolicy::Fixed {
            delay: Duration::from_millis(1)
        }
    );
    assert_eq!(configuration("noop").retry_policy(), RetryPolicy::Never);
    assert!(storm.is_drained(7));
    assert!(!storm.is_drained(6));
}

#[test]
fn scenarios_shape_tasks_and_workers() {
    let later = Timestamp::from_unix_secs(99).unwrap();
    let request = |scenario: &'static str| {
        configuration(scenario).request(&TaskName::new("task").unwrap(), &queue("bench"), 5, later)
    };
    let plain = request("noop");
    assert_eq!(
        plain.payload,
        Json::Object(JsonObject::new().with("sequence", Json::unsigned(5)))
    );
    assert_eq!(plain.queue_name, queue("bench"));
    assert_eq!(plain.run_at, None);
    assert_eq!(plain.max_attempts, 5);
    assert_eq!(request("delayed-burst").run_at, Some(later));
    assert_eq!(request("retry-storm").max_attempts, 3);

    let config = configuration("noop").worker_config(&queue("bench")).unwrap();
    assert_eq!(config.concurrency.get(), 9);
    assert_eq!(config.claim_batch_size.get(), 9);
    assert_eq!(config.queue_names, [queue("bench")]);
    assert!(!config.scheduler_enabled);
    assert_eq!(config.lease_duration, Duration::from_secs(30));
    let config = configuration("worker-death").worker_config(&queue("bench")).unwrap();
    assert_eq!(config.lease_duration, Duration::from_secs(2));
    let config = configuration("multi-scheduler").worker_config(&queue("bench")).unwrap();
    assert!(config.scheduler_enabled);
}

#[test]
fn spinning_is_a_linear_congruential_generator() {
    let mut value: u64 = 3;
    for sequence in 0..100_000_u64 {
        value = value
            .wrapping_mul(6_364_136_223_846_793_005)
            .wrapping_add(sequence);
    }
    assert_eq!(spin(3), value);
    assert_eq!(count_deleted(5, 2), Some((7, true)));
    assert_eq!(count_deleted(5, 0), Some((5, false)));
    assert_eq!(count_deleted(u64::MAX, 1), None);
}

#[test]
fn commands_say_what_they_did() {
    let id = TaskId::from_uuid(Uuid::nil());
    assert_eq!(
        cancel_message(id, true),
        "task 00000000-0000-0000-0000-000000000000 cancelled"
    );
    assert_eq!(
        cancel_message(id, false),
        "task 00000000-0000-0000-0000-000000000000 is not cancellable"
    );
    assert_eq!(
        retention_message(12, 0),
        "deleted 12 terminal tasks and 0 idempotency keys"
    );
    assert_eq!(configured_message(&queue("emails")), "queue emails configured");
    assert_eq!(
        paused_message(&queue("emails"), true, true).unwrap(),
        "queue emails paused"
    );
    assert_eq!(
        paused_message(&queue("emails"), false, true).unwrap(),
        "queue emails resumed"
    );
    assert_eq!(
        paused_message(&queue("emails"), false, false).unwrap_err(),
        "queue emails does not exist"
    );
    assert_eq!(drained_message(25), "drained 25 tasks");
}

#[test]
fn queues_are_configured_in_seconds() {
    let config = queue_config(queue("emails"), 60, 120, NonZeroU64::new(9), Some(30));
    assert_eq!(config.terminal_retention, Duration::from_secs(60));
    assert_eq!(config.idempotency_retention, Duration::from_secs(120));
    assert_eq!(config.max_outstanding_tasks.unwrap().get(), 9);
    assert_eq!(config.starvation_timeout, Duration::from_secs(30));
    let config = queue_config(queue("emails"), 1, 1, None, None);
    assert_eq!(config.max_outstanding_tasks, None);
    assert_eq!(config.starvation_timeout, Duration::from_secs(300));
}

#[test]
fn smoke_tests_have_two_commands() {
    assert_eq!(smoke_command(Some("worker")), Ok(SmokeCommand::Worker));
    assert_eq!(smoke_command(Some("enqueue")), Ok(SmokeCommand::Enqueue));
    assert_eq!(smoke_command(None).unwrap_err(), "expected worker or enqueue");
    assert_eq!(smoke_command(Some("x\n")).unwrap_err(), "unknown command \"x\\n\"");
    assert_eq!(smoke_queue(None).unwrap().as_str(), "default");
    assert_eq!(smoke_queue(Some("smoke")).unwrap().as_str(), "smoke");
    assert!(smoke_queue(Some("not allowed")).is_err());
}

#[test]
fn bindings_check_their_numbers() {
    let config = store_config("postgres://one", Some("postgres://two"), 3, 2).unwrap();
    assert_eq!(config.database_url(), "postgres://one");
    assert_eq!(config.listener_url(), "postgres://two");
    assert_eq!(config.query_connections(), 3);
    assert_eq!(config.listener_connections(), 2);
    let config = store_config("postgres://one", None, 3, 2).unwrap();
    assert_eq!(config.listener_url(), "postgres://one");
    assert_eq!(
        store_config("", None, 0, 0).unwrap_err(),
        "max_query_connections must be positive"
    );
    assert_eq!(
        store_config("", None, 1, 0).unwrap_err(),
        "max_listener_connections must be positive"
    );
    assert_eq!(worker_concurrency(4).unwrap().get(), 4);
    assert_eq!(worker_concurrency(0).unwrap_err(), "concurrency must be positive");
    assert_eq!(handler_version(2).unwrap().get(), 2);
    assert_eq!(handler_version(0).unwrap_err(), "handler_version must be positive");
    assert_eq!(handler_policy(None), RetryPolicy::Never);
    assert_eq!(
        handler_policy(Some(Duration::from_secs(1))),
        RetryPolicy::Fixed {
            delay: Duration::from_secs(1)
        }
    );
    assert!(check_handlers(1).is_ok());
    assert_eq!(
        check_handlers(0).unwrap_err(),
        "at least one handler must be registered"
    );
}

#[test]
fn errors_cross_the_binding() {
    assert_eq!(handler_error(&HandlerError::suspended()), Raised::Suspended);
    assert_eq!(
        handler_error(&HandlerError::terminal("stop")),
        Raised::Failed("stop".to_owned())
    );
    let mut silent = HandlerError::terminal("stop");
    silent.error = Json::Null;
    assert_eq!(
        handler_error(&silent),
        Raised::Failed("task handler failed".to_owned())
    );
    let aside = raised_error(true, "ignored");
    assert!(aside.is_suspended());
    assert!(!aside.retryable);
    assert_eq!(aside.error.get("type"), Some(&Json::text("suspended")));
    let error = raised_error(false, "broken");
    assert!(error.retryable);
    assert_eq!(error.error.get("message"), Some(&Json::text("broken")));
    let error = invalid_json(false, "NaN");
    assert!(!error.retryable);
    assert_eq!(
        error.error.get("message"),
        Some(&Json::text("handler returned invalid JSON: NaN"))
    );
    assert_eq!(
        invalid_json(true, "NaN").error.get("message"),
        Some(&Json::text("step returned invalid JSON: NaN"))
    );
}

#[test]
fn wake_up_times_are_read_as_instants() {
    let expected = Timestamp::from_unix_nanos(1_786_752_000_500_000_000).unwrap();
    assert_eq!(wake_instant("2026-08-15T00:00:00.5Z"), Ok(expected));
    assert_eq!(wake_instant("2026-08-15 02:00:00.5+02:00"), Ok(expected));
    let words = "tomorrow".parse::<chrono::DateTime<chrono::Utc>>().unwrap_err().to_string();
    assert_eq!(wake_instant("tomorrow"), Err(words));
    assert_eq!(
        wake_instant("2016-12-31T23:59:60.25Z"),
        Ok(Timestamp::from_unix_nanos(1_483_228_800_250_000_000).unwrap())
    );
    let last = wake_instant("+262142-12-31T23:59:60.5Z").unwrap();
    assert_eq!(last.unix_nanos(), 8_210_266_876_800_500_000_000);
    assert_eq!(last.split(), (8_210_266_876_799, 1_500_000_000));
    assert!(wake_instant("+262143-01-01T00:00:00Z").is_err());
}
