use pgtask::identifier::{
    HandlerVersion, LeaseToken, NameError, QueueName, ScheduleId, ScheduleName, SignalName, StepName,
    TaskId, TaskName, WorkerId,
};
use pgtask::json::{Json, JsonNumber, JsonObject};
use pgtask::number::{NonZeroU16, NonZeroU32, NonZeroU64};
use pgtask::protocol::{
    StorageProtocolRange, STORAGE_PROTOCOL_MAX_VERSION, STORAGE_PROTOCOL_MIN_VERSION,
};
use pgtask::retry::RetryPolicy;
use pgtask::task::{EnqueueRequest, QueueConfig, TaskState};
use pgtask::time::{Duration, Timestamp};
use pgtask::unique::Uuid;

#[test]
fn storage_protocol_ranges_validate_and_overlap() {
    let legacy = StorageProtocolRange::new(1, 1).unwrap();
    let rolling = StorageProtocolRange::new(1, 2).unwrap();
    let future = StorageProtocolRange::new(2, 3).unwrap();

    assert!(legacy.overlaps(rolling));
    assert!(rolling.overlaps(future));
    assert!(!legacy.overlaps(future));
    assert_eq!(StorageProtocolRange::new(0, 1), None);
    assert_eq!(StorageProtocolRange::new(2, 1), None);
}

#[test]
fn overlap_does_not_depend_on_the_side() {
    let ranges = [
        StorageProtocolRange::new(1, 1).unwrap(),
        StorageProtocolRange::new(1, 2).unwrap(),
        StorageProtocolRange::new(2, 3).unwrap(),
        StorageProtocolRange::new(5, 9).unwrap(),
    ];
    for left in ranges {
        for right in ranges {
            assert_eq!(left.overlaps(right), right.overlaps(left));
            let common = (1..10).any(|version| {
                left.minimum <= version
                    && version <= left.maximum
                    && right.minimum <= version
                    && version <= right.maximum
            });
            assert_eq!(left.overlaps(right), common);
        }
    }
    let current = StorageProtocolRange::current();
    assert_eq!(current.minimum, STORAGE_PROTOCOL_MIN_VERSION);
    assert_eq!(current.maximum, STORAGE_PROTOCOL_MAX_VERSION);
}

#[test]
fn names_validate_and_support_their_value_conversions() {
    let queue = QueueName::new("queue").unwrap();
    assert_eq!(queue.as_str(), "queue");
    assert_eq!(queue.as_ref(), "queue");
    assert_eq!(queue.to_string(), "queue");
    assert_eq!(queue.clone().into_string(), "queue");
    assert_eq!(QueueName::try_from("queue".to_owned()).unwrap(), queue);

    let schedule = ScheduleName::new("schedule").unwrap();
    assert_eq!(schedule.as_str(), "schedule");
    assert_eq!(schedule.as_ref(), "schedule");
    assert_eq!(schedule.to_string(), "schedule");
    assert_eq!(schedule.clone().into_string(), "schedule");
    assert_eq!(ScheduleName::try_from("schedule".to_owned()).unwrap(), schedule);

    let signal = SignalName::new("signal").unwrap();
    assert_eq!(signal.as_str(), "signal");
    assert_eq!(signal.as_ref(), "signal");
    assert_eq!(signal.to_string(), "signal");
    assert_eq!(signal.clone().into_string(), "signal");
    assert_eq!(SignalName::try_from("signal".to_owned()).unwrap(), signal);

    let step = StepName::new("step").unwrap();
    assert_eq!(step.as_str(), "step");
    assert_eq!(step.as_ref(), "step");
    assert_eq!(step.to_string(), "step");
    assert_eq!(step.clone().into_string(), "step");
    assert_eq!(StepName::try_from("step".to_owned()).unwrap(), step);

    let task = TaskName::new("task").unwrap();
    assert_eq!(task.as_str(), "task");
    assert_eq!(task.as_ref(), "task");
    assert_eq!(task.to_string(), "task");
    assert_eq!(task.clone().into_string(), "task");
    assert_eq!(TaskName::try_from("task".to_owned()).unwrap(), task);

    assert_eq!(QueueName::default().as_str(), "default");

    assert!(matches!(QueueName::new(""), Err(NameError::Empty { .. })));
    assert!(matches!(
        QueueName::new(&"x".repeat(129)),
        Err(NameError::TooLong {
            maximum: 128,
            actual: 129,
            ..
        })
    ));
    assert!(matches!(
        TaskName::new("not allowed"),
        Err(NameError::UnsupportedCharacter { character: ' ', .. })
    ));
}

#[test]
fn name_errors_say_what_is_wrong() {
    assert_eq!(
        QueueName::new("").unwrap_err().to_string(),
        "queue name must not be empty"
    );
    assert_eq!(
        QueueName::new(&"x".repeat(129)).unwrap_err().to_string(),
        "queue name must be at most 128 bytes, got 129"
    );
    assert_eq!(
        TaskName::new("a\tb").unwrap_err().to_string(),
        "task name contains unsupported character '\\t'"
    );
    assert_eq!(
        TaskName::new("a b").unwrap_err().to_string(),
        "task name contains unsupported character ' '"
    );
}

#[test]
fn names_count_bytes_and_accept_their_alphabet() {
    assert!(QueueName::new(&"x".repeat(128)).is_ok());
    assert!(TaskName::new("a-Z_0.9:z").is_ok());
    assert!(TaskName::new("naïve").is_err());
    assert!(StepName::new("any text, even ünïcode").is_ok());
    assert!(matches!(StepName::new(""), Err(NameError::Empty { .. })));
    let long = "ü".repeat(200);
    assert!(matches!(
        StepName::new(&long),
        Err(NameError::TooLong { actual: 400, .. })
    ));
}

#[test]
fn identifiers_support_uuid_round_trips() {
    let task = TaskId::new();
    assert_eq!(TaskId::from_str(&task.to_string()).unwrap(), task);
    assert_eq!(task.uuid, task.as_uuid());
    assert_ne!(TaskId::default(), task);
    let fixed = Uuid::nil();
    assert_eq!(TaskId::from_uuid(fixed).as_uuid(), fixed);

    let schedule = ScheduleId::new();
    assert_eq!(ScheduleId::from_str(&schedule.to_string()).unwrap(), schedule);
    assert_eq!(schedule.uuid, schedule.as_uuid());
    assert_ne!(ScheduleId::default(), schedule);
    assert_eq!(ScheduleId::from_uuid(fixed).as_uuid(), fixed);

    let worker = WorkerId::new();
    assert_eq!(WorkerId::from_str(&worker.to_string()).unwrap(), worker);
    assert_eq!(worker.uuid, worker.as_uuid());
    assert_ne!(WorkerId::default(), worker);
    assert_eq!(WorkerId::from_uuid(fixed).as_uuid(), fixed);

    let lease = LeaseToken::new();
    assert_eq!(LeaseToken::from_str(&lease.to_string()).unwrap(), lease);
    assert_eq!(lease.uuid, lease.as_uuid());
    assert_ne!(LeaseToken::default(), lease);
    assert_eq!(LeaseToken::from_uuid(fixed).as_uuid(), fixed);

    let words = uuid::Uuid::parse_str("not-a-uuid").unwrap_err().to_string();
    assert_eq!(TaskId::from_str("not-a-uuid").unwrap_err().to_string(), words);
    assert!(ScheduleId::from_str("not-a-uuid").is_err());
    assert!(WorkerId::from_str("not-a-uuid").is_err());
    assert!(LeaseToken::from_str("not-a-uuid").is_err());
}

#[test]
fn uuids_print_and_parse_as_hyphenated_hexadecimal() {
    let value = Uuid::from_u128(0x0123_4567_89ab_cdef_fedc_ba98_7654_3210);
    assert_eq!(value.to_text(), "01234567-89ab-cdef-fedc-ba9876543210");
    assert_eq!(
        Uuid::parse_str("01234567-89AB-CDEF-FEDC-BA9876543210"),
        Ok(value)
    );
    assert!(Uuid::parse_str("01234567-89ab").is_err());
    let fresh = Uuid::new_v7().as_u128();
    assert_eq!((fresh >> 76) & 0xf, 7);
    assert_eq!((fresh >> 62) & 0x3, 2);
}

#[test]
fn task_defaults_and_states_are_explicit() {
    let version = HandlerVersion::new(NonZeroU32::new(7).unwrap());
    assert_eq!(version.get(), 7);
    assert_eq!(HandlerVersion::default().get(), 1);

    let queue = QueueConfig::new(QueueName::new("types").unwrap());
    assert_eq!(queue.terminal_retention, Duration::from_hours(7 * 24));
    assert_eq!(queue.idempotency_retention, Duration::from_hours(30 * 24));

    let payload = || Json::Object(JsonObject::new().with("value", Json::unsigned(42)));
    let request = EnqueueRequest::new(TaskName::new("types.task").unwrap(), payload());
    assert_eq!(request.queue_name, QueueName::default());
    assert_eq!(request.handler_version, HandlerVersion::default());
    assert_eq!(request.max_attempts, 5);
    assert_eq!(request.payload, payload());

    for (state, name, terminal) in [
        (TaskState::Pending, "pending", false),
        (TaskState::Running, "running", false),
        (TaskState::Waiting, "waiting", false),
        (TaskState::Succeeded, "succeeded", true),
        (TaskState::Failed, "failed", true),
        (TaskState::Cancelled, "cancelled", true),
    ] {
        assert_eq!(state.as_str(), name);
        assert_eq!(state.is_terminal(), terminal);
        assert_eq!(pgtask::rows::parse_state(name).unwrap(), state);
    }
}

#[test]
fn retry_defaults_and_overflow_are_bounded() {
    assert!(RetryPolicy::default().delay_for(1).unwrap() <= Duration::from_secs(1));
    let overflowing = RetryPolicy::Exponential {
        base_delay: Duration::max_value(),
        factor: u32::MAX,
        max_delay: Duration::max_value(),
    };
    assert!(overflowing.delay_for(u16::MAX).unwrap() <= Duration::from_nanos(u64::MAX));
}

#[test]
fn policies_calculate_bounded_delays() {
    assert_eq!(RetryPolicy::Never.delay_for(1), None);
    assert_eq!(
        RetryPolicy::Fixed {
            delay: Duration::from_secs(3)
        }
        .delay_for(10),
        Some(Duration::from_secs(3))
    );
    let exponential = RetryPolicy::Exponential {
        base_delay: Duration::from_secs(2),
        factor: 3,
        max_delay: Duration::from_secs(20),
    };
    for _ in 0..100 {
        assert!(exponential.delay_for(1).unwrap() <= Duration::from_secs(2));
        assert!(exponential.delay_for(2).unwrap() <= Duration::from_secs(6));
        assert!(exponential.delay_for(10).unwrap() <= Duration::from_secs(20));
    }
}

#[test]
fn backoff_grows_from_the_base_to_the_maximum() {
    let ceiling = |attempt: u16| {
        pgtask::retry::backoff_ceiling_nanos(
            Duration::from_secs(2),
            3,
            Duration::from_secs(20),
            attempt,
        )
    };
    assert_eq!(ceiling(0), 2_000_000_000);
    assert_eq!(ceiling(1), 2_000_000_000);
    assert_eq!(ceiling(2), 6_000_000_000);
    assert_eq!(ceiling(3), 18_000_000_000);
    assert_eq!(ceiling(4), 20_000_000_000);
    assert_eq!(ceiling(u16::MAX), 20_000_000_000);
    let policy = RetryPolicy::Exponential {
        base_delay: Duration::from_secs(2),
        factor: 3,
        max_delay: Duration::from_secs(20),
    };
    assert_eq!(policy.delay_for_draw(2, 5), Some(Duration::from_nanos(5)));
    assert_eq!(policy.delay_for_draw(2, u64::MAX), Some(Duration::from_secs(6)));
}

#[test]
fn drawn_delays_vary() {
    let policy = RetryPolicy::Exponential {
        base_delay: Duration::from_secs(1_000),
        factor: 2,
        max_delay: Duration::from_secs(1_000),
    };
    let first = policy.delay_for(1);
    assert!((0..64).any(|_| policy.delay_for(1) != first));
}

#[test]
fn durations_and_instants_do_exact_arithmetic() {
    assert_eq!(Duration::from_mins(2), Duration::from_secs(120));
    assert_eq!(Duration::from_millis(1_500).as_secs(), 1);
    assert_eq!(Duration::from_millis(1_500).subsec_nanos(), 500_000_000);
    assert_eq!(Duration::from_millis(10).third().as_nanos(), 3_333_333);
    assert_eq!(Duration::from_millis(10).two_thirds().as_nanos(), 6_666_666);
    assert_eq!(Duration::new(u64::MAX, 999_999_999), Some(Duration::max_value()));
    assert_eq!(Duration::max_value().saturating_mul(2), Duration::max_value());
    let before = Timestamp::from_unix_nanos(-1).unwrap();
    assert_eq!(before.split(), (-1, 999_999_999));
    let epoch = Timestamp::from_unix_secs(0).unwrap();
    assert_eq!(epoch.split(), (0, 0));
    assert!(epoch.after(before));
    assert_eq!(epoch.saturating_since(before), Duration::from_nanos(1));
    assert_eq!(before.saturating_since(epoch), Duration::zero());
    assert_eq!(before.checked_add(Duration::from_nanos(1)), Some(epoch));
    assert_eq!(epoch.checked_add(Duration::max_value()), None);
}

#[test]
fn zero_is_no_nonzero_number() {
    assert!(NonZeroU16::new(0).is_none());
    assert!(NonZeroU32::new(0).is_none());
    assert!(NonZeroU64::new(0).is_none());
    assert_eq!(NonZeroU16::new(9).unwrap().get(), 9);
    assert_eq!(NonZeroU64::new(u64::MAX).unwrap().get(), u64::MAX);
}

#[test]
fn objects_keep_their_keys_distinct_and_in_order() {
    let object = JsonObject::new()
        .with("b", Json::unsigned(1))
        .with("a", Json::Null)
        .with("b", Json::text("two"));
    assert_eq!(object.len(), 2);
    assert_eq!(object.entry(0), ("b", &Json::text("two")));
    assert_eq!(object.entry(1), ("a", &Json::Null));
    assert_eq!(object.get("a"), Some(&Json::Null));
    assert_eq!(object.get("c"), None);
    assert_eq!(object.take("b"), Some(Json::text("two")));
    assert_eq!(Json::text("x").as_str(), Some("x"));
    assert_eq!(Json::Bool(true).as_str(), None);
    assert!(Json::Null.into_object().is_none());
}

#[test]
fn objects_are_the_same_in_whatever_order_their_fields_came() {
    let first = JsonObject::new()
        .with("a", Json::unsigned(1))
        .with("b", Json::Array(vec![Json::Null, Json::text("x")]));
    let second = JsonObject::new()
        .with("b", Json::Array(vec![Json::Null, Json::text("x")]))
        .with("a", Json::unsigned(1));
    assert_eq!(first, second);
    assert_eq!(first.clone(), first);
    assert_eq!(first.clone().entry(0).0, "a");
    let nested = |object: &JsonObject| Json::Object(JsonObject::new().with("in", Json::Object(object.clone())));
    assert_eq!(nested(&first), nested(&second));
    assert_ne!(nested(&first), nested(&JsonObject::new()));
    assert_ne!(first.clone().with("c", Json::Null), second);
    assert_ne!(first.clone().with("a", Json::unsigned(2)), second);
    assert_ne!(
        Json::Array(vec![Json::unsigned(1), Json::unsigned(2)]),
        Json::Array(vec![Json::unsigned(2), Json::unsigned(1)])
    );
    assert_ne!(
        Json::Number(JsonNumber::Decimal("1.5".to_owned())),
        Json::Number(JsonNumber::Decimal("2.5".to_owned()))
    );
    let request = EnqueueRequest::new(TaskName::new("copied").unwrap(), Json::Object(first));
    assert_eq!(request.clone(), request);
}

#[test]
fn the_calendar_ends_with_a_leap_second() {
    let secs = 8_210_266_876_799;
    let end = Timestamp::from_parts(secs, 999_999_999).unwrap();
    assert_eq!(end.unix_nanos(), pgtask::time::MAX_UNIX_NANOS);
    assert_eq!(end.checked_add(Duration::from_nanos(1)), None);
    let leap = Timestamp::from_parts(secs, 1_000_000_000).unwrap();
    assert!(leap.after(end));
    assert_eq!(leap.saturating_since(end), Duration::from_nanos(1));
    assert_eq!(leap.split(), (secs, 1_000_000_000));
    assert_eq!(
        leap.checked_add(Duration::from_nanos(999_999_999)),
        Timestamp::from_parts(secs, 1_999_999_999)
    );
    assert_eq!(leap.checked_add(Duration::from_secs(1)), None);
    assert_eq!(Timestamp::from_parts(secs, 2_000_000_000), None);
    assert_eq!(Timestamp::from_parts(secs + 1, 0), None);
    assert_eq!(Timestamp::from_parts(58, 1_000_000_000), None);
    assert_eq!(Timestamp::from_parts(-2, 1_000_000_000), None);
    assert_eq!(Timestamp::from_parts(59, 1_000_000_000), Timestamp::from_unix_secs(60));
    assert_eq!(Timestamp::from_parts(-1, 1_000_000_000), Timestamp::from_unix_secs(0));
    let chrono_end = chrono::DateTime::from_timestamp(secs, 1_999_999_999);
    assert!(chrono_end.is_some());
    assert!(chrono::DateTime::from_timestamp(secs + 1, 0).is_none());
}
