use pgtask::calendar::{next_in_calendar, walk_calendar};
use pgtask::identifier::{ScheduleName, TaskName};
use pgtask::json::Json;
use pgtask::number::NonZeroU16;
use pgtask::schedule::{
    materialize_list, MisfirePolicy, ScheduleConfig, ScheduleDefinition, ScheduleError,
};
use pgtask::task::EnqueueRequest;
use pgtask::time::{Duration, Timestamp};

/// The instant on 15 August 2026.
fn at(hours: i64, minutes: i64, seconds: i64) -> Timestamp {
    Timestamp::from_unix_secs(1_786_752_000 + hours * 3_600 + minutes * 60 + seconds).unwrap()
}

#[test]
fn schedule_state_remains_ordered_when_database_time_moves_backward_and_forward() {
    let schedule = ScheduleDefinition::interval(Duration::from_mins(1)).unwrap();
    let first_due = at(12, 0, 0);

    let before_due = schedule
        .materialize(first_due, at(11, 55, 0), MisfirePolicy::Latest)
        .unwrap();
    assert!(before_due.occurrences.is_empty());
    assert_eq!(before_due.next_run_at, first_due);

    let forward = schedule
        .materialize(
            before_due.next_run_at,
            at(12, 5, 0),
            MisfirePolicy::Latest)
        .unwrap();
    assert_eq!(forward.occurrences, [at(12, 5, 0)]);

    let backward = schedule
        .materialize(
            forward.next_run_at,
            at(12, 3, 0),
            MisfirePolicy::Latest)
        .unwrap();
    assert!(backward.occurrences.is_empty());
    assert_eq!(backward.next_run_at, forward.next_run_at);

    let recovered = schedule
        .materialize(
            backward.next_run_at,
            at(12, 10, 0),
            MisfirePolicy::Latest)
        .unwrap();
    assert_eq!(recovered.occurrences, [at(12, 10, 0)]);
    assert_eq!(recovered.next_run_at, at(12, 11, 0));
}

#[test]
fn every_misfire_policy_reports_the_occurrences_it_discarded() {
    let schedule = ScheduleDefinition::interval(Duration::from_mins(1)).unwrap();
    let first_due = at(12, 0, 0);
    // Ten minutes late, so eleven occurrences are due: 12:00 through 12:10.
    let now = at(12, 10, 0);

    let skip = schedule
        .materialize(first_due, now, MisfirePolicy::Skip)
        .unwrap();
    assert_eq!(skip.occurrences.len(), 1);
    assert_eq!(skip.skipped, 10);

    let latest = schedule
        .materialize(first_due, now, MisfirePolicy::Latest)
        .unwrap();
    assert_eq!(latest.occurrences.len(), 1);
    assert_eq!(latest.skipped, 10);

    let bounded = schedule
        .materialize(
            first_due,
            now,
            MisfirePolicy::CatchUp {
                limit: NonZeroU16::new(4).unwrap(),
            })
        .unwrap();
    assert_eq!(bounded.occurrences.len(), 4);
    assert_eq!(bounded.skipped, 7);

    let complete = schedule
        .materialize(
            first_due,
            now,
            MisfirePolicy::CatchUp {
                limit: NonZeroU16::new(64).unwrap(),
            })
        .unwrap();
    assert_eq!(complete.occurrences.len(), 11);
    assert_eq!(complete.skipped, 0, "a policy that keeps up discards nothing");

    let punctual = schedule
        .materialize(now, at(12, 9, 59), MisfirePolicy::Skip)
        .unwrap();
    assert!(punctual.occurrences.is_empty());
    assert_eq!(punctual.skipped, 0, "a schedule that is not due discards nothing");
}

#[test]
fn a_cron_schedule_reports_discarded_occurrences() {
    let schedule = ScheduleDefinition::cron("0 0 * * * *").unwrap();
    let first_due = at(0, 0, 0);
    let now = at(5, 30, 0);

    let latest = schedule.materialize(first_due, now, MisfirePolicy::Latest).unwrap();
    assert_eq!(latest.occurrences.len(), 1);
    assert_eq!(latest.skipped, 5, "00:00 through 05:00 are due, one is kept");
    assert_eq!(latest.occurrences, [at(5, 0, 0)]);
    assert_eq!(latest.next_run_at, at(6, 0, 0));
}

#[test]
fn policies_choose_among_due_occurrences() {
    let due = || vec![at(1, 0, 0), at(2, 0, 0), at(3, 0, 0)];
    let limit = |count: u16| MisfirePolicy::CatchUp {
        limit: NonZeroU16::new(count).unwrap(),
    };
    for (policy, kept, skipped) in [
        (MisfirePolicy::Skip, vec![at(1, 0, 0)], 2),
        (MisfirePolicy::Latest, vec![at(3, 0, 0)], 2),
        (limit(2), vec![at(1, 0, 0), at(2, 0, 0)], 1),
        (limit(9), due(), 0),
    ] {
        let plan = materialize_list(due(), at(4, 0, 0), policy);
        assert_eq!(plan.occurrences, kept);
        assert_eq!(plan.skipped, skipped);
        assert_eq!(plan.next_run_at, at(4, 0, 0));
    }
    assert!(materialize_list(Vec::new(), at(4, 0, 0), MisfirePolicy::Latest)
        .occurrences
        .is_empty());
}

#[test]
fn a_calendar_only_moves_on() {
    let (due, following) = walk_calendar("*/20 * * * * *", at(0, 0, 10), at(0, 1, 0)).unwrap();
    assert_eq!(
        due,
        [at(0, 0, 10), at(0, 0, 20), at(0, 0, 40), at(0, 1, 0)],
        "the oldest occurrence need not be on the calendar"
    );
    assert_eq!(following, at(0, 1, 20));
    assert_eq!(
        walk_calendar("*/20 * * * * *", at(0, 1, 20), at(0, 1, 0)),
        Some((Vec::new(), at(0, 1, 20)))
    );
    assert_eq!(walk_calendar("0 0 0 1 1 * 2026", at(0, 0, 0), at(1, 0, 0)), None);
    assert_eq!(next_in_calendar("no expression", at(0, 0, 0)), None);
    let last = Timestamp::from_unix_nanos(pgtask::time::MAX_UNIX_NANOS).unwrap();
    assert_eq!(next_in_calendar("@hourly", last), None);
    let between = Timestamp::from_unix_nanos(at(0, 0, 0).unix_nanos() + 1).unwrap();
    assert_eq!(next_in_calendar("* * * * * *", between), Some(at(0, 0, 1)));
}

#[test]
fn catching_up_keeps_the_oldest_occurrences() {
    let schedule = ScheduleDefinition::interval(Duration::from_mins(1)).unwrap();
    let plan = schedule
        .materialize(
            at(12, 0, 0),
            at(12, 10, 30),
            MisfirePolicy::CatchUp {
                limit: NonZeroU16::new(2).unwrap(),
            })
        .unwrap();
    assert_eq!(plan.occurrences, [at(12, 0, 0), at(12, 1, 0)]);
    assert_eq!(plan.next_run_at, at(12, 11, 0));
    assert_eq!(plan.skipped, 9);
    let skip = schedule
        .materialize(at(12, 0, 0), at(12, 10, 30), MisfirePolicy::Skip)
        .unwrap();
    assert_eq!(skip.occurrences, [at(12, 0, 0)]);
}

#[test]
fn two_passes_never_materialize_an_occurrence_twice() {
    let schedule = ScheduleDefinition::interval(Duration::from_secs(7)).unwrap();
    let policy = MisfirePolicy::CatchUp {
        limit: NonZeroU16::new(100).unwrap(),
    };
    let first = schedule
        .materialize(at(12, 0, 0), at(12, 1, 0), policy)
        .unwrap();
    let second = schedule
        .materialize(first.next_run_at, at(12, 2, 0), policy)
        .unwrap();
    assert_eq!(first.occurrences.len(), 9);
    assert!(first
        .occurrences
        .iter()
        .all(|occurrence| !second.occurrences.contains(occurrence)));
}

#[test]
fn schedules_that_cannot_go_on_are_errors() {
    assert_eq!(
        ScheduleDefinition::interval(Duration::zero()),
        Err(ScheduleError::ZeroInterval)
    );
    let endless = ScheduleDefinition::interval(Duration::max_value()).unwrap();
    assert_eq!(
        endless.next_after(at(0, 0, 0)),
        Err(ScheduleError::IntervalOutOfRange)
    );
    assert_eq!(
        endless.materialize(at(0, 0, 0), at(0, 0, 0), MisfirePolicy::Skip),
        Err(ScheduleError::IntervalOutOfRange)
    );
    assert_eq!(
        ScheduleDefinition::cron("every hour"),
        Err(ScheduleError::InvalidCron)
    );
    let past = ScheduleDefinition::cron("0 0 0 1 1 * 2026").unwrap();
    assert_eq!(past.next_after(at(0, 0, 0)), Err(ScheduleError::NoNextOccurrence));
    assert_eq!(
        past.materialize(at(0, 0, 0), at(0, 0, 0), MisfirePolicy::Skip),
        Err(ScheduleError::NoNextOccurrence)
    );
    let cron = ScheduleDefinition::cron("@hourly").unwrap();
    assert_eq!(cron.next_after(at(0, 0, 0)), Ok(at(1, 0, 0)));
    assert_eq!(cron.kind(), "cron");
    let minute = ScheduleDefinition::interval(Duration::from_mins(1)).unwrap();
    assert_eq!(minute.kind(), "interval");
    assert_eq!(minute.next_after(at(0, 0, 0)), Ok(at(0, 1, 0)));
    for error in [
        ScheduleError::ZeroInterval,
        ScheduleError::IntervalOutOfRange,
        ScheduleError::InvalidCron,
        ScheduleError::NoNextOccurrence,
    ] {
        assert!(!error.to_string().is_empty());
    }
}

#[test]
fn new_schedules_start_by_themselves_and_keep_the_latest() {
    let config = ScheduleConfig::new(
        ScheduleName::new("nightly").unwrap(),
        ScheduleDefinition::interval(Duration::from_hours(24)).unwrap(),
        EnqueueRequest::new(TaskName::new("report").unwrap(), Json::Null),
    );
    assert_eq!(config.misfire_policy, MisfirePolicy::Latest);
    assert_eq!(config.start_at, None);
}

#[test]
fn no_occurrence_is_materialized_twice_in_any_number_of_passes() {
    let schedule = ScheduleDefinition::interval(Duration::from_mins(1)).unwrap();
    let mut next_run_at = at(12, 0, 0);
    let mut made = Vec::new();
    for minutes in [0, 3, 1, 3, 7, 7, 5, 9] {
        let limit = NonZeroU16::new(3).unwrap();
        let plan = schedule
            .materialize(next_run_at, at(12, minutes, 30), MisfirePolicy::CatchUp { limit })
            .unwrap();
        next_run_at = plan.next_run_at;
        made.extend(plan.occurrences);
    }
    let seconds: Vec<_> = made.iter().map(|instant| instant.split().0).collect();
    assert!(seconds.windows(2).all(|pair| pair[0] < pair[1]));
    assert_eq!(made.len(), 9);
    assert_eq!(next_run_at, at(12, 10, 0));
}
