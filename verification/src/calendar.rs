//! The calendar that a cron expression describes, in coordinated universal time.

use vstd::prelude::*;

use crate::time::{instant_exists, Duration, Timestamp, NANOS_PER_SEC};

verus! {

/// Whether a text is a cron expression: seconds, minutes, hours, days of the month, months, days of
/// the week and possibly years, or a shorthand such as `@hourly`.
pub uninterp spec fn cron_parses(expression: Seq<char>) -> bool;

/// Calls `cron::Schedule::try_from`, which reads an expression. Which texts it accepts stays
/// unsaid.
#[verifier::external_body]
pub(crate) fn is_cron(expression: &str) -> (result: bool)
    ensures
        result == cron_parses(expression@),
{
    cron::Schedule::try_from(expression).is_ok()
}

/// The first second in which a cron expression occurs after the instant `nanos` nanoseconds after
/// the `secs`-th second of the Unix epoch.
pub uninterp spec fn cron_second_after(
    expression: Seq<char>,
    secs: i64,
    nanos: u32,
) -> Option<i64>;

/// Calls `cron::Schedule::after` and takes the first item. It looks from one second after the given
/// instant on, parts of seconds left away, so what it finds is a later second, one that `chrono`
/// can hold. It finds nothing for a text that is no expression. Which second it finds stays unsaid.
#[verifier::external_body]
fn second_after(expression: &str, secs: i64, nanos: u32) -> (result: Option<i64>)
    requires
        nanos < NANOS_PER_SEC,
        instant_exists(secs * NANOS_PER_SEC + nanos),
        instant_exists((secs + 1) * NANOS_PER_SEC + nanos),
    ensures
        result == cron_second_after(expression@, secs, nanos),
        result matches Some(second) ==> secs < second && instant_exists(second * NANOS_PER_SEC),
{
    let schedule = cron::Schedule::try_from(expression).ok()?;
    let start = chrono::DateTime::from_timestamp(secs, nanos)?;
    let found = schedule.after(&start).next();
    found.map(|instant| instant.timestamp())
}

/// The first occurrence of a cron expression after an instant. There is none in the last second of
/// the calendar.
pub open spec fn occurrence_after(expression: Seq<char>, instant: int) -> Option<int> {
    if instant_exists(instant + NANOS_PER_SEC) {
        match cron_second_after(
            expression,
            (instant / NANOS_PER_SEC as int) as i64,
            (instant % NANOS_PER_SEC as int) as u32,
        ) {
            Some(second) => Some(second * NANOS_PER_SEC),
            None => None,
        }
    } else {
        None
    }
}

pub fn next_in_calendar(expression: &str, instant: Timestamp) -> (result: Option<Timestamp>)
    ensures
        match occurrence_after(expression@, instant@) {
            Some(next) => result is Some && result->0@ == next && next > instant@,
            None => result is None,
        },
{
    let (secs, nanos) = instant.split();
    if instant.checked_add(Duration::from_secs(1)).is_none() {
        return None;
    }
    match second_after(expression, secs, nanos) {
        Some(second) => Timestamp::from_unix_secs(second),
        None => None,
    }
}

/// How far the walk from one occurrence to the next is from its end.
pub open spec fn walk_left(first: int, now: int) -> nat {
    if first <= now {
        (now - first + 1) as nat
    } else {
        0
    }
}

/// The occurrences up to `now`, `first` being the oldest.
pub open spec fn due_in_calendar(expression: Seq<char>, first: int, now: int) -> Seq<int>
    decreases walk_left(first, now),
{
    if first > now {
        Seq::empty()
    } else {
        match occurrence_after(expression, first) {
            Some(next) => if next > first {
                seq![first] + due_in_calendar(expression, next, now)
            } else {
                seq![first]
            },
            None => seq![first],
        }
    }
}

/// The first occurrence after `now`, `first` being an earlier one, unless the calendar ends.
pub open spec fn following_in_calendar(expression: Seq<char>, first: int, now: int) -> Option<int>
    decreases walk_left(first, now),
{
    if first > now {
        Some(first)
    } else {
        match occurrence_after(expression, first) {
            Some(next) => if next > first {
                following_in_calendar(expression, next, now)
            } else {
                None
            },
            None => None,
        }
    }
}

/// Instants as nanoseconds since the epoch.
pub open spec fn instants(list: Seq<Timestamp>) -> Seq<int> {
    list.map_values(|instant: Timestamp| instant@)
}

/// Walks the calendar: the occurrences from `first` up to `now`, and the one that follows them.
pub fn walk_calendar(expression: &str, first: Timestamp, now: Timestamp) -> (result: Option<
    (Vec<Timestamp>, Timestamp),
>)
    ensures
        match following_in_calendar(expression@, first@, now@) {
            Some(following) => {
                &&& result matches Some((due, next))
                &&& instants(due@) == due_in_calendar(expression@, first@, now@)
                &&& next@ == following
            },
            None => result is None,
        },
{
    let mut due: Vec<Timestamp> = Vec::new();
    let mut current = first;
    assert(instants(due@) + due_in_calendar(expression@, first@, now@) =~= due_in_calendar(
        expression@,
        first@,
        now@,
    ));
    while !current.after(now)
        invariant
            instants(due@) + due_in_calendar(expression@, current@, now@) == due_in_calendar(
                expression@,
                first@,
                now@,
            ),
            following_in_calendar(expression@, current@, now@) == following_in_calendar(
                expression@,
                first@,
                now@,
            ),
        decreases walk_left(current@, now@),
    {
        let ghost before = due@;
        due.push(current);
        assert(instants(due@) =~= instants(before).push(current@));
        match next_in_calendar(expression, current) {
            Some(next) => {
                assert(instants(due@) + due_in_calendar(expression@, next@, now@) =~= instants(
                    before,
                ) + (seq![current@] + due_in_calendar(expression@, next@, now@)));
                current = next;
            },
            None => return None,
        }
    }
    assert(instants(due@) + due_in_calendar(expression@, current@, now@) =~= instants(due@));
    Some((due, current))
}

/// A walk stays between its ends, only moves on, and stops after `now`.
pub proof fn calendar_moves_on(expression: Seq<char>, first: int, now: int)
    ensures
        ({
            let due = due_in_calendar(expression, first, now);
            &&& first <= now <==> due.len() > 0
            &&& due.len() > 0 ==> due[0] == first
            &&& forall|i: int| 0 <= i < due.len() ==> first <= #[trigger] due[i] <= now
            &&& forall|i: int, j: int|
                0 <= i < j < due.len() ==> (#[trigger] due[i]) < (#[trigger] due[j])
        }),
        following_in_calendar(expression, first, now) matches Some(following) ==> following > now,
    decreases walk_left(first, now),
{
    if first <= now {
        match occurrence_after(expression, first) {
            Some(next) => {
                if next > first {
                    calendar_moves_on(expression, next, now);
                    let due = due_in_calendar(expression, first, now);
                    let rest = due_in_calendar(expression, next, now);
                    assert(forall|i: int| 1 <= i < due.len() ==> #[trigger] due[i] == rest[i - 1]);
                }
            },
            None => {},
        }
    }
}

/// The occurrence after an instant is the start of the second that the cron expression names for
/// that instant; in the last second of the calendar there is none.
pub proof fn occurrences_are_whole_seconds(expression: Seq<char>, secs: i64, nanos: u32)
    requires
        nanos < NANOS_PER_SEC,
    ensures
        ({
            let after = occurrence_after(expression, secs * NANOS_PER_SEC + nanos);
            let named = cron_second_after(expression, secs, nanos);
            if instant_exists((secs + 1) * NANOS_PER_SEC + nanos) {
                &&& after is Some <==> named is Some
                &&& after is Some ==> after->0 == named->0 * NANOS_PER_SEC
            } else {
                after is None
            }
        }),
{
    let instant = secs * NANOS_PER_SEC + nanos;
    assert(instant / NANOS_PER_SEC as int == secs && instant % NANOS_PER_SEC as int == nanos);
}

/// A walk leaves nothing out: from `first` on each due occurrence is the next one of the calendar
/// after the one before it, and the one that follows them is the next after the last.
pub proof fn walks_leave_nothing_out(expression: Seq<char>, first: int, now: int)
    ensures
        ({
            let due = due_in_calendar(expression, first, now);
            let following = following_in_calendar(expression, first, now);
            &&& due.len() > 0 <==> first <= now
            &&& due.len() > 0 ==> due[0] == first
            &&& forall|i: int|
                0 <= i < due.len() - 1 ==> occurrence_after(expression, #[trigger] due[i]) == Some(
                    due[i + 1],
                )
            &&& due.len() == 0 ==> following == Some(first)
            &&& due.len() > 0 && following is Some ==> occurrence_after(expression, due.last())
                == following
            &&& following is Some ==> following->0 > now
        }),
    decreases walk_left(first, now),
{
    let due = due_in_calendar(expression, first, now);
    if first <= now {
        match occurrence_after(expression, first) {
            Some(next) => if next > first {
                walks_leave_nothing_out(expression, next, now);
                let rest = due_in_calendar(expression, next, now);
                assert(due == seq![first] + rest);
                if rest.len() > 0 {
                    assert(due.last() == rest.last());
                } else {
                    assert(due.last() == first);
                }
                assert forall|i: int| 0 <= i < due.len() - 1 implies occurrence_after(
                    expression,
                    #[trigger] due[i],
                ) == Some(due[i + 1]) by {
                    if i > 0 {
                        assert(due[i] == rest[i - 1]);
                        assert(due[i + 1] == rest[i - 1 + 1]);
                    } else {
                        assert(due[1] == rest[0]);
                    }
                }
            },
            None => {},
        }
    }
}

/// A walk ends without an occurrence to follow only where the calendar has none after one that is
/// due.
pub proof fn walks_end_with_the_calendar(expression: Seq<char>, first: int, now: int)
    ensures
        ({
            let due = due_in_calendar(expression, first, now);
            following_in_calendar(expression, first, now) is None ==> due.len() > 0 && (
            occurrence_after(expression, due.last()) matches Some(next) ==> next <= due.last())
        }),
    decreases walk_left(first, now),
{
    let due = due_in_calendar(expression, first, now);
    if first <= now {
        match occurrence_after(expression, first) {
            Some(next) => if next > first {
                walks_end_with_the_calendar(expression, next, now);
                let rest = due_in_calendar(expression, next, now);
                assert(due == seq![first] + rest);
                if rest.len() > 0 {
                    assert(due.last() == rest.last());
                }
            },
            None => {},
        }
    }
}

/// A list of instants is read instant by instant, in its order.
pub proof fn instants_are_read_one_by_one(list: Seq<Timestamp>)
    ensures
        instants(list).len() == list.len(),
        forall|i: int| 0 <= i < list.len() ==> #[trigger] instants(list)[i] == list[i]@,
{
}

} // verus!
