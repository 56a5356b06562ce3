//! Recurring schedules and the occurrences that fall due.

use vstd::arithmetic::div_mod::lemma_fundamental_div_mod;
use vstd::prelude::*;

use crate::calendar::{
    calendar_moves_on, cron_parses, due_in_calendar, following_in_calendar, instants, is_cron,
    next_in_calendar, occurrence_after, walk_calendar, walks_end_with_the_calendar,
    walks_leave_nothing_out,
};
use crate::identifier::{ScheduleId, ScheduleName};
use crate::number::NonZeroU16;
use crate::task::EnqueueRequest;
use crate::time::{
    reaches, Duration, Timestamp, MAX_LEAP_NANOS, MAX_UNIX_NANOS, MIN_UNIX_NANOS,
};
use crate::unique::is_version_seven;

verus! {

/// Why a schedule cannot be followed.
#[derive(Clone, Copy, Debug, PartialEq, Eq, Structural)]
pub enum ScheduleError {
    /// The interval is empty.
    ZeroInterval,
    /// The interval, or an occurrence that it leads to, is outside what can be represented.
    IntervalOutOfRange,
    /// The text is no cron expression.
    InvalidCron,
    /// The calendar knows no further occurrence of the cron expression.
    NoNextOccurrence,
}

impl ScheduleError {
    /// The error in words.
    pub fn to_string(&self) -> (result: String)
        ensures
            result@ == schedule_error_text(*self),
    {
        match self {
            ScheduleError::ZeroInterval => "schedule interval must be greater than zero".to_owned(),
            ScheduleError::IntervalOutOfRange => "schedule interval is out of range".to_owned(),
            ScheduleError::InvalidCron => "schedule cron expression is invalid".to_owned(),
            ScheduleError::NoNextOccurrence => "schedule has no next occurrence".to_owned(),
        }
    }
}

/// The words that report a schedule error.
pub open spec fn schedule_error_text(error: ScheduleError) -> Seq<char> {
    match error {
        ScheduleError::ZeroInterval => "schedule interval must be greater than zero"@,
        ScheduleError::IntervalOutOfRange => "schedule interval is out of range"@,
        ScheduleError::InvalidCron => "schedule cron expression is invalid"@,
        ScheduleError::NoNextOccurrence => "schedule has no next occurrence"@,
    }
}

/// When a schedule occurs: once in every interval, or when a cron expression says so.
#[derive(Clone, Debug, PartialEq, Eq)]
pub enum ScheduleDefinition {
    Interval { every: Duration },
    Cron { expression: String },
}

/// Which of several due occurrences become tasks: the one that fell due first, the one that fell
/// due last, or up to a limit, the oldest first.
#[derive(Clone, Copy, Debug, PartialEq, Eq, Structural)]
pub enum MisfirePolicy {
    Skip,
    Latest,
    CatchUp { limit: NonZeroU16 },
}

/// The due occurrences that become tasks, when the schedule is due next, and how many due
/// occurrences are discarded.
#[derive(Clone, Debug, PartialEq, Eq)]
pub struct Materialization {
    pub occurrences: Vec<Timestamp>,
    pub next_run_at: Timestamp,
    pub skipped: u64,
}

/// A materialization with its instants as nanoseconds since the epoch.
#[verifier::ext_equal]
pub struct Plan {
    pub occurrences: Seq<int>,
    pub next_run_at: int,
    pub skipped: nat,
}

impl View for Materialization {
    type V = Plan;

    open spec fn view(&self) -> Plan {
        Plan {
            occurrences: instants(self.occurrences@),
            next_run_at: self.next_run_at@,
            skipped: self.skipped as nat,
        }
    }
}

/// How many of `due` occurrences a policy keeps.
pub open spec fn kept_count(policy: MisfirePolicy, due: nat) -> nat {
    match policy {
        MisfirePolicy::Skip => if due == 0 {
            0
        } else {
            1
        },
        MisfirePolicy::Latest => if due == 0 {
            0
        } else {
            1
        },
        MisfirePolicy::CatchUp { limit } => if due <= limit@ {
            due
        } else {
            limit@ as nat
        },
    }
}

/// Which of `due` occurrences, counted from the oldest, is the `index`-th that a policy keeps.
pub open spec fn kept_place(policy: MisfirePolicy, due: nat, index: int) -> int {
    match policy {
        MisfirePolicy::Skip => 0,
        MisfirePolicy::Latest => due - 1,
        MisfirePolicy::CatchUp { limit } => index,
    }
}

/// What a policy makes of due occurrences, given the one that follows them.
pub open spec fn list_plan(policy: MisfirePolicy, due: Seq<int>, following: int) -> Plan {
    Plan {
        occurrences: Seq::new(
            kept_count(policy, due.len()),
            |i: int| due[kept_place(policy, due.len(), i)],
        ),
        next_run_at: following,
        skipped: (due.len() - kept_count(policy, due.len())) as nat,
    }
}

/// How many occurrences of an interval schedule are due at `now`, both ends included.
pub open spec fn due_count(next_run_at: int, every: nat, now: int) -> nat {
    if now < next_run_at {
        0
    } else {
        ((now - next_run_at) / every as int + 1) as nat
    }
}

/// The `place`-th occurrence of an interval schedule from `next_run_at` on.
pub open spec fn interval_occurrence(next_run_at: int, every: nat, place: int) -> int {
    next_run_at + place * every
}

/// The occurrences of an interval schedule that are due at `now`.
pub open spec fn due_in_interval(next_run_at: int, every: nat, now: int) -> Seq<int> {
    Seq::new(
        due_count(next_run_at, every, now),
        |i: int| interval_occurrence(next_run_at, every, i),
    )
}

/// Whether the occurrence after `now` exists and the due ones can be counted.
pub open spec fn interval_fits(next_run_at: int, every: nat, now: int) -> bool {
    let due = due_count(next_run_at, every, now);
    due <= u64::MAX && reaches(
        next_run_at,
        interval_occurrence(next_run_at, every, due as int),
    )
}

/// A policy never keeps more than is due.
proof fn lemma_kept(policy: MisfirePolicy, due: nat)
    ensures
        kept_count(policy, due) <= due,
        forall|i: int|
            0 <= i < kept_count(policy, due) ==> 0 <= #[trigger] kept_place(policy, due, i) < due,
{
}

/// The due occurrences are those up to `now`.
proof fn lemma_due(next_run_at: int, every: nat, now: int)
    requires
        every > 0,
    ensures
        interval_occurrence(next_run_at, every, due_count(next_run_at, every, now) as int) > now,
        now >= next_run_at ==> interval_occurrence(
            next_run_at,
            every,
            due_count(next_run_at, every, now) - 1,
        ) <= now,
        now < next_run_at ==> due_count(next_run_at, every, now) == 0,
        now >= next_run_at ==> due_count(next_run_at, every, now) >= 1,
{
    let due = due_count(next_run_at, every, now) as int;
    if now >= next_run_at {
        let late = now - next_run_at;
        let step = every as int;
        lemma_fundamental_div_mod(late, step);
        assert(late == step * (late / step) + late % step);
        assert(0 <= late % step < step) by (nonlinear_arith)
            requires
                step > 0,
        ;
        assert(late / step >= 0) by (nonlinear_arith)
            requires
                late >= 0,
                step > 0,
        ;
        assert((late / step + 1) * step == step * (late / step) + step) by (nonlinear_arith);
        assert((due - 1) * every == step * (late / step)) by (nonlinear_arith)
            requires
                due - 1 == late / step,
                step == every,
        ;
    } else {
        assert(0 * every == 0) by (nonlinear_arith);
    }
}

/// A later place is a later occurrence.
proof fn lemma_occurrences_ascend(next_run_at: int, every: nat, low: int, high: int)
    requires
        every > 0,
        low < high,
    ensures
        interval_occurrence(next_run_at, every, low) < interval_occurrence(next_run_at, every, high),
{
    assert(low * every < high * every) by (nonlinear_arith)
        requires
            every > 0,
            low < high,
    ;
}

/// The word that stands for how a schedule is defined.
pub open spec fn definition_kind(definition: ScheduleDefinition) -> Seq<char> {
    match definition {
        ScheduleDefinition::Interval { .. } => "interval"@,
        ScheduleDefinition::Cron { .. } => "cron"@,
    }
}

/// The occurrence after `now`: one interval later, or what the calendar says.
pub open spec fn next_occurrence(definition: ScheduleDefinition, now: int) -> Result<
    int,
    ScheduleError,
> {
    match definition {
        ScheduleDefinition::Interval { every } => if reaches(now, now + every@) {
            Ok(now + every@)
        } else {
            Err(ScheduleError::IntervalOutOfRange)
        },
        ScheduleDefinition::Cron { expression } => match occurrence_after(expression@, now) {
            Some(instant) => Ok(instant),
            None => Err(ScheduleError::NoNextOccurrence),
        },
    }
}

/// The occurrences of a schedule that are due at `now`, `next_run_at` being the oldest.
pub open spec fn due_occurrences(
    definition: ScheduleDefinition,
    next_run_at: int,
    now: int,
) -> Seq<int> {
    match definition {
        ScheduleDefinition::Interval { every } => due_in_interval(next_run_at, every@, now),
        ScheduleDefinition::Cron { expression } => due_in_calendar(expression@, next_run_at, now),
    }
}

/// The plan of a schedule that stays as it is.
pub open spec fn unchanged_plan(next_run_at: int) -> Plan {
    Plan { occurrences: Seq::empty(), next_run_at, skipped: 0 }
}

/// What becomes of a schedule at `now`. A schedule that is not due stays as it is.
pub open spec fn materialization_outcome(
    definition: ScheduleDefinition,
    next_run_at: int,
    now: int,
    policy: MisfirePolicy,
) -> Result<Plan, ScheduleError> {
    let due = due_occurrences(definition, next_run_at, now);
    if next_run_at > now {
        Ok(unchanged_plan(next_run_at))
    } else {
        match definition {
            ScheduleDefinition::Interval { every } => if every@ == 0 {
                Err(ScheduleError::ZeroInterval)
            } else if interval_fits(next_run_at, every@, now) {
                Ok(
                    list_plan(
                        policy,
                        due,
                        interval_occurrence(next_run_at, every@, due.len() as int),
                    ),
                )
            } else {
                Err(ScheduleError::IntervalOutOfRange)
            },
            ScheduleDefinition::Cron { expression } => match following_in_calendar(
                expression@,
                next_run_at,
                now,
            ) {
                Some(following) => Ok(list_plan(policy, due, following)),
                None => Err(ScheduleError::NoNextOccurrence),
            },
        }
    }
}

/// The due occurrences of a schedule ascend from `next_run_at` to `now`.
proof fn lemma_due_ascend(definition: ScheduleDefinition, next_run_at: int, now: int)
    requires
        definition matches ScheduleDefinition::Interval { every } ==> every@ > 0,
    ensures
        ({
            let due = due_occurrences(definition, next_run_at, now);
            &&& next_run_at <= now <==> due.len() > 0
            &&& forall|i: int| 0 <= i < due.len() ==> next_run_at <= #[trigger] due[i] <= now
            &&& forall|i: int, j: int|
                0 <= i < j < due.len() ==> (#[trigger] due[i]) < (#[trigger] due[j])
        }),
{
    let due = due_occurrences(definition, next_run_at, now);
    match definition {
        ScheduleDefinition::Interval { every } => {
            lemma_due(next_run_at, every@, now);
            assert(0 * every@ == 0) by (nonlinear_arith);
            assert forall|i: int| 0 <= i < due.len() implies next_run_at <= #[trigger] due[i]
                <= now by {
                if i > 0 {
                    lemma_occurrences_ascend(next_run_at, every@, 0, i);
                }
                if i < due.len() - 1 {
                    lemma_occurrences_ascend(next_run_at, every@, i, due.len() - 1);
                }
            }
            assert forall|i: int, j: int| 0 <= i < j < due.len() implies (#[trigger] due[i]) < (
            #[trigger] due[j]) by {
                lemma_occurrences_ascend(next_run_at, every@, i, j);
            }
        },
        ScheduleDefinition::Cron { expression } => {
            calendar_moves_on(expression@, next_run_at, now);
        },
    }
}

/// Every due occurrence becomes a task or is counted as skipped.
pub proof fn every_due_occurrence_is_accounted_for(
    definition: ScheduleDefinition,
    next_run_at: int,
    now: int,
    policy: MisfirePolicy,
)
    ensures
        materialization_outcome(definition, next_run_at, now, policy) matches Ok(plan)
            ==> plan.occurrences.len() + plan.skipped == due_occurrences(
            definition,
            next_run_at,
            now,
        ).len(),
{
    lemma_kept(policy, due_occurrences(definition, next_run_at, now).len());
    match definition {
        ScheduleDefinition::Interval { .. } => {},
        ScheduleDefinition::Cron { expression } => {
            calendar_moves_on(expression@, next_run_at, now);
        },
    }
}

/// What becomes a task is due and in order, and the schedule is due next after `now`.
pub proof fn materialized_occurrences_are_due_and_ordered(
    definition: ScheduleDefinition,
    next_run_at: int,
    now: int,
    policy: MisfirePolicy,
)
    ensures
        materialization_outcome(definition, next_run_at, now, policy) matches Ok(plan) ==> {
            &&& forall|i: int|
                0 <= i < plan.occurrences.len() ==> next_run_at <= #[trigger] plan.occurrences[i]
                    <= now
            &&& forall|i: int|
                0 <= i < plan.occurrences.len() ==> due_occurrences(
                    definition,
                    next_run_at,
                    now,
                ).contains(#[trigger] plan.occurrences[i])
            &&& forall|i: int, j: int|
                0 <= i < j < plan.occurrences.len() ==> (#[trigger] plan.occurrences[i]) < (
                #[trigger] plan.occurrences[j])
            &&& plan.next_run_at > now
            &&& plan.next_run_at >= next_run_at
        },
{
    if next_run_at <= now && materialization_outcome(definition, next_run_at, now, policy) is Ok {
        let due = due_occurrences(definition, next_run_at, now);
        let plan = materialization_outcome(definition, next_run_at, now, policy)->Ok_0;
        lemma_due_ascend(definition, next_run_at, now);
        lemma_kept(policy, due.len());
        match definition {
            ScheduleDefinition::Interval { every } => {
                lemma_due(next_run_at, every@, now);
            },
            ScheduleDefinition::Cron { expression } => {
                calendar_moves_on(expression@, next_run_at, now);
            },
        }
        assert forall|i: int| 0 <= i < plan.occurrences.len() implies next_run_at
            <= #[trigger] plan.occurrences[i] <= now && due.contains(plan.occurrences[i]) by {
            assert(plan.occurrences[i] == due[kept_place(policy, due.len(), i)]);
        }
        assert forall|i: int, j: int| 0 <= i < j < plan.occurrences.len() implies (
        #[trigger] plan.occurrences[i]) < (#[trigger] plan.occurrences[j]) by {
            assert(plan.occurrences[i] == due[kept_place(policy, due.len(), i)]);
            assert(plan.occurrences[j] == due[kept_place(policy, due.len(), j)]);
        }
    }
}

/// When the clock stands still or moves backward, nothing is due again and the schedule stays as
/// it is.
pub proof fn clock_moving_backward_changes_nothing(
    definition: ScheduleDefinition,
    next_run_at: int,
    now: int,
    policy: MisfirePolicy,
    earlier: int,
    next_policy: MisfirePolicy,
)
    requires
        earlier <= now,
    ensures
        materialization_outcome(definition, next_run_at, now, policy) matches Ok(plan)
            ==> materialization_outcome(definition, plan.next_run_at, earlier, next_policy) == Ok::<
            Plan,
            ScheduleError,
        >(unchanged_plan(plan.next_run_at)),
{
    materialized_occurrences_are_due_and_ordered(definition, next_run_at, now, policy);
}

/// A pass over a schedule: when it is made, and by which definition and policy.
pub struct Pass {
    pub definition: ScheduleDefinition,
    pub policy: MisfirePolicy,
    pub now: int,
}

/// What a pass makes of a schedule that is due next at `next_run_at`. One that fails leaves it as
/// it is.
pub open spec fn pass_plan(pass: Pass, next_run_at: int) -> Plan {
    match materialization_outcome(pass.definition, next_run_at, pass.now, pass.policy) {
        Ok(plan) => plan,
        Err(_) => unchanged_plan(next_run_at),
    }
}

/// When a schedule is due next after some passes, each of which begins where the one before it
/// left off.
pub open spec fn next_run_after(first_run_at: int, passes: Seq<Pass>) -> int
    decreases passes.len(),
{
    if passes.len() == 0 {
        first_run_at
    } else {
        pass_plan(passes.last(), next_run_after(first_run_at, passes.drop_last())).next_run_at
    }
}

/// The occurrences that become tasks in some passes, in the order in which they do.
pub open spec fn materialized_in(first_run_at: int, passes: Seq<Pass>) -> Seq<int>
    decreases passes.len(),
{
    if passes.len() == 0 {
        Seq::empty()
    } else {
        materialized_in(first_run_at, passes.drop_last()) + pass_plan(
            passes.last(),
            next_run_after(first_run_at, passes.drop_last()),
        ).occurrences
    }
}

/// No occurrence becomes a task twice, in however many passes, whatever the clock does between
/// them: what is materialized later comes after everything that was materialized before, and the
/// schedule is due next after all of it.
pub proof fn occurrences_are_materialized_at_most_once(first_run_at: int, passes: Seq<Pass>)
    ensures
        materialized_in(first_run_at, passes).no_duplicates(),
        forall|i: int, j: int|
            0 <= i < j < materialized_in(first_run_at, passes).len() ==> (
            #[trigger] materialized_in(first_run_at, passes)[i]) < (
            #[trigger] materialized_in(first_run_at, passes)[j]),
        forall|i: int|
            0 <= i < materialized_in(first_run_at, passes).len() ==> first_run_at
                <= #[trigger] materialized_in(first_run_at, passes)[i] < next_run_after(
                first_run_at,
                passes,
            ),
        first_run_at <= next_run_after(first_run_at, passes),
    decreases passes.len(),
{
    if passes.len() > 0 {
        let pass = passes.last();
        let before = materialized_in(first_run_at, passes.drop_last());
        let start = next_run_after(first_run_at, passes.drop_last());
        let plan = pass_plan(pass, start);
        occurrences_are_materialized_at_most_once(first_run_at, passes.drop_last());
        materialized_occurrences_are_due_and_ordered(
            pass.definition,
            start,
            pass.now,
            pass.policy,
        );
        let all = materialized_in(first_run_at, passes);
        assert(all == before + plan.occurrences);
        assert forall|i: int| 0 <= i < all.len() implies first_run_at <= #[trigger] all[i]
            < plan.next_run_at by {
            if i >= before.len() {
                assert(all[i] == plan.occurrences[i - before.len()]);
            } else {
                assert(all[i] == before[i]);
            }
        }
        assert forall|i: int, j: int| 0 <= i < j < all.len() implies (#[trigger] all[i]) < (
        #[trigger] all[j]) by {
            if i < before.len() {
                assert(all[i] == before[i]);
            } else {
                assert(all[i] == plan.occurrences[i - before.len()]);
            }
            if j < before.len() {
                assert(all[j] == before[j]);
            } else {
                assert(all[j] == plan.occurrences[j - before.len()]);
            }
        }
    }
}

/// A pass at a time that an earlier pass has seen makes no task and leaves the schedule as it is,
/// as long as the earlier pass did not fail.
pub proof fn repeated_passes_make_nothing(
    first_run_at: int,
    passes: Seq<Pass>,
    place: int,
    repeat: Pass,
)
    requires
        0 <= place < passes.len(),
        repeat.now <= passes[place].now,
        materialization_outcome(
            passes[place].definition,
            next_run_after(first_run_at, passes.take(place)),
            passes[place].now,
            passes[place].policy,
        ) is Ok,
    ensures
        next_run_after(first_run_at, passes) > repeat.now,
        pass_plan(repeat, next_run_after(first_run_at, passes)) == unchanged_plan(
            next_run_after(first_run_at, passes),
        ),
    decreases passes.len(),
{
    let pass = passes.last();
    let start = next_run_after(first_run_at, passes.drop_last());
    materialized_occurrences_are_due_and_ordered(pass.definition, start, pass.now, pass.policy);
    if place == passes.len() - 1 {
        assert(passes.take(place) =~= passes.drop_last());
    } else {
        assert(passes.drop_last().take(place) =~= passes.take(place));
        repeated_passes_make_nothing(first_run_at, passes.drop_last(), place, repeat);
    }
}

/// What the misfire policies make of due occurrences: the oldest alone, the latest alone, or the
/// oldest ones up to a limit. Everything else is counted, and the schedule is due next when the
/// occurrence that follows says.
pub proof fn policies_choose_among_due_occurrences(
    policy: MisfirePolicy,
    due: Seq<int>,
    following: int,
)
    ensures
        ({
            let plan = list_plan(policy, due, following);
            &&& plan.next_run_at == following
            &&& plan.occurrences.len() + plan.skipped == due.len()
            &&& due.len() == 0 ==> plan.occurrences.len() == 0
            &&& due.len() > 0 ==> match policy {
                MisfirePolicy::Skip => plan.occurrences == seq![due[0]],
                MisfirePolicy::Latest => plan.occurrences == seq![due[due.len() - 1]],
                MisfirePolicy::CatchUp { limit } => {
                    &&& plan.occurrences.is_prefix_of(due)
                    &&& plan.occurrences.len() <= limit@
                    &&& plan.occurrences.len() == limit@ || plan.skipped == 0
                },
            }
        }),
{
    let plan = list_plan(policy, due, following);
    lemma_kept(policy, due.len());
    if due.len() > 0 {
        match policy {
            MisfirePolicy::Skip => {
                assert(plan.occurrences =~= seq![due[0]]);
            },
            MisfirePolicy::Latest => {
                assert(plan.occurrences =~= seq![due[due.len() - 1]]);
            },
            MisfirePolicy::CatchUp { .. } => {
                assert(plan.occurrences =~= due.take(plan.occurrences.len() as int));
            },
        }
    }
}

/// A schedule that is not due is left alone, whatever its definition and its policy.
pub proof fn schedules_wait_until_they_are_due(
    definition: ScheduleDefinition,
    next_run_at: int,
    now: int,
    policy: MisfirePolicy,
)
    requires
        next_run_at > now,
    ensures
        materialization_outcome(definition, next_run_at, now, policy) matches Ok(plan)
            && plan.occurrences.len() == 0 && plan.next_run_at == next_run_at && plan.skipped == 0,
{
}

/// The next run of a due interval schedule is its first occurrence after `now`: a whole number of
/// intervals on, after `now`, and no more than one interval after it.
pub proof fn interval_schedules_run_next_right_after_now(
    every: Duration,
    next_run_at: int,
    now: int,
    policy: MisfirePolicy,
) -> (intervals: nat)
    requires
        next_run_at <= now,
    ensures
        materialization_outcome(
            ScheduleDefinition::Interval { every },
            next_run_at,
            now,
            policy,
        ) matches Ok(plan) ==> {
            &&& plan.next_run_at == next_run_at + intervals * every@
            &&& plan.next_run_at - every@ <= now < plan.next_run_at
            &&& intervals == plan.occurrences.len() + plan.skipped
        },
{
    let intervals = due_count(next_run_at, every@, now);
    if every@ > 0 {
        lemma_due(next_run_at, every@, now);
        lemma_kept(policy, intervals);
        assert((intervals - 1) * every@ == intervals * every@ - every@) by (nonlinear_arith);
    }
    intervals
}

/// What a due interval schedule makes of its misfires: its next run alone, its latest occurrence up
/// to `now` alone, or its occurrences from the next run on, one interval apart, up to a limit.
pub proof fn interval_schedules_keep_their_misfires(
    every: Duration,
    next_run_at: int,
    now: int,
    policy: MisfirePolicy,
)
    requires
        next_run_at <= now,
    ensures
        materialization_outcome(
            ScheduleDefinition::Interval { every },
            next_run_at,
            now,
            policy,
        ) matches Ok(plan) ==> {
            &&& (plan.occurrences.len() + plan.skipped) * every@ == plan.next_run_at - next_run_at
            &&& match policy {
                MisfirePolicy::Skip => plan.occurrences == seq![next_run_at],
                MisfirePolicy::Latest => plan.occurrences == seq![plan.next_run_at - every@],
                MisfirePolicy::CatchUp { limit } => {
                    &&& plan.occurrences.len() <= limit@
                    &&& plan.occurrences.len() == limit@ || plan.skipped == 0
                    &&& forall|i: int|
                        0 <= i < plan.occurrences.len() ==> #[trigger] plan.occurrences[i]
                            == next_run_at + i * every@
                },
            }
        },
{
    let outcome = materialization_outcome(
        ScheduleDefinition::Interval { every },
        next_run_at,
        now,
        policy,
    );
    if outcome is Ok {
        let plan = outcome->Ok_0;
        let due = due_in_interval(next_run_at, every@, now);
        let intervals = interval_schedules_run_next_right_after_now(
            every,
            next_run_at,
            now,
            policy,
        );
        lemma_due(next_run_at, every@, now);
        policies_choose_among_due_occurrences(policy, due, plan.next_run_at);
        assert(intervals * every@ == plan.next_run_at - next_run_at);
        assert(0 * every@ == 0) by (nonlinear_arith);
        assert((intervals - 1) * every@ == intervals * every@ - every@) by (nonlinear_arith);
        assert(due[0] == next_run_at);
        assert(due[due.len() - 1] == plan.next_run_at - every@);
        if policy is CatchUp {
            assert forall|i: int| 0 <= i < plan.occurrences.len() implies #[trigger] plan.occurrences[i]
                == next_run_at + i * every@ by {
                assert(plan.occurrences[i] == due[i]);
            }
        }
    }
}

/// A due interval schedule is followed wherever its interval is not empty, its next run is still in
/// the calendar and its occurrences can be counted.
pub proof fn interval_schedules_are_followed(
    every: Duration,
    next_run_at: int,
    now: int,
    policy: MisfirePolicy,
)
    requires
        next_run_at <= now,
    ensures
        ({
            let outcome = materialization_outcome(
                ScheduleDefinition::Interval { every },
                next_run_at,
                now,
                policy,
            );
            &&& every@ == 0 ==> outcome == Err::<Plan, _>(ScheduleError::ZeroInterval)
            &&& every@ > 0 && MIN_UNIX_NANOS <= next_run_at && now + every@ <= MAX_UNIX_NANOS && now
                - next_run_at < u64::MAX ==> outcome is Ok
            &&& every@ > 0 && outcome is Err ==> outcome->Err_0 == ScheduleError::IntervalOutOfRange
            &&& outcome matches Ok(plan) ==> plan.next_run_at <= MAX_LEAP_NANOS
        }),
{
    if every@ > 0 {
        let late = now - next_run_at;
        lemma_due(next_run_at, every@, now);
        let due = due_count(next_run_at, every@, now) as int;
        assert(late / (every@ as int) <= late) by (nonlinear_arith)
            requires
                late >= 0,
                every@ > 0,
        ;
        assert((due - 1) * every@ == due * every@ - every@) by (nonlinear_arith);
        assert(due * every@ >= 0) by (nonlinear_arith)
            requires
                due >= 0,
        ;
    }
}

/// The next run of a due cron schedule is the next occurrence of its calendar after the last due
/// one, so none lies between `now` and it; and each due occurrence is the next one after the one
/// before it, from the next run of before on.
pub proof fn cron_schedules_leave_nothing_out(
    expression: String,
    next_run_at: int,
    now: int,
    policy: MisfirePolicy,
) -> (due: Seq<int>)
    requires
        next_run_at <= now,
    ensures
        materialization_outcome(
            ScheduleDefinition::Cron { expression },
            next_run_at,
            now,
            policy,
        ) matches Ok(plan) ==> {
            &&& due.len() == plan.occurrences.len() + plan.skipped
            &&& due.len() > 0 && due[0] == next_run_at
            &&& forall|i: int|
                0 <= i < due.len() - 1 ==> occurrence_after(expression@, #[trigger] due[i]) == Some(
                    due[i + 1],
                )
            &&& occurrence_after(expression@, due[due.len() - 1]) == Some(plan.next_run_at)
            &&& due[due.len() - 1] <= now < plan.next_run_at
            &&& match policy {
                MisfirePolicy::Skip => plan.occurrences == seq![next_run_at],
                MisfirePolicy::Latest => plan.occurrences == seq![due[due.len() - 1]],
                MisfirePolicy::CatchUp { limit } => {
                    &&& plan.occurrences.is_prefix_of(due)
                    &&& plan.occurrences.len() <= limit@
                    &&& plan.occurrences.len() == limit@ || plan.skipped == 0
                },
            }
        },
{
    let due = due_in_calendar(expression@, next_run_at, now);
    let outcome = materialization_outcome(
        ScheduleDefinition::Cron { expression },
        next_run_at,
        now,
        policy,
    );
    walks_leave_nothing_out(expression@, next_run_at, now);
    calendar_moves_on(expression@, next_run_at, now);
    if outcome is Ok {
        policies_choose_among_due_occurrences(policy, due, outcome->Ok_0.next_run_at);
    }
    due
}

/// A due cron schedule is followed until its calendar ends: it is given up only where a due
/// occurrence, reached step by step from its next run, has none after it.
pub proof fn cron_schedules_end_with_their_calendar(
    expression: String,
    next_run_at: int,
    now: int,
    policy: MisfirePolicy,
) -> (due: Seq<int>)
    requires
        next_run_at <= now,
    ensures
        materialization_outcome(
            ScheduleDefinition::Cron { expression },
            next_run_at,
            now,
            policy,
        ) matches Err(error) ==> {
            &&& error == ScheduleError::NoNextOccurrence
            &&& due.len() > 0 && due[0] == next_run_at
            &&& forall|i: int|
                0 <= i < due.len() - 1 ==> occurrence_after(expression@, #[trigger] due[i]) == Some(
                    due[i + 1],
                )
            &&& due[due.len() - 1] <= now
            &&& occurrence_after(expression@, due[due.len() - 1]) matches Some(next) ==> next
                <= due[due.len() - 1]
        },
{
    walks_leave_nothing_out(expression@, next_run_at, now);
    walks_end_with_the_calendar(expression@, next_run_at, now);
    calendar_moves_on(expression@, next_run_at, now);
    due_in_calendar(expression@, next_run_at, now)
}

/// A new schedule runs first one interval after `now`, or at the next occurrence of its calendar.
pub proof fn schedules_begin_after_now(definition: ScheduleDefinition, now: int)
    ensures
        match definition {
            ScheduleDefinition::Interval { every } => {
                &&& next_occurrence(definition, now) matches Ok(next) ==> next == now + every@
                &&& MIN_UNIX_NANOS <= now && now + every@ <= MAX_UNIX_NANOS ==> next_occurrence(
                    definition,
                    now,
                ) is Ok
                &&& now + every@ > MAX_LEAP_NANOS ==> next_occurrence(definition, now) == Err::<
                    int,
                    _,
                >(ScheduleError::IntervalOutOfRange)
            },
            ScheduleDefinition::Cron { expression } => match occurrence_after(expression@, now) {
                Some(next) => next_occurrence(definition, now) == Ok::<int, ScheduleError>(next),
                None => next_occurrence(definition, now) == Err::<int, _>(
                    ScheduleError::NoNextOccurrence,
                ),
            },
        },
{
}

/// The occurrences that are discarded in some passes.
pub open spec fn skipped_in(first_run_at: int, passes: Seq<Pass>) -> nat
    decreases passes.len(),
{
    if passes.len() == 0 {
        0
    } else {
        skipped_in(first_run_at, passes.drop_last()) + pass_plan(
            passes.last(),
            next_run_after(first_run_at, passes.drop_last()),
        ).skipped
    }
}

/// No occurrence of an interval schedule falls between two passes: up to the next run every one of
/// them has become a task or was counted as discarded.
pub proof fn no_occurrence_falls_between_passes(
    first_run_at: int,
    passes: Seq<Pass>,
    every: Duration,
)
    requires
        forall|i: int|
            0 <= i < passes.len() ==> (#[trigger] passes[i]).definition
                == (ScheduleDefinition::Interval { every }),
    ensures
        (materialized_in(first_run_at, passes).len() + skipped_in(first_run_at, passes)) * every@
            == next_run_after(first_run_at, passes) - first_run_at,
    decreases passes.len(),
{
    if passes.len() == 0 {
        assert(0 * every@ == 0) by (nonlinear_arith);
    } else {
        let earlier = passes.drop_last();
        let pass = passes.last();
        assert(pass == passes[passes.len() - 1]);
        assert forall|i: int| 0 <= i < earlier.len() implies (#[trigger] earlier[i]).definition == (
        ScheduleDefinition::Interval { every }) by {
            assert(passes[i].definition == (ScheduleDefinition::Interval { every }));
        }
        no_occurrence_falls_between_passes(first_run_at, earlier, every);
        let start = next_run_after(first_run_at, earlier);
        let plan = pass_plan(pass, start);
        let before = materialized_in(first_run_at, earlier).len() + skipped_in(
            first_run_at,
            earlier,
        );
        let here = plan.occurrences.len() + plan.skipped;
        if start <= pass.now {
            interval_schedules_keep_their_misfires(every, start, pass.now, pass.policy);
        }
        assert(0 * every@ == 0) by (nonlinear_arith);
        assert(here * every@ == plan.next_run_at - start);
        assert((before + here) * every@ == before * every@ + here * every@) by (nonlinear_arith);
    }
}

impl ScheduleDefinition {
    /// A schedule that occurs once in every `every`.
    pub fn interval(every: Duration) -> (result: Result<Self, ScheduleError>)
        ensures
            result == if every@ == 0 {
                Err::<ScheduleDefinition, _>(ScheduleError::ZeroInterval)
            } else {
                Ok(ScheduleDefinition::Interval { every })
            },
    {
        if every.is_zero() {
            return Err(ScheduleError::ZeroInterval);
        }
        Ok(ScheduleDefinition::Interval { every })
    }

    /// A schedule that occurs when a cron expression says so.
    pub fn cron(expression: &str) -> (result: Result<Self, ScheduleError>)
        ensures
            if cron_parses(expression@) {
                result matches Ok(ScheduleDefinition::Cron { expression: kept }) && kept@
                    == expression@
            } else {
                result == Err::<ScheduleDefinition, _>(ScheduleError::InvalidCron)
            },
    {
        if !is_cron(expression) {
            return Err(ScheduleError::InvalidCron);
        }
        Ok(ScheduleDefinition::Cron { expression: expression.to_owned() })
    }

    pub fn kind(&self) -> (result: &'static str)
        ensures
            result@ == definition_kind(*self),
    {
        match self {
            ScheduleDefinition::Interval { .. } => "interval",
            ScheduleDefinition::Cron { .. } => "cron",
        }
    }

    /// The occurrence after `now`.
    pub fn next_after(&self, now: Timestamp) -> (result: Result<Timestamp, ScheduleError>)
        ensures
            match next_occurrence(*self, now@) {
                Ok(instant) => result is Ok && result->Ok_0@ == instant,
                Err(error) => result == Err::<Timestamp, _>(error),
            },
    {
        match self {
            ScheduleDefinition::Interval { every } => match now.checked_add(*every) {
                Some(instant) => Ok(instant),
                None => Err(ScheduleError::IntervalOutOfRange),
            },
            ScheduleDefinition::Cron { expression } => match next_in_calendar(
                expression.as_str(),
                now,
            ) {
                Some(instant) => Ok(instant),
                None => Err(ScheduleError::NoNextOccurrence),
            },
        }
    }

    /// Which due occurrences become tasks at `now`, and when the schedule is due next.
    pub fn materialize(&self, next_run_at: Timestamp, now: Timestamp, policy: MisfirePolicy) -> (result:
        Result<Materialization, ScheduleError>)
        ensures
            match materialization_outcome(*self, next_run_at@, now@, policy) {
                Ok(plan) => result is Ok && result->Ok_0@ == plan,
                Err(error) => result == Err::<Materialization, _>(error),
            },
            result matches Ok(plan) ==> plan.next_run_at@ > now@,
            next_run_at@ > now@ ==> (result matches Ok(plan) && plan.next_run_at@ == next_run_at@
                && plan.occurrences@.len() == 0 && plan.skipped == 0),
            next_run_at@ <= now@ && result is Ok ==> (*self matches ScheduleDefinition::Interval {
                every,
            } ==> {
                let plan = result->Ok_0;
                &&& plan.next_run_at@ <= now@ + every@
                &&& (plan.occurrences@.len() + plan.skipped) * every@ == plan.next_run_at@
                    - next_run_at@
            }),
    {
        proof {
            materialized_occurrences_are_due_and_ordered(*self, next_run_at@, now@, policy);
            if next_run_at@ > now@ {
                schedules_wait_until_they_are_due(*self, next_run_at@, now@, policy);
            } else if *self is Interval {
                let every = self->every;
                interval_schedules_run_next_right_after_now(every, next_run_at@, now@, policy);
                interval_schedules_keep_their_misfires(every, next_run_at@, now@, policy);
            }
        }
        if next_run_at.after(now) {
            let unchanged = Materialization { occurrences: Vec::new(), next_run_at, skipped: 0 };
            assert(unchanged@.occurrences =~= Seq::<int>::empty());
            return Ok(unchanged);
        }
        match self {
            ScheduleDefinition::Interval { every } => {
                if every.is_zero() {
                    Err(ScheduleError::ZeroInterval)
                } else {
                    materialize_interval(*every, next_run_at, now, policy)
                }
            },
            ScheduleDefinition::Cron { expression } => match walk_calendar(
                expression.as_str(),
                next_run_at,
                now,
            ) {
                Some((due, following)) => Ok(materialize_list(due, following, policy)),
                None => Err(ScheduleError::NoNextOccurrence),
            },
        }
    }
}

/// Applies a policy to due occurrences.
pub fn materialize_list(due: Vec<Timestamp>, following: Timestamp, policy: MisfirePolicy) -> (result:
    Materialization)
    ensures
        result@ == list_plan(policy, instants(due@), following@),
{
    let count: usize = due.len();
    let ghost listed = instants(due@);
    let kept: usize = match policy {
        MisfirePolicy::CatchUp { limit } => if count <= limit.get() as usize {
            count
        } else {
            limit.get() as usize
        },
        _ => if count == 0 {
            0
        } else {
            1
        },
    };
    proof {
        lemma_kept(policy, count as nat);
    }
    let mut occurrences: Vec<Timestamp> = Vec::new();
    let mut index: usize = 0;
    while index < kept
        invariant
            index <= kept,
            count == due@.len(),
            kept == kept_count(policy, count as nat),
            listed == instants(due@),
            occurrences@.len() == index,
            forall|i: int|
                0 <= i < kept ==> 0 <= #[trigger] kept_place(policy, count as nat, i) < count,
            forall|i: int|
                0 <= i < index ==> (#[trigger] occurrences@[i])@ == listed[kept_place(
                    policy,
                    count as nat,
                    i,
                )],
        decreases kept - index,
    {
        assert(0 <= kept_place(policy, count as nat, index as int) < count);
        let place: usize = match policy {
            MisfirePolicy::Skip => 0,
            MisfirePolicy::Latest => count - 1,
            MisfirePolicy::CatchUp { .. } => index,
        };
        occurrences.push(due[place]);
        index += 1;
    }
    let result = Materialization {
        occurrences,
        next_run_at: following,
        skipped: (count - kept) as u64,
    };
    assert(result@ =~= list_plan(policy, listed, following@));
    result
}

fn materialize_interval(
    every: Duration,
    next_run_at: Timestamp,
    now: Timestamp,
    policy: MisfirePolicy,
) -> (result: Result<Materialization, ScheduleError>)
    requires
        every@ > 0,
        next_run_at@ <= now@,
    ensures
        match result {
            Ok(plan) => {
                &&& interval_fits(next_run_at@, every@, now@)
                &&& plan@ == list_plan(
                    policy,
                    due_in_interval(next_run_at@, every@, now@),
                    interval_occurrence(
                        next_run_at@,
                        every@,
                        due_count(next_run_at@, every@, now@) as int,
                    ),
                )
            },
            Err(error) => {
                &&& !interval_fits(next_run_at@, every@, now@)
                &&& error == ScheduleError::IntervalOutOfRange
            },
        },
{
    let first: i128 = next_run_at.unix_nanos();
    let step: i128 = every.as_nanos() as i128;
    let late: i128 = now.unix_nanos() - first;
    proof {
        lemma_due(next_run_at@, every@, now@);
        assert(0 <= late / step <= late) by (nonlinear_arith)
            requires
                late >= 0,
                step > 0,
        ;
    }
    let due: i128 = late / step + 1;
    let ghost count = due_count(next_run_at@, every@, now@);
    assert(due == count);
    if due > u64::MAX as i128 {
        return Err(ScheduleError::IntervalOutOfRange);
    }
    assert(due * step <= late + step) by (nonlinear_arith)
        requires
            due == late / step + 1,
            late >= 0,
            step > 0,
    ;
    assert(due * step >= 0) by (nonlinear_arith)
        requires
            due >= 0,
            step >= 0,
    ;
    let following = match next_run_at.onward(first + due * step) {
        Some(instant) => instant,
        None => return Err(ScheduleError::IntervalOutOfRange),
    };
    let kept: u64 = match policy {
        MisfirePolicy::CatchUp { limit } => if due <= limit.get() as i128 {
            due as u64
        } else {
            limit.get() as u64
        },
        _ => 1,
    };
    proof {
        lemma_kept(policy, count);
    }
    let mut occurrences: Vec<Timestamp> = Vec::new();
    let mut index: u64 = 0;
    while index < kept
        invariant
            index <= kept,
            due == count,
            kept == kept_count(policy, count),
            step == every@,
            step > 0,
            first == next_run_at@,
            reaches(next_run_at@, next_run_at@),
            reaches(next_run_at@, interval_occurrence(next_run_at@, every@, count as int)),
            count == due_count(next_run_at@, every@, now@),
            next_run_at@ <= now@,
            occurrences@.len() == index,
            forall|i: int| 0 <= i < kept ==> 0 <= #[trigger] kept_place(policy, count, i) < count,
            forall|i: int|
                0 <= i < index ==> (#[trigger] occurrences@[i])@ == interval_occurrence(
                    next_run_at@,
                    every@,
                    kept_place(policy, count, i),
                ),
        decreases kept - index,
    {
        assert(0 <= kept_place(policy, count, index as int) < count);
        let place: i128 = match policy {
            MisfirePolicy::Skip => 0,
            MisfirePolicy::Latest => due - 1,
            MisfirePolicy::CatchUp { .. } => index as i128,
        };
        proof {
            lemma_due(next_run_at@, every@, now@);
            if place < due - 1 {
                lemma_occurrences_ascend(next_run_at@, every@, place as int, due - 1);
            }
            lemma_occurrences_ascend(next_run_at@, every@, place as int, due as int);
            assert(place * step >= 0) by (nonlinear_arith)
                requires
                    place >= 0,
                    step > 0,
            ;
            assert(first + place * step <= now@);
        }
        match next_run_at.onward(first + place * step) {
            Some(instant) => occurrences.push(instant),
            None => {
                assert(false);
            },
        }
        index += 1;
    }
    let result = Materialization {
        occurrences,
        next_run_at: following,
        skipped: due as u64 - kept,
    };
    assert(result@ =~= list_plan(
        policy,
        due_in_interval(next_run_at@, every@, now@),
        interval_occurrence(next_run_at@, every@, count as int),
    ));
    Ok(result)
}

/// A schedule to be stored.
#[derive(Clone, Debug, PartialEq, Eq)]
pub struct ScheduleConfig {
    pub id: ScheduleId,
    pub name: ScheduleName,
    pub definition: ScheduleDefinition,
    pub misfire_policy: MisfirePolicy,
    pub task: EnqueueRequest,
    pub start_at: Option<Timestamp>,
}

impl ScheduleConfig {
    /// A schedule with a fresh identifier that starts one occurrence from now and makes up for
    /// missed occurrences with the latest one.
    pub fn new(name: ScheduleName, definition: ScheduleDefinition, task: EnqueueRequest) -> (result:
        Self)
        ensures
            is_version_seven(result.id.uuid.value),
            result.name == name,
            result.definition == definition,
            result.misfire_policy == MisfirePolicy::Latest,
            result.task == task,
            result.start_at is None,
    {
        ScheduleConfig {
            id: ScheduleId::new(),
            name,
            definition,
            misfire_policy: MisfirePolicy::Latest,
            task,
            start_at: None,
        }
    }
}

/// A schedule as it is stored.
#[derive(Clone, Debug, PartialEq, Eq)]
pub struct Schedule {
    pub config: ScheduleConfig,
    pub next_run_at: Timestamp,
    pub paused_at: Option<Timestamp>,
    pub created_at: Timestamp,
    pub updated_at: Timestamp,
}

/// Every way in which a schedule can be wrong has its own words.
pub proof fn schedule_errors_have_their_words(definition: ScheduleDefinition)
    ensures
        schedule_error_text(ScheduleError::ZeroInterval)
            == "schedule interval must be greater than zero"@,
        schedule_error_text(ScheduleError::IntervalOutOfRange)
            == "schedule interval is out of range"@,
        schedule_error_text(ScheduleError::InvalidCron) == "schedule cron expression is invalid"@,
        schedule_error_text(ScheduleError::NoNextOccurrence) == "schedule has no next occurrence"@,
        definition is Interval ==> definition_kind(definition) == "interval"@,
        definition is Cron ==> definition_kind(definition) == "cron"@,
{
}

} // verus!
