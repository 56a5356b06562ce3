//! The leases of the tasks that a worker is running.

use vstd::prelude::*;

use crate::error::PostgresError;
use crate::health::{elapsed, Health};
use crate::identifier::{QueueName, TaskId, TaskName};
use crate::metrics::{
    readings, record_lease_lost, record_renewed, renewal_reading, transition_reading, Measurement,
    Reading,
};
use crate::store::was_renewed;
use crate::table::{Key, Table};
use crate::task::LeaseRenewal;
use crate::time::Duration;

verus! {

impl Key for TaskId {
    type Id = u128;

    open spec fn id(&self) -> u128 {
        self.uuid.value
    }

    fn same(&self, other: &Self) -> (result: bool) {
        self.uuid.value == other.uuid.value
    }
}

/// A lease and when it was last renewed, by a clock that does not run backward.
#[derive(Debug, PartialEq, Eq)]
pub struct ActiveLease {
    pub renewal: LeaseRenewal,
    pub queue_name: QueueName,
    pub task_name: TaskName,
    pub last_renewed: Duration,
}

impl Clone for ActiveLease {
    fn clone(&self) -> (result: Self)
        ensures
            result == *self,
    {
        ActiveLease {
            renewal: self.renewal,
            queue_name: self.queue_name.clone(),
            task_name: self.task_name.clone(),
            last_renewed: self.last_renewed,
        }
    }
}

/// The leases of running tasks by task. Its view is that map.
#[derive(Debug)]
pub struct ActiveLeases {
    leases: Table<TaskId, ActiveLease>,
}

impl View for ActiveLeases {
    type V = Map<u128, ActiveLease>;

    closed spec fn view(&self) -> Map<u128, ActiveLease> {
        self.leases@
    }
}

/// Whether a task has a lease.
pub open spec fn is_lease_of(table: Map<u128, ActiveLease>, id: u128, lease: ActiveLease) -> bool {
    table.dom().contains(id) && table[id] == lease
}

/// Whether some task has a lease.
pub open spec fn is_held(table: Map<u128, ActiveLease>, lease: ActiveLease) -> bool {
    exists|id: u128| #[trigger] is_lease_of(table, id, lease)
}

/// Whether a lease from a list taken earlier is still the lease of its task.
pub open spec fn is_current(table: Map<u128, ActiveLease>, lease: ActiveLease) -> bool {
    let id = lease.renewal.task_id.uuid.value;
    table.dom().contains(id) && table[id].renewal == lease.renewal
}

/// The leases after the renewal of one: it counts only where the lease is still the same.
pub open spec fn after_renewal(
    table: Map<u128, ActiveLease>,
    lease: ActiveLease,
    renewed: bool,
    now: Duration,
) -> Map<u128, ActiveLease> {
    let id = lease.renewal.task_id.uuid.value;
    if is_current(table, lease) && renewed {
        table.insert(id, ActiveLease { last_renewed: now, ..table[id] })
    } else {
        table
    }
}

/// The leases after the renewal of some.
pub open spec fn after_renewals(
    table: Map<u128, ActiveLease>,
    leases: Seq<ActiveLease>,
    renewed: Seq<TaskId>,
    now: Duration,
) -> Map<u128, ActiveLease>
    decreases leases.len(),
{
    if leases.len() == 0 {
        table
    } else {
        after_renewal(
            after_renewals(table, leases.drop_last(), renewed, now),
            leases.last(),
            renewed.contains(leases.last().renewal.task_id),
            now,
        )
    }
}

/// The tasks whose leases turn out to be gone, in order.
pub open spec fn lost_tasks(
    table: Map<u128, ActiveLease>,
    leases: Seq<ActiveLease>,
    renewed: Seq<TaskId>,
) -> Seq<TaskId>
    decreases leases.len(),
{
    if leases.len() == 0 {
        Seq::empty()
    } else {
        let before = lost_tasks(table, leases.drop_last(), renewed);
        let task_id = leases.last().renewal.task_id;
        if is_current(table, leases.last()) && !renewed.contains(task_id) {
            before.push(task_id)
        } else {
            before
        }
    }
}

/// The measurement of a lost lease.
pub open spec fn lost_reading(lease: ActiveLease) -> Reading {
    transition_reading("lease_lost"@, lease.queue_name@, Some(lease.task_name@), 1)
}

/// The measurements of a renewal: one for each lease, and one more for each that is gone.
pub open spec fn renewal_readings(
    table: Map<u128, ActiveLease>,
    leases: Seq<ActiveLease>,
    renewed: Seq<TaskId>,
) -> Seq<Reading>
    decreases leases.len(),
{
    if leases.len() == 0 {
        Seq::empty()
    } else {
        let lease = leases.last();
        let kept = renewed.contains(lease.renewal.task_id);
        let before = renewal_readings(table, leases.drop_last(), renewed).push(
            renewal_reading(lease.queue_name@, lease.task_name@, kept),
        );
        if is_current(table, lease) && !kept {
            before.push(lost_reading(lease))
        } else {
            before
        }
    }
}

/// Whether a lease may have run out: two thirds of its duration have passed since it was renewed.
pub open spec fn is_uncertain(lease: ActiveLease, now: nat, lease_duration: nat) -> bool {
    elapsed(now, lease.last_renewed@) >= lease_duration * 2 / 3
}

/// The tasks whose leases may have run out, in order.
pub open spec fn uncertain_tasks(
    table: Map<u128, ActiveLease>,
    leases: Seq<ActiveLease>,
    now: nat,
    lease_duration: nat,
) -> Seq<TaskId>
    decreases leases.len(),
{
    if leases.len() == 0 {
        Seq::empty()
    } else {
        let before = uncertain_tasks(table, leases.drop_last(), now, lease_duration);
        if is_uncertain(leases.last(), now, lease_duration) && is_current(table, leases.last()) {
            before.push(leases.last().renewal.task_id)
        } else {
            before
        }
    }
}

/// The measurements of leases that may have run out.
pub open spec fn uncertain_readings(
    table: Map<u128, ActiveLease>,
    leases: Seq<ActiveLease>,
    now: nat,
    lease_duration: nat,
) -> Seq<Reading>
    decreases leases.len(),
{
    if leases.len() == 0 {
        Seq::empty()
    } else {
        let before = uncertain_readings(table, leases.drop_last(), now, lease_duration);
        if is_uncertain(leases.last(), now, lease_duration) && is_current(table, leases.last()) {
            before.push(lost_reading(leases.last()))
        } else {
            before
        }
    }
}

/// Renewals change when leases were renewed, never which leases there are.
proof fn lemma_renewals_keep_leases(
    table: Map<u128, ActiveLease>,
    leases: Seq<ActiveLease>,
    renewed: Seq<TaskId>,
    now: Duration,
    lease: ActiveLease,
)
    ensures
        is_current(after_renewals(table, leases, renewed, now), lease) == is_current(table, lease),
    decreases leases.len(),
{
    if leases.len() > 0 {
        lemma_renewals_keep_leases(table, leases.drop_last(), renewed, now, lease);
    }
}

/// A renewal never adds or removes a lease, and never makes one of another attempt.
pub proof fn renewals_keep_leases(
    table: Map<u128, ActiveLease>,
    leases: Seq<ActiveLease>,
    renewed: Seq<TaskId>,
    now: Duration,
)
    ensures
        after_renewals(table, leases, renewed, now).dom() == table.dom(),
        forall|id: u128|
            table.dom().contains(id) ==> (#[trigger] after_renewals(
                table,
                leases,
                renewed,
                now,
            )[id]).renewal == table[id].renewal,
    decreases leases.len(),
{
    if leases.len() > 0 {
        renewals_keep_leases(table, leases.drop_last(), renewed, now);
        assert(after_renewals(table, leases, renewed, now).dom() =~= table.dom());
    }
}

/// Only tasks whose leases were not renewed are told that they lost them.
pub proof fn renewed_tasks_go_on(
    table: Map<u128, ActiveLease>,
    leases: Seq<ActiveLease>,
    renewed: Seq<TaskId>,
    task_id: TaskId,
)
    requires
        renewed.contains(task_id),
    ensures
        !lost_tasks(table, leases, renewed).contains(task_id),
    decreases leases.len(),
{
    if leases.len() > 0 {
        let before = lost_tasks(table, leases.drop_last(), renewed);
        renewed_tasks_go_on(table, leases.drop_last(), renewed, task_id);
        let all = lost_tasks(table, leases, renewed);
        if all.contains(task_id) {
            let place = choose|place: int| 0 <= place < all.len() && all[place] == task_id;
            if place < before.len() {
                assert(before[place] == task_id);
            }
        }
    }
}

/// Whether the lease at `place` of a list is gone: it is still the lease of its task, and the task
/// is not among the renewed ones.
pub open spec fn is_gone_at(
    table: Map<u128, ActiveLease>,
    leases: Seq<ActiveLease>,
    renewed: Seq<TaskId>,
    place: int,
) -> bool {
    let renewal = leases[place].renewal;
    &&& 0 <= place < leases.len()
    &&& table.dom().contains(renewal.task_id.uuid.value)
    &&& table[renewal.task_id.uuid.value].renewal == renewal
    &&& forall|i: int| 0 <= i < renewed.len() ==> #[trigger] renewed[i] != renewal.task_id
}

/// Every task whose lease was asked for and not renewed is told, unless it has ended or runs under
/// another lease by then; and no other task is.
pub proof fn lost_tasks_are_all_told(
    table: Map<u128, ActiveLease>,
    leases: Seq<ActiveLease>,
    renewed: Seq<TaskId>,
)
    ensures
        forall|place: int|
            #![trigger is_gone_at(table, leases, renewed, place)]
            is_gone_at(table, leases, renewed, place) ==> lost_tasks(
                table,
                leases,
                renewed,
            ).contains(leases[place].renewal.task_id),
        forall|id: TaskId| #[trigger]
            lost_tasks(table, leases, renewed).contains(id) ==> exists|place: int|
                #![trigger is_gone_at(table, leases, renewed, place)]
                is_gone_at(table, leases, renewed, place) && leases[place].renewal.task_id == id,
        lost_tasks(table, leases, renewed).len() <= leases.len(),
    decreases leases.len(),
{
    if leases.len() > 0 {
        let earlier = leases.drop_last();
        let last = leases.len() - 1;
        let before = lost_tasks(table, earlier, renewed);
        let all = lost_tasks(table, leases, renewed);
        let task_id = leases.last().renewal.task_id;
        lost_tasks_are_all_told(table, earlier, renewed);
        assert(is_gone_at(table, leases, renewed, last) <==> is_current(table, leases.last())
            && !renewed.contains(task_id));
        assert forall|place: int|
            is_gone_at(table, leases, renewed, place) implies all.contains(
            leases[place].renewal.task_id,
        ) by {
            if place < last {
                assert(is_gone_at(table, earlier, renewed, place));
                let at = before.index_of(leases[place].renewal.task_id);
                assert(all[at] == leases[place].renewal.task_id);
            } else {
                assert(all[all.len() - 1] == task_id);
            }
        }
        assert forall|id: TaskId| #[trigger] all.contains(id) implies exists|place: int|
            #![trigger is_gone_at(table, leases, renewed, place)]
            is_gone_at(table, leases, renewed, place) && leases[place].renewal.task_id == id by {
            let i = all.index_of(id);
            if i < before.len() {
                assert(before[i] == id);
                assert(before.contains(id));
                let place = choose|place: int|
                    #![trigger is_gone_at(table, earlier, renewed, place)]
                    is_gone_at(table, earlier, renewed, place) && earlier[place].renewal.task_id
                        == id;
                assert(earlier[place] == leases[place]);
                assert(is_gone_at(table, leases, renewed, place));
            } else {
                assert(is_gone_at(table, leases, renewed, last));
            }
        }
    }
}

/// Whether the lease at `place` of a list was renewed, and is still the lease of its task.
pub open spec fn is_renewed_at(
    table: Map<u128, ActiveLease>,
    leases: Seq<ActiveLease>,
    renewed: Seq<TaskId>,
    id: u128,
    place: int,
) -> bool {
    &&& 0 <= place < leases.len()
    &&& leases[place].renewal.task_id.uuid.value == id
    &&& table[id].renewal == leases[place].renewal
    &&& renewed.contains(leases[place].renewal.task_id)
}

/// A lease that was renewed counts as renewed now; every other lease, and everything else of this
/// one, is as it was.
pub proof fn renewed_leases_are_fresh(
    table: Map<u128, ActiveLease>,
    leases: Seq<ActiveLease>,
    renewed: Seq<TaskId>,
    now: Duration,
    id: u128,
)
    requires
        table.dom().contains(id),
    ensures
        ({
            let after = after_renewals(table, leases, renewed, now)[id];
            &&& after.renewal == table[id].renewal
            &&& after.queue_name == table[id].queue_name
            &&& after.task_name == table[id].task_name
            &&& (exists|place: int| #[trigger] is_renewed_at(table, leases, renewed, id, place))
                ==> after.last_renewed == now
            &&& (forall|place: int| !#[trigger] is_renewed_at(table, leases, renewed, id, place))
                ==> after.last_renewed == table[id].last_renewed
        }),
        after_renewals(table, leases, renewed, now).dom() == table.dom(),
    decreases leases.len(),
{
    if leases.len() > 0 {
        let earlier = leases.drop_last();
        let last = leases.len() - 1;
        renewals_keep_leases(table, earlier, renewed, now);
        renewals_keep_leases(table, leases, renewed, now);
        renewed_leases_are_fresh(table, earlier, renewed, now, id);
        let before = after_renewals(table, earlier, renewed, now);
        assert(is_renewed_at(table, leases, renewed, id, last) ==> is_current(
            before,
            leases.last(),
        ));
        if exists|place: int| #[trigger] is_renewed_at(table, leases, renewed, id, place) {
            let place = choose|place: int| #[trigger]
                is_renewed_at(table, leases, renewed, id, place);
            if place < last {
                assert(is_renewed_at(table, earlier, renewed, id, place));
            }
        } else {
            assert forall|place: int| !#[trigger]
                is_renewed_at(table, earlier, renewed, id, place) by {
                if is_renewed_at(table, earlier, renewed, id, place) {
                    assert(is_renewed_at(table, leases, renewed, id, place));
                }
            }
            assert(!is_renewed_at(table, leases, renewed, id, last));
        }
    }
}

/// Each lease that was asked for is measured as renewed or not, and each one that is gone as lost
/// besides, with its own queue and task.
pub proof fn renewals_are_all_measured(
    table: Map<u128, ActiveLease>,
    leases: Seq<ActiveLease>,
    renewed: Seq<TaskId>,
)
    ensures
        renewal_readings(table, leases, renewed).len() == leases.len() + lost_tasks(
            table,
            leases,
            renewed,
        ).len(),
        forall|place: int|
            0 <= place < leases.len() ==> renewal_readings(table, leases, renewed).contains(
                renewal_reading(
                    (#[trigger] leases[place]).queue_name@,
                    leases[place].task_name@,
                    renewed.contains(leases[place].renewal.task_id),
                ),
            ),
        forall|place: int|
            #![trigger is_gone_at(table, leases, renewed, place)]
            is_gone_at(table, leases, renewed, place) ==> renewal_readings(
                table,
                leases,
                renewed,
            ).contains(
                transition_reading(
                    "lease_lost"@,
                    leases[place].queue_name@,
                    Some(leases[place].task_name@),
                    1,
                ),
            ),
    decreases leases.len(),
{
    if leases.len() > 0 {
        let earlier = leases.drop_last();
        let last = leases.len() - 1;
        let lease = leases.last();
        let kept = renewed.contains(lease.renewal.task_id);
        let before = renewal_readings(table, earlier, renewed);
        let all = renewal_readings(table, leases, renewed);
        renewals_are_all_measured(table, earlier, renewed);
        let own = renewal_reading(lease.queue_name@, lease.task_name@, kept);
        assert(all[before.len() as int] == own);
        assert(is_gone_at(table, leases, renewed, last) <==> is_current(table, lease) && !kept);
        assert forall|place: int| 0 <= place < leases.len() implies all.contains(
            renewal_reading(
                (#[trigger] leases[place]).queue_name@,
                leases[place].task_name@,
                renewed.contains(leases[place].renewal.task_id),
            ),
        ) by {
            if place < last {
                let wanted = renewal_reading(
                    earlier[place].queue_name@,
                    earlier[place].task_name@,
                    renewed.contains(earlier[place].renewal.task_id),
                );
                assert(before.contains(wanted));
                assert(all[before.index_of(wanted)] == wanted);
            }
        }
        assert forall|place: int|
            is_gone_at(table, leases, renewed, place) implies all.contains(
            transition_reading(
                "lease_lost"@,
                leases[place].queue_name@,
                Some(leases[place].task_name@),
                1,
            ),
        ) by {
            let wanted = transition_reading(
                "lease_lost"@,
                leases[place].queue_name@,
                Some(leases[place].task_name@),
                1,
            );
            if place < last {
                assert(is_gone_at(table, earlier, renewed, place));
                assert(before.contains(wanted));
                assert(all[before.index_of(wanted)] == wanted);
            } else {
                assert(all[all.len() - 1] == wanted);
            }
        }
    }
}

/// Whether the lease at `place` of a list may have run out: it is still the lease of its task, and
/// two thirds of its duration have passed since it was renewed, in whole nanoseconds.
pub open spec fn is_doubtful_at(
    table: Map<u128, ActiveLease>,
    leases: Seq<ActiveLease>,
    now: nat,
    lease_duration: nat,
    place: int,
) -> bool {
    let lease = leases[place];
    let id = lease.renewal.task_id.uuid.value;
    &&& 0 <= place < leases.len()
    &&& table.dom().contains(id)
    &&& table[id].renewal == lease.renewal
    &&& lease_duration < 2 || now >= lease.last_renewed@
    &&& lease_duration < 2 || 3 * (now - lease.last_renewed@) + 2 >= 2 * lease_duration
}

/// While leases cannot be renewed, every task whose lease may have run out is told, and no other.
pub proof fn uncertain_tasks_are_all_told(
    table: Map<u128, ActiveLease>,
    leases: Seq<ActiveLease>,
    now: nat,
    lease_duration: nat,
)
    ensures
        forall|place: int|
            #![trigger is_doubtful_at(table, leases, now, lease_duration, place)]
            is_doubtful_at(table, leases, now, lease_duration, place) ==> uncertain_tasks(
                table,
                leases,
                now,
                lease_duration,
            ).contains(leases[place].renewal.task_id),
        forall|id: TaskId| #[trigger]
            uncertain_tasks(table, leases, now, lease_duration).contains(id) ==> exists|place: int|
                #![trigger is_doubtful_at(table, leases, now, lease_duration, place)]
                is_doubtful_at(table, leases, now, lease_duration, place)
                    && leases[place].renewal.task_id == id,
        uncertain_tasks(table, leases, now, lease_duration).len() <= leases.len(),
        uncertain_readings(table, leases, now, lease_duration).len() == uncertain_tasks(
            table,
            leases,
            now,
            lease_duration,
        ).len(),
    decreases leases.len(),
{
    if leases.len() > 0 {
        let earlier = leases.drop_last();
        let last = leases.len() - 1;
        let before = uncertain_tasks(table, earlier, now, lease_duration);
        let all = uncertain_tasks(table, leases, now, lease_duration);
        let task_id = leases.last().renewal.task_id;
        uncertain_tasks_are_all_told(table, earlier, now, lease_duration);
        assert(is_doubtful_at(table, leases, now, lease_duration, last) <==> is_uncertain(
            leases.last(),
            now,
            lease_duration,
        ) && is_current(table, leases.last()));
        assert forall|place: int|
            is_doubtful_at(table, leases, now, lease_duration, place) implies all.contains(
            leases[place].renewal.task_id,
        ) by {
            if place < last {
                assert(is_doubtful_at(table, earlier, now, lease_duration, place));
                let at = before.index_of(leases[place].renewal.task_id);
                assert(all[at] == leases[place].renewal.task_id);
            } else {
                assert(all[all.len() - 1] == task_id);
            }
        }
        assert forall|id: TaskId| #[trigger] all.contains(id) implies exists|place: int|
            #![trigger is_doubtful_at(table, leases, now, lease_duration, place)]
            is_doubtful_at(table, leases, now, lease_duration, place)
                && leases[place].renewal.task_id == id by {
            let i = all.index_of(id);
            if i < before.len() {
                assert(before[i] == id);
                assert(before.contains(id));
                let place = choose|place: int|
                    #![trigger is_doubtful_at(table, earlier, now, lease_duration, place)]
                    is_doubtful_at(table, earlier, now, lease_duration, place)
                        && earlier[place].renewal.task_id == id;
                assert(earlier[place] == leases[place]);
                assert(is_doubtful_at(table, leases, now, lease_duration, place));
            } else {
                assert(is_doubtful_at(table, leases, now, lease_duration, last));
            }
        }
    }
}

impl ActiveLeases {
    pub fn new() -> (result: Self)
        ensures
            result@ == Map::<u128, ActiveLease>::empty(),
    {
        ActiveLeases { leases: Table::new() }
    }

    /// Adds the lease of a task that starts to run.
    pub fn start(&mut self, lease: ActiveLease, health: &mut Health)
        ensures
            final(self)@ == old(self)@.insert(lease.renewal.task_id.uuid.value, lease),
            *final(health) == (Health { active_leases: true, ..*old(health) }),
    {
        self.leases.insert(lease.renewal.task_id, lease);
        health.set_active_leases(true);
    }

    /// Drops the lease of a task that has run.
    pub fn finish(&mut self, task_id: TaskId, health: &mut Health)
        ensures
            final(self)@ == old(self)@.remove(task_id.uuid.value),
            ({
                let active = final(self)@.dom() != Set::<u128>::empty();
                *final(health) == (Health {
                    active_leases: active,
                    lease_renewal: old(health).lease_renewal || !active,
                    ..*old(health)
                })
            }),
    {
        let _ = self.leases.remove(&task_id);
        let active = !self.is_empty();
        health.set_active_leases(active);
    }

    pub fn is_empty(&self) -> (result: bool)
        ensures
            result == (self@.dom() == Set::<u128>::empty()),
    {
        let count: usize = self.leases.len();
        proof {
            if count == 0 {
                assert(self@.dom() =~= Set::<u128>::empty());
            } else {
                assert(self.leases.keys().contains(self.leases.keys()[0]));
                assert(self@.dom().contains(self.leases.keys()[0]));
            }
        }
        count == 0
    }

    /// Drops every lease.
    pub fn clear(&mut self)
        ensures
            final(self)@ == Map::<u128, ActiveLease>::empty(),
    {
        self.leases = Table::new();
    }

    /// The leases as they are, each once.
    pub fn snapshot(&self) -> (result: Vec<ActiveLease>)
        ensures
            forall|i: int|
                0 <= i < result@.len() ==> is_held(self@, #[trigger] result@[i]),
            forall|id: u128| #[trigger]
                self@.dom().contains(id) ==> result@.contains(self@[id]),
            result@.len() == self@.dom().len(),
    {
        let count: usize = self.leases.len();
        let ghost keys = self.leases.keys();
        let mut leases: Vec<ActiveLease> = Vec::new();
        let mut index: usize = 0;
        while index < count
            invariant
                index <= count,
                keys == self.leases.keys(),
                count == keys.len(),
                leases@.len() == index,
                forall|i: int| 0 <= i < index ==> self@.dom().contains(#[trigger] keys[i]),
                forall|i: int| 0 <= i < index ==> (#[trigger] leases@[i]) == self@[keys[i]],
            decreases count - index,
        {
            leases.push(self.leases.entry(index).1.clone());
            index += 1;
        }
        proof {
            keys.unique_seq_to_set();
            assert forall|id: u128| #[trigger] self@.dom().contains(id) implies leases@.contains(
                self@[id],
            ) by {
                assert(keys.to_set().contains(id));
                let place = choose|place: int| 0 <= place < keys.len() && keys[place] == id;
                assert(leases@[place] == self@[id]);
            }
            assert forall|i: int| 0 <= i < leases@.len() implies is_held(
                self@,
                #[trigger] leases@[i],
            ) by {
                assert(self@.dom().contains(keys[i]));
                assert(is_lease_of(self@, keys[i], leases@[i]));
            }
        }
        leases
    }

    /// Notes which of some leases were renewed. Returns the tasks whose leases are gone, and the
    /// measurements.
    pub fn update_renewed(
        &mut self,
        leases: &Vec<ActiveLease>,
        renewed: &Vec<TaskId>,
        now: Duration,
    ) -> (result: (Vec<TaskId>, Vec<Measurement>))
        ensures
            final(self)@ == after_renewals(old(self)@, leases@, renewed@, now),
            result.0@ == lost_tasks(old(self)@, leases@, renewed@),
            readings(result.1@) == renewal_readings(old(self)@, leases@, renewed@),
            forall|place: int| #[trigger]
                is_gone_at(old(self)@, leases@, renewed@, place) ==> result.0@.contains(
                    leases@[place].renewal.task_id,
                ),
    {
        proof {
            lost_tasks_are_all_told(self@, leases@, renewed@);
        }
        let ghost table = self@;
        let mut lost: Vec<TaskId> = Vec::new();
        let mut measurements: Vec<Measurement> = Vec::new();
        let mut index: usize = 0;
        assert(leases@.take(0) =~= Seq::empty());
        assert(readings(measurements@) =~= Seq::<Reading>::empty());
        while index < leases.len()
            invariant
                index <= leases@.len(),
                self@ == after_renewals(table, leases@.take(index as int), renewed@, now),
                lost@ == lost_tasks(table, leases@.take(index as int), renewed@),
                readings(measurements@) == renewal_readings(
                    table,
                    leases@.take(index as int),
                    renewed@,
                ),
            decreases leases@.len() - index,
        {
            let lease = &leases[index];
            let task_id = lease.renewal.task_id;
            let kept = was_renewed(renewed, task_id);
            proof {
                assert(leases@.take(index + 1).drop_last() =~= leases@.take(index as int));
                lemma_renewals_keep_leases(
                    table,
                    leases@.take(index as int),
                    renewed@,
                    now,
                    *lease,
                );
            }
            let ghost before = measurements@;
            measurements.push(
                record_renewed(lease.queue_name.as_str(), lease.task_name.as_str(), kept),
            );
            assert(readings(measurements@) =~= readings(before).push(measurements@.last()@));
            let current = match self.leases.get(&task_id) {
                Some(current) => current.renewal == lease.renewal,
                None => false,
            };
            if current {
                if kept {
                    let ghost held = self@;
                    match self.leases.remove(&task_id) {
                        Some(found) => {
                            let updated = ActiveLease {
                                renewal: found.renewal,
                                queue_name: found.queue_name,
                                task_name: found.task_name,
                                last_renewed: now,
                            };
                            self.leases.insert(task_id, updated);
                            assert(self@ =~= held.insert(task_id.uuid.value, updated));
                        },
                        None => {},
                    }
                } else {
                    lost.push(task_id);
                    let ghost sofar = measurements@;
                    measurements.push(
                        record_lease_lost(lease.queue_name.as_str(), lease.task_name.as_str()),
                    );
                    assert(readings(measurements@) =~= readings(sofar).push(measurements@.last()@));
                }
            }
            index += 1;
        }
        assert(leases@.take(index as int) =~= leases@);
        (lost, measurements)
    }

    /// The tasks whose leases may have run out while they could not be renewed, with the
    /// measurements.
    pub fn cancel_uncertain(&self, leases: &Vec<ActiveLease>, now: Duration, lease_duration: Duration) -> (result:
        (Vec<TaskId>, Vec<Measurement>))
        ensures
            result.0@ == uncertain_tasks(self@, leases@, now@, lease_duration@),
            readings(result.1@) == uncertain_readings(self@, leases@, now@, lease_duration@),
    {
        let limit = lease_duration.two_thirds();
        let mut lost: Vec<TaskId> = Vec::new();
        let mut measurements: Vec<Measurement> = Vec::new();
        let mut index: usize = 0;
        assert(leases@.take(0) =~= Seq::empty());
        assert(readings(measurements@) =~= Seq::<Reading>::empty());
        while index < leases.len()
            invariant
                index <= leases@.len(),
                limit@ == lease_duration@ * 2 / 3,
                lost@ == uncertain_tasks(
                    self@,
                    leases@.take(index as int),
                    now@,
                    lease_duration@,
                ),
                readings(measurements@) == uncertain_readings(
                    self@,
                    leases@.take(index as int),
                    now@,
                    lease_duration@,
                ),
            decreases leases@.len() - index,
        {
            let lease = &leases[index];
            assert(leases@.take(index + 1).drop_last() =~= leases@.take(index as int));
            let uncertain = !now.saturating_sub(lease.last_renewed).shorter_than(limit);
            let current = match self.leases.get(&lease.renewal.task_id) {
                Some(current) => current.renewal == lease.renewal,
                None => false,
            };
            if uncertain && current {
                lost.push(lease.renewal.task_id);
                let ghost before = measurements@;
                measurements.push(
                    record_lease_lost(lease.queue_name.as_str(), lease.task_name.as_str()),
                );
                assert(readings(measurements@) =~= readings(before).push(measurements@.last()@));
            }
            index += 1;
        }
        assert(leases@.take(index as int) =~= leases@);
        (lost, measurements)
    }

    /// Takes in the answer to a renewal of some leases: who lost a lease, and what it says of the
    /// health of the worker.
    pub fn on_renewal(
        &mut self,
        leases: &Vec<ActiveLease>,
        answer: &Result<Vec<TaskId>, PostgresError>,
        now: Duration,
        lease_duration: Duration,
        health: &mut Health,
    ) -> (result: (Vec<TaskId>, Vec<Measurement>))
        ensures
            match *answer {
                Ok(renewed) => {
                    let complete = renewed@.len() == leases@.len();
                    &&& final(self)@ == after_renewals(old(self)@, leases@, renewed@, now)
                    &&& result.0@ == lost_tasks(old(self)@, leases@, renewed@)
                    &&& readings(result.1@) == renewal_readings(old(self)@, leases@, renewed@)
                    &&& *final(health) == (Health {
                        database: true,
                        lease_renewal: complete,
                        last_lease_renewal: if complete {
                            now
                        } else {
                            old(health).last_lease_renewal
                        },
                        ..*old(health)
                    })
                },
                Err(_) => {
                    &&& final(self)@ == old(self)@
                    &&& result.0@ == uncertain_tasks(old(self)@, leases@, now@, lease_duration@)
                    &&& readings(result.1@) == uncertain_readings(
                        old(self)@,
                        leases@,
                        now@,
                        lease_duration@,
                    )
                    &&& *final(health) == (Health {
                        database: false,
                        lease_renewal: false,
                        ..*old(health)
                    })
                },
            },
    {
        match answer {
            Ok(renewed) => {
                health.set_database(true);
                health.record_lease_renewal(renewed.len() == leases.len(), now);
                self.update_renewed(leases, renewed, now)
            },
            Err(_) => {
                health.set_database(false);
                health.record_lease_renewal(false, now);
                self.cancel_uncertain(leases, now, lease_duration)
            },
        }
    }
}

/// The leases to be renewed.
pub fn renewals(leases: &Vec<ActiveLease>) -> (result: Vec<LeaseRenewal>)
    ensures
        result@ == leases@.map_values(|lease: ActiveLease| lease.renewal),
{
    let mut result: Vec<LeaseRenewal> = Vec::new();
    let mut index: usize = 0;
    while index < leases.len()
        invariant
            index <= leases@.len(),
            result@ == leases@.take(index as int).map_values(|lease: ActiveLease| lease.renewal),
        decreases leases@.len() - index,
    {
        result.push(leases[index].renewal);
        index += 1;
    }
    assert(leases@.take(index as int) =~= leases@);
    result
}

/// How often leases are renewed: three times in the duration of one.
pub fn renewal_interval(lease_duration: Duration) -> (result: Duration)
    ensures
        result@ == lease_duration@ / 3,
{
    lease_duration.third()
}

/// Renewals are taken one lease after the other: what two lists of leases give is what the first
/// gives, followed by what the second gives.
pub proof fn leases_are_taken_in_order(
    table: Map<u128, ActiveLease>,
    first: Seq<ActiveLease>,
    second: Seq<ActiveLease>,
    renewed: Seq<TaskId>,
    now: nat,
    lease_duration: nat,
)
    ensures
        lost_tasks(table, first + second, renewed) == lost_tasks(table, first, renewed)
            + lost_tasks(table, second, renewed),
        renewal_readings(table, first + second, renewed) == renewal_readings(table, first, renewed)
            + renewal_readings(table, second, renewed),
        uncertain_tasks(table, first + second, now, lease_duration) == uncertain_tasks(
            table,
            first,
            now,
            lease_duration,
        ) + uncertain_tasks(table, second, now, lease_duration),
        uncertain_readings(table, first + second, now, lease_duration) == uncertain_readings(
            table,
            first,
            now,
            lease_duration,
        ) + uncertain_readings(table, second, now, lease_duration),
    decreases second.len(),
{
    if second.len() == 0 {
        assert(first + second =~= first);
    } else {
        leases_are_taken_in_order(
            table,
            first,
            second.drop_last(),
            renewed,
            now,
            lease_duration,
        );
        assert((first + second).drop_last() =~= first + second.drop_last());
        assert((first + second).last() == second.last());
    }
}

/// A single lease is lost, and counted as lost, exactly if it is held and was not renewed; it is
/// in doubt exactly if it is held and two thirds of its time have passed.
pub proof fn each_lease_is_judged_by_itself(
    table: Map<u128, ActiveLease>,
    lease: ActiveLease,
    renewed: Seq<TaskId>,
    now: nat,
    lease_duration: nat,
)
    ensures
        ({
            let id = lease.renewal.task_id;
            let held = table.dom().contains(id.uuid.value) && table[id.uuid.value].renewal
                == lease.renewal;
            let told = renewal_reading(
                lease.queue_name@,
                lease.task_name@,
                renewed.contains(id),
            );
            let lost = transition_reading(
                "lease_lost"@,
                lease.queue_name@,
                Some(lease.task_name@),
                1,
            );
            let doubtful = held && (now >= lease.last_renewed@ && 3 * (now - lease.last_renewed@)
                >= 2 * lease_duration);
            &&& held && !renewed.contains(id) ==> lost_tasks(table, seq![lease], renewed) == seq![
                id,
            ] && renewal_readings(table, seq![lease], renewed) == seq![told, lost]
            &&& !held || renewed.contains(id) ==> lost_tasks(table, seq![lease], renewed) == Seq::<
                TaskId,
            >::empty() && renewal_readings(table, seq![lease], renewed) == seq![told]
            &&& doubtful ==> uncertain_tasks(table, seq![lease], now, lease_duration) == seq![id]
                && uncertain_readings(table, seq![lease], now, lease_duration) == seq![lost]
            &&& !held || (lease_duration >= 2 && (now < lease.last_renewed@ || 3 * (now
                - lease.last_renewed@) + 3 <= 2 * lease_duration)) ==> uncertain_tasks(
                table,
                seq![lease],
                now,
                lease_duration,
            ) == Seq::<TaskId>::empty() && uncertain_readings(
                table,
                seq![lease],
                now,
                lease_duration,
            ) == Seq::<Reading>::empty()
        }),
        lost_tasks(table, Seq::empty(), renewed) == Seq::<TaskId>::empty(),
        renewal_readings(table, Seq::empty(), renewed) == Seq::<Reading>::empty(),
        uncertain_tasks(table, Seq::empty(), now, lease_duration) == Seq::<TaskId>::empty(),
        uncertain_readings(table, Seq::empty(), now, lease_duration) == Seq::<Reading>::empty(),
{
    reveal_with_fuel(lost_tasks, 2);
    reveal_with_fuel(renewal_readings, 2);
    reveal_with_fuel(uncertain_tasks, 2);
    reveal_with_fuel(uncertain_readings, 2);
    let one = seq![lease];
    assert(one.drop_last() =~= Seq::<ActiveLease>::empty());
    assert(one.last() == lease);
}

/// A lease is held exactly if it stands in the table under some task.
pub proof fn held_leases_stand_in_the_table(table: Map<u128, ActiveLease>, lease: ActiveLease)
    ensures
        is_held(table, lease) <==> table.contains_value(lease),
{
    if table.contains_value(lease) {
        let id = choose|id: u128| #[trigger] table.dom().contains(id) && table[id] == lease;
        assert(is_lease_of(table, id, lease));
    }
    if is_held(table, lease) {
        let id = choose|id: u128| #[trigger] is_lease_of(table, id, lease);
        assert(table.dom().contains(id) && table[id] == lease);
    }
}

} // verus!
