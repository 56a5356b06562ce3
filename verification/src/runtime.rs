//! The loops of a running worker: what each does next, given what just happened.

use vstd::prelude::*;

use crate::error::PostgresError;
use crate::health::Health;
use crate::identifier::QueueName;
use crate::metrics::{
    capacity_readings, queue_reading, readings, record_queue_demand, record_worker_capacity, Amount,
    Instrument, Measurement, Reading,
};
use crate::notification::{Message, Notification};
use crate::rows::QueueDemand;
use crate::text::{same_text, starts_with};
use crate::time::{shorter, Duration, NANOS_PER_MILLI, NANOS_PER_SEC};
use crate::worker::{queue_texts, Worker};

verus! {

/// How many tasks may be claimed: what the limit in effect leaves free, and no more than a batch.
pub open spec fn claim_limit(effective: u16, active: usize, batch: u16) -> u16 {
    let free: int = if active >= effective {
        0
    } else {
        effective - active
    };
    if free <= batch {
        free as u16
    } else {
        batch
    }
}

fn free_slots(effective: u16, active: usize, batch: u16) -> (result: u16)
    ensures
        result == claim_limit(effective, active, batch),
{
    let free: u16 = if active >= effective as usize {
        0
    } else {
        effective - active as u16
    };
    if free <= batch {
        free
    } else {
        batch
    }
}

/// The time to wait for work that is due in `nearest`, or at an unknown time: no longer than the
/// poll interval, and at least a millisecond.
pub open spec fn deadline_delay(nearest: Option<Duration>, poll_interval: nat) -> nat {
    let wait = match nearest {
        Some(delay) => shorter(delay@, poll_interval),
        None => poll_interval,
    };
    if wait < NANOS_PER_MILLI {
        NANOS_PER_MILLI as nat
    } else {
        wait
    }
}

/// The earlier of two times, where either may be unknown.
pub open spec fn is_earlier_of(
    result: Option<Duration>,
    left: Option<Duration>,
    right: Option<Duration>,
) -> bool {
    match (left, right) {
        (None, _) => result == right,
        (_, None) => result == left,
        (Some(one), Some(other)) => result is Some && result->0@ == shorter(one@, other@),
    }
}

fn earlier_of(left: Option<Duration>, right: Option<Duration>) -> (result: Option<Duration>)
    ensures
        is_earlier_of(result, left, right),
{
    match (left, right) {
        (Some(one), Some(other)) => Some(one.min_with(other)),
        (None, other) => other,
        (one, None) => one,
    }
}

/// What the loop that runs handlers is doing.
#[derive(Clone, Copy, Debug, PartialEq, Eq, Structural)]
pub enum LoopPhase {
    /// Beginning a round.
    Top,
    /// Recovering the expired leases of a queue.
    Recovering(usize),
    /// Claiming tasks of a queue.
    Claiming(usize),
    /// Asking when the next task of a queue is due.
    Asking(usize),
    /// Waiting for something to do.
    Waiting,
    /// Waiting after the database failed.
    Pausing,
    /// Waiting for the last handlers.
    Draining,
    /// Done.
    Stopped,
}

/// The loop that runs handlers. In a round it has claimed `claimed` tasks of up to `limit`, and
/// the nearest known deadline is `nearest` away.
#[derive(Clone, Copy, Debug, PartialEq, Eq, Structural)]
pub struct HandlerLoop {
    pub phase: LoopPhase,
    pub queues: usize,
    pub limit: u16,
    pub claimed: u16,
    pub nearest: Option<Duration>,
}

/// What the loop does next.
#[derive(Clone, Copy, Debug, PartialEq, Eq, Structural)]
pub enum LoopAction {
    /// Begin another round.
    Again,
    Recover(usize),
    Claim { queue: usize, limit: u16 },
    AskDelay(usize),
    /// Wait for shutdown, a changed limit, a finished handler, a notification, or a time.
    Wait(Duration),
    /// Wait for shutdown, a notification, or a time.
    Pause(Duration),
    /// Wait for the last handlers, up to a time.
    Drain(Duration),
    /// Abort the handlers that are left.
    Abort,
    Stop,
}

/// Whether a loop can come about: there is a queue, and the queue at hand is one of them.
pub open spec fn is_loop(state: HandlerLoop) -> bool {
    &&& state.queues > 0
    &&& state.claimed <= state.limit
    &&& match state.phase {
        LoopPhase::Recovering(queue) => queue < state.queues && state.claimed == 0,
        LoopPhase::Claiming(queue) => queue < state.queues && state.claimed < state.limit,
        LoopPhase::Asking(queue) => queue < state.queues && state.claimed == 0,
        _ => true,
    }
}

/// The loop with nothing left to claim in a round: it begins another one if it claimed anything.
pub open spec fn round_over(state: HandlerLoop) -> HandlerLoop {
    if state.claimed > 0 {
        HandlerLoop { phase: LoopPhase::Top, ..state }
    } else {
        HandlerLoop { phase: LoopPhase::Asking(0), nearest: None, ..state }
    }
}

/// The loop after a batch of `count` tasks from a queue.
pub open spec fn after_claim(state: HandlerLoop, queue: int, count: int) -> HandlerLoop {
    let total: int = if state.claimed + count <= state.limit {
        state.claimed + count
    } else {
        state.limit as int
    };
    let claimed = HandlerLoop { claimed: total as u16, ..state };
    if total < state.limit && queue + 1 < state.queues {
        HandlerLoop { phase: LoopPhase::Claiming((queue + 1) as usize), ..claimed }
    } else {
        round_over(claimed)
    }
}

/// The action that goes with the phase of a round.
pub open spec fn is_round_action(action: LoopAction, state: HandlerLoop) -> bool {
    match state.phase {
        LoopPhase::Top => action == LoopAction::Again,
        LoopPhase::Claiming(queue) => action == (LoopAction::Claim {
            queue,
            limit: (state.limit - state.claimed) as u16,
        }),
        LoopPhase::Asking(queue) => action == LoopAction::AskDelay(queue),
        _ => false,
    }
}

impl HandlerLoop {
    pub fn new<H>(worker: &Worker<H>) -> (result: Self)
        requires
            worker.well_formed(),
        ensures
            is_loop(result),
            result == (HandlerLoop {
                phase: LoopPhase::Top,
                queues: worker.config.queue_names@.len() as usize,
                limit: 0,
                claimed: 0,
                nearest: None,
            }),
    {
        HandlerLoop {
            phase: LoopPhase::Top,
            queues: worker.config.queue_names.len(),
            limit: 0,
            claimed: 0,
            nearest: None,
        }
    }

    /// Begins a round, unless the worker is to stop. Finished handlers have been taken off
    /// before; `active` are left.
    pub fn on_top<H>(
        &mut self,
        worker: &Worker<H>,
        shutdown: bool,
        active: usize,
        now: Duration,
        health: &mut Health,
    ) -> (result: (LoopAction, Vec<Measurement>))
        requires
            worker.well_formed(),
            is_loop(*old(self)),
            old(self).phase == LoopPhase::Top,
        ensures
            is_loop(*final(self)),
            *final(health) == (Health { runtime_progress: now, ..*old(health) }),
            if shutdown {
                &&& result.0 == LoopAction::Drain(worker.config.shutdown_grace)
                &&& *final(self) == (HandlerLoop { phase: LoopPhase::Draining, ..*old(self) })
                &&& readings(result.1@) == Seq::<Reading>::empty()
            } else {
                &&& result.0 == LoopAction::Recover(0)
                &&& *final(self) == (HandlerLoop {
                    phase: LoopPhase::Recovering(0),
                    limit: 0,
                    claimed: 0,
                    ..*old(self)
                })
                &&& readings(result.1@) == capacity_readings(
                    worker.config.queue_names@[0]@,
                    worker.config.concurrency@,
                    worker.control@.effective,
                    active,
                )
            },
    {
        health.record_runtime_progress(now);
        if shutdown {
            self.phase = LoopPhase::Draining;
            let none: Vec<Measurement> = Vec::new();
            assert(readings(none@) =~= Seq::<Reading>::empty());
            return (LoopAction::Drain(worker.config.shutdown_grace), none);
        }
        self.phase = LoopPhase::Recovering(0);
        self.limit = 0;
        self.claimed = 0;
        let measurements = record_worker_capacity(
            worker.config.queue_names[0].as_str(),
            worker.config.concurrency.get(),
            worker.control.effective_concurrency().get(),
            active,
        );
        (LoopAction::Recover(0), measurements)
    }

    /// The expired leases of a queue were recovered, or could not be. After the last queue, tasks
    /// are claimed as far as the limit in effect allows.
    pub fn on_recovered<H>(
        &mut self,
        worker: &Worker<H>,
        recovered: bool,
        active: usize,
        health: &mut Health,
    ) -> (result: LoopAction)
        requires
            worker.well_formed(),
            is_loop(*old(self)),
            old(self).phase is Recovering,
        ensures
            is_loop(*final(self)),
            *final(health) == (Health { database: recovered, ..*old(health) }),
            ({
                let queue = old(self).phase->Recovering_0;
                let limit = claim_limit(
                    worker.control@.effective,
                    active,
                    worker.config.claim_batch_size@,
                );
                if !recovered {
                    &&& *final(self) == (HandlerLoop { phase: LoopPhase::Pausing, ..*old(self) })
                    &&& result matches LoopAction::Pause(delay) && delay@ == NANOS_PER_SEC
                } else if queue + 1 < old(self).queues {
                    &&& *final(self) == (HandlerLoop {
                        phase: LoopPhase::Recovering((queue + 1) as usize),
                        ..*old(self)
                    })
                    &&& result == LoopAction::Recover((queue + 1) as usize)
                } else if limit == 0 {
                    &&& *final(self) == (HandlerLoop {
                        phase: LoopPhase::Waiting,
                        limit: 0,
                        ..*old(self)
                    })
                    &&& result == LoopAction::Wait(worker.config.poll_interval)
                } else {
                    &&& *final(self) == (HandlerLoop {
                        phase: LoopPhase::Claiming(0),
                        limit,
                        ..*old(self)
                    })
                    &&& result == (LoopAction::Claim { queue: 0, limit })
                }
            }),
    {
        health.set_database(recovered);
        if !recovered {
            self.phase = LoopPhase::Pausing;
            return LoopAction::Pause(Duration::from_secs(1));
        }
        let queue: usize = match self.phase {
            LoopPhase::Recovering(queue) => queue,
            _ => 0,
        };
        if queue + 1 < self.queues {
            self.phase = LoopPhase::Recovering(queue + 1);
            return LoopAction::Recover(queue + 1);
        }
        self.limit = free_slots(
            worker.control.effective_concurrency().get(),
            active,
            worker.config.claim_batch_size.get(),
        );
        if self.limit == 0 {
            self.phase = LoopPhase::Waiting;
            LoopAction::Wait(worker.config.poll_interval)
        } else {
            self.phase = LoopPhase::Claiming(0);
            LoopAction::Claim { queue: 0, limit: self.limit }
        }
    }

    /// What follows when a round has nothing left to claim.
    fn end_round(&mut self) -> (result: LoopAction)
        requires
            is_loop(*old(self)),
        ensures
            *final(self) == round_over(*old(self)),
            is_loop(*final(self)),
            is_round_action(result, *final(self)),
    {
        if self.claimed > 0 {
            self.phase = LoopPhase::Top;
            LoopAction::Again
        } else {
            self.phase = LoopPhase::Asking(0);
            self.nearest = None;
            LoopAction::AskDelay(0)
        }
    }

    /// Tasks of a queue were claimed, or could not be (`None`). A later queue is asked only for
    /// what the earlier ones left open. Tasks that were claimed before a failure are kept.
    pub fn on_claimed(&mut self, count: Option<usize>, health: &mut Health) -> (result: LoopAction)
        requires
            is_loop(*old(self)),
            old(self).phase is Claiming,
        ensures
            is_loop(*final(self)),
            *final(health) == (Health { database: count is Some, ..*old(health) }),
            match count {
                Some(count) => {
                    &&& *final(self) == after_claim(
                        *old(self),
                        old(self).phase->Claiming_0 as int,
                        count as int,
                    )
                    &&& is_round_action(result, *final(self))
                },
                None => if old(self).claimed > 0 {
                    &&& *final(self) == (HandlerLoop { phase: LoopPhase::Top, ..*old(self) })
                    &&& result == LoopAction::Again
                } else {
                    &&& *final(self) == (HandlerLoop { phase: LoopPhase::Pausing, ..*old(self) })
                    &&& result matches LoopAction::Pause(delay) && delay@ == NANOS_PER_SEC
                },
            },
    {
        let queue: usize = match self.phase {
            LoopPhase::Claiming(queue) => queue,
            _ => 0,
        };
        match count {
            Some(count) => {
                health.set_database(true);
                let open: u16 = self.limit - self.claimed;
                if count >= open as usize {
                    self.claimed = self.limit;
                } else {
                    self.claimed = self.claimed + count as u16;
                }
                if self.claimed < self.limit && queue + 1 < self.queues {
                    self.phase = LoopPhase::Claiming(queue + 1);
                    LoopAction::Claim { queue: queue + 1, limit: self.limit - self.claimed }
                } else {
                    self.phase = LoopPhase::Top;
                    self.end_round()
                }
            },
            None => {
                health.set_database(false);
                if self.claimed > 0 {
                    self.phase = LoopPhase::Top;
                    LoopAction::Again
                } else {
                    self.phase = LoopPhase::Pausing;
                    LoopAction::Pause(Duration::from_secs(1))
                }
            },
        }
    }

    /// When the next task of a queue is due was found out, or could not be.
    pub fn on_delay<H>(
        &mut self,
        worker: &Worker<H>,
        delay: Result<Option<Duration>, PostgresError>,
        health: &mut Health,
    ) -> (result: LoopAction)
        requires
            worker.well_formed(),
            is_loop(*old(self)),
            old(self).phase is Asking,
        ensures
            is_loop(*final(self)),
            result matches LoopAction::Wait(wait) ==> wait@ <= worker.config.poll_interval@ || wait@
                == 1_000_000,
            result is Wait && (delay matches Ok(Some(due)) && due@ >= 1_000_000)
                ==> result->Wait_0@ <= delay->Ok_0->0@,
            ({
                let queue = old(self).phase->Asking_0;
                match delay {
                    Err(_) => {
                        &&& *final(health) == (Health { database: false, ..*old(health) })
                        &&& *final(self) == (HandlerLoop {
                            phase: LoopPhase::Waiting,
                            ..*old(self)
                        })
                        &&& result matches LoopAction::Wait(wait) && wait@ == shorter(
                            NANOS_PER_SEC as nat,
                            worker.config.poll_interval@,
                        )
                    },
                    Ok(delay) => {
                        &&& *final(health) == *old(health)
                        &&& is_earlier_of(final(self).nearest, old(self).nearest, delay)
                        &&& if queue + 1 < old(self).queues {
                            &&& *final(self) == (HandlerLoop {
                                phase: LoopPhase::Asking((queue + 1) as usize),
                                nearest: final(self).nearest,
                                ..*old(self)
                            })
                            &&& result == LoopAction::AskDelay((queue + 1) as usize)
                        } else {
                            &&& *final(self) == (HandlerLoop {
                                phase: LoopPhase::Waiting,
                                nearest: final(self).nearest,
                                ..*old(self)
                            })
                            &&& result matches LoopAction::Wait(wait) && wait@ == deadline_delay(
                                final(self).nearest,
                                worker.config.poll_interval@,
                            )
                        }
                    },
                }
            }),
    {
        let queue: usize = match self.phase {
            LoopPhase::Asking(queue) => queue,
            _ => 0,
        };
        let poll_interval = worker.config.poll_interval;
        let delay = match delay {
            Ok(delay) => delay,
            Err(_) => {
                health.set_database(false);
                self.phase = LoopPhase::Waiting;
                return LoopAction::Wait(Duration::from_secs(1).min_with(poll_interval));
            },
        };
        self.nearest = earlier_of(self.nearest, delay);
        if queue + 1 < self.queues {
            self.phase = LoopPhase::Asking(queue + 1);
            return LoopAction::AskDelay(queue + 1);
        }
        self.phase = LoopPhase::Waiting;
        let wait = match self.nearest {
            Some(nearest) => nearest.min_with(poll_interval),
            None => poll_interval,
        };
        LoopAction::Wait(wait.max_with(Duration::from_millis(1)))
    }

    /// A wait is over. One for work ends the loop when it was the shutdown that ended it; one
    /// after a failure begins another round, which will see the shutdown.
    pub fn on_woken<H>(&mut self, worker: &Worker<H>, shutdown: bool) -> (result: LoopAction)
        requires
            is_loop(*old(self)),
            old(self).phase == LoopPhase::Waiting || old(self).phase == LoopPhase::Pausing,
        ensures
            is_loop(*final(self)),
            if shutdown && old(self).phase == LoopPhase::Waiting {
                &&& *final(self) == (HandlerLoop { phase: LoopPhase::Draining, ..*old(self) })
                &&& result == LoopAction::Drain(worker.config.shutdown_grace)
            } else {
                &&& *final(self) == (HandlerLoop { phase: LoopPhase::Top, ..*old(self) })
                &&& result == LoopAction::Again
            },
    {
        let waiting = match self.phase {
            LoopPhase::Waiting => true,
            _ => false,
        };
        if shutdown && waiting {
            self.phase = LoopPhase::Draining;
            LoopAction::Drain(worker.config.shutdown_grace)
        } else {
            self.phase = LoopPhase::Top;
            LoopAction::Again
        }
    }

    /// A handler finished while the worker stops, or the time for that is over. `active` handlers
    /// are left.
    pub fn on_drained(&mut self, active: usize, time_is_over: bool) -> (result: Option<LoopAction>)
        requires
            is_loop(*old(self)),
            old(self).phase == LoopPhase::Draining,
        ensures
            is_loop(*final(self)),
            if active == 0 {
                &&& *final(self) == (HandlerLoop { phase: LoopPhase::Stopped, ..*old(self) })
                &&& result == Some(LoopAction::Stop)
            } else if time_is_over {
                &&& *final(self) == (HandlerLoop { phase: LoopPhase::Stopped, ..*old(self) })
                &&& result == Some(LoopAction::Abort)
            } else {
                &&& *final(self) == *old(self)
                &&& result is None
            },
    {
        if active == 0 {
            self.phase = LoopPhase::Stopped;
            Some(LoopAction::Stop)
        } else if time_is_over {
            self.phase = LoopPhase::Stopped;
            Some(LoopAction::Abort)
        } else {
            None
        }
    }
}

/// As long as the database hands out no more tasks than it is asked for, a round claims no more
/// than the limit in effect leaves free beside the handlers that run.
pub proof fn claims_respect_the_limit(
    state: HandlerLoop,
    queue: int,
    count: int,
    effective: u16,
    active: usize,
    batch: u16,
)
    requires
        is_loop(state),
        state.limit == claim_limit(effective, active, batch),
        0 <= count <= state.limit - state.claimed,
    ensures
        after_claim(state, queue, count).claimed == state.claimed + count,
        active <= effective ==> active + after_claim(state, queue, count).claimed <= effective,
        after_claim(state, queue, count).claimed <= batch,
{
}

/// A later queue is asked for tasks only when every earlier one has handed out fewer than it was
/// asked for.
pub proof fn earlier_queues_come_first(state: HandlerLoop, queue: int, count: int)
    requires
        is_loop(state),
        state.phase is Claiming,
        queue == state.phase->Claiming_0,
        count >= state.limit - state.claimed,
    ensures
        !(after_claim(state, queue, count).phase is Claiming),
{
}

/// Whether what woke a worker calls for tasks, for schedules, or for nothing.
#[derive(Clone, Copy, Debug, PartialEq, Eq, Structural)]
pub enum Wakeup {
    Tasks,
    Schedules,
    Nothing,
}

/// What a message calls for: a message about one of the worker's own queues for tasks, one about
/// schedules or waits for schedules.
pub open spec fn wakeup_for(message: Message, queues: Seq<Seq<char>>) -> Wakeup {
    if "pgtask_ready_"@.is_prefix_of(message.channel) && queues.contains(message.payload) {
        Wakeup::Tasks
    } else if message.channel == "pgtask_schedule"@ || message.channel == "pgtask_wait"@ {
        Wakeup::Schedules
    } else {
        Wakeup::Nothing
    }
}

fn names_queue(queues: &Vec<QueueName>, text: &str) -> (result: bool)
    ensures
        result == queue_texts(queues@).contains(text@),
{
    let mut index: usize = 0;
    while index < queues.len()
        invariant
            index <= queues@.len(),
            forall|i: int| 0 <= i < index ==> (#[trigger] queue_texts(queues@)[i]) != text@,
        decreases queues@.len() - index,
    {
        assert(queue_texts(queues@)[index as int] == queues@[index as int]@);
        if same_text(queues[index].as_str(), text) {
            return true;
        }
        index += 1;
    }
    false
}

/// What a notification calls for.
pub fn wakeup(notification: &Notification, queues: &Vec<QueueName>) -> (result: Wakeup)
    ensures
        result == wakeup_for(notification@, queue_texts(queues@)),
{
    if starts_with(notification.channel(), "pgtask_ready_") && names_queue(
        queues,
        notification.payload(),
    ) {
        Wakeup::Tasks
    } else if same_text(notification.channel(), "pgtask_schedule") || same_text(
        notification.channel(),
        "pgtask_wait",
    ) {
        Wakeup::Schedules
    } else {
        Wakeup::Nothing
    }
}

/// The loop that keeps a worker listening: whether it does, and how long it waits before it tries
/// again when it cannot.
#[derive(Clone, Copy, Debug, PartialEq, Eq, Structural)]
pub struct ReadyWatch {
    pub connected: bool,
    pub retry_delay: Duration,
}

/// The delay before the first try.
pub open spec fn first_retry_delay() -> nat {
    100 * NANOS_PER_MILLI as nat
}

/// The delay that follows another: twice as long, up to five seconds.
pub open spec fn next_retry_delay(delay: nat) -> nat {
    shorter(delay * 2, 5 * NANOS_PER_SEC as nat)
}

impl ReadyWatch {
    /// Whether the delay is within its bounds.
    pub open spec fn well_formed(self) -> bool {
        first_retry_delay() <= self.retry_delay@ <= 5 * NANOS_PER_SEC
    }

    pub fn new() -> (result: Self)
        ensures
            result.well_formed(),
            result.connected,
            result.retry_delay@ == first_retry_delay(),
    {
        ReadyWatch { connected: true, retry_delay: Duration::from_millis(100) }
    }

    /// The listener failed.
    pub fn on_disconnected(&mut self, health: &mut Health)
        requires
            old(self).well_formed(),
        ensures
            final(self).well_formed(),
            *final(self) == (ReadyWatch { connected: false, ..*old(self) }),
            *final(health) == (Health { listener: false, ..*old(health) }),
    {
        self.connected = false;
        health.set_listener(false);
    }

    /// A new listener was opened, or could not be. Returns how long to wait before the next try;
    /// without a wait, tasks and schedules are looked at again, since messages may have been
    /// missed.
    pub fn on_reconnect(&mut self, opened: bool, health: &mut Health) -> (result: Option<Duration>)
        requires
            old(self).well_formed(),
        ensures
            final(self).well_formed(),
            final(self).connected == (opened || old(self).connected),
            if opened {
                &&& result is None
                &&& final(self).retry_delay@ == first_retry_delay()
                &&& *final(health) == (Health { database: true, listener: true, ..*old(health) })
            } else {
                &&& result == Some(old(self).retry_delay)
                &&& final(self).retry_delay@ == next_retry_delay(old(self).retry_delay@)
                &&& *final(health) == (Health { database: false, ..*old(health) })
            },
    {
        if opened {
            self.connected = true;
            self.retry_delay = Duration::from_millis(100);
            health.set_database(true);
            health.set_listener(true);
            None
        } else {
            health.set_database(false);
            let delay = self.retry_delay;
            self.retry_delay = delay.saturating_mul(2).min_with(Duration::from_secs(5));
            Some(delay)
        }
    }
}

/// The delay after `count` failed tries.
pub open spec fn retry_delay_after(count: nat) -> nat
    decreases count,
{
    if count == 0 {
        first_retry_delay()
    } else {
        next_retry_delay(retry_delay_after((count - 1) as nat))
    }
}

/// However often a listener cannot be opened, the delay before the next try neither shrinks nor
/// grows past five seconds.
pub proof fn retries_slow_down_to_a_limit(count: nat)
    ensures
        first_retry_delay() <= retry_delay_after(count) <= retry_delay_after(count + 1),
        retry_delay_after(count + 1) <= 5 * NANOS_PER_SEC,
    decreases count,
{
    if count > 0 {
        retries_slow_down_to_a_limit((count - 1) as nat);
    } else {
        assert(retry_delay_after(1) == next_retry_delay(retry_delay_after(0)));
    }
}

/// How long the scheduler waits: until a schedule or a wait is due, where that is known, and no
/// longer than its interval.
pub fn scheduler_delay(
    interval: Duration,
    schedule_delay: Option<Duration>,
    wait_delay: Option<Duration>,
) -> (result: Duration)
    ensures
        ({
            let first = match schedule_delay {
                Some(delay) => shorter(interval@, delay@),
                None => interval@,
            };
            result@ == match wait_delay {
                Some(delay) => shorter(first, delay@),
                None => first,
            }
        }),
{
    let first = match schedule_delay {
        Some(delay) => interval.min_with(delay),
        None => interval,
    };
    match wait_delay {
        Some(delay) => first.min_with(delay),
        None => first,
    }
}

/// Takes in the answer to a heartbeat: the database is well when it still knows the worker.
pub fn on_heartbeat(answer: &Result<bool, PostgresError>, health: &mut Health)
    ensures
        *final(health) == (Health {
            database: *answer == Ok::<bool, PostgresError>(true),
            ..*old(health)
        }),
{
    match answer {
        Ok(known) => health.set_database(*known),
        Err(_) => health.set_database(false),
    }
}

/// Takes in the demand for work on a queue.
pub fn on_demand(
    queue_name: &QueueName,
    demand: &Result<QueueDemand, PostgresError>,
    health: &mut Health,
) -> (result: Vec<Measurement>)
    ensures
        match *demand {
            Ok(demand) => {
                &&& *final(health) == *old(health)
                &&& readings(result@) == seq![
                    queue_reading(
                        Instrument::QueueReadyTasks,
                        queue_name@,
                        Amount::Count(demand.capable_tasks),
                    ),
                    queue_reading(
                        Instrument::QueueUnroutableTasks,
                        queue_name@,
                        Amount::Count(demand.unroutable_tasks),
                    ),
                ]
            },
            Err(_) => {
                &&& *final(health) == (Health { database: false, ..*old(health) })
                &&& readings(result@) == Seq::<Reading>::empty()
            },
        },
{
    match demand {
        Ok(demand) => record_queue_demand(
            queue_name.as_str(),
            demand.capable_tasks,
            demand.unroutable_tasks,
        ),
        Err(_) => {
            health.set_database(false);
            let none: Vec<Measurement> = Vec::new();
            assert(readings(none@) =~= Seq::<Reading>::empty());
            none
        },
    }
}

/// The last heartbeat of a worker that stops: it is draining, and expires at once.
pub fn farewell_ttl() -> (result: Duration)
    ensures
        result@ == NANOS_PER_MILLI,
{
    Duration::from_millis(1)
}

/// A worker asks for as many tasks as it may run: a batch, or what the handlers that run leave of
/// the limit in effect, whichever is less.
pub proof fn claims_fill_the_free_slots(effective: u16, active: usize, batch: u16)
    ensures
        claim_limit(effective, active, batch) <= batch,
        active >= effective ==> claim_limit(effective, active, batch) == 0,
        active < effective ==> active + claim_limit(effective, active, batch) <= effective,
        active < effective ==> claim_limit(effective, active, batch) == batch || active
            + claim_limit(effective, active, batch) == effective,
{
}

/// What a round does after a queue: it asks the next queue for what is still open; with nothing
/// open, or no queue left, it begins another round if it claimed anything, and else asks when the
/// first queue has something due.
pub proof fn rounds_go_from_queue_to_queue(state: HandlerLoop, queue: usize, count: usize)
    requires
        is_loop(state),
        state.phase == LoopPhase::Claiming(queue),
    ensures
        ({
            let after = after_claim(state, queue as int, count as int);
            let open = state.limit - state.claimed;
            &&& after.queues == state.queues && after.limit == state.limit
            &&& count <= open ==> after.claimed == state.claimed + count
            &&& count >= open ==> after.claimed == state.limit
            &&& count < open && queue + 1 < state.queues ==> after.phase == LoopPhase::Claiming(
                (queue + 1) as usize,
            ) && after.nearest == state.nearest
            &&& count >= open || queue + 1 >= state.queues ==> if state.claimed > 0 || count > 0 {
                after.phase == LoopPhase::Top && after.nearest == state.nearest
            } else {
                after.phase == LoopPhase::Asking(0) && after.nearest is None
            }
        }),
{
}

/// What is done in a round goes with its phase: a queue is asked for exactly what is open, a queue
/// is asked for its deadline, or another round begins.
pub proof fn rounds_act_by_their_phase(action: LoopAction, state: HandlerLoop)
    requires
        is_loop(state),
        is_round_action(action, state),
    ensures
        match action {
            LoopAction::Again => state.phase == LoopPhase::Top,
            LoopAction::Claim { queue, limit } => {
                &&& state.phase == LoopPhase::Claiming(queue)
                &&& limit > 0 && state.claimed + limit == state.limit
            },
            LoopAction::AskDelay(queue) => state.phase == LoopPhase::Asking(queue),
            _ => false,
        },
{
}

/// A wait for work is never longer than the poll interval, nor than the time to the nearest known
/// deadline, nor shorter than a millisecond; and it is one of these.
pub proof fn waits_are_bounded(nearest: Option<Duration>, poll_interval: nat)
    ensures
        ({
            let wait = deadline_delay(nearest, poll_interval);
            &&& wait >= 1_000_000
            &&& wait <= poll_interval || wait == 1_000_000
            &&& nearest matches Some(deadline) ==> wait <= deadline@ || wait == 1_000_000
            &&& wait == poll_interval || wait == 1_000_000 || (nearest matches Some(deadline)
                && wait == deadline@)
            &&& wait == 1_000_000 ==> poll_interval <= 1_000_000 || (nearest matches Some(deadline)
                && deadline@ <= 1_000_000)
        }),
{
}

/// The nearer of two deadlines is one of them, is known where either is, and is after neither.
pub proof fn nearer_deadlines_win(
    result: Option<Duration>,
    left: Option<Duration>,
    right: Option<Duration>,
)
    requires
        is_earlier_of(result, left, right),
    ensures
        result is None <==> left is None && right is None,
        result is Some && left is Some ==> result->0@ <= left->0@,
        result is Some && right is Some ==> result->0@ <= right->0@,
        result is Some ==> (left is Some && result->0@ == left->0@) || (right is Some && result->0@
            == right->0@),
{
}

/// Whatever deadlines the queues of a round know, the wait that follows ends before each of them,
/// and before the poll interval, but for a millisecond.
pub proof fn waits_end_before_every_deadline(
    nearest: Seq<Option<Duration>>,
    delays: Seq<Option<Duration>>,
    poll_interval: nat,
)
    requires
        nearest.len() == delays.len() + 1,
        nearest[0] is None,
        forall|i: int|
            0 <= i < delays.len() ==> is_earlier_of(
                nearest[i + 1],
                nearest[i],
                #[trigger] delays[i],
            ),
    ensures
        ({
            let wait = deadline_delay(nearest.last(), poll_interval);
            &&& wait <= poll_interval || wait == 1_000_000
            &&& forall|i: int|
                0 <= i < delays.len() && (#[trigger] delays[i]) is Some ==> wait <= delays[i]->0@
                    || wait == 1_000_000
            &&& (forall|i: int| 0 <= i < delays.len() ==> (#[trigger] delays[i]) is None) ==> wait
                == poll_interval || (wait == 1_000_000 && poll_interval < 1_000_000)
        }),
{
    waits_are_bounded(nearest.last(), poll_interval);
    lemma_nearest_is_known(nearest, delays);
}

/// The nearest of some deadlines is after none of them, and unknown where all are.
proof fn lemma_nearest_is_known(nearest: Seq<Option<Duration>>, delays: Seq<Option<Duration>>)
    requires
        nearest.len() == delays.len() + 1,
        nearest[0] is None,
        forall|i: int|
            0 <= i < delays.len() ==> is_earlier_of(
                nearest[i + 1],
                nearest[i],
                #[trigger] delays[i],
            ),
    ensures
        forall|i: int|
            0 <= i < delays.len() && (#[trigger] delays[i]) is Some ==> nearest.last() is Some
                && nearest.last()->0@ <= delays[i]->0@,
        (forall|i: int| 0 <= i < delays.len() ==> (#[trigger] delays[i]) is None)
            ==> nearest.last() is None,
    decreases delays.len(),
{
    if delays.len() > 0 {
        let last = delays.len() - 1;
        let earlier = delays.drop_last();
        let before = nearest.drop_last();
        nearer_deadlines_win(nearest[last + 1], nearest[last], delays[last]);
        assert forall|i: int| 0 <= i < earlier.len() implies is_earlier_of(
            before[i + 1],
            before[i],
            #[trigger] earlier[i],
        ) by {
            assert(is_earlier_of(nearest[i + 1], nearest[i], delays[i]));
        }
        lemma_nearest_is_known(before, earlier);
        assert forall|i: int| 0 <= i < delays.len() && (#[trigger] delays[i]) is Some implies
            nearest.last() is Some && nearest.last()->0@ <= delays[i]->0@ by {
            if i < last {
                assert(earlier[i] == delays[i]);
            }
        }
        if forall|i: int| 0 <= i < delays.len() ==> (#[trigger] delays[i]) is None {
            assert(delays[last] is None);
            assert forall|i: int| 0 <= i < earlier.len() implies (#[trigger] earlier[i]) is None by {
                assert(delays[i] is None);
            }
        }
    }
}

/// A worker looks for tasks when a message names one of its queues on a channel for ready tasks, and
/// for schedules when one comes on a channel for these or for waits; every other message leaves it
/// alone.
pub proof fn workers_wake_for_their_own_messages(message: Message, queues: Seq<Seq<char>>)
    ensures
        wakeup_for(message, queues) == Wakeup::Tasks <==> message.channel.len()
            >= "pgtask_ready_"@.len() && message.channel.take("pgtask_ready_"@.len() as int)
            == "pgtask_ready_"@ && exists|i: int|
            0 <= i < queues.len() && #[trigger] queues[i] == message.payload,
        wakeup_for(message, queues) == Wakeup::Schedules <==> message.channel == "pgtask_schedule"@
            || message.channel == "pgtask_wait"@,
{
    let prefix = "pgtask_ready_"@;
    reveal_strlit("pgtask_ready_");
    reveal_strlit("pgtask_schedule");
    reveal_strlit("pgtask_wait");
    assert(prefix.len() == 13);
    assert("pgtask_schedule"@[7] != prefix[7] && "pgtask_wait"@[7] != prefix[7]);
    if prefix.is_prefix_of(message.channel) {
        assert(message.channel.take(13) =~= prefix);
        assert(message.channel[7] == prefix[7]);
    } else if message.channel.len() >= 13 && message.channel.take(13) == prefix {
        assert(message.channel.subrange(0, 13) =~= message.channel.take(13));
    }
    if queues.contains(message.payload) {
        let place = queues.index_of(message.payload);
        assert(queues[place] == message.payload);
    }
}

/// The delay before a listener is opened again begins at a tenth of a second, doubles with each
/// failure, and stops growing at five seconds.
pub proof fn retries_double(count: nat)
    ensures
        retry_delay_after(0) == 100_000_000,
        retry_delay_after(count) <= 2_500_000_000 ==> retry_delay_after(count + 1) == 2
            * retry_delay_after(count),
        retry_delay_after(count) >= 2_500_000_000 ==> retry_delay_after(count + 1) == 5_000_000_000,
{
    assert(retry_delay_after(count + 1) == next_retry_delay(retry_delay_after(count)));
}

/// A round that claimed something begins again at once; one that claimed nothing asks, from the
/// first queue on, when work is due, and forgets what an earlier round was told.
pub proof fn rounds_without_work_ask_for_deadlines(state: HandlerLoop)
    ensures
        state.claimed > 0 ==> round_over(state).phase == LoopPhase::Top && round_over(state).nearest
            == state.nearest,
        state.claimed == 0 ==> round_over(state).phase == LoopPhase::Asking(0) && round_over(
            state,
        ).nearest is None,
        round_over(state).queues == state.queues,
        round_over(state).limit == state.limit,
        round_over(state).claimed == state.claimed,
{
}

/// A delay before a listener is opened again is followed by one twice as long, or by five seconds
/// where that is less.
pub proof fn retry_delays_follow_each_other(delay: nat)
    ensures
        next_retry_delay(delay) <= 2 * delay,
        next_retry_delay(delay) <= 5_000_000_000,
        next_retry_delay(delay) == 2 * delay || next_retry_delay(delay) == 5_000_000_000,
{
}

} // verus!
