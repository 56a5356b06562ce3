//! Whether a worker is well.

use vstd::prelude::*;

use crate::identifier::QueueName;
use crate::metrics::{
    queue_reading, readings, record_worker_event_loop_lag, record_worker_lease_renewal_age, Amount,
    Instrument, Measurement,
};
use crate::time::Duration;

verus! {

/// The state of the parts of a worker. Instants are readings of a clock that does not run
/// backward, counted from an arbitrary start.
#[derive(Clone, Copy, Debug, PartialEq, Eq, Structural)]
pub struct Health {
    pub admission: bool,
    pub database: bool,
    pub listener: bool,
    pub lease_renewal: bool,
    pub active_leases: bool,
    pub runtime_progress: Duration,
    pub last_lease_renewal: Duration,
}

/// What is observed of a worker at an instant.
#[derive(Clone, Copy, Debug, PartialEq, Eq, Structural)]
pub struct HealthObservation {
    pub active_leases: bool,
    pub database: bool,
    pub lease_renewal: bool,
    pub lease_renewal_age: Duration,
    pub runtime_lag: Duration,
}

/// The time since an instant of the same clock.
pub open spec fn elapsed(now: nat, since: nat) -> nat {
    if now >= since {
        (now - since) as nat
    } else {
        0
    }
}

/// How far a worker is behind: the time since it last made progress, less the interval at which
/// it is looked at.
pub open spec fn runtime_lag(health: Health, interval: nat, now: nat) -> nat {
    elapsed(elapsed(now, health.runtime_progress@), interval)
}

/// How old the last renewal of leases is; nothing without a lease to renew.
pub open spec fn renewal_age(health: Health, now: nat) -> nat {
    if health.active_leases {
        elapsed(now, health.last_lease_renewal@)
    } else {
        0
    }
}

/// Whether a worker is ready for tasks.
pub open spec fn is_ready(health: Health) -> bool {
    health.admission && health.database && health.listener && health.lease_renewal
}

impl Health {
    /// A worker that has just begun: not ready, with nothing to renew.
    pub fn new(now: Duration) -> (result: Self)
        ensures
            result == (Health {
                admission: false,
                database: false,
                listener: false,
                lease_renewal: true,
                active_leases: false,
                runtime_progress: now,
                last_lease_renewal: now,
            }),
    {
        Health {
            admission: false,
            database: false,
            listener: false,
            lease_renewal: true,
            active_leases: false,
            runtime_progress: now,
            last_lease_renewal: now,
        }
    }

    pub fn set_admission(&mut self, healthy: bool)
        ensures
            *final(self) == (Health { admission: healthy, ..*old(self) }),
    {
        self.admission = healthy;
    }

    pub fn set_database(&mut self, healthy: bool)
        ensures
            *final(self) == (Health { database: healthy, ..*old(self) }),
    {
        self.database = healthy;
    }

    pub fn set_listener(&mut self, healthy: bool)
        ensures
            *final(self) == (Health { listener: healthy, ..*old(self) }),
    {
        self.listener = healthy;
    }

    /// Notes whether there are leases. Without any, none is late.
    pub fn set_active_leases(&mut self, active: bool)
        ensures
            *final(self) == (Health {
                active_leases: active,
                lease_renewal: old(self).lease_renewal || !active,
                ..*old(self)
            }),
    {
        self.active_leases = active;
        if !active {
            self.lease_renewal = true;
        }
    }

    /// Notes how a renewal of leases went.
    pub fn record_lease_renewal(&mut self, healthy: bool, now: Duration)
        ensures
            *final(self) == (Health {
                lease_renewal: healthy,
                last_lease_renewal: if healthy {
                    now
                } else {
                    old(self).last_lease_renewal
                },
                ..*old(self)
            }),
    {
        self.lease_renewal = healthy;
        if healthy {
            self.last_lease_renewal = now;
        }
    }

    pub fn record_runtime_progress(&mut self, now: Duration)
        ensures
            *final(self) == (Health { runtime_progress: now, ..*old(self) }),
    {
        self.runtime_progress = now;
    }

    pub fn ready(&self) -> (result: bool)
        ensures
            result == is_ready(*self),
    {
        self.admission && self.database && self.listener && self.lease_renewal
    }

    /// Observes a worker, with the measurements of what is observed.
    pub fn record_metrics(&self, queue_name: &QueueName, interval: Duration, now: Duration) -> (result:
        (HealthObservation, Vec<Measurement>))
        ensures
            result.0.active_leases == self.active_leases,
            result.0.database == self.database,
            result.0.lease_renewal == self.lease_renewal,
            result.0.lease_renewal_age@ == renewal_age(*self, now@),
            result.0.runtime_lag@ == runtime_lag(*self, interval@, now@),
            readings(result.1@) == seq![
                queue_reading(
                    Instrument::WorkerEventLoopLag,
                    queue_name@,
                    Amount::Span(result.0.runtime_lag),
                ),
                queue_reading(
                    Instrument::WorkerLeaseRenewalAge,
                    queue_name@,
                    Amount::Span(result.0.lease_renewal_age),
                ),
            ],
    {
        let runtime_lag = now.saturating_sub(self.runtime_progress).saturating_sub(interval);
        let lease_renewal_age = if self.active_leases {
            now.saturating_sub(self.last_lease_renewal)
        } else {
            Duration::zero()
        };
        let measurements = vec![
            record_worker_event_loop_lag(queue_name.as_str(), runtime_lag),
            record_worker_lease_renewal_age(queue_name.as_str(), lease_renewal_age),
        ];
        assert(readings(measurements@) =~= seq![measurements@[0]@, measurements@[1]@]);
        (
            HealthObservation {
                active_leases: self.active_leases,
                database: self.database,
                lease_renewal: self.lease_renewal,
                lease_renewal_age,
                runtime_lag,
            },
            measurements,
        )
    }
}

/// What a probe of a worker is answered: an HTTP status and a word.
pub fn ready_answer(health: &Health) -> (result: (u16, &'static str))
    ensures
        if is_ready(*health) {
            result.0 == 200 && result.1@ == "ready"@
        } else {
            result.0 == 503 && result.1@ == "not ready"@
        },
{
    if health.ready() {
        (200, "ready")
    } else {
        (503, "not ready")
    }
}

/// A worker is ready exactly when it takes tasks, reaches its database, listens, and has renewed its
/// leases; each of the four can make it unready by itself.
pub proof fn readiness_needs_every_part(health: Health)
    ensures
        is_ready(health) ==> health.admission && health.database && health.listener
            && health.lease_renewal,
        !is_ready(health) ==> !health.admission || !health.database || !health.listener
            || !health.lease_renewal,
        !is_ready(Health { admission: false, ..health }),
        !is_ready(Health { database: false, ..health }),
        !is_ready(Health { listener: false, ..health }),
        !is_ready(Health { lease_renewal: false, ..health }),
{
}

/// A worker lags by the time since its last progress that is left after the interval; a lease is as
/// old as the time since it was renewed, and without a lease there is no age. Both grow with the
/// clock, and neither is ever negative.
pub proof fn lags_are_measured_by_the_clock(health: Health, interval: nat, now: nat)
    ensures
        now >= health.runtime_progress@ + interval ==> runtime_lag(health, interval, now)
            + interval + health.runtime_progress@ == now,
        now <= health.runtime_progress@ + interval ==> runtime_lag(health, interval, now) == 0,
        !health.active_leases ==> renewal_age(health, now) == 0,
        health.active_leases && now >= health.last_lease_renewal@ ==> renewal_age(health, now)
            + health.last_lease_renewal@ == now,
        now <= health.last_lease_renewal@ ==> renewal_age(health, now) == 0,
        elapsed(now, interval) == if now >= interval {
            now - interval
        } else {
            0
        },
{
}

} // verus!
