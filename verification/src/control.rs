//! How many tasks a worker runs at once, and when it takes fewer.

use vstd::prelude::*;

use crate::health::HealthObservation;
use crate::identifier::QueueName;
use crate::metrics::{
    admission_reading, readings, record_worker_admission_limit, Measurement, Reading,
};
use crate::number::NonZeroU16;
use crate::time::Duration;
use crate::worker::WorkerError;

verus! {

/// When a worker is overloaded, and what it does then.
#[derive(Clone, Copy, Debug, PartialEq, Eq, Structural)]
pub struct OverloadProtectionConfig {
    pub enabled: bool,
    pub enforce: bool,
    pub event_loop_lag_threshold: Duration,
    pub sustained_samples: NonZeroU16,
    pub recovery_samples: NonZeroU16,
    pub minimum_concurrency: NonZeroU16,
}

impl Default for OverloadProtectionConfig {
    /// Limits are proposed but not enforced; a lag of 250 milliseconds in three samples is too
    /// much, and five good samples end it.
    fn default() -> (result: Self)
        ensures
            result.enabled,
            !result.enforce,
            result.event_loop_lag_threshold@ == 250 * 1_000_000,
            result.sustained_samples@ == 3,
            result.recovery_samples@ == 5,
            result.minimum_concurrency@ == 1,
    {
        OverloadProtectionConfig {
            enabled: true,
            enforce: false,
            event_loop_lag_threshold: Duration::from_millis(250),
            sustained_samples: NonZeroU16::of(3),
            recovery_samples: NonZeroU16::of(5),
            minimum_concurrency: NonZeroU16::min_value(),
        }
    }
}

/// The limits on how many tasks a worker runs at once: the configured one, the one in effect, and
/// the one last proposed.
#[derive(Debug, PartialEq, Eq)]
pub struct WorkerControl {
    configured: NonZeroU16,
    effective: NonZeroU16,
    proposed: NonZeroU16,
    queue_name: QueueName,
}

/// The limits in the abstract.
#[verifier::ext_equal]
pub struct Limits {
    pub configured: u16,
    pub effective: u16,
    pub proposed: u16,
    pub queue_name: Seq<char>,
}

impl View for WorkerControl {
    type V = Limits;

    closed spec fn view(&self) -> Limits {
        Limits {
            configured: self.configured@,
            effective: self.effective@,
            proposed: self.proposed@,
            queue_name: self.queue_name@,
        }
    }
}

/// Whether limits can come about: none is zero, and the one in effect is not above the configured
/// one.
pub open spec fn are_limits(limits: Limits) -> bool {
    0 < limits.effective <= limits.configured && limits.proposed > 0
}

/// The measurements of a change from one limit to another: none where nothing changed.
pub open spec fn change_readings(
    queue_name: Seq<char>,
    decision: Seq<char>,
    reason: Seq<char>,
    before: u16,
    after: u16,
) -> Seq<Reading> {
    if before == after {
        Seq::empty()
    } else {
        seq![admission_reading(queue_name, decision, reason, after)]
    }
}

impl WorkerControl {
    /// Whether the limit in effect is within the configured one.
    pub open spec fn well_formed(self) -> bool {
        are_limits(self@)
    }

    /// All limits as configured.
    pub fn new(configured: NonZeroU16, queue_name: QueueName) -> (result: Self)
        ensures
            result.well_formed(),
            result@ == (Limits {
                configured: configured@,
                effective: configured@,
                proposed: configured@,
                queue_name: queue_name@,
            }),
    {
        let _ = configured.get();
        WorkerControl { configured, effective: configured, proposed: configured, queue_name }
    }

    pub fn configured_concurrency(&self) -> (result: NonZeroU16)
        ensures
            result@ == self@.configured,
    {
        self.configured
    }

    pub fn effective_concurrency(&self) -> (result: NonZeroU16)
        ensures
            result@ == self@.effective,
    {
        self.effective
    }

    pub fn proposed_concurrency(&self) -> (result: NonZeroU16)
        ensures
            result@ == self@.proposed,
    {
        self.proposed
    }

    /// Sets the limit in effect by hand.
    pub fn set_effective_concurrency(&mut self, limit: NonZeroU16) -> (result: Result<
        Vec<Measurement>,
        WorkerError,
    >)
        requires
            old(self).well_formed(),
        ensures
            final(self).well_formed(),
            if limit@ > old(self)@.configured {
                &&& result == Err::<Vec<Measurement>, _>(
                    WorkerError::AdmissionLimitExceedsConfigured {
                        requested: limit@,
                        configured: old(self)@.configured,
                    },
                )
                &&& final(self)@ == old(self)@
            } else {
                &&& result is Ok
                &&& readings(result->Ok_0@) == change_readings(
                    old(self)@.queue_name,
                    "applied"@,
                    "manual"@,
                    old(self)@.effective,
                    limit@,
                )
                &&& final(self)@ == (Limits { effective: limit@, ..old(self)@ })
            },
    {
        self.apply_effective_concurrency(limit, "manual")
    }

    /// Sets the limit in effect for a reason. A limit above the configured one is refused.
    pub fn apply_effective_concurrency(&mut self, limit: NonZeroU16, reason: &'static str) -> (result:
        Result<Vec<Measurement>, WorkerError>)
        requires
            old(self).well_formed(),
        ensures
            final(self).well_formed(),
            if limit@ > old(self)@.configured {
                &&& result == Err::<Vec<Measurement>, _>(
                    WorkerError::AdmissionLimitExceedsConfigured {
                        requested: limit@,
                        configured: old(self)@.configured,
                    },
                )
                &&& final(self)@ == old(self)@
            } else {
                &&& result is Ok
                &&& readings(result->Ok_0@) == change_readings(
                    old(self)@.queue_name,
                    "applied"@,
                    reason@,
                    old(self)@.effective,
                    limit@,
                )
                &&& final(self)@ == (Limits { effective: limit@, ..old(self)@ })
            },
    {
        let requested: u16 = limit.get();
        if requested > self.configured.get() {
            return Err(
                WorkerError::AdmissionLimitExceedsConfigured {
                    requested,
                    configured: self.configured.get(),
                },
            );
        }
        let previous: u16 = self.effective.get();
        self.effective = limit;
        let mut measurements: Vec<Measurement> = Vec::new();
        if previous != requested {
            measurements.push(
                record_worker_admission_limit(
                    self.queue_name.as_str(),
                    "applied",
                    reason,
                    requested,
                ),
            );
        }
        assert(readings(measurements@) =~= change_readings(
            old(self)@.queue_name,
            "applied"@,
            reason@,
            previous,
            requested,
        ));
        Ok(measurements)
    }

    /// Notes a proposed limit.
    pub fn record_proposed_concurrency(&mut self, limit: NonZeroU16, reason: &'static str) -> (result:
        Vec<Measurement>)
        requires
            old(self).well_formed(),
        ensures
            final(self).well_formed(),
            readings(result@) == change_readings(
                old(self)@.queue_name,
                "proposed"@,
                reason@,
                old(self)@.proposed,
                limit@,
            ),
            final(self)@ == (Limits { proposed: limit@, ..old(self)@ }),
    {
        let previous: u16 = self.proposed.get();
        let next: u16 = limit.get();
        self.proposed = limit;
        let mut measurements: Vec<Measurement> = Vec::new();
        if previous != next {
            measurements.push(
                record_worker_admission_limit(self.queue_name.as_str(), "proposed", reason, next),
            );
        }
        assert(readings(measurements@) =~= change_readings(
            old(self)@.queue_name,
            "proposed"@,
            reason@,
            previous,
            next,
        ));
        measurements
    }
}

/// How many samples in a row showed too much lag, and how many showed nothing wrong.
#[derive(Clone, Copy, Debug, PartialEq, Eq, Structural)]
pub struct OverloadDetector {
    pub lag_samples: u16,
    pub recovery_samples: u16,
}

/// One more sample, as far as they can be counted.
pub open spec fn one_more(samples: u16) -> u16 {
    if samples == u16::MAX {
        u16::MAX
    } else {
        (samples + 1) as u16
    }
}

/// The samples of too much lag in a row, the latest being `lag`.
pub open spec fn lag_count(samples: u16, lag: nat, threshold: nat) -> u16 {
    if lag >= threshold {
        one_more(samples)
    } else {
        0
    }
}

/// Why a worker is overloaded, if it is: its database is away, its leases are not renewed in
/// time, or its event loop has been late for long.
pub open spec fn overload_reason(
    lag_samples: u16,
    config: OverloadProtectionConfig,
    lease_renewal_threshold: Duration,
    observation: HealthObservation,
) -> Option<Seq<char>> {
    if !observation.database {
        Some("database_unavailable"@)
    } else if observation.active_leases && (!observation.lease_renewal
        || observation.lease_renewal_age@ >= lease_renewal_threshold@) {
        Some("lease_renewal_late"@)
    } else if lag_samples >= config.sustained_samples@ {
        Some("event_loop_lag"@)
    } else {
        None
    }
}

/// The limit below the one in effect: half of it, but not below the minimum.
pub open spec fn reduced_limit(effective: u16, minimum: u16) -> u16 {
    if effective / 2 >= minimum {
        effective / 2
    } else {
        minimum
    }
}

/// The limit above the one in effect: one more, but not above the configured one.
pub open spec fn raised_limit(effective: u16, configured: u16) -> u16 {
    if effective < configured {
        (effective + 1) as u16
    } else {
        configured
    }
}

/// The limit that an observation calls for, and why; none before enough good samples.
pub open spec fn proposal(
    detector: OverloadDetector,
    config: OverloadProtectionConfig,
    lease_renewal_threshold: Duration,
    observation: HealthObservation,
    limits: Limits,
) -> Option<(u16, Seq<char>)> {
    let lag_samples = lag_count(
        detector.lag_samples,
        observation.runtime_lag@,
        config.event_loop_lag_threshold@,
    );
    match overload_reason(lag_samples, config, lease_renewal_threshold, observation) {
        Some(reason) => Some(
            (reduced_limit(limits.effective, config.minimum_concurrency@), reason),
        ),
        None => if one_more(detector.recovery_samples) < config.recovery_samples@ {
            None
        } else {
            Some((raised_limit(limits.effective, limits.configured), "recovery"@))
        },
    }
}

/// The detector after an observation.
pub open spec fn next_detector(
    detector: OverloadDetector,
    config: OverloadProtectionConfig,
    lease_renewal_threshold: Duration,
    observation: HealthObservation,
) -> OverloadDetector {
    let lag_samples = lag_count(
        detector.lag_samples,
        observation.runtime_lag@,
        config.event_loop_lag_threshold@,
    );
    OverloadDetector {
        lag_samples,
        recovery_samples: if overload_reason(
            lag_samples,
            config,
            lease_renewal_threshold,
            observation,
        ) is Some {
            0
        } else {
            one_more(detector.recovery_samples)
        },
    }
}

/// The limits after a proposal: it takes effect only where it is enforced.
pub open spec fn next_limits(limits: Limits, limit: u16, enforce: bool) -> Limits {
    Limits {
        proposed: limit,
        effective: if enforce {
            limit
        } else {
            limits.effective
        },
        ..limits
    }
}

/// The measurements of a proposal.
pub open spec fn proposal_readings(
    limits: Limits,
    limit: u16,
    reason: Seq<char>,
    enforce: bool,
) -> Seq<Reading> {
    change_readings(limits.queue_name, "proposed"@, reason, limits.proposed, limit) + if enforce {
        change_readings(limits.queue_name, "applied"@, reason, limits.effective, limit)
    } else {
        Seq::empty()
    }
}

impl OverloadDetector {
    pub fn new() -> (result: Self)
        ensures
            result == (OverloadDetector { lag_samples: 0, recovery_samples: 0 }),
    {
        OverloadDetector { lag_samples: 0, recovery_samples: 0 }
    }

    /// Looks at one observation of a worker and proposes a limit where that calls for one.
    pub fn observe(
        &mut self,
        control: &mut WorkerControl,
        config: &OverloadProtectionConfig,
        lease_renewal_threshold: Duration,
        observation: &HealthObservation,
    ) -> (result: Vec<Measurement>)
        requires
            old(control).well_formed(),
            config.minimum_concurrency@ <= old(control)@.configured,
        ensures
            final(control).well_formed(),
            if !config.enabled {
                &&& *final(self) == *old(self)
                &&& final(control)@ == old(control)@
                &&& readings(result@) == Seq::<Reading>::empty()
            } else {
                &&& *final(self) == next_detector(
                    *old(self),
                    *config,
                    lease_renewal_threshold,
                    *observation,
                )
                &&& match proposal(
                    *old(self),
                    *config,
                    lease_renewal_threshold,
                    *observation,
                    old(control)@,
                ) {
                    Some((limit, reason)) => {
                        &&& final(control)@ == next_limits(old(control)@, limit, config.enforce)
                        &&& readings(result@) == proposal_readings(
                            old(control)@,
                            limit,
                            reason,
                            config.enforce,
                        )
                    },
                    None => {
                        &&& final(control)@ == old(control)@
                        &&& readings(result@) == Seq::<Reading>::empty()
                    },
                }
            },
    {
        let none: Vec<Measurement> = Vec::new();
        assert(readings(none@) =~= Seq::<Reading>::empty());
        if !config.enabled {
            return none;
        }
        if observation.runtime_lag.shorter_than(config.event_loop_lag_threshold) {
            self.lag_samples = 0;
        } else {
            self.lag_samples = self.lag_samples.saturating_add(1);
        }
        let late = !observation.lease_renewal || !observation.lease_renewal_age.shorter_than(
            lease_renewal_threshold,
        );
        let reason: Option<&'static str> = if !observation.database {
            Some("database_unavailable")
        } else if observation.active_leases && late {
            Some("lease_renewal_late")
        } else if self.lag_samples >= config.sustained_samples.get() {
            Some("event_loop_lag")
        } else {
            None
        };
        if reason.is_some() {
            self.recovery_samples = 0;
        } else {
            self.recovery_samples = self.recovery_samples.saturating_add(1);
            if self.recovery_samples < config.recovery_samples.get() {
                return none;
            }
        }
        let effective: u16 = control.effective_concurrency().get();
        let configured: u16 = control.configured_concurrency().get();
        let minimum: u16 = config.minimum_concurrency.get();
        let proposed: u16 = if reason.is_some() {
            if effective / 2 >= minimum {
                effective / 2
            } else {
                minimum
            }
        } else if effective < configured {
            effective + 1
        } else {
            configured
        };
        let proposed = NonZeroU16::of(proposed);
        let reason: &'static str = match reason {
            Some(reason) => reason,
            None => "recovery",
        };
        let mut measurements = control.record_proposed_concurrency(proposed, reason);
        if config.enforce {
            let ghost before = measurements@;
            match control.apply_effective_concurrency(proposed, reason) {
                Ok(mut applied) => {
                    let ghost added = applied@;
                    measurements.append(&mut applied);
                    assert(readings(measurements@) =~= readings(before) + readings(added));
                },
                Err(_) => {},
            }
        } else {
            assert(readings(measurements@) =~= readings(measurements@) + Seq::<Reading>::empty());
        }
        measurements
    }
}

/// Whatever is observed, a worker keeps taking tasks, and never more than it is configured for.
pub proof fn limits_stay_within_the_configuration(
    detector: OverloadDetector,
    config: OverloadProtectionConfig,
    lease_renewal_threshold: Duration,
    observation: HealthObservation,
    limits: Limits,
)
    requires
        are_limits(limits),
        0 < config.minimum_concurrency@ <= limits.configured,
    ensures
        proposal(detector, config, lease_renewal_threshold, observation, limits) matches Some(
            (limit, reason),
        ) ==> {
            &&& 0 < limit <= limits.configured
            &&& are_limits(next_limits(limits, limit, config.enforce))
        },
{
}

/// Without enforcement an observation leaves the limit in effect alone.
pub proof fn proposals_alone_change_nothing(limits: Limits, limit: u16)
    ensures
        next_limits(limits, limit, false).effective == limits.effective,
{
}

/// An overloaded worker is never proposed more than it has, unless it has less than the minimum;
/// one that recovers is proposed at most one more.
pub proof fn limits_fall_fast_and_rise_slowly(effective: u16, minimum: u16, configured: u16)
    requires
        0 < minimum <= configured,
        effective <= configured,
    ensures
        minimum <= effective ==> reduced_limit(effective, minimum) <= effective,
        effective <= raised_limit(effective, configured) <= effective + 1,
{
}

/// Why a worker counts as overloaded, in this order: its database is away; it has leases and they
/// are not renewed, or not in time; its event loop was late in so many samples in a row.
pub proof fn overload_has_its_reasons(
    lag_samples: u16,
    config: OverloadProtectionConfig,
    lease_renewal_threshold: Duration,
    observation: HealthObservation,
)
    ensures
        ({
            let reason = overload_reason(lag_samples, config, lease_renewal_threshold, observation);
            let late = observation.active_leases && (!observation.lease_renewal
                || observation.lease_renewal_age@ >= lease_renewal_threshold@);
            &&& !observation.database ==> reason == Some("database_unavailable"@)
            &&& observation.database && late ==> reason == Some("lease_renewal_late"@)
            &&& observation.database && !late && lag_samples >= config.sustained_samples@ ==> reason
                == Some("event_loop_lag"@)
            &&& observation.database && !late && lag_samples < config.sustained_samples@
                ==> reason is None
        }),
{
}

/// Samples are counted in a row: a late one adds to the late ones and a timely one ends them; an
/// overload ends the good ones and anything else adds to them.
pub proof fn samples_are_counted_in_a_row(
    detector: OverloadDetector,
    config: OverloadProtectionConfig,
    lease_renewal_threshold: Duration,
    observation: HealthObservation,
)
    ensures
        ({
            let next = next_detector(detector, config, lease_renewal_threshold, observation);
            let overloaded = overload_reason(
                next.lag_samples,
                config,
                lease_renewal_threshold,
                observation,
            ) is Some;
            let timely = observation.runtime_lag@ < config.event_loop_lag_threshold@;
            &&& timely ==> next.lag_samples == 0
            &&& !timely && detector.lag_samples < u16::MAX ==> next.lag_samples
                == detector.lag_samples + 1
            &&& !timely && detector.lag_samples == u16::MAX ==> next.lag_samples == u16::MAX
            &&& overloaded ==> next.recovery_samples == 0
            &&& !overloaded && detector.recovery_samples < u16::MAX ==> next.recovery_samples
                == detector.recovery_samples + 1
            &&& !overloaded && detector.recovery_samples == u16::MAX ==> next.recovery_samples
                == u16::MAX
        }),
{
}

/// What an observation proposes: half of the limit in effect, or the minimum, whichever is more, for
/// an overloaded worker; one more than the limit in effect, up to the configured one, after enough
/// good samples; and nothing before.
pub proof fn proposals_follow_observations(
    detector: OverloadDetector,
    config: OverloadProtectionConfig,
    lease_renewal_threshold: Duration,
    observation: HealthObservation,
    limits: Limits,
)
    requires
        are_limits(limits),
    ensures
        ({
            let next = next_detector(detector, config, lease_renewal_threshold, observation);
            let reason = overload_reason(
                next.lag_samples,
                config,
                lease_renewal_threshold,
                observation,
            );
            let minimum = config.minimum_concurrency@;
            match proposal(detector, config, lease_renewal_threshold, observation, limits) {
                None => reason is None && next.recovery_samples < config.recovery_samples@,
                Some((limit, why)) => if reason is Some {
                    &&& Some(why) == reason
                    &&& limit >= minimum
                    &&& 2 * limit <= limits.effective || limit == minimum
                    &&& 2 * limit + 1 >= limits.effective
                } else {
                    &&& why == "recovery"@
                    &&& next.recovery_samples >= config.recovery_samples@
                    &&& limits.effective < limits.configured ==> limit == limits.effective + 1
                    &&& limits.effective == limits.configured ==> limit == limits.configured
                },
            }
        }),
{
}

/// A proposal is noted, and takes effect exactly where it is enforced; nothing else changes, and
/// each limit that changed is measured, with its reason.
pub proof fn proposals_take_effect_where_enforced(
    limits: Limits,
    limit: u16,
    reason: Seq<char>,
    enforce: bool,
)
    ensures
        ({
            let next = next_limits(limits, limit, enforce);
            &&& next.proposed == limit
            &&& enforce ==> next.effective == limit
            &&& !enforce ==> next.effective == limits.effective
            &&& next.configured == limits.configured && next.queue_name == limits.queue_name
        }),
        ({
            let measured = proposal_readings(limits, limit, reason, enforce);
            &&& limits.proposed != limit ==> measured.contains(
                admission_reading(limits.queue_name, "proposed"@, reason, limit),
            )
            &&& enforce && limits.effective != limit ==> measured.contains(
                admission_reading(limits.queue_name, "applied"@, reason, limit),
            )
            &&& measured.len() == (if limits.proposed != limit {
                1int
            } else {
                0
            }) + (if enforce && limits.effective != limit {
                1int
            } else {
                0
            })
        }),
        change_readings(limits.queue_name, "applied"@, reason, limit, limit).len() == 0,
{
    let measured = proposal_readings(limits, limit, reason, enforce);
    if limits.proposed != limit {
        assert(measured[0] == admission_reading(limits.queue_name, "proposed"@, reason, limit));
    }
    if enforce && limits.effective != limit {
        assert(measured[measured.len() - 1] == admission_reading(
            limits.queue_name,
            "applied"@,
            reason,
            limit,
        ));
    }
}

} // verus!
