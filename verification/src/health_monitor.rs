//! Last-known health of the two processors, and the choice between them.

use crate::processor_type::ProcessorType;
use vstd::prelude::*;
use vstd::string::StringExecFns;

verus! {

/// A processor that answers slower than this many milliseconds counts as
/// failing.
pub const MAX_ACCEPTABLE_RESPONSE_TIME: u16 = 50;

/// Seconds between two rounds of health probes.
pub const PROBE_INTERVAL_SECS: u64 = 5;

/// The status with which a processor answers a health probe it accepts.
pub const PROBE_OK_STATUS: u16 = 200;

/// What a processor reports about itself.
#[derive(Debug, Clone, Copy, PartialEq, Eq, Structural)]
pub struct ProcessorHealth {
    pub failing: bool,
    pub min_response_time: u16,
}

impl ProcessorHealth {
    /// A processor is unusable if it says so or if it is too slow.
    pub open spec fn is_failing(self) -> bool {
        self.failing || self.min_response_time > MAX_ACCEPTABLE_RESPONSE_TIME
    }

    /// The health assumed before the first probe: not failing, no delay.
    pub open spec fn assumed() -> ProcessorHealth {
        ProcessorHealth { failing: false, min_response_time: 0 }
    }

    /// The health assumed before the first probe.
    pub fn healthy() -> (h: Self)
        ensures
            h == ProcessorHealth::assumed(),
            !h.is_failing(),
    {
        ProcessorHealth { failing: false, min_response_time: 0 }
    }

    /// Whether the processor is unusable.
    pub fn unusable(&self) -> (b: bool)
        ensures
            b == self.is_failing(),
    {
        self.failing || self.min_response_time > MAX_ACCEPTABLE_RESPONSE_TIME
    }
}

#[derive(Debug, Clone, Copy, PartialEq, Eq, Structural)]
pub enum HealthMonitorError {
    BothProcessorsFailing,
}

impl HealthMonitorError {
    pub fn to_string(&self) -> (r: String)
        ensures
            r@ == "Both processors are failing"@,
    {
        String::from_str("Both processors are failing")
    }
}

/// The processor to use, given the health of both: the default one unless it
/// is failing, else the fallback one unless it is failing too.
pub open spec fn select_processor(
    default_health: ProcessorHealth,
    fallback_health: ProcessorHealth,
) -> Result<ProcessorType, HealthMonitorError> {
    if !default_health.is_failing() {
        Ok(ProcessorType::Default)
    } else if !fallback_health.is_failing() {
        Ok(ProcessorType::Fallback)
    } else {
        Err(HealthMonitorError::BothProcessorsFailing)
    }
}

/// What a health probe tells: the reported health if the processor answered
/// with `PROBE_OK_STATUS` and a body that could be read, else nothing.
pub open spec fn probe_reading(status: u16, body: Option<ProcessorHealth>) -> Option<
    ProcessorHealth,
> {
    if status == PROBE_OK_STATUS {
        body
    } else {
        None
    }
}

/// Interprets the answer to a health probe.
pub fn read_probe(status: u16, body: Option<ProcessorHealth>) -> (r: Option<ProcessorHealth>)
    ensures
        r == probe_reading(status, body),
{
    if status == PROBE_OK_STATUS {
        body
    } else {
        None
    }
}

/// The address and the last-known health of each processor.
pub struct HealthMonitor {
    default_url: String,
    fallback_url: String,
    default_health: ProcessorHealth,
    fallback_health: ProcessorHealth,
}

impl HealthMonitor {
    /// The last-known health of each processor. Both are always present.
    pub closed spec fn healths(&self) -> Map<ProcessorType, ProcessorHealth> {
        map![
            ProcessorType::Default => self.default_health,
            ProcessorType::Fallback => self.fallback_health,
        ]
    }

    /// The base address of each processor.
    pub closed spec fn urls(&self) -> Map<ProcessorType, Seq<char>> {
        map![
            ProcessorType::Default => self.default_url@,
            ProcessorType::Fallback => self.fallback_url@,
        ]
    }

    /// The health map holds exactly the two processors, whatever has been
    /// done to the monitor.
    pub proof fn lemma_both_processors_known(&self)
        ensures
            self.healths().dom() =~= set![ProcessorType::Default, ProcessorType::Fallback],
            self.urls().dom() =~= set![ProcessorType::Default, ProcessorType::Fallback],
    {
    }

    /// A monitor that takes both processors for healthy until probed.
    pub fn new(default_processor_url: &str, fallback_processor_url: &str) -> (m: Self)
        ensures
            m.urls() == map![
                ProcessorType::Default => default_processor_url@,
                ProcessorType::Fallback => fallback_processor_url@,
            ],
            m.healths() == map![
                ProcessorType::Default => ProcessorHealth::assumed(),
                ProcessorType::Fallback => ProcessorHealth::assumed(),
            ],
    {
        Self {
            default_url: String::from_str(default_processor_url),
            fallback_url: String::from_str(fallback_processor_url),
            default_health: ProcessorHealth::healthy(),
            fallback_health: ProcessorHealth::healthy(),
        }
    }

    /// The base address of a processor.
    pub fn url(&self, processor: ProcessorType) -> (r: &str)
        ensures
            r@ == self.urls()[processor],
    {
        match processor {
            ProcessorType::Default => self.default_url.as_str(),
            ProcessorType::Fallback => self.fallback_url.as_str(),
        }
    }

    /// The address that a health probe of a processor asks.
    pub fn probe_url(&self, processor: ProcessorType) -> (r: String)
        ensures
            r@ == self.urls()[processor] + "/payments/service-health"@,
    {
        String::from_str(self.url(processor)).concat("/payments/service-health")
    }

    /// The last-known health of a processor.
    pub fn health(&self, processor: ProcessorType) -> (h: ProcessorHealth)
        ensures
            h == self.healths()[processor],
    {
        match processor {
            ProcessorType::Default => self.default_health,
            ProcessorType::Fallback => self.fallback_health,
        }
    }

    /// Records what a probe of a processor told. A probe that told nothing
    /// leaves the last-known health in place.
    pub fn try_update_health(&mut self, processor: ProcessorType, probed: Option<ProcessorHealth>)
        ensures
            final(self).urls() == old(self).urls(),
            probed is Some ==> final(self).healths() == old(self).healths().insert(
                processor,
                probed->0,
            ),
            probed is None ==> final(self).healths() == old(self).healths(),
    {
        match probed {
            Some(health) => {
                match processor {
                    ProcessorType::Default => {
                        self.default_health = health;
                    },
                    ProcessorType::Fallback => {
                        self.fallback_health = health;
                    },
                }
                assert(self.healths() =~= old(self).healths().insert(processor, health));
            },
            None => {},
        }
    }

    /// The processor that the next payment goes to.
    pub fn next_processor(&self) -> (r: Result<ProcessorType, HealthMonitorError>)
        ensures
            r == select_processor(
                self.healths()[ProcessorType::Default],
                self.healths()[ProcessorType::Fallback],
            ),
    {
        if !self.default_health.unusable() {
            Ok(ProcessorType::Default)
        } else if !self.fallback_health.unusable() {
            Ok(ProcessorType::Fallback)
        } else {
            Err(HealthMonitorError::BothProcessorsFailing)
        }
    }
}

} // verus!
