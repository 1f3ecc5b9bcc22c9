//! The record that a host keeps for its statistics.

use vstd::prelude::*;
use crate::params::LogLevel;
use crate::time::SimulationTime;

verus! {

/// What a [`Tracker`] stands for. Times are in nanoseconds.
pub struct TrackerModel {
    /// The time between two heartbeats.
    pub heartbeat_interval: nat,
    /// The level at which heartbeats are logged.
    pub heartbeat_log_level: LogLevel,
    /// What a heartbeat reports, as a set of flags.
    pub heartbeat_log_info: u32,
    /// The delays that the tracker was told of and has not handed on, the
    /// oldest first.
    pub processing_delays: Seq<nat>,
}

impl TrackerModel {
    /// The tracker after it was told of `delay`.
    pub open spec fn add_virtual_processing_delay(self, delay: nat) -> TrackerModel {
        TrackerModel { processing_delays: self.processing_delays.push(delay), ..self }
    }

    /// The tracker after it has handed on what it was told.
    pub open spec fn cleared(self) -> TrackerModel {
        TrackerModel { processing_delays: Seq::empty(), ..self }
    }
}

/// Keeps what a host reports with its heartbeat: so far, the delays by which
/// events were put off because the CPU was busy.
pub struct Tracker {
    heartbeat_interval: SimulationTime,
    heartbeat_log_level: LogLevel,
    heartbeat_log_info: u32,
    processing_delays: Vec<SimulationTime>,
}

/// The lengths of `spans`, one by one.
spec fn lengths(spans: Seq<SimulationTime>) -> Seq<nat> {
    spans.map_values(|span: SimulationTime| span@)
}

impl View for Tracker {
    type V = TrackerModel;

    closed spec fn view(&self) -> TrackerModel {
        TrackerModel {
            heartbeat_interval: self.heartbeat_interval@,
            heartbeat_log_level: self.heartbeat_log_level,
            heartbeat_log_info: self.heartbeat_log_info,
            processing_delays: lengths(self.processing_delays@),
        }
    }
}

impl Tracker {
    /// A tracker that was told of nothing yet.
    pub fn new(
        heartbeat_interval: SimulationTime,
        heartbeat_log_level: LogLevel,
        heartbeat_log_info: u32,
    ) -> (tracker: Tracker)
        ensures
            tracker@ == (TrackerModel {
                heartbeat_interval: heartbeat_interval@,
                heartbeat_log_level,
                heartbeat_log_info,
                processing_delays: Seq::empty(),
            }),
    {
        let processing_delays: Vec<SimulationTime> = Vec::new();
        assert(lengths(processing_delays@) =~= Seq::<nat>::empty());
        Tracker { heartbeat_interval, heartbeat_log_level, heartbeat_log_info, processing_delays }
    }

    /// The time between two heartbeats.
    pub fn heartbeat_interval(&self) -> (interval: SimulationTime)
        ensures
            interval@ == self@.heartbeat_interval,
    {
        self.heartbeat_interval
    }

    /// The level at which heartbeats are logged.
    pub fn heartbeat_log_level(&self) -> (level: LogLevel)
        ensures
            level == self@.heartbeat_log_level,
    {
        self.heartbeat_log_level
    }

    /// What a heartbeat reports, as a set of flags.
    pub fn heartbeat_log_info(&self) -> (flags: u32)
        ensures
            flags == self@.heartbeat_log_info,
    {
        self.heartbeat_log_info
    }

    /// Tells the tracker that an event was put off by `delay` because the
    /// CPU was busy.
    pub fn add_virtual_processing_delay(&mut self, delay: SimulationTime)
        ensures
            final(self)@ == old(self)@.add_virtual_processing_delay(delay@),
    {
        self.processing_delays.push(delay);
        assert(lengths(self.processing_delays@) =~= lengths(old(self).processing_delays@).push(
            delay@,
        ));
    }

    /// How many delays the tracker was told of and has not handed on.
    pub fn processing_delay_count(&self) -> (count: usize)
        ensures
            count == self@.processing_delays.len(),
    {
        self.processing_delays.len()
    }

    /// The `index`-th of the delays that the tracker was told of and has not
    /// handed on, the oldest being the first.
    pub fn processing_delay(&self, index: usize) -> (delay: SimulationTime)
        requires
            index < self@.processing_delays.len(),
        ensures
            delay@ == self@.processing_delays[index as int],
    {
        self.processing_delays[index]
    }

    /// Hands on the delays that the tracker was told of, the oldest first,
    /// and forgets them.
    pub fn take_processing_delays(&mut self) -> (delays: Vec<SimulationTime>)
        ensures
            delays@.len() == old(self)@.processing_delays.len(),
            forall|i: int|
                0 <= i < delays@.len() ==> (#[trigger] delays@[i])@ == old(
                    self,
                )@.processing_delays[i],
            final(self)@ == old(self)@.cleared(),
    {
        let mut delays: Vec<SimulationTime> = Vec::new();
        assert(lengths(delays@) =~= Seq::<nat>::empty());
        core::mem::swap(&mut self.processing_delays, &mut delays);
        delays
    }
}

} // verus!
