//! The two clocks of the simulation: [`SimulationTime`], a span of simulated
//! time, and [`EmulatedTime`], an instant on the emulated wall clock. Both
//! count whole nanoseconds and never wrap: every operation either proves that
//! its result fits, reports that it does not, or saturates.

use vstd::prelude::*;

verus! {

/// Nanoseconds in one microsecond.
pub const NANOS_PER_MICRO: u64 = 1_000;

/// Nanoseconds in one millisecond.
pub const NANOS_PER_MILLI: u64 = 1_000_000;

/// Nanoseconds in one second.
pub const NANOS_PER_SEC: u64 = 1_000_000_000;

/// The instant at which every simulation starts, in nanoseconds since the
/// Unix epoch: midnight UTC on 1 January 2000.
pub const SIMULATION_START_NANOS: u64 = 946_684_800_000_000_000;

/// A span of simulated time. Its view is its length in nanoseconds.
#[derive(Clone, Copy, Debug, PartialEq, Eq, Structural, PartialOrd, Ord, Hash)]
pub struct SimulationTime(u64);

impl View for SimulationTime {
    type V = nat;

    closed spec fn view(&self) -> nat {
        self.0 as nat
    }
}

impl SimulationTime {
    /// Two spans of the same length are the same span.
    pub proof fn lemma_view_injective(a: SimulationTime, b: SimulationTime)
        requires
            a@ == b@,
        ensures
            a == b,
    {
    }

    /// Every span fits in 64 bits.
    pub proof fn lemma_view_bounded(self)
        ensures
            self@ <= u64::MAX,
    {
    }

    /// The empty span.
    pub fn zero() -> (t: Self)
        ensures
            t@ == 0,
    {
        SimulationTime(0)
    }

    /// The longest span that can be represented.
    pub fn maximum() -> (t: Self)
        ensures
            t@ == u64::MAX,
    {
        SimulationTime(u64::MAX)
    }

    /// The span of `nanos` nanoseconds.
    pub fn from_nanos(nanos: u64) -> (t: Self)
        ensures
            t@ == nanos,
    {
        SimulationTime(nanos)
    }

    /// The span of `micros` microseconds, or `None` where it cannot be
    /// represented.
    pub fn try_from_micros(micros: u64) -> (t: Option<Self>)
        ensures
            micros * NANOS_PER_MICRO <= u64::MAX ==> t.is_some() && t.unwrap()@ == micros
                * NANOS_PER_MICRO,
            micros * NANOS_PER_MICRO > u64::MAX ==> t.is_none(),
    {
        match micros.checked_mul(NANOS_PER_MICRO) {
            Some(nanos) => Some(SimulationTime(nanos)),
            None => None,
        }
    }

    /// The span of `millis` milliseconds, or `None` where it cannot be
    /// represented.
    pub fn try_from_millis(millis: u64) -> (t: Option<Self>)
        ensures
            millis * NANOS_PER_MILLI <= u64::MAX ==> t.is_some() && t.unwrap()@ == millis
                * NANOS_PER_MILLI,
            millis * NANOS_PER_MILLI > u64::MAX ==> t.is_none(),
    {
        match millis.checked_mul(NANOS_PER_MILLI) {
            Some(nanos) => Some(SimulationTime(nanos)),
            None => None,
        }
    }

    /// The span of `secs` seconds, or `None` where it cannot be represented.
    pub fn try_from_secs(secs: u64) -> (t: Option<Self>)
        ensures
            secs * NANOS_PER_SEC <= u64::MAX ==> t.is_some() && t.unwrap()@ == secs
                * NANOS_PER_SEC,
            secs * NANOS_PER_SEC > u64::MAX ==> t.is_none(),
    {
        match secs.checked_mul(NANOS_PER_SEC) {
            Some(nanos) => Some(SimulationTime(nanos)),
            None => None,
        }
    }

    /// The length of the span in nanoseconds.
    pub fn as_nanos(&self) -> (nanos: u64)
        ensures
            nanos == self@,
    {
        self.0
    }

    /// The whole microseconds in the span.
    pub fn as_micros(&self) -> (micros: u64)
        ensures
            micros == self@ / (NANOS_PER_MICRO as nat),
    {
        self.0 / NANOS_PER_MICRO
    }

    /// The whole milliseconds in the span.
    pub fn as_millis(&self) -> (millis: u64)
        ensures
            millis == self@ / (NANOS_PER_MILLI as nat),
    {
        self.0 / NANOS_PER_MILLI
    }

    /// The whole seconds in the span.
    pub fn as_secs(&self) -> (secs: u64)
        ensures
            secs == self@ / (NANOS_PER_SEC as nat),
    {
        self.0 / NANOS_PER_SEC
    }

    /// Whether the span is empty.
    pub fn is_zero(&self) -> (b: bool)
        ensures
            b == (self@ == 0),
    {
        self.0 == 0
    }

    /// Whether the span is longer than nothing.
    pub fn is_positive(&self) -> (b: bool)
        ensures
            b == (self@ > 0),
    {
        self.0 > 0
    }

    /// The two spans laid end to end, or `None` where the sum cannot be
    /// represented.
    pub fn checked_add(self, other: SimulationTime) -> (sum: Option<SimulationTime>)
        ensures
            self@ + other@ <= u64::MAX ==> sum.is_some() && sum.unwrap()@ == self@ + other@,
            self@ + other@ > u64::MAX ==> sum.is_none(),
    {
        match self.0.checked_add(other.0) {
            Some(nanos) => Some(SimulationTime(nanos)),
            None => None,
        }
    }

    /// What is left of this span after `other`, or `None` where `other` is
    /// the longer.
    pub fn checked_sub(self, other: SimulationTime) -> (rest: Option<SimulationTime>)
        ensures
            other@ <= self@ ==> rest.is_some() && rest.unwrap()@ == self@ - other@,
            other@ > self@ ==> rest.is_none(),
    {
        match self.0.checked_sub(other.0) {
            Some(nanos) => Some(SimulationTime(nanos)),
            None => None,
        }
    }

    /// The span repeated `times` times, or `None` where the product cannot be
    /// represented.
    pub fn checked_mul(self, times: u64) -> (product: Option<SimulationTime>)
        ensures
            self@ * times <= u64::MAX ==> product.is_some() && product.unwrap()@ == self@ * times,
            self@ * times > u64::MAX ==> product.is_none(),
    {
        match self.0.checked_mul(times) {
            Some(nanos) => Some(SimulationTime(nanos)),
            None => None,
        }
    }

    /// What is left over when the span is cut into pieces of length `unit`, or
    /// `None` where `unit` is empty.
    pub fn checked_rem(self, unit: SimulationTime) -> (rest: Option<SimulationTime>)
        ensures
            unit@ > 0 ==> rest.is_some() && rest.unwrap()@ == self@ % unit@,
            unit@ == 0 ==> rest.is_none(),
    {
        if unit.0 == 0 {
            None
        } else {
            Some(SimulationTime(self.0 % unit.0))
        }
    }

    /// The two spans laid end to end, or the longest span where the sum cannot
    /// be represented.
    pub fn saturating_add(self, other: SimulationTime) -> (sum: SimulationTime)
        ensures
            sum@ == if self@ + other@ <= u64::MAX {
                self@ + other@
            } else {
                u64::MAX as nat
            },
    {
        match self.0.checked_add(other.0) {
            Some(nanos) => SimulationTime(nanos),
            None => SimulationTime(u64::MAX),
        }
    }

    /// What is left of this span after `other`, or the empty span where
    /// `other` is the longer.
    pub fn saturating_sub(self, other: SimulationTime) -> (rest: SimulationTime)
        ensures
            rest@ == if other@ <= self@ {
                (self@ - other@) as nat
            } else {
                0
            },
    {
        match self.0.checked_sub(other.0) {
            Some(nanos) => SimulationTime(nanos),
            None => SimulationTime(0),
        }
    }
}

/// The length of `span` in nanoseconds, where there is a span.
pub open spec fn span_length(span: Option<SimulationTime>) -> Option<nat> {
    match span {
        Some(s) => Some(s@),
        None => None,
    }
}

/// An instant on the emulated clock. Its view is the number of nanoseconds
/// between the Unix epoch and the instant.
#[derive(Clone, Copy, Debug, PartialEq, Eq, Structural, PartialOrd, Ord, Hash)]
pub struct EmulatedTime(u64);

impl View for EmulatedTime {
    type V = nat;

    closed spec fn view(&self) -> nat {
        self.0 as nat
    }
}

impl EmulatedTime {
    /// Two instants at the same distance from the epoch are the same instant.
    pub proof fn lemma_view_injective(a: EmulatedTime, b: EmulatedTime)
        requires
            a@ == b@,
        ensures
            a == b,
    {
    }

    /// Every instant fits in 64 bits.
    pub proof fn lemma_view_bounded(self)
        ensures
            self@ <= u64::MAX,
    {
    }

    /// The Unix epoch, which is also the earliest instant.
    pub fn unix_epoch() -> (t: Self)
        ensures
            t@ == 0,
    {
        EmulatedTime(0)
    }

    /// The instant at which every simulation starts.
    pub fn simulation_start() -> (t: Self)
        ensures
            t@ == SIMULATION_START_NANOS,
    {
        EmulatedTime(SIMULATION_START_NANOS)
    }

    /// The earliest instant.
    pub fn minimum() -> (t: Self)
        ensures
            t@ == 0,
    {
        EmulatedTime(0)
    }

    /// The latest instant.
    pub fn maximum() -> (t: Self)
        ensures
            t@ == u64::MAX,
    {
        EmulatedTime(u64::MAX)
    }

    /// The instant `nanos` nanoseconds after the Unix epoch.
    pub fn from_nanos_since_epoch(nanos: u64) -> (t: Self)
        ensures
            t@ == nanos,
    {
        EmulatedTime(nanos)
    }

    /// The nanoseconds between the Unix epoch and this instant.
    pub fn as_nanos_since_epoch(&self) -> (nanos: u64)
        ensures
            nanos == self@,
    {
        self.0
    }

    /// The instant that lies `elapsed` after the start of the simulation, or
    /// `None` where it is past the latest instant.
    pub fn from_abs_simtime(elapsed: SimulationTime) -> (t: Option<Self>)
        ensures
            SIMULATION_START_NANOS + elapsed@ <= u64::MAX ==> t.is_some() && t.unwrap()@
                == SIMULATION_START_NANOS + elapsed@,
            SIMULATION_START_NANOS + elapsed@ > u64::MAX ==> t.is_none(),
    {
        match SIMULATION_START_NANOS.checked_add(elapsed.as_nanos()) {
            Some(nanos) => Some(EmulatedTime(nanos)),
            None => None,
        }
    }

    /// The simulated time that has passed since the start of the simulation,
    /// or `None` where this instant lies before it.
    pub fn to_abs_simtime(&self) -> (elapsed: Option<SimulationTime>)
        ensures
            self@ >= SIMULATION_START_NANOS ==> elapsed.is_some() && elapsed.unwrap()@ == self@
                - SIMULATION_START_NANOS,
            self@ < SIMULATION_START_NANOS ==> elapsed.is_none(),
    {
        match self.0.checked_sub(SIMULATION_START_NANOS) {
            Some(nanos) => Some(SimulationTime::from_nanos(nanos)),
            None => None,
        }
    }

    /// The time from `earlier` to this instant.
    pub fn duration_since(&self, earlier: &EmulatedTime) -> (span: SimulationTime)
        requires
            earlier@ <= self@,
        ensures
            span@ == self@ - earlier@,
    {
        SimulationTime::from_nanos(self.0 - earlier.0)
    }

    /// The time from `earlier` to this instant, or `None` where `earlier` is
    /// in fact the later of the two.
    pub fn checked_duration_since(&self, earlier: &EmulatedTime) -> (span: Option<SimulationTime>)
        ensures
            earlier@ <= self@ ==> span.is_some() && span.unwrap()@ == self@ - earlier@,
            earlier@ > self@ ==> span.is_none(),
    {
        match self.0.checked_sub(earlier.0) {
            Some(nanos) => Some(SimulationTime::from_nanos(nanos)),
            None => None,
        }
    }

    /// The time from `earlier` to this instant, or the empty span where
    /// `earlier` is in fact the later of the two.
    pub fn saturating_duration_since(&self, earlier: &EmulatedTime) -> (span: SimulationTime)
        ensures
            span@ == if earlier@ <= self@ {
                (self@ - earlier@) as nat
            } else {
                0
            },
    {
        match self.0.checked_sub(earlier.0) {
            Some(nanos) => SimulationTime::from_nanos(nanos),
            None => SimulationTime::zero(),
        }
    }

    /// The instant `span` later, or `None` where it is past the latest
    /// instant.
    pub fn checked_add(&self, span: SimulationTime) -> (t: Option<EmulatedTime>)
        ensures
            self@ + span@ <= u64::MAX ==> t.is_some() && t.unwrap()@ == self@ + span@,
            self@ + span@ > u64::MAX ==> t.is_none(),
    {
        match self.0.checked_add(span.as_nanos()) {
            Some(nanos) => Some(EmulatedTime(nanos)),
            None => None,
        }
    }

    /// The instant `span` earlier, or `None` where it is before the earliest
    /// instant.
    pub fn checked_sub(&self, span: SimulationTime) -> (t: Option<EmulatedTime>)
        ensures
            span@ <= self@ ==> t.is_some() && t.unwrap()@ == self@ - span@,
            span@ > self@ ==> t.is_none(),
    {
        match self.0.checked_sub(span.as_nanos()) {
            Some(nanos) => Some(EmulatedTime(nanos)),
            None => None,
        }
    }

    /// The instant `span` later, or the latest instant where that is earlier.
    pub fn saturating_add(&self, span: SimulationTime) -> (t: EmulatedTime)
        ensures
            t@ == if self@ + span@ <= u64::MAX {
                self@ + span@
            } else {
                u64::MAX as nat
            },
    {
        match self.0.checked_add(span.as_nanos()) {
            Some(nanos) => EmulatedTime(nanos),
            None => EmulatedTime(u64::MAX),
        }
    }

    /// The instant `span` earlier, or the earliest instant where that is
    /// later.
    pub fn saturating_sub(&self, span: SimulationTime) -> (t: EmulatedTime)
        ensures
            t@ == if span@ <= self@ {
                (self@ - span@) as nat
            } else {
                0
            },
    {
        match self.0.checked_sub(span.as_nanos()) {
            Some(nanos) => EmulatedTime(nanos),
            None => EmulatedTime(0),
        }
    }
}

/// The nanoseconds between the Unix epoch and `time`, where there is an
/// instant.
pub open spec fn instant_nanos(time: Option<EmulatedTime>) -> Option<nat> {
    match time {
        Some(t) => Some(t@),
        None => None,
    }
}

} // verus!
