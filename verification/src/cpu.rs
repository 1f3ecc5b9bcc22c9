//! The CPU delay model of a host.
//!
//! Work that a managed program does natively keeps the simulated CPU busy.
//! The model scales that work to the speed of the simulated CPU, adds it to
//! the delay that the CPU owes, and lets simulated time that passes pay the
//! delay off again. An event that arrives while delay is owed is put off by
//! [`Cpu::delay`]:
//!
//! * owed delay at or above the threshold is reported in full;
//! * below the threshold (or with no threshold) it is rounded down to a
//!   multiple of the precision, and what the rounding cuts off stays owed;
//! * with no precision nothing is cut off.
//!
//! Everything here is a function of the configuration and of the calls made:
//! no wall clock is read.

use vstd::prelude::*;
use vstd::arithmetic::div_mod::lemma_fundamental_div_mod;
use vstd::arithmetic::div_mod::lemma_mod_bound;
use crate::time::EmulatedTime;
use crate::time::SimulationTime;
use crate::time::span_length;

verus! {

/// A call that changes a CPU model. Times are in nanoseconds.
pub enum CpuCall {
    /// Native work of this length was done.
    AddDelay(nat),
    /// The model is advanced to this instant.
    UpdateTime(nat),
}

/// What a [`Cpu`] stands for: its configuration and its two counters, as
/// unbounded numbers. Times are in nanoseconds.
pub struct CpuModel {
    /// Speed of the simulated CPU.
    pub simulated_frequency: nat,
    /// Speed of the CPU that the work was measured on.
    pub native_frequency: nat,
    /// Owed delay at or above this is reported in full.
    pub threshold: Option<nat>,
    /// Owed delay below the threshold is reported in multiples of this.
    pub precision: Option<nat>,
    /// The latest instant that the model was advanced to.
    pub last_update_time: nat,
    /// The delay that the CPU owes at that instant.
    pub accumulated_delay: nat,
}

impl CpuModel {
    /// The configurations that a [`Cpu`] can have: the simulated CPU has a
    /// speed, and a precision is a positive span.
    pub open spec fn wf(self) -> bool {
        &&& self.simulated_frequency > 0
        &&& self.precision matches Some(p) ==> p > 0
    }

    /// An idle CPU at the earliest instant.
    pub open spec fn idle(
        simulated_frequency: nat,
        native_frequency: nat,
        threshold: Option<nat>,
        precision: Option<nat>,
    ) -> CpuModel {
        CpuModel {
            simulated_frequency,
            native_frequency,
            threshold,
            precision,
            last_update_time: 0,
            accumulated_delay: 0,
        }
    }

    /// Whether two models are configured alike.
    pub open spec fn same_configuration(self, other: CpuModel) -> bool {
        &&& self.simulated_frequency == other.simulated_frequency
        &&& self.native_frequency == other.native_frequency
        &&& self.threshold == other.threshold
        &&& self.precision == other.precision
    }

    /// The time that the simulated CPU needs for what took the native CPU
    /// `native_nanos`, rounded down to whole nanoseconds.
    pub open spec fn scaled(self, native_nanos: nat) -> nat {
        (native_nanos * self.native_frequency) / self.simulated_frequency
    }

    /// The model after `native_nanos` of native work.
    pub open spec fn add_delay(self, native_nanos: nat) -> CpuModel {
        CpuModel { accumulated_delay: self.accumulated_delay + self.scaled(native_nanos), ..self }
    }

    /// The model advanced to `now`. The time that has passed since the last
    /// update pays off as much of the owed delay. An instant that is not
    /// later than the last update changes nothing.
    pub open spec fn update_time(self, now: nat) -> CpuModel {
        if now <= self.last_update_time {
            self
        } else {
            let elapsed = (now - self.last_update_time) as nat;
            CpuModel {
                last_update_time: now,
                accumulated_delay: if elapsed >= self.accumulated_delay {
                    0
                } else {
                    (self.accumulated_delay - elapsed) as nat
                },
                ..self
            }
        }
    }

    /// The owed delay rounded down to the precision.
    pub open spec fn quantized(self) -> nat {
        match self.precision {
            Some(p) => (self.accumulated_delay - self.accumulated_delay % p) as nat,
            None => self.accumulated_delay,
        }
    }

    /// Whether the owed delay has reached the threshold.
    pub open spec fn over_threshold(self) -> bool {
        self.threshold matches Some(t) && self.accumulated_delay >= t
    }

    /// The delay that an event arriving now is put off by.
    pub open spec fn delay(self) -> nat {
        if self.over_threshold() {
            self.accumulated_delay
        } else {
            self.quantized()
        }
    }

    /// The model after `call`.
    pub open spec fn step(self, call: CpuCall) -> CpuModel {
        match call {
            CpuCall::AddDelay(native_nanos) => self.add_delay(native_nanos),
            CpuCall::UpdateTime(now) => self.update_time(now),
        }
    }

    /// The model after `calls`, made one after the other.
    pub open spec fn run(self, calls: Seq<CpuCall>) -> CpuModel
        decreases calls.len(),
    {
        if calls.len() == 0 {
            self
        } else {
            self.step(calls[0]).run(calls.skip(1))
        }
    }

    /// The delays that are reported in the course of `calls`: one for each
    /// call that advances the model, and in the order of those calls. It is
    /// the delay by which an event that arrives at that instant is put off.
    pub open spec fn reported_delays(self, calls: Seq<CpuCall>) -> Seq<nat>
        decreases calls.len(),
    {
        if calls.len() == 0 {
            Seq::empty()
        } else {
            let next = self.step(calls[0]);
            let rest = next.reported_delays(calls.skip(1));
            match calls[0] {
                CpuCall::AddDelay(_) => rest,
                CpuCall::UpdateTime(_) => seq![next.delay()] + rest,
            }
        }
    }

    /// No call changes how a CPU is configured, and none breaks it.
    pub proof fn lemma_run_keeps_configuration(self, calls: Seq<CpuCall>)
        ensures
            self.same_configuration(self.run(calls)),
            self.wf() ==> self.run(calls).wf(),
        decreases calls.len(),
    {
        if calls.len() > 0 {
            self.step(calls[0]).lemma_run_keeps_configuration(calls.skip(1));
        }
    }

    /// The reported delay is never more than what is owed, and what it leaves
    /// out is less than the precision.
    pub proof fn lemma_delay_bounds(self)
        requires
            self.wf(),
        ensures
            self.delay() <= self.accumulated_delay,
            self.precision matches Some(p) ==> self.accumulated_delay - self.delay() < p,
            self.precision is None ==> self.delay() == self.accumulated_delay,
            self.precision matches Some(p) ==> !self.over_threshold() ==> self.delay() % p == 0,
    {
        if let Some(p) = self.precision {
            let owed = self.accumulated_delay as int;
            lemma_mod_bound(owed, p as int);
            lemma_fundamental_div_mod(owed, p as int);
            assert(owed - owed % (p as int) == (p as int) * (owed / (p as int)));
            vstd::arithmetic::div_mod::lemma_mod_multiples_basic(owed / (p as int), p as int);
            assert(((p as int) * (owed / (p as int))) % (p as int) == 0) by {
                vstd::arithmetic::mul::lemma_mul_is_commutative(p as int, owed / (p as int));
            }
        }
    }

    /// Delay below the precision (and below the threshold) puts nothing off.
    pub proof fn lemma_small_delay_absorbed(self)
        requires
            self.wf(),
            self.precision matches Some(p) && self.accumulated_delay < p,
            !self.over_threshold(),
        ensures
            self.delay() == 0,
    {
        let p = self.precision.unwrap();
        vstd::arithmetic::div_mod::lemma_small_mod(self.accumulated_delay, p);
    }

    /// An event that is put off by the reported delay, and comes up again
    /// exactly then, finds the CPU free: only what the rounding cut off is
    /// still owed, and that puts nothing off.
    pub proof fn lemma_delay_served(self)
        requires
            self.wf(),
        ensures
            self.update_time(self.last_update_time + self.delay()).accumulated_delay
                == self.accumulated_delay - self.delay(),
            self.update_time(self.last_update_time + self.delay()).delay() == 0,
    {
        self.lemma_delay_bounds();
        let later = self.update_time(self.last_update_time + self.delay());
        if self.over_threshold() {
            assert(later.accumulated_delay == 0);
            if let Some(p) = later.precision {
                vstd::arithmetic::div_mod::lemma_small_mod(0, p);
            }
        } else {
            match self.precision {
                Some(p) => {
                    let owed = self.accumulated_delay;
                    lemma_mod_bound(owed as int, p as int);
                    vstd::arithmetic::div_mod::lemma_mod_decreases(owed, p);
                    assert(self.delay() == owed - owed % p);
                    assert(later.accumulated_delay == owed % p);
                    vstd::arithmetic::div_mod::lemma_small_mod(later.accumulated_delay, p);
                },
                None => {
                    assert(later.accumulated_delay == 0);
                },
            }
        }
    }

    /// Two CPUs that are configured alike and start from the same counters
    /// report the same delays for the same calls, and end up alike: what a
    /// CPU reports depends on its configuration and on the calls made to it,
    /// and on nothing else.
    pub proof fn lemma_reported_delays_deterministic(self, other: CpuModel, calls: Seq<CpuCall>)
        requires
            self.same_configuration(other),
            self.last_update_time == other.last_update_time,
            self.accumulated_delay == other.accumulated_delay,
        ensures
            self.reported_delays(calls) == other.reported_delays(calls),
            self.run(calls) == other.run(calls),
    {
    }
}

/// The CPU of one host.
pub struct Cpu {
    simulated_frequency: u64,
    native_frequency: u64,
    threshold: Option<SimulationTime>,
    precision: Option<SimulationTime>,
    last_update_time: EmulatedTime,
    accumulated_delay: SimulationTime,
}

impl View for Cpu {
    type V = CpuModel;

    closed spec fn view(&self) -> CpuModel {
        CpuModel {
            simulated_frequency: self.simulated_frequency as nat,
            native_frequency: self.native_frequency as nat,
            threshold: span_length(self.threshold),
            precision: span_length(self.precision),
            last_update_time: self.last_update_time@,
            accumulated_delay: self.accumulated_delay@,
        }
    }
}

impl Cpu {
    /// What holds of every CPU: its configuration is one that the model
    /// admits.
    #[verifier::type_invariant]
    pub open spec fn well_formed(&self) -> bool {
        self@.wf()
    }

    /// The numbers of a CPU fit in 64 bits.
    pub proof fn lemma_view_bounded(&self)
        ensures
            self@.simulated_frequency <= u64::MAX,
            self@.native_frequency <= u64::MAX,
            self@.last_update_time <= u64::MAX,
            self@.accumulated_delay <= u64::MAX,
            self@.threshold matches Some(t) ==> t <= u64::MAX,
            self@.precision matches Some(p) ==> p <= u64::MAX,
    {
        self.last_update_time.lemma_view_bounded();
        self.accumulated_delay.lemma_view_bounded();
        if let Some(t) = self.threshold {
            t.lemma_view_bounded();
        }
        if let Some(p) = self.precision {
            p.lemma_view_bounded();
        }
    }

    /// An idle CPU at the earliest instant.
    ///
    /// `simulated_frequency` is the speed of the simulated CPU and
    /// `native_frequency` that of the machine that the work is measured on,
    /// in the same unit. `threshold` and `precision` shape the reported delay
    /// as the module describes.
    pub fn new(
        simulated_frequency: u64,
        native_frequency: u64,
        threshold: Option<SimulationTime>,
        precision: Option<SimulationTime>,
    ) -> (cpu: Cpu)
        requires
            simulated_frequency > 0,
            precision matches Some(p) ==> p@ > 0,
        ensures
            cpu@ == CpuModel::idle(
                simulated_frequency as nat,
                native_frequency as nat,
                span_length(threshold),
                span_length(precision),
            ),
    {
        Cpu {
            simulated_frequency,
            native_frequency,
            threshold,
            precision,
            last_update_time: EmulatedTime::minimum(),
            accumulated_delay: SimulationTime::zero(),
        }
    }

    /// Advances the model to `now`.
    pub fn update_time(&mut self, now: EmulatedTime)
        ensures
            final(self)@ == old(self)@.update_time(now@),
    {
        proof {
            use_type_invariant(&*self);
        }
        if now.as_nanos_since_epoch() > self.last_update_time.as_nanos_since_epoch() {
            let elapsed = now.duration_since(&self.last_update_time);
            self.accumulated_delay = self.accumulated_delay.saturating_sub(elapsed);
            self.last_update_time = now;
        }
    }

    /// Accounts for `native_nanos` nanoseconds of native work, where the
    /// owed delay can still be represented afterwards; otherwise changes
    /// nothing. Returns whether the work was accounted for.
    pub fn checked_add_delay(&mut self, native_nanos: u64) -> (added: bool)
        ensures
            added == (old(self)@.add_delay(native_nanos as nat).accumulated_delay <= u64::MAX),
            added ==> final(self)@ == old(self)@.add_delay(native_nanos as nat),
            !added ==> final(self)@ == old(self)@,
    {
        proof {
            use_type_invariant(&*self);
            self.accumulated_delay.lemma_view_bounded();
        }
        let cycles: u128 = scale_up(native_nanos, self.native_frequency);
        let scaled: u128 = cycles / (self.simulated_frequency as u128);
        assert(scaled == self@.scaled(native_nanos as nat));
        if scaled > (u64::MAX as u128) {
            return false;
        }
        match self.accumulated_delay.checked_add(SimulationTime::from_nanos(scaled as u64)) {
            Some(owed) => {
                self.accumulated_delay = owed;
                true
            },
            None => false,
        }
    }

    /// Accounts for `native_nanos` nanoseconds of native work.
    pub fn add_delay(&mut self, native_nanos: u64)
        requires
            old(self)@.add_delay(native_nanos as nat).accumulated_delay <= u64::MAX,
        ensures
            final(self)@ == old(self)@.add_delay(native_nanos as nat),
    {
        let _ = self.checked_add_delay(native_nanos);
    }

    /// The delay that an event arriving now is put off by.
    pub fn delay(&self) -> (delay: SimulationTime)
        ensures
            delay@ == self@.delay(),
    {
        proof {
            use_type_invariant(self);
        }
        let owed = self.accumulated_delay;
        let in_full = match self.threshold {
            Some(t) => owed.as_nanos() >= t.as_nanos(),
            None => false,
        };
        if in_full {
            owed
        } else {
            match self.precision {
                Some(p) => {
                    let carry: u64 = owed.as_nanos() % p.as_nanos();
                    proof {
                        vstd::arithmetic::div_mod::lemma_mod_decreases(owed@, p@);
                    }
                    SimulationTime::from_nanos(owed.as_nanos() - carry)
                },
                None => owed,
            }
        }
    }

    /// The delay that the CPU owes, none of it cut off.
    pub fn accumulated_delay(&self) -> (owed: SimulationTime)
        ensures
            owed@ == self@.accumulated_delay,
    {
        self.accumulated_delay
    }

    /// The latest instant that the model was advanced to.
    pub fn last_update_time(&self) -> (t: EmulatedTime)
        ensures
            t@ == self@.last_update_time,
    {
        self.last_update_time
    }
}

/// The product of two 64-bit numbers, which always fits in 128 bits.
fn scale_up(a: u64, b: u64) -> (product: u128)
    ensures
        product == a * b,
{
    assert(a * b <= 0xffff_ffff_ffff_ffff * 0xffff_ffff_ffff_ffff) by (nonlinear_arith)
        requires
            a <= 0xffff_ffff_ffff_ffff,
            b <= 0xffff_ffff_ffff_ffff,
    ;
    (a as u128) * (b as u128)
}

} // verus!
