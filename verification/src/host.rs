//! The host: one simulated machine, with its queue of events, its CPU, its
//! counters and the memory that it shares with its managed programs.

use std::sync::Arc;
use rand_xoshiro::Xoshiro256PlusPlus;
use vstd::prelude::*;
use crate::counter::Counter;
use crate::cpu::Cpu;
use crate::event::Event;
use crate::event::event_model;
use crate::event_queue::EventQueue;
use crate::host_model::backlog;
use crate::host_model::HostCounter;
use crate::host_model::HostModel;
use crate::ids::HostId;
use crate::ids::ProcessId;
use crate::params::chosen_log_level;
use crate::params::HostInfo;
use crate::params::HostParameters;
use crate::params::LogLevel;
use crate::params::FIRST_PACKET_PRIORITY;
use crate::params::FIRST_PROCESS_ID;
use crate::rng::drawn_bytes;
use crate::rng::fill_bytes;
use crate::rng::generator_state;
use crate::rng::seed_from_u64;
use crate::shmem::HostShmem;
use crate::shmem::ShmemGuard;
use crate::time::instant_nanos;
use crate::time::EmulatedTime;
use crate::time::SimulationTime;
use crate::tracker::Tracker;

verus! {

/// A simulated host. `T` is the type of the tasks that it runs.
pub struct Host<T> {
    info: Arc<HostInfo>,
    event_queue: EventQueue<T>,
    random: Xoshiro256PlusPlus,
    tracker: Option<Tracker>,
    /// What the host was made from.
    pub params: HostParameters,
    cpu: Cpu,
    process_id_counter: Counter,
    event_id_counter: Counter,
    packet_id_counter: Counter,
    determinism_sequence_counter: Counter,
    packet_priority_counter: Counter,
    shim_shmem_lock: Option<ShmemGuard>,
    shim_shmem: HostShmem,
    current_time: Option<EmulatedTime>,
}

impl<T> View for Host<T> {
    type V = HostModel<T>;

    closed spec fn view(&self) -> HostModel<T> {
        HostModel {
            params: self.params,
            info: *self.info,
            event_queue: self.event_queue@,
            random: generator_state(self.random),
            tracker: match self.tracker {
                Some(tracker) => Some(tracker@),
                None => None,
            },
            cpu: self.cpu@,
            process_id_counter: self.process_id_counter@,
            event_id_counter: self.event_id_counter@,
            packet_id_counter: self.packet_id_counter@,
            determinism_sequence_counter: self.determinism_sequence_counter@,
            packet_priority_counter: self.packet_priority_counter@,
            shim_shmem_lock: match self.shim_shmem_lock {
                Some(guard) => Some(guard@),
                None => None,
            },
            shim_shmem: self.shim_shmem@,
            current_time: match self.current_time {
                Some(time) => Some(time@),
                None => None,
            },
        }
    }
}

impl<T> Host<T> {
    /// A host made from `params`, on a machine whose CPU runs at
    /// `raw_cpu_freq_khz`. Nothing is queued, the CPU is idle, no tracker is
    /// kept yet, the shared memory is not locked, and no task is running.
    ///
    /// The simulated CPU must have a speed, and a precision must be a
    /// positive span: delays are divided by both.
    pub fn new(params: HostParameters, raw_cpu_freq_khz: u64) -> (host: Host<T>)
        requires
            params.cpu_frequency > 0,
            params.cpu_precision matches Some(p) ==> p@ > 0,
        ensures
            host@.wf(),
            host@.launched(params, raw_cpu_freq_khz),
    {
        let info = Arc::new(
            HostInfo {
                id: params.id,
                name: params.hostname.clone(),
                default_ip: params.ip_addr,
                log_level: match params.log_level {
                    LogLevel::Unset => None,
                    level => Some(level),
                },
            },
        );
        let random = seed_from_u64(params.node_seed);
        let cpu = Cpu::new(
            params.cpu_frequency,
            raw_cpu_freq_khz,
            params.cpu_threshold,
            params.cpu_precision,
        );
        let shim_shmem = HostShmem::new(
            params.id,
            params.model_unblocked_syscall_latency,
            params.max_unapplied_cpu_latency,
            params.unblocked_syscall_latency,
            params.unblocked_vdso_latency,
        );
        Host {
            info,
            event_queue: EventQueue::new(),
            random,
            tracker: None,
            params,
            cpu,
            process_id_counter: Counter::new(FIRST_PROCESS_ID as u64, u32::MAX as u64),
            event_id_counter: Counter::new(0, u64::MAX),
            packet_id_counter: Counter::new(0, u64::MAX),
            determinism_sequence_counter: Counter::new(0, u64::MAX),
            packet_priority_counter: Counter::new(FIRST_PACKET_PRIORITY, u64::MAX),
            shim_shmem_lock: None,
            shim_shmem,
            current_time: None,
        }
    }

    /// What does not change about the host.
    pub fn info(&self) -> (info: &Arc<HostInfo>)
        ensures
            **info == self@.info,
    {
        &self.info
    }

    /// The number of the host.
    pub fn id(&self) -> (id: HostId)
        ensures
            id == self@.params.id,
    {
        self.params.id
    }

    /// The name of the host.
    pub fn name(&self) -> (name: &str)
        ensures
            name@ == self@.info.name@,
    {
        self.info.name.as_str()
    }

    /// The host's IPv4 address as a number, its first octet in the most
    /// significant place.
    pub fn default_ip(&self) -> (ip: u32)
        ensures
            ip == self@.params.ip_addr,
    {
        self.params.ip_addr
    }

    /// How much the host logs, where that was chosen for this host.
    pub fn log_level(&self) -> (level: Option<LogLevel>)
        ensures
            level == chosen_log_level(self@.params.log_level),
    {
        match self.params.log_level {
            LogLevel::Unset => None,
            level => Some(level),
        }
    }

    /// The upstream bandwidth of the host, in KiB per second.
    #[allow(non_snake_case)]
    pub fn bw_up_kiBps(&self) -> (bandwidth: u64)
        ensures
            bandwidth == self@.params.requested_bw_up_bits / 8192,
    {
        self.params.requested_bw_up_bits / (8 * 1024)
    }

    /// The downstream bandwidth of the host, in KiB per second.
    #[allow(non_snake_case)]
    pub fn bw_down_kiBps(&self) -> (bandwidth: u64)
        ensures
            bandwidth == self@.params.requested_bw_down_bits / 8192,
    {
        self.params.requested_bw_down_bits / (8 * 1024)
    }

    /// The host's tracker, if it keeps one.
    pub fn tracker_mut(&mut self) -> (tracker: Option<&mut Tracker>)
        ensures
            match tracker {
                Some(t) => {
                    &&& old(self)@.tracker == Some(t@)
                    &&& final(self)@ == (HostModel {
                        tracker: Some(final(t)@),
                        ..old(self)@
                    })
                },
                None => old(self)@.tracker is None && final(self)@ == old(self)@,
            },
    {
        self.tracker.as_mut()
    }

    /// The host's random number generator.
    pub fn random_mut(&mut self) -> (rng: &mut Xoshiro256PlusPlus)
        ensures
            generator_state(*rng) == old(self)@.random,
            final(self)@ == (HostModel { random: generator_state(*final(rng)), ..old(self)@ }),
    {
        &mut self.random
    }

    /// Fills `buf` with bytes from the host's random number generator.
    pub fn rng_next_n_bytes(&mut self, buf: &mut Vec<u8>)
        ensures
            final(buf)@ == drawn_bytes(old(self)@.random, old(buf)@.len()).0,
            final(buf)@.len() == old(buf)@.len(),
            final(self)@ == (HostModel {
                random: drawn_bytes(old(self)@.random, old(buf)@.len()).1,
                ..old(self)@
            }),
            old(self)@.wf() ==> final(self)@.wf(),
    {
        fill_bytes(&mut self.random, buf);
    }

    /// The source of the sequence numbers of the host's events.
    pub fn event_id_counter(&self) -> (counter: Counter)
        ensures
            counter@ == self@.event_id_counter,
    {
        self.event_id_counter
    }

    /// The source of the numbers of the host's processes.
    pub fn process_id_counter(&self) -> (counter: Counter)
        ensures
            counter@ == self@.process_id_counter,
    {
        self.process_id_counter
    }

    /// The source of the numbers of the host's packets.
    pub fn packet_id_counter(&self) -> (counter: Counter)
        ensures
            counter@ == self@.packet_id_counter,
    {
        self.packet_id_counter
    }

    /// The source of the numbers by which things are put in the order in
    /// which they were made.
    pub fn determinism_sequence_counter(&self) -> (counter: Counter)
        ensures
            counter@ == self@.determinism_sequence_counter,
    {
        self.determinism_sequence_counter
    }

    /// The source of the priorities of the host's packets.
    pub fn packet_priority_counter(&self) -> (counter: Counter)
        ensures
            counter@ == self@.packet_priority_counter,
    {
        self.packet_priority_counter
    }

    /// Hands out the sequence number of the host's next event.
    pub fn get_new_event_id(&mut self) -> (id: u64)
        requires
            !old(self)@.event_id_counter.exhausted(),
        ensures
            id == old(self)@.event_id_counter.next,
            final(self)@ == old(self)@.take(HostCounter::EventId),
            old(self)@.wf() ==> final(self)@.wf(),
    {
        self.event_id_counter.next()
    }

    /// Hands out the number of the host's next process.
    pub fn get_new_process_id(&mut self) -> (id: ProcessId)
        requires
            old(self)@.wf(),
            !old(self)@.process_id_counter.exhausted(),
        ensures
            id@ == old(self)@.process_id_counter.next,
            final(self)@ == old(self)@.take(HostCounter::ProcessId),
            final(self)@.wf(),
    {
        let id: u64 = self.process_id_counter.next();
        ProcessId::new(id as u32)
    }

    /// Hands out the number of the host's next packet.
    pub fn get_new_packet_id(&mut self) -> (id: u64)
        requires
            !old(self)@.packet_id_counter.exhausted(),
        ensures
            id == old(self)@.packet_id_counter.next,
            final(self)@ == old(self)@.take(HostCounter::PacketId),
            old(self)@.wf() ==> final(self)@.wf(),
    {
        self.packet_id_counter.next()
    }

    /// Hands out the next of the numbers by which things are put in the
    /// order in which they were made.
    pub fn get_next_deterministic_sequence_value(&mut self) -> (value: u64)
        requires
            !old(self)@.determinism_sequence_counter.exhausted(),
        ensures
            value == old(self)@.determinism_sequence_counter.next,
            final(self)@ == old(self)@.take(HostCounter::DeterminismSequence),
            old(self)@.wf() ==> final(self)@.wf(),
    {
        self.determinism_sequence_counter.next()
    }

    /// Hands out the priority of the host's next packet.
    pub fn get_next_packet_priority(&mut self) -> (priority: u64)
        requires
            !old(self)@.packet_priority_counter.exhausted(),
        ensures
            priority == old(self)@.packet_priority_counter.next,
            final(self)@ == old(self)@.take(HostCounter::PacketPriority),
            old(self)@.wf() ==> final(self)@.wf(),
    {
        self.packet_priority_counter.next()
    }

    /// Schedules `task` to run on this host at `time`. Returns whether the
    /// host took the event: it does not where the simulation has ended by
    /// `time`. The event takes a sequence number either way.
    pub fn schedule_task_at_emulated_time(&mut self, task: T, time: EmulatedTime) -> (taken: bool)
        requires
            !old(self)@.event_id_counter.exhausted(),
        ensures
            taken == old(self)@.accepts(time@),
            final(self)@ == old(self)@.schedule_task_at_emulated_time(task, time@),
            old(self)@.wf() ==> final(self)@.wf(),
    {
        let sequence = self.get_new_event_id();
        let event = Event::new(task, time, self.params.id, sequence);
        self.push_local_event(event)
    }

    /// Schedules `task` to run on this host `delay` after the instant of the
    /// task that is running. Returns whether the host took the event.
    pub fn schedule_task_with_delay(&mut self, task: T, delay: SimulationTime) -> (taken: bool)
        requires
            old(self)@.current_time is Some,
            !old(self)@.event_id_counter.exhausted(),
        ensures
            taken == old(self)@.accepts(old(self)@.current_time.unwrap() + delay@),
            final(self)@ == old(self)@.schedule_task_at_emulated_time(
                task,
                old(self)@.current_time.unwrap() + delay@,
            ),
            old(self)@.wf() ==> final(self)@.wf(),
    {
        let now = self.current_time.unwrap();
        match now.checked_add(delay) {
            Some(time) => self.schedule_task_at_emulated_time(task, time),
            None => {
                // The instant is later than any at which a simulation ends:
                // the event is made and dropped.
                proof {
                    self.params.sim_end_time.lemma_view_bounded();
                }
                let _ = self.get_new_event_id();
                false
            },
        }
    }

    /// The events that the host still has to run.
    pub fn event_queue(&self) -> (queue: &EventQueue<T>)
        ensures
            queue@ == self@.event_queue,
    {
        &self.event_queue
    }

    /// Hands `event` to the host. Returns whether the host took it: it does
    /// not, and stays as it is, where the simulation has ended by the time
    /// of the event.
    pub fn push_local_event(&mut self, event: Event<T>) -> (taken: bool)
        ensures
            taken == old(self)@.accepts(event@.time),
            final(self)@ == old(self)@.push_local_event(event@),
            old(self)@.wf() ==> final(self)@.wf(),
    {
        proof {
            if old(self)@.wf() {
                old(self)@.lemma_push_local_event_wf(event@);
            }
        }
        if event.time().as_nanos_since_epoch() >= self.params.sim_end_time.as_nanos_since_epoch() {
            return false;
        }
        self.event_queue.push(event);
        true
    }

    /// Starts the host: from now on it keeps a tracker, where a heartbeat
    /// interval was chosen for it.
    pub fn boot(&mut self)
        ensures
            final(self)@ == old(self)@.boot(),
            old(self)@.wf() ==> final(self)@.wf(),
    {
        if let Some(heartbeat_interval) = self.params.heartbeat_interval {
            self.tracker = Some(
                Tracker::new(
                    heartbeat_interval,
                    self.params.heartbeat_log_level,
                    self.params.heartbeat_log_info,
                ),
            );
        }
    }

    /// The time of the next event, or `None` where nothing is queued.
    pub fn next_event_time(&self) -> (time: Option<EmulatedTime>)
        ensures
            instant_nanos(time) == self@.next_event_time(),
    {
        self.event_queue.next_event_time()
    }

    /// The instant of the task that the host is running, while it runs one.
    pub fn current_time(&self) -> (time: Option<EmulatedTime>)
        ensures
            instant_nanos(time) == self@.current_time,
    {
        self.current_time
    }

    /// Runs the host up to `until`, or up to the next task that is ready to
    /// run.
    ///
    /// The events that are due before `until` are taken up in their order.
    /// An event that finds the CPU busy is put off by the delay that the CPU
    /// reports: the tracker, if the host keeps one, is told of the delay, and
    /// the event is handed to the host again, that much later. The first
    /// event that finds the CPU free is returned: its task is ready to run,
    /// and its time is the host's current time until `execute` is called
    /// again. `None` is returned where nothing more is due before `until`;
    /// the host then has no current time.
    ///
    /// To run the host up to `until`, call `execute` and run the task of the
    /// event that it returns, until it returns `None`.
    pub fn execute(&mut self, until: EmulatedTime) -> (next: Option<Event<T>>)
        ensures
            final(self)@ == old(self)@.execute(until@).0,
            event_model(next) == old(self)@.execute(until@).1,
            old(self)@.wf() ==> final(self)@.wf(),
    {
        proof {
            if old(self)@.wf() {
                old(self)@.lemma_execute_wf(until@);
            }
        }
        loop
            invariant
                self@.execute(until@) == old(self)@.execute(until@),
                old(self)@.wf() ==> old(self)@.execute(until@).0.wf(),
            decreases backlog(self@.event_queue, until@),
        {
            let due = match self.event_queue.next_event_time() {
                Some(time) => time.as_nanos_since_epoch() < until.as_nanos_since_epoch(),
                None => false,
            };
            if !due {
                self.current_time = None;
                return None;
            }
            let ghost before = self@;
            let mut event = self.event_queue.pop().unwrap();
            self.cpu.update_time(event.time());
            let cpu_delay = self.cpu.delay();
            if !cpu_delay.is_positive() {
                self.current_time = Some(event.time());
                return Some(event);
            }
            match &mut self.tracker {
                Some(tracker) => tracker.add_virtual_processing_delay(cpu_delay),
                None => {},
            }
            match event.time().checked_add(cpu_delay) {
                Some(later) => {
                    event.set_time(later);
                    self.push_local_event(event);
                },
                None => {
                    // The instant is later than any at which a simulation
                    // ends: the event is dropped.
                    proof {
                        self.params.sim_end_time.lemma_view_bounded();
                    }
                },
            }
            proof {
                before.lemma_put_off_shrinks_backlog(until@);
                assert(self@ == before.put_off());
            }
        }
    }

    /// Accounts for `delay_nanos` nanoseconds that a managed program has
    /// kept the native CPU busy.
    pub fn add_delay_nanos(&mut self, delay_nanos: u64)
        requires
            old(self)@.cpu.add_delay(delay_nanos as nat).accumulated_delay <= u64::MAX,
        ensures
            final(self)@ == (HostModel {
                cpu: old(self)@.cpu.add_delay(delay_nanos as nat),
                ..old(self)@
            }),
            old(self)@.wf() ==> final(self)@.wf(),
    {
        self.cpu.add_delay(delay_nanos);
    }

    /// Accounts for `delay_nanos` nanoseconds that a managed program has
    /// kept the native CPU busy, where the delay that the CPU owes can
    /// still be represented afterwards; otherwise changes nothing. Returns
    /// whether the time was accounted for.
    pub fn checked_add_delay_nanos(&mut self, delay_nanos: u64) -> (added: bool)
        ensures
            added == (old(self)@.cpu.add_delay(delay_nanos as nat).accumulated_delay <= u64::MAX),
            added ==> final(self)@ == (HostModel {
                cpu: old(self)@.cpu.add_delay(delay_nanos as nat),
                ..old(self)@
            }),
            !added ==> final(self)@ == old(self)@,
            old(self)@.wf() ==> final(self)@.wf(),
    {
        self.cpu.checked_add_delay(delay_nanos)
    }

    /// The host's CPU.
    pub fn cpu(&self) -> (cpu: &Cpu)
        ensures
            cpu@ == self@.cpu,
    {
        &self.cpu
    }

    /// The memory that the host shares with its managed programs.
    pub fn shim_shmem(&self) -> (block: &HostShmem)
        ensures
            block@ == self@.shim_shmem,
    {
        &self.shim_shmem
    }

    /// Whether the host holds the guard of its shared memory.
    pub fn shmem_lock_held(&self) -> (held: bool)
        ensures
            held == (self@.shim_shmem_lock is Some),
    {
        self.shim_shmem_lock.is_some()
    }

    /// Locks the host's shared memory and keeps the guard. The host must not
    /// hold the guard already.
    pub fn lock_shmem(&mut self)
        requires
            old(self)@.wf(),
            old(self)@.shim_shmem_lock is None,
        ensures
            final(self)@ == old(self)@.lock_shmem(),
            final(self)@.shim_shmem_lock is Some,
            final(self)@.wf(),
    {
        let guard = self.shim_shmem.lock();
        self.shim_shmem_lock = Some(guard);
    }

    /// Gives the guard back and unlocks the host's shared memory. The host
    /// must hold the guard.
    pub fn unlock_shmem(&mut self)
        requires
            old(self)@.wf(),
            old(self)@.shim_shmem_lock is Some,
        ensures
            final(self)@ == old(self)@.unlock_shmem(),
            final(self)@.shim_shmem_lock is None,
            final(self)@.wf(),
    {
        let guard = self.shim_shmem_lock.take().unwrap();
        self.shim_shmem.unlock(guard);
    }

    /// The guard of the shared memory, while the host holds it. The
    /// protected part of the memory is reached through it.
    pub fn shim_shmem_lock_mut(&mut self) -> (guard: Option<&mut ShmemGuard>)
        ensures
            match guard {
                Some(g) => {
                    &&& old(self)@.shim_shmem_lock == Some(g@)
                    &&& final(self)@ == (HostModel {
                        shim_shmem_lock: Some(final(g)@),
                        ..old(self)@
                    })
                },
                None => old(self)@.shim_shmem_lock is None && final(self)@ == old(self)@,
            },
    {
        self.shim_shmem_lock.as_mut()
    }

    /// Ends the host. The host must not hold the guard of its shared memory:
    /// the memory goes with the host, and the guard would outlive it.
    pub fn drop(self)
        requires
            self@.shim_shmem_lock is None,
    {
    }
}

} // verus!
