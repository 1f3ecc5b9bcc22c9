//! What a host stands for, and what its operations do to it, as mathematics.
//!
//! [`HostModel`] is the view of a [`Host`](crate::host::Host). The functions
//! on it say what the host's operations compute; the host's own contracts
//! refer to them. The lemmas at the end state what follows for every host.

use vstd::prelude::*;
use crate::counter::CounterModel;
use crate::cpu::CpuModel;
use crate::event::EventModel;
use crate::event_queue::inserted;
use crate::event_queue::lemma_front_is_earliest;
use crate::event_queue::lemma_insertion_point_bounded;
use crate::event_queue::lemma_inserted_sorted;
use crate::event_queue::insertion_point;
use crate::event_queue::next_time;
use crate::event_queue::sorted;
use crate::rng::seeded_state;
use crate::shmem::HostShmemModel;
use crate::shmem::ShmemGuardModel;
use crate::time::span_length;
use crate::params::chosen_log_level;
use crate::params::HostInfo;
use crate::params::HostParameters;
use crate::params::FIRST_PACKET_PRIORITY;
use crate::params::FIRST_PROCESS_ID;
use crate::tracker::TrackerModel;

verus! {

/// How long an event timed for `time` has to wait for `until`, in
/// nanoseconds; nothing if it is not timed before `until`.
pub open spec fn wait(time: nat, until: nat) -> nat {
    if time < until {
        (until - time) as nat
    } else {
        0
    }
}

/// The time that the events of `queue` have to wait for `until`, taken
/// together.
pub open spec fn backlog<T>(queue: Seq<EventModel<T>>, until: nat) -> nat
    decreases queue.len(),
{
    if queue.len() == 0 {
        0
    } else {
        backlog(queue.drop_last(), until) + wait(queue.last().time, until)
    }
}

/// An event that joins a queue adds its own wait to the backlog, wherever
/// it goes.
pub proof fn lemma_backlog_insert<T>(
    queue: Seq<EventModel<T>>,
    index: int,
    event: EventModel<T>,
    until: nat,
)
    requires
        0 <= index <= queue.len(),
    ensures
        backlog(queue.insert(index, event), until) == backlog(queue, until) + wait(
            event.time,
            until,
        ),
    decreases queue.len(),
{
    let longer = queue.insert(index, event);
    if index == queue.len() {
        assert(longer.drop_last() =~= queue);
    } else {
        assert(longer.drop_last() =~= queue.drop_last().insert(index, event));
        assert(longer.last() == queue.last());
        lemma_backlog_insert(queue.drop_last(), index, event, until);
    }
}

/// The event that leaves a queue at its front takes its own wait out of the
/// backlog.
pub proof fn lemma_backlog_skip<T>(queue: Seq<EventModel<T>>, until: nat)
    requires
        queue.len() > 0,
    ensures
        backlog(queue, until) == backlog(queue.skip(1), until) + wait(queue[0].time, until),
{
    assert(queue.skip(1).insert(0, queue[0]) =~= queue);
    lemma_backlog_insert(queue.skip(1), 0, queue[0], until);
}

/// The counters of a host.
pub enum HostCounter {
    /// The source of the numbers of the host's processes.
    ProcessId,
    /// The source of the sequence numbers of the host's events.
    EventId,
    /// The source of the numbers of the host's packets.
    PacketId,
    /// The source of the numbers by which things are put in the order in
    /// which they were made.
    DeterminismSequence,
    /// The source of the priorities of the host's packets.
    PacketPriority,
}

/// The state of a host. Times are in nanoseconds since the Unix epoch.
pub struct HostModel<T> {
    /// What the host was made from.
    pub params: HostParameters,
    /// What does not change about the host.
    pub info: HostInfo,
    /// The events that the host still has to run, the next one first.
    pub event_queue: Seq<EventModel<T>>,
    /// The state of the random number generator.
    pub random: Seq<u64>,
    /// The host's tracker, if it keeps one.
    pub tracker: Option<TrackerModel>,
    /// The host's CPU.
    pub cpu: CpuModel,
    /// The source of the numbers of the host's processes.
    pub process_id_counter: CounterModel,
    /// The source of the sequence numbers of the host's events.
    pub event_id_counter: CounterModel,
    /// The source of the numbers of the host's packets.
    pub packet_id_counter: CounterModel,
    /// The source of the numbers by which things are put in the order in
    /// which they were made.
    pub determinism_sequence_counter: CounterModel,
    /// The source of the priorities of the host's packets.
    pub packet_priority_counter: CounterModel,
    /// The guard of the shared memory, while the host holds it.
    pub shim_shmem_lock: Option<ShmemGuardModel>,
    /// The memory that the host shares with its managed programs.
    pub shim_shmem: HostShmemModel,
    /// The instant of the task that the host is running, while it runs one.
    pub current_time: Option<nat>,
}

impl<T> HostModel<T> {
    /// What holds of every host between two operations.
    pub open spec fn wf(self) -> bool {
        &&& sorted(self.event_queue)
        &&& self.cpu.wf()
        &&& self.info.id == self.params.id
        &&& self.info.name@ == self.params.hostname@
        &&& self.info.default_ip == self.params.ip_addr
        &&& self.info.log_level == chosen_log_level(self.params.log_level)
        &&& self.process_id_counter.ceiling <= u32::MAX
        &&& self.shim_shmem.host_id == self.params.id@
        &&& match self.shim_shmem_lock {
            Some(guard) => guard.guards(self.shim_shmem),
            None => !self.shim_shmem.is_locked(),
        }
    }

    /// Whether this is a host that was just made from `params`, on a machine
    /// whose CPU runs at `raw_cpu_freq_khz`.
    pub open spec fn launched(self, params: HostParameters, raw_cpu_freq_khz: u64) -> bool {
        &&& self.params == params
        &&& self.event_queue == Seq::<EventModel<T>>::empty()
        &&& self.random == seeded_state(params.node_seed)
        &&& self.tracker is None
        &&& self.cpu == CpuModel::idle(
            params.cpu_frequency as nat,
            raw_cpu_freq_khz as nat,
            span_length(params.cpu_threshold),
            span_length(params.cpu_precision),
        )
        &&& self.process_id_counter == (CounterModel {
            next: FIRST_PROCESS_ID as nat,
            ceiling: u32::MAX as nat,
        })
        &&& self.event_id_counter == (CounterModel { next: 0, ceiling: u64::MAX as nat })
        &&& self.packet_id_counter == (CounterModel { next: 0, ceiling: u64::MAX as nat })
        &&& self.determinism_sequence_counter == (CounterModel {
            next: 0,
            ceiling: u64::MAX as nat,
        })
        &&& self.packet_priority_counter == (CounterModel {
            next: FIRST_PACKET_PRIORITY as nat,
            ceiling: u64::MAX as nat,
        })
        &&& self.shim_shmem_lock is None
        &&& self.shim_shmem == HostShmemModel::fresh(
            params.id@,
            params.model_unblocked_syscall_latency,
            params.max_unapplied_cpu_latency@,
            params.unblocked_syscall_latency@,
            params.unblocked_vdso_latency@,
        )
        &&& self.current_time is None
    }

    /// The counter `which` of the host.
    pub open spec fn counter(self, which: HostCounter) -> CounterModel {
        match which {
            HostCounter::ProcessId => self.process_id_counter,
            HostCounter::EventId => self.event_id_counter,
            HostCounter::PacketId => self.packet_id_counter,
            HostCounter::DeterminismSequence => self.determinism_sequence_counter,
            HostCounter::PacketPriority => self.packet_priority_counter,
        }
    }

    /// The host after the counter `which` has handed out a number.
    pub open spec fn take(self, which: HostCounter) -> HostModel<T> {
        match which {
            HostCounter::ProcessId => HostModel {
                process_id_counter: self.process_id_counter.advanced(1),
                ..self
            },
            HostCounter::EventId => HostModel {
                event_id_counter: self.event_id_counter.advanced(1),
                ..self
            },
            HostCounter::PacketId => HostModel {
                packet_id_counter: self.packet_id_counter.advanced(1),
                ..self
            },
            HostCounter::DeterminismSequence => HostModel {
                determinism_sequence_counter: self.determinism_sequence_counter.advanced(1),
                ..self
            },
            HostCounter::PacketPriority => HostModel {
                packet_priority_counter: self.packet_priority_counter.advanced(1),
                ..self
            },
        }
    }

    /// The host after its counters have handed out a number each time they
    /// were called, in the order of `calls`.
    pub open spec fn take_all(self, calls: Seq<HostCounter>) -> HostModel<T>
        decreases calls.len(),
    {
        if calls.len() == 0 {
            self
        } else {
            self.take_all(calls.drop_last()).take(calls.last())
        }
    }

    /// The numbers that the counter `which` hands out in the course of
    /// `calls`, in the order in which it hands them out.
    pub open spec fn handed_out(self, calls: Seq<HostCounter>, which: HostCounter) -> Seq<nat>
        decreases calls.len(),
    {
        if calls.len() == 0 {
            Seq::empty()
        } else if calls.last() == which {
            self.handed_out(calls.drop_last(), which).push(
                self.take_all(calls.drop_last()).counter(which).next,
            )
        } else {
            self.handed_out(calls.drop_last(), which)
        }
    }

    /// The instant at which the simulation ends.
    pub open spec fn sim_end_time(self) -> nat {
        self.params.sim_end_time@
    }

    /// Whether the host takes an event timed for `time`: it does where the
    /// simulation has not ended by then.
    pub open spec fn accepts(self, time: nat) -> bool {
        time < self.sim_end_time()
    }

    /// The host after `event` was handed to it: the event is queued where
    /// the host takes it, and dropped where it does not.
    pub open spec fn push_local_event(self, event: EventModel<T>) -> HostModel<T> {
        if self.accepts(event.time) {
            HostModel { event_queue: inserted(self.event_queue, event), ..self }
        } else {
            self
        }
    }

    /// The event that a task scheduled now for `time` becomes.
    pub open spec fn new_event(self, task: T, time: nat) -> EventModel<T> {
        EventModel {
            task,
            time,
            destination_host_id: self.params.id@,
            sequence: self.event_id_counter.next,
        }
    }

    /// The host after `task` was scheduled for `time`. The event takes a
    /// sequence number whether or not the host takes the event.
    pub open spec fn schedule_task_at_emulated_time(self, task: T, time: nat) -> HostModel<T> {
        self.take(HostCounter::EventId).push_local_event(self.new_event(task, time))
    }

    /// The host after it was started: it keeps a new tracker where a
    /// heartbeat interval was chosen for it, and is as before where none
    /// was.
    pub open spec fn boot(self) -> HostModel<T> {
        match self.params.heartbeat_interval {
            Some(interval) => HostModel {
                tracker: Some(
                    TrackerModel {
                        heartbeat_interval: interval@,
                        heartbeat_log_level: self.params.heartbeat_log_level,
                        heartbeat_log_info: self.params.heartbeat_log_info,
                        processing_delays: Seq::empty(),
                    },
                ),
                ..self
            },
            None => self,
        }
    }

    /// The host after it has locked its shared memory and keeps the guard.
    pub open spec fn lock_shmem(self) -> HostModel<T>
        recommends
            self.shim_shmem_lock is None,
            !self.shim_shmem.is_locked(),
    {
        HostModel {
            shim_shmem_lock: Some(
                ShmemGuardModel {
                    host_id: self.shim_shmem.host_id,
                    protected: self.shim_shmem.protected.unwrap(),
                },
            ),
            shim_shmem: self.shim_shmem.locked(),
            ..self
        }
    }

    /// The host after it has given the guard back and unlocked its shared
    /// memory.
    pub open spec fn unlock_shmem(self) -> HostModel<T>
        recommends
            self.shim_shmem_lock is Some,
    {
        HostModel {
            shim_shmem_lock: None,
            shim_shmem: self.shim_shmem.unlocked(self.shim_shmem_lock.unwrap().protected),
            ..self
        }
    }

    /// The time of the next event, if there is one.
    pub open spec fn next_event_time(self) -> Option<nat> {
        next_time(self.event_queue)
    }

    /// Whether the next event is to be taken up before `until`.
    pub open spec fn due(self, until: nat) -> bool {
        self.event_queue.len() > 0 && self.event_queue[0].time < until
    }

    /// The CPU as the next event finds it.
    pub open spec fn cpu_at_next_event(self) -> CpuModel
        recommends
            self.event_queue.len() > 0,
    {
        self.cpu.update_time(self.event_queue[0].time)
    }

    /// The host after its tracker, if it keeps one, was told of `delay`.
    pub open spec fn notified(self, delay: nat) -> HostModel<T> {
        HostModel {
            tracker: match self.tracker {
                Some(tracker) => Some(tracker.add_virtual_processing_delay(delay)),
                None => None,
            },
            ..self
        }
    }

    /// The host after its next event was taken up while the CPU was busy:
    /// the tracker is told of the delay, and the event is handed to the host
    /// again, later by the delay.
    pub open spec fn put_off(self) -> HostModel<T>
        recommends
            self.event_queue.len() > 0,
    {
        let event = self.event_queue[0];
        let cpu = self.cpu_at_next_event();
        HostModel { event_queue: self.event_queue.skip(1), cpu, ..self }.notified(
            cpu.delay(),
        ).push_local_event(event.at(event.time + cpu.delay()))
    }

    /// The host after its next event was taken up while the CPU was free,
    /// and is now run.
    pub open spec fn started(self) -> HostModel<T>
        recommends
            self.event_queue.len() > 0,
    {
        HostModel {
            event_queue: self.event_queue.skip(1),
            cpu: self.cpu_at_next_event(),
            current_time: Some(self.event_queue[0].time),
            ..self
        }
    }

    /// The host that has nothing to run before `until`.
    pub open spec fn idle(self) -> HostModel<T> {
        HostModel { current_time: None, ..self }
    }

    /// What [`Host::execute`](crate::host::Host::execute) does: the host
    /// afterwards, and the event to run now, if there is one.
    ///
    /// Events that are due before `until` are taken up in their order. One
    /// that finds the CPU busy is put off; the first that finds it free is
    /// the event to run.
    pub open spec fn execute(self, until: nat) -> (HostModel<T>, Option<EventModel<T>>)
        decreases backlog(self.event_queue, until),
    {
        if !self.due(until) {
            (self.idle(), None)
        } else if self.cpu_at_next_event().delay() > 0 {
            proof {
                self.lemma_put_off_shrinks_backlog(until);
            }
            self.put_off().execute(until)
        } else {
            (self.started(), Some(self.event_queue[0]))
        }
    }

    /// Putting the next event off leaves less to wait for.
    pub proof fn lemma_put_off_shrinks_backlog(self, until: nat)
        requires
            self.due(until),
            self.cpu_at_next_event().delay() > 0,
        ensures
            backlog(self.put_off().event_queue, until) < backlog(self.event_queue, until),
    {
        let event = self.event_queue[0];
        let rest = self.event_queue.skip(1);
        let later = event.at(event.time + self.cpu_at_next_event().delay());
        lemma_backlog_skip(self.event_queue, until);
        if self.accepts(later.time) {
            lemma_insertion_point_bounded(rest, later);
            lemma_backlog_insert(rest, insertion_point(rest, later) as int, later, until);
        }
    }

    /// Handing an event to a host leaves the host well formed.
    pub proof fn lemma_push_local_event_wf(self, event: EventModel<T>)
        requires
            self.wf(),
        ensures
            self.push_local_event(event).wf(),
    {
        lemma_inserted_sorted(self.event_queue, event);
    }

    /// Putting the next event off leaves the host well formed.
    pub proof fn lemma_put_off_wf(self)
        requires
            self.wf(),
            self.event_queue.len() > 0,
        ensures
            self.put_off().wf(),
    {
        let event = self.event_queue[0];
        let cpu = self.cpu_at_next_event();
        lemma_front_is_earliest(self.event_queue, 0);
        let taken = HostModel { event_queue: self.event_queue.skip(1), cpu, ..self }.notified(
            cpu.delay(),
        );
        taken.lemma_push_local_event_wf(event.at(event.time + cpu.delay()));
    }

    /// Running a host leaves it well formed.
    pub proof fn lemma_execute_wf(self, until: nat)
        requires
            self.wf(),
        ensures
            self.execute(until).0.wf(),
        decreases backlog(self.event_queue, until),
    {
        if !self.due(until) {
        } else if self.cpu_at_next_event().delay() > 0 {
            self.lemma_put_off_shrinks_backlog(until);
            self.lemma_put_off_wf();
            self.put_off().lemma_execute_wf(until);
        } else {
            lemma_front_is_earliest(self.event_queue, 0);
        }
    }

    /// An event that is taken up while the CPU is busy is not run: the host
    /// goes on as it would after putting the event off. The tracker, if the
    /// host keeps one, is told of exactly the delay that the CPU reports, and
    /// the event is queued again at its time plus that delay, unless the
    /// simulation has ended by then.
    pub proof fn lemma_busy_cpu_puts_off(self, until: nat)
        requires
            self.wf(),
            self.due(until),
            self.cpu_at_next_event().delay() > 0,
        ensures
            self.execute(until) == self.put_off().execute(until),
            self.put_off().cpu == self.cpu_at_next_event(),
            self.tracker matches Some(tracker) ==> self.put_off().tracker == Some(
                tracker.add_virtual_processing_delay(self.cpu_at_next_event().delay()),
            ),
            self.tracker is None ==> self.put_off().tracker is None,
            self.accepts(self.event_queue[0].time + self.cpu_at_next_event().delay())
                ==> self.put_off().event_queue.to_multiset() == self.event_queue.skip(
                1,
            ).to_multiset().insert(
                self.event_queue[0].at(
                    self.event_queue[0].time + self.cpu_at_next_event().delay(),
                ),
            ),
            !self.accepts(self.event_queue[0].time + self.cpu_at_next_event().delay())
                ==> self.put_off().event_queue == self.event_queue.skip(1),
    {
        let event = self.event_queue[0];
        let later = event.at(event.time + self.cpu_at_next_event().delay());
        lemma_front_is_earliest(self.event_queue, 0);
        lemma_inserted_sorted(self.event_queue.skip(1), later);
    }

    /// Whether every queued event is due no earlier than `bound`.
    pub open spec fn nothing_before(self, bound: EventModel<T>) -> bool {
        forall|i: int|
            0 <= i < self.event_queue.len() ==> bound.precedes(#[trigger] self.event_queue[i])
    }

    /// What running a host leaves alone: what it was made from, its
    /// counters, its random number generator and its shared memory; and it
    /// keeps a tracker afterwards exactly if it kept one before.
    pub proof fn lemma_execute_frame(self, until: nat)
        ensures
            self.execute(until).0.params == self.params,
            self.execute(until).0.info == self.info,
            self.execute(until).0.random == self.random,
            self.execute(until).0.process_id_counter == self.process_id_counter,
            self.execute(until).0.event_id_counter == self.event_id_counter,
            self.execute(until).0.packet_id_counter == self.packet_id_counter,
            self.execute(until).0.determinism_sequence_counter
                == self.determinism_sequence_counter,
            self.execute(until).0.packet_priority_counter == self.packet_priority_counter,
            self.execute(until).0.shim_shmem_lock == self.shim_shmem_lock,
            self.execute(until).0.shim_shmem == self.shim_shmem,
            self.execute(until).0.tracker is Some <==> self.tracker is Some,
            self.cpu.same_configuration(self.execute(until).0.cpu),
        decreases backlog(self.event_queue, until),
    {
        if self.due(until) && self.cpu_at_next_event().delay() > 0 {
            self.lemma_put_off_shrinks_backlog(until);
            self.put_off().lemma_execute_frame(until);
        }
    }

    /// How running a host ends. Where an event is returned, it was due
    /// before `until`, the CPU is free at its time, and its time is the
    /// host's current time. Where none is returned, nothing is due before
    /// `until` any more, and the host has no current time.
    pub proof fn lemma_execute_outcome(self, until: nat)
        ensures
            match self.execute(until).1 {
                Some(event) => {
                    &&& event.time < until
                    &&& self.execute(until).0.current_time == Some(event.time)
                    &&& self.execute(until).0.cpu.delay() == 0
                },
                None => {
                    &&& !self.execute(until).0.due(until)
                    &&& self.execute(until).0.current_time is None
                },
            },
        decreases backlog(self.event_queue, until),
    {
        if self.due(until) && self.cpu_at_next_event().delay() > 0 {
            self.lemma_put_off_shrinks_backlog(until);
            self.put_off().lemma_execute_outcome(until);
        }
    }

    /// Running a host never brings an event forward: where no queued event
    /// is due before `bound`, the event that is returned is not, and no
    /// event that is left in the queue is.
    pub proof fn lemma_execute_keeps_bound(self, until: nat, bound: EventModel<T>)
        requires
            self.wf(),
            self.nothing_before(bound),
        ensures
            self.execute(until).0.nothing_before(bound),
            self.execute(until).1 matches Some(event) ==> bound.precedes(event),
        decreases backlog(self.event_queue, until),
    {
        if !self.due(until) {
        } else if self.cpu_at_next_event().delay() > 0 {
            self.lemma_put_off_shrinks_backlog(until);
            self.lemma_put_off_wf();
            let event = self.event_queue[0];
            let later = event.at(event.time + self.cpu_at_next_event().delay());
            let rest = self.event_queue.skip(1);
            assert(bound.precedes(event));
            assert(bound.precedes(later));
            assert forall|i: int| 0 <= i < self.put_off().event_queue.len() implies bound.precedes(
                #[trigger] self.put_off().event_queue[i],
            ) by {
                if self.accepts(later.time) {
                    lemma_insertion_point_bounded(rest, later);
                    let p = insertion_point(rest, later) as int;
                    if i < p {
                        assert(self.put_off().event_queue[i] == self.event_queue[i + 1]);
                    } else if i == p {
                    } else {
                        assert(self.put_off().event_queue[i] == self.event_queue[i]);
                    }
                } else {
                    assert(self.put_off().event_queue[i] == self.event_queue[i + 1]);
                }
            }
            self.put_off().lemma_execute_keeps_bound(until, bound);
        } else {
            assert forall|i: int| 0 <= i < self.started().event_queue.len() implies bound.precedes(
                #[trigger] self.started().event_queue[i],
            ) by {
                assert(self.started().event_queue[i] == self.event_queue[i + 1]);
            }
        }
    }

    /// The event that running a host returns is due no later than any event
    /// that is left in the queue.
    pub proof fn lemma_execute_returns_earliest(self, until: nat)
        requires
            self.wf(),
        ensures
            self.execute(until).1 matches Some(event) ==> self.execute(until).0.nothing_before(
                event,
            ),
        decreases backlog(self.event_queue, until),
    {
        if !self.due(until) {
        } else if self.cpu_at_next_event().delay() > 0 {
            self.lemma_put_off_shrinks_backlog(until);
            self.lemma_put_off_wf();
            self.put_off().lemma_execute_returns_earliest(until);
        } else {
            assert forall|i: int| 0 <= i < self.started().event_queue.len() implies self.event_queue[0].precedes(
                #[trigger] self.started().event_queue[i],
            ) by {
                assert(self.started().event_queue[i] == self.event_queue[i + 1]);
            }
        }
    }

    /// The tasks of a host run in the order in which their events are due:
    /// as long as nothing is handed to the host in between, an event that is
    /// returned by one run is due no later than the event that is returned
    /// by the next, whatever the two runs are bounded by.
    pub proof fn lemma_tasks_run_in_order(self, until: nat, then_until: nat)
        requires
            self.wf(),
        ensures
            self.execute(until).1 matches Some(first) ==> (self.execute(until).0.execute(
                then_until,
            ).1 matches Some(second) ==> first.precedes(second) && first.time <= second.time),
    {
        if let Some(first) = self.execute(until).1 {
            self.lemma_execute_wf(until);
            self.lemma_execute_returns_earliest(until);
            self.execute(until).0.lemma_execute_keeps_bound(then_until, first);
        }
    }

    /// A counter of a host hands out its numbers in growing order, each
    /// once, however its calls are mixed with calls of the other counters:
    /// what it hands out in the course of `calls` is what it had coming, as
    /// many numbers as it was called.
    pub proof fn lemma_counters_independent(self, calls: Seq<HostCounter>, which: HostCounter)
        ensures
            self.handed_out(calls, which) == self.counter(which).upcoming(
                self.handed_out(calls, which).len(),
            ),
            self.take_all(calls).counter(which) == self.counter(which).advanced(
                self.handed_out(calls, which).len(),
            ),
            self.handed_out(calls, which).no_duplicates(),
            forall|i: int, j: int|
                0 <= i < j < self.handed_out(calls, which).len() ==> (#[trigger] self.handed_out(
                    calls,
                    which,
                )[i]) < (#[trigger] self.handed_out(calls, which)[j]),
        decreases calls.len(),
    {
        if calls.len() == 0 {
            assert(self.handed_out(calls, which) =~= self.counter(which).upcoming(0));
        } else {
            let front = calls.drop_last();
            self.lemma_counters_independent(front, which);
            let n = self.handed_out(front, which).len();
            if calls.last() == which {
                assert(self.handed_out(calls, which) =~= self.counter(which).upcoming(n + 1));
            }
        }
        self.counter(which).lemma_strictly_increasing(self.handed_out(calls, which).len());
    }

    /// A host that locks its shared memory holds the guard; when it unlocks
    /// the memory again it holds none, and is as it was before.
    pub proof fn lemma_lock_then_unlock(self)
        requires
            self.wf(),
            self.shim_shmem_lock is None,
        ensures
            self.lock_shmem().wf(),
            self.lock_shmem().shim_shmem_lock is Some,
            self.lock_shmem().shim_shmem.is_locked(),
            self.lock_shmem().unlock_shmem().shim_shmem_lock is None,
            self.lock_shmem().unlock_shmem() == self,
    {
    }

    /// A host that holds the guard and gives it back holds none afterwards,
    /// and its shared memory is not locked; it can lock the memory again.
    pub proof fn lemma_unlock_frees(self)
        requires
            self.wf(),
            self.shim_shmem_lock is Some,
        ensures
            self.unlock_shmem().wf(),
            self.unlock_shmem().shim_shmem_lock is None,
            !self.unlock_shmem().shim_shmem.is_locked(),
            self.unlock_shmem().shim_shmem.protected == Some(
                self.shim_shmem_lock.unwrap().protected,
            ),
    {
    }

    /// An event that is handed to a host at or after the end of the
    /// simulation changes nothing; one that is handed to it earlier is
    /// queued, and is the only event that the queue gains.
    pub proof fn lemma_push_local_event_takes_or_leaves(self, event: EventModel<T>)
        requires
            self.wf(),
        ensures
            event.time >= self.sim_end_time() ==> self.push_local_event(event) == self,
            event.time < self.sim_end_time() ==> {
                &&& self.push_local_event(event).event_queue.len() == self.event_queue.len() + 1
                &&& self.push_local_event(event).event_queue.to_multiset()
                    == self.event_queue.to_multiset().insert(event)
                &&& sorted(self.push_local_event(event).event_queue)
            },
    {
        lemma_inserted_sorted(self.event_queue, event);
    }
}

} // verus!
