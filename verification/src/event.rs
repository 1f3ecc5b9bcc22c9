//! Events: tasks bound to an instant of emulated time.

use vstd::prelude::*;
use crate::ids::HostId;
use crate::time::EmulatedTime;

verus! {

/// What an [`Event`] stands for. The time is in nanoseconds since the Unix
/// epoch.
pub struct EventModel<T> {
    /// What is to be done.
    pub task: T,
    /// When it is to be done.
    pub time: nat,
    /// The number of the host that is to do it.
    pub destination_host_id: nat,
    /// The place of the event in the order in which its host made events.
    pub sequence: nat,
}

impl<T> EventModel<T> {
    /// Whether this event is due no later than `other`: it is timed earlier,
    /// or for the same instant and was not made later.
    pub open spec fn precedes(self, other: EventModel<T>) -> bool {
        self.time < other.time || (self.time == other.time && self.sequence <= other.sequence)
    }

    /// The same event at another time.
    pub open spec fn at(self, time: nat) -> EventModel<T> {
        EventModel { time, ..self }
    }

    /// Of two events, one is due no later than the other.
    pub proof fn lemma_precedes_total(self, other: EventModel<T>)
        ensures
            self.precedes(other) || other.precedes(self),
    {
    }

    /// Being due no later carries over a chain of events.
    pub proof fn lemma_precedes_transitive(self, middle: EventModel<T>, last: EventModel<T>)
        requires
            self.precedes(middle),
            middle.precedes(last),
        ensures
            self.precedes(last),
    {
    }
}

/// What `event` stands for, where there is an event.
pub open spec fn event_model<T>(event: Option<Event<T>>) -> Option<EventModel<T>> {
    match event {
        Some(e) => Some(e@),
        None => None,
    }
}

/// A task that a host is to run at an instant of emulated time.
///
/// Events of one host are ordered by time and, among those for the same
/// instant, by the sequence number that they were made with.
pub struct Event<T> {
    task: T,
    time: EmulatedTime,
    destination_host_id: HostId,
    sequence: u64,
}

impl<T> View for Event<T> {
    type V = EventModel<T>;

    closed spec fn view(&self) -> EventModel<T> {
        EventModel {
            task: self.task,
            time: self.time@,
            destination_host_id: self.destination_host_id@,
            sequence: self.sequence as nat,
        }
    }
}

impl<T> Event<T> {
    /// The numbers of an event fit their machine types.
    pub proof fn lemma_view_bounded(&self)
        ensures
            self@.time <= u64::MAX,
            self@.destination_host_id <= u32::MAX,
            self@.sequence <= u64::MAX,
    {
        self.time.lemma_view_bounded();
        self.destination_host_id.lemma_view_bounded();
    }

    /// The event that has `destination_host_id` run `task` at `time`.
    pub fn new(task: T, time: EmulatedTime, destination_host_id: HostId, sequence: u64) -> (event:
        Event<T>)
        ensures
            event@ == (EventModel {
                task,
                time: time@,
                destination_host_id: destination_host_id@,
                sequence: sequence as nat,
            }),
    {
        Event { task, time, destination_host_id, sequence }
    }

    /// When the task is to be run.
    pub fn time(&self) -> (time: EmulatedTime)
        ensures
            time@ == self@.time,
    {
        self.time
    }

    /// Moves the event to another instant. Nothing else about it changes.
    pub fn set_time(&mut self, time: EmulatedTime)
        ensures
            final(self)@ == old(self)@.at(time@),
    {
        self.time = time;
    }

    /// The host that is to run the task.
    pub fn destination_host_id(&self) -> (host: HostId)
        ensures
            host@ == self@.destination_host_id,
    {
        self.destination_host_id
    }

    /// The place of the event in the order in which its host made events.
    pub fn sequence(&self) -> (sequence: u64)
        ensures
            sequence == self@.sequence,
    {
        self.sequence
    }

    /// The task.
    pub fn task(&self) -> (task: &T)
        ensures
            *task == self@.task,
    {
        &self.task
    }

    /// Gives up the event for its task.
    pub fn into_task(self) -> (task: T)
        ensures
            task == self@.task,
    {
        self.task
    }

    /// Whether this event is due no later than `other`.
    pub fn precedes(&self, other: &Event<T>) -> (b: bool)
        ensures
            b == self@.precedes(other@),
    {
        let mine: u64 = self.time.as_nanos_since_epoch();
        let theirs: u64 = other.time.as_nanos_since_epoch();
        mine < theirs || (mine == theirs && self.sequence <= other.sequence)
    }
}

} // verus!
