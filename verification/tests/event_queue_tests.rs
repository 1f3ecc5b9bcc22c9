use simhost::event::Event;
use simhost::event_queue::EventQueue;
use simhost::ids::HostId;
use simhost::time::EmulatedTime;

fn at(n: u64) -> EmulatedTime {
    EmulatedTime::from_nanos_since_epoch(n)
}

fn event(task: &'static str, time: u64, sequence: u64) -> Event<&'static str> {
    Event::new(task, at(time), HostId::new(1), sequence)
}

fn drain(queue: &mut EventQueue<&'static str>) -> Vec<(&'static str, u64, u64)> {
    let mut out = Vec::new();
    while let Some(e) = queue.pop() {
        out.push((*e.task(), e.time().as_nanos_since_epoch(), e.sequence()));
    }
    out
}

#[test]
fn event_keeps_what_it_was_made_with() {
    let e = Event::new(String::from("task"), at(17), HostId::new(3), 9);
    assert_eq!(e.task(), "task");
    assert_eq!(e.time(), at(17));
    assert_eq!(e.destination_host_id(), HostId::new(3));
    assert_eq!(e.destination_host_id().as_u32(), 3);
    assert_eq!(e.sequence(), 9);
    assert_eq!(e.into_task(), "task");
}

#[test]
fn set_time_changes_the_time_only() {
    let mut e = event("a", 5, 2);
    e.set_time(at(50));
    assert_eq!(e.time(), at(50));
    assert_eq!(*e.task(), "a");
    assert_eq!(e.sequence(), 2);
    assert_eq!(e.destination_host_id(), HostId::new(1));
}

#[test]
fn events_are_ordered_by_time_then_sequence() {
    assert!(event("a", 1, 9).precedes(&event("b", 2, 0)));
    assert!(!event("a", 2, 0).precedes(&event("b", 1, 9)));
    assert!(event("a", 2, 0).precedes(&event("b", 2, 1)));
    assert!(!event("a", 2, 1).precedes(&event("b", 2, 0)));
    assert!(event("a", 2, 1).precedes(&event("b", 2, 1)));
}

#[test]
fn new_queue_is_empty() {
    let mut queue: EventQueue<&'static str> = EventQueue::new();
    assert!(queue.is_empty());
    assert_eq!(queue.len(), 0);
    assert_eq!(queue.next_event_time(), None);
    assert!(queue.pop().is_none());
    assert!(queue.is_empty());
}

#[test]
fn pop_returns_events_in_order_of_time() {
    let mut queue = EventQueue::new();
    queue.push(event("c", 30, 0));
    queue.push(event("a", 10, 1));
    queue.push(event("d", 40, 2));
    queue.push(event("b", 20, 3));
    assert_eq!(queue.len(), 4);
    assert_eq!(
        drain(&mut queue),
        vec![("a", 10, 1), ("b", 20, 3), ("c", 30, 0), ("d", 40, 2)]
    );
    assert!(queue.is_empty());
}

#[test]
fn equal_times_pop_in_order_of_sequence() {
    let mut queue = EventQueue::new();
    queue.push(event("third", 5, 7));
    queue.push(event("first", 5, 1));
    queue.push(event("second", 5, 4));
    assert_eq!(
        drain(&mut queue),
        vec![("first", 5, 1), ("second", 5, 4), ("third", 5, 7)]
    );
}

#[test]
fn equal_time_and_sequence_pop_in_order_of_arrival() {
    let mut queue = EventQueue::new();
    queue.push(event("one", 5, 1));
    queue.push(event("late", 6, 0));
    queue.push(event("two", 5, 1));
    queue.push(event("early", 4, 9));
    queue.push(event("three", 5, 1));
    assert_eq!(
        drain(&mut queue),
        vec![("early", 4, 9), ("one", 5, 1), ("two", 5, 1), ("three", 5, 1), ("late", 6, 0)]
    );
}

#[test]
fn next_event_time_is_the_time_of_the_next_pop() {
    let mut queue = EventQueue::new();
    queue.push(event("b", 20, 0));
    assert_eq!(queue.next_event_time(), Some(at(20)));
    queue.push(event("a", 10, 1));
    assert_eq!(queue.next_event_time(), Some(at(10)));
    queue.push(event("c", 30, 2));
    while !queue.is_empty() {
        let peeked = queue.next_event_time();
        assert_eq!(queue.next_event_time(), peeked);
        let len = queue.len();
        let popped = queue.pop().unwrap();
        assert_eq!(peeked, Some(popped.time()));
        assert_eq!(queue.len(), len - 1);
    }
    assert_eq!(queue.next_event_time(), None);
}

#[test]
fn pushes_and_pops_may_alternate() {
    let mut queue = EventQueue::new();
    queue.push(event("b", 20, 0));
    queue.push(event("d", 40, 1));
    assert_eq!(*queue.pop().unwrap().task(), "b");
    queue.push(event("a", 10, 2));
    queue.push(event("c", 30, 3));
    assert_eq!(*queue.pop().unwrap().task(), "a");
    assert_eq!(*queue.pop().unwrap().task(), "c");
    queue.push(event("e", 50, 4));
    assert_eq!(*queue.pop().unwrap().task(), "d");
    assert_eq!(*queue.pop().unwrap().task(), "e");
    assert!(queue.pop().is_none());
}

#[test]
fn many_events_come_out_sorted() {
    let mut queue = EventQueue::new();
    let mut state: u64 = 12345;
    let mut pushed = Vec::new();
    for sequence in 0..500u64 {
        state = state.wrapping_mul(6364136223846793005).wrapping_add(1442695040888963407);
        let time = (state >> 33) % 50;
        queue.push(Event::new(sequence, at(time), HostId::new(0), sequence % 7));
        pushed.push((time, sequence % 7, sequence));
    }
    assert_eq!(queue.len(), 500);
    // A stable sort by time and sequence is what the queue promises.
    pushed.sort_by_key(|(time, sequence, _)| (*time, *sequence));
    let mut popped = Vec::new();
    while let Some(e) = queue.pop() {
        popped.push((e.time().as_nanos_since_epoch(), e.sequence(), *e.task()));
    }
    assert_eq!(popped, pushed);
}

#[test]
fn order_of_arrival_survives_the_end_of_the_count() {
    for first_stamp in [0u128, 1, u128::MAX - 7, u128::MAX - 1, u128::MAX] {
        let mut queue = EventQueue::with_first_stamp(first_stamp);
        assert!(queue.is_empty());
        let names = ["a", "b", "c", "d", "e", "f", "g", "h", "i", "j", "k", "l"];
        let mut expected = Vec::new();
        for (i, name) in names.iter().enumerate() {
            // All are due together; every third is due a little earlier.
            let time = if i % 3 == 0 { 4 } else { 5 };
            queue.push(Event::new(*name, at(time), HostId::new(1), 1));
            expected.push((*name, time, 1));
        }
        expected.sort_by_key(|(_, time, _)| *time);
        assert_eq!(queue.len(), names.len());
        assert_eq!(queue.next_event_time(), Some(at(4)));
        assert_eq!(drain(&mut queue), expected);
    }
}

#[test]
fn pops_between_pushes_at_the_end_of_the_count() {
    let mut queue = EventQueue::with_first_stamp(u128::MAX - 2);
    queue.push(event("a", 5, 0));
    queue.push(event("b", 5, 0));
    assert_eq!(*queue.pop().unwrap().task(), "a");
    queue.push(event("c", 5, 0));
    queue.push(event("d", 5, 0));
    queue.push(event("first", 1, 0));
    assert_eq!(
        drain(&mut queue),
        vec![("first", 1, 0), ("b", 5, 0), ("c", 5, 0), ("d", 5, 0)]
    );
    queue.push(event("e", 5, 0));
    queue.push(event("f", 5, 0));
    assert_eq!(drain(&mut queue), vec![("e", 5, 0), ("f", 5, 0)]);
}
