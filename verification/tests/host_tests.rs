use rand::RngCore;
use simhost::event::Event;
use simhost::host::Host;
use simhost::params::HostParameters;
use simhost::params::QDiscMode;
use simhost::ids::HostId;
use simhost::ids::ProcessId;
use simhost::shmem::HostShmemProtected;
use simhost::time::EmulatedTime;
use simhost::time::SimulationTime;
use simhost::params::LogLevel;

fn nanos(n: u64) -> SimulationTime {
    SimulationTime::from_nanos(n)
}

fn at(n: u64) -> EmulatedTime {
    EmulatedTime::from_nanos_since_epoch(n)
}

fn parameters() -> HostParameters {
    HostParameters {
        id: HostId::new(7),
        node_seed: 1,
        hostname: String::from("alpha"),
        node_id: 3,
        ip_addr: 0x0b00_0001,
        sim_end_time: at(1_000_000),
        requested_bw_down_bits: 81_920_000,
        requested_bw_up_bits: 8_192_000,
        cpu_frequency: 1000,
        cpu_threshold: Some(nanos(100)),
        cpu_precision: Some(nanos(10)),
        heartbeat_interval: Some(nanos(1_000_000_000)),
        heartbeat_log_level: LogLevel::Info,
        heartbeat_log_info: 1,
        log_level: LogLevel::Unset,
        pcap_dir: None,
        pcap_capture_size: 65_535,
        qdisc: QDiscMode::Fifo,
        init_sock_recv_buf_size: 174_760,
        autotune_recv_buf: true,
        init_sock_send_buf_size: 131_072,
        autotune_send_buf: true,
        native_tsc_frequency: 1_000_000_000,
        model_unblocked_syscall_latency: false,
        max_unapplied_cpu_latency: nanos(1_000),
        unblocked_syscall_latency: nanos(2_000),
        unblocked_vdso_latency: nanos(20),
    }
}

fn host() -> Host<&'static str> {
    Host::new(parameters(), 1000)
}

/// Runs the host up to `until` and lists the tasks in the order in which
/// they became ready, each with the time at which it did.
fn run(host: &mut Host<&'static str>, until: u64) -> Vec<(&'static str, u64)> {
    let mut ran = Vec::new();
    while let Some(event) = host.execute(at(until)) {
        assert_eq!(host.current_time(), Some(event.time()));
        ran.push((*event.task(), event.time().as_nanos_since_epoch()));
    }
    assert_eq!(host.current_time(), None);
    ran
}

fn tracked_delays(host: &mut Host<&'static str>) -> Vec<u64> {
    let tracker = host.tracker_mut().unwrap();
    let mut delays = Vec::new();
    for i in 0..tracker.processing_delay_count() {
        delays.push(tracker.processing_delay(i).as_nanos());
    }
    delays
}

#[test]
fn new_host_is_idle() {
    let mut host = host();
    assert_eq!(host.next_event_time(), None);
    assert!(host.event_queue().is_empty());
    assert_eq!(host.current_time(), None);
    assert!(host.tracker_mut().is_none());
    assert!(!host.shmem_lock_held());
    assert!(!host.shim_shmem().is_locked());
    assert_eq!(host.cpu().delay(), SimulationTime::zero());
    assert_eq!(host.cpu().last_update_time(), EmulatedTime::minimum());
    assert!(host.execute(at(1_000)).is_none());
    host.drop();
}

#[test]
fn host_knows_what_it_was_made_from() {
    let host = host();
    assert_eq!(host.id(), HostId::new(7));
    assert_eq!(host.name(), "alpha");
    assert_eq!(host.default_ip(), 0x0b00_0001);
    assert_eq!(host.log_level(), None);
    assert_eq!(host.params.node_id, 3);
    assert_eq!(host.params.qdisc, QDiscMode::Fifo);
    let info = host.info();
    assert_eq!(info.id, HostId::new(7));
    assert_eq!(info.name, "alpha");
    assert_eq!(info.default_ip, 0x0b00_0001);
    assert_eq!(info.log_level, None);
    let shared = host.info().clone();
    assert_eq!(shared.name, "alpha");
}

#[test]
fn host_log_level_is_what_was_chosen() {
    let mut params = parameters();
    params.log_level = LogLevel::Debug;
    let host: Host<&'static str> = Host::new(params, 1000);
    assert_eq!(host.log_level(), Some(LogLevel::Debug));
    assert_eq!(host.info().log_level, Some(LogLevel::Debug));
}

#[test]
fn bandwidth_is_reported_in_kib_per_second() {
    let host = host();
    assert_eq!(host.bw_down_kiBps(), 10_000);
    assert_eq!(host.bw_up_kiBps(), 1_000);
    let mut params = parameters();
    params.requested_bw_down_bits = 8_191;
    params.requested_bw_up_bits = 8_193;
    let host: Host<&'static str> = Host::new(params, 1000);
    assert_eq!(host.bw_down_kiBps(), 0);
    assert_eq!(host.bw_up_kiBps(), 1);
}

#[test]
fn host_counters_start_where_they_should() {
    let mut host = host();
    assert_eq!(host.get_new_event_id(), 0);
    assert_eq!(host.get_new_packet_id(), 0);
    assert_eq!(host.get_new_process_id(), ProcessId::new(1000));
    assert_eq!(host.get_next_deterministic_sequence_value(), 0);
    assert_eq!(host.get_next_packet_priority(), 1);
}

#[test]
fn host_counters_grow_independently() {
    let mut host = host();
    let mut events = Vec::new();
    let mut packets = Vec::new();
    let mut processes = Vec::new();
    let mut sequence = Vec::new();
    let mut priorities = Vec::new();
    for round in 0..12 {
        events.push(host.get_new_event_id());
        if round % 2 == 0 {
            packets.push(host.get_new_packet_id());
        }
        if round % 3 == 0 {
            processes.push(host.get_new_process_id().as_u32());
        }
        if round % 4 == 0 {
            sequence.push(host.get_next_deterministic_sequence_value());
        }
        if round % 6 == 0 {
            priorities.push(host.get_next_packet_priority());
        }
    }
    assert_eq!(events, (0..12).collect::<Vec<u64>>());
    assert_eq!(packets, (0..6).collect::<Vec<u64>>());
    assert_eq!(processes, vec![1000, 1001, 1002, 1003]);
    assert_eq!(sequence, vec![0, 1, 2]);
    assert_eq!(priorities, vec![1, 2]);
    assert_eq!(host.event_id_counter().peek(), 12);
    assert_eq!(host.packet_id_counter().peek(), 6);
    assert_eq!(host.process_id_counter().peek(), 1004);
    assert_eq!(host.determinism_sequence_counter().peek(), 3);
    assert_eq!(host.packet_priority_counter().peek(), 3);
    assert!(!host.process_id_counter().is_exhausted());
}

#[test]
fn push_rejects_events_at_or_after_the_end() {
    let mut host = host();
    assert!(host.push_local_event(Event::new("in time", at(999_999), HostId::new(7), 0)));
    assert_eq!(host.event_queue().len(), 1);
    assert!(!host.push_local_event(Event::new("at the end", at(1_000_000), HostId::new(7), 1)));
    assert_eq!(host.event_queue().len(), 1);
    assert!(!host.push_local_event(Event::new("too late", at(1_000_001), HostId::new(7), 2)));
    assert_eq!(host.event_queue().len(), 1);
    assert!(!host.push_local_event(Event::new("never", at(u64::MAX), HostId::new(7), 3)));
    assert_eq!(host.event_queue().len(), 1);
    assert_eq!(host.next_event_time(), Some(at(999_999)));
    assert_eq!(run(&mut host, u64::MAX), vec![("in time", 999_999)]);
}

#[test]
fn nothing_is_taken_when_the_simulation_ends_at_once() {
    let mut params = parameters();
    params.sim_end_time = EmulatedTime::minimum();
    let mut host: Host<&'static str> = Host::new(params, 1000);
    assert!(!host.push_local_event(Event::new("a", at(0), HostId::new(7), 0)));
    assert!(!host.schedule_task_at_emulated_time("b", at(1)));
    assert!(host.event_queue().is_empty());
}

#[test]
fn scheduled_tasks_take_sequence_numbers_in_order() {
    let mut host = host();
    assert!(host.schedule_task_at_emulated_time("a", at(50)));
    assert!(!host.schedule_task_at_emulated_time("rejected", at(2_000_000)));
    assert!(host.schedule_task_at_emulated_time("b", at(50)));
    assert!(host.schedule_task_at_emulated_time("c", at(20)));
    assert_eq!(host.event_id_counter().peek(), 4);
    let mut seen = Vec::new();
    while let Some(event) = host.execute(at(100)) {
        assert_eq!(event.destination_host_id(), HostId::new(7));
        seen.push((*event.task(), event.time().as_nanos_since_epoch(), event.sequence()));
    }
    assert_eq!(seen, vec![("c", 20, 3), ("a", 50, 0), ("b", 50, 2)]);
}

#[test]
fn tasks_are_scheduled_relative_to_the_running_task() {
    let mut host = host();
    assert!(host.schedule_task_at_emulated_time("first", at(100)));
    let event = host.execute(at(1_000)).unwrap();
    assert_eq!(*event.task(), "first");
    assert_eq!(host.current_time(), Some(at(100)));
    assert!(host.schedule_task_with_delay("later", nanos(25)));
    assert!(host.schedule_task_with_delay("now", nanos(0)));
    assert!(!host.schedule_task_with_delay("past the end", nanos(999_900)));
    assert!(!host.schedule_task_with_delay("past all time", SimulationTime::maximum()));
    assert_eq!(host.event_id_counter().peek(), 5);
    assert_eq!(run(&mut host, 1_000), vec![("now", 100), ("later", 125)]);
}

#[test]
fn execute_runs_events_in_order_of_time_then_sequence() {
    let mut host = host();
    assert!(host.push_local_event(Event::new("five, first", at(5), HostId::new(7), 0)));
    assert!(host.push_local_event(Event::new("five, second", at(5), HostId::new(7), 1)));
    assert!(host.push_local_event(Event::new("three", at(3), HostId::new(7), 2)));
    assert_eq!(host.next_event_time(), Some(at(3)));
    assert_eq!(
        run(&mut host, 10),
        vec![("three", 3), ("five, first", 5), ("five, second", 5)]
    );
    assert_eq!(host.next_event_time(), None);
}

#[test]
fn execute_stops_before_until() {
    let mut host = host();
    assert!(host.schedule_task_at_emulated_time("a", at(10)));
    assert!(host.schedule_task_at_emulated_time("b", at(20)));
    assert!(host.schedule_task_at_emulated_time("c", at(30)));
    assert_eq!(run(&mut host, 10), Vec::<(&'static str, u64)>::new());
    assert_eq!(host.event_queue().len(), 3);
    assert_eq!(run(&mut host, 20), vec![("a", 10)]);
    assert_eq!(host.next_event_time(), Some(at(20)));
    assert_eq!(run(&mut host, 21), vec![("b", 20)]);
    assert_eq!(run(&mut host, 0), Vec::<(&'static str, u64)>::new());
    assert_eq!(run(&mut host, u64::MAX), vec![("c", 30)]);
    assert!(host.event_queue().is_empty());
}

#[test]
fn tasks_may_schedule_tasks_while_the_host_runs() {
    let mut host = host();
    assert!(host.schedule_task_at_emulated_time("seed", at(10)));
    let mut ran = Vec::new();
    while let Some(event) = host.execute(at(100)) {
        let time = event.time().as_nanos_since_epoch();
        ran.push((*event.task(), time));
        if *event.task() == "seed" {
            assert!(host.schedule_task_with_delay("child b", nanos(20)));
            assert!(host.schedule_task_with_delay("child a", nanos(5)));
            assert!(host.schedule_task_with_delay("beyond", nanos(90)));
        }
    }
    assert_eq!(ran, vec![("seed", 10), ("child a", 15), ("child b", 30)]);
    assert_eq!(host.next_event_time(), Some(at(100)));
}

#[test]
fn busy_cpu_puts_an_event_off_by_the_rounded_delay() {
    let mut host = host();
    host.boot();
    assert!(host.schedule_task_at_emulated_time("a", at(1_000)));
    assert!(host.schedule_task_at_emulated_time("b", at(1_000)));
    let first = host.execute(at(2_000)).unwrap();
    assert_eq!((*first.task(), first.time()), ("a", at(1_000)));
    // Task a keeps the CPU busy for 55 ns.
    host.add_delay_nanos(55);
    assert_eq!(host.cpu().accumulated_delay(), nanos(55));
    assert_eq!(host.cpu().delay(), nanos(50));
    // Up to 1040 nothing is ready: b was put off to 1050.
    assert!(host.execute(at(1_040)).is_none());
    assert_eq!(host.next_event_time(), Some(at(1_050)));
    assert_eq!(host.event_queue().len(), 1);
    assert_eq!(tracked_delays(&mut host), vec![50]);
    // At 1050 the CPU is free again; the 5 ns that were cut off stay owed.
    let second = host.execute(at(2_000)).unwrap();
    assert_eq!((*second.task(), second.time()), ("b", at(1_050)));
    assert_eq!(second.sequence(), 1);
    assert_eq!(host.cpu().accumulated_delay(), nanos(5));
    assert_eq!(tracked_delays(&mut host), vec![50]);
    assert!(host.execute(at(2_000)).is_none());
}

#[test]
fn busy_cpu_puts_events_off_within_one_call() {
    let mut host = host();
    host.boot();
    assert!(host.schedule_task_at_emulated_time("a", at(1_000)));
    assert!(host.schedule_task_at_emulated_time("b", at(1_000)));
    assert!(host.schedule_task_at_emulated_time("c", at(1_020)));
    let first = host.execute(at(2_000)).unwrap();
    assert_eq!(*first.task(), "a");
    host.add_delay_nanos(55);
    // b is put off from 1000 to 1050. c comes up at 1020, when 35 ns are
    // still owed, and is put off by 30 ns to 1050 as well, behind b.
    assert_eq!(run(&mut host, 2_000), vec![("b", 1_050), ("c", 1_050)]);
    assert_eq!(tracked_delays(&mut host), vec![50, 30]);
    assert_eq!(host.cpu().accumulated_delay(), nanos(5));
}

#[test]
fn delay_at_the_threshold_is_served_in_full() {
    let mut host = host();
    host.boot();
    assert!(host.schedule_task_at_emulated_time("a", at(1_000)));
    assert!(host.schedule_task_at_emulated_time("b", at(1_001)));
    assert_eq!(*host.execute(at(5_000)).unwrap().task(), "a");
    host.add_delay_nanos(238);
    // At 1001, 237 ns are owed: more than the threshold, so all of it.
    let b = host.execute(at(5_000)).unwrap();
    assert_eq!((*b.task(), b.time()), ("b", at(1_238)));
    assert_eq!(tracked_delays(&mut host), vec![237]);
    assert_eq!(host.cpu().accumulated_delay(), SimulationTime::zero());
}

#[test]
fn delay_below_the_precision_puts_nothing_off() {
    let mut host = host();
    host.boot();
    assert!(host.schedule_task_at_emulated_time("a", at(1_000)));
    assert!(host.schedule_task_at_emulated_time("b", at(1_000)));
    assert_eq!(*host.execute(at(5_000)).unwrap().task(), "a");
    host.add_delay_nanos(9);
    let b = host.execute(at(5_000)).unwrap();
    assert_eq!((*b.task(), b.time()), ("b", at(1_000)));
    assert_eq!(tracked_delays(&mut host), Vec::<u64>::new());
    assert_eq!(host.cpu().accumulated_delay(), nanos(9));
}

#[test]
fn host_without_tracker_still_puts_events_off() {
    let mut host = host();
    assert!(host.schedule_task_at_emulated_time("a", at(1_000)));
    assert!(host.schedule_task_at_emulated_time("b", at(1_000)));
    assert_eq!(*host.execute(at(5_000)).unwrap().task(), "a");
    host.add_delay_nanos(55);
    let b = host.execute(at(5_000)).unwrap();
    assert_eq!((*b.task(), b.time()), ("b", at(1_050)));
    assert!(host.tracker_mut().is_none());
}

#[test]
fn an_event_put_off_past_the_end_is_dropped() {
    let mut host = host();
    host.boot();
    assert!(host.schedule_task_at_emulated_time("a", at(999_000)));
    assert!(host.schedule_task_at_emulated_time("b", at(999_990)));
    assert_eq!(*host.execute(at(1_000_000)).unwrap().task(), "a");
    host.add_delay_nanos(1_000);
    // At 999990, 10 ns are still owed: b would run at 1000000, the end.
    assert!(host.execute(at(u64::MAX)).is_none());
    assert!(host.event_queue().is_empty());
    assert_eq!(tracked_delays(&mut host), vec![10]);
}

#[test]
fn native_time_is_scaled_by_the_cpu_speeds() {
    let mut params = parameters();
    params.cpu_frequency = 500;
    params.cpu_threshold = None;
    params.cpu_precision = None;
    let mut host: Host<&'static str> = Host::new(params, 2_000);
    host.add_delay_nanos(10);
    assert_eq!(host.cpu().accumulated_delay(), nanos(40));
    assert!(host.checked_add_delay_nanos(5));
    assert_eq!(host.cpu().accumulated_delay(), nanos(60));
    assert!(!host.checked_add_delay_nanos(u64::MAX));
    assert_eq!(host.cpu().accumulated_delay(), nanos(60));
}

#[test]
fn boot_makes_a_tracker_where_a_heartbeat_was_chosen() {
    let mut host = host();
    host.boot();
    let tracker = host.tracker_mut().unwrap();
    assert_eq!(tracker.heartbeat_interval(), nanos(1_000_000_000));
    assert_eq!(tracker.heartbeat_log_level(), LogLevel::Info);
    assert_eq!(tracker.heartbeat_log_info(), 1);
    assert_eq!(tracker.processing_delay_count(), 0);

    let mut params = parameters();
    params.heartbeat_interval = None;
    let mut host: Host<&'static str> = Host::new(params, 1000);
    host.boot();
    assert!(host.tracker_mut().is_none());
}

#[test]
fn lock_then_unlock_leaves_no_guard() {
    let mut host = host();
    assert!(!host.shmem_lock_held());
    assert!(host.shim_shmem_lock_mut().is_none());
    host.lock_shmem();
    assert!(host.shmem_lock_held());
    assert!(host.shim_shmem().is_locked());
    assert!(host.shim_shmem_lock_mut().is_some());
    host.unlock_shmem();
    assert!(!host.shmem_lock_held());
    assert!(!host.shim_shmem().is_locked());
    assert!(host.shim_shmem_lock_mut().is_none());
    host.lock_shmem();
    assert!(host.shmem_lock_held());
    host.unlock_shmem();
    assert!(!host.shmem_lock_held());
    host.drop();
}

#[test]
fn protected_memory_is_written_through_the_guard() {
    let mut host = host();
    host.lock_shmem();
    let guard = host.shim_shmem_lock_mut().unwrap();
    assert_eq!(guard.protected().unapplied_cpu_latency, SimulationTime::zero());
    assert_eq!(guard.protected().max_runahead_time, EmulatedTime::minimum());
    guard.set_protected(HostShmemProtected {
        unapplied_cpu_latency: nanos(12),
        max_runahead_time: at(3_000),
    });
    host.unlock_shmem();
    host.lock_shmem();
    let guard = host.shim_shmem_lock_mut().unwrap();
    assert_eq!(guard.protected().unapplied_cpu_latency, nanos(12));
    assert_eq!(guard.protected().max_runahead_time, at(3_000));
    host.unlock_shmem();
}

#[test]
fn shared_memory_holds_what_the_host_was_made_with() {
    let host = host();
    let block = host.shim_shmem();
    assert_eq!(block.host_id(), HostId::new(7));
    assert!(!block.model_unblocked_syscall_latency());
    assert_eq!(block.max_unapplied_cpu_latency(), nanos(1_000));
    assert_eq!(block.unblocked_syscall_latency(), nanos(2_000));
    assert_eq!(block.unblocked_vdso_latency(), nanos(20));
}

#[test]
fn locking_does_not_disturb_the_rest_of_the_host() {
    let mut host = host();
    assert!(host.schedule_task_at_emulated_time("a", at(10)));
    host.lock_shmem();
    assert_eq!(host.next_event_time(), Some(at(10)));
    assert_eq!(*host.execute(at(20)).unwrap().task(), "a");
    assert!(host.shmem_lock_held());
    host.unlock_shmem();
    assert_eq!(host.event_id_counter().peek(), 1);
}

#[test]
fn random_bytes_follow_from_the_seed() {
    let mut host = host();
    let mut first = vec![0u8; 16];
    host.rng_next_n_bytes(&mut first);
    assert_eq!(
        first,
        vec![155, 194, 3, 111, 127, 208, 197, 207, 141, 224, 63, 150, 50, 65, 66, 191]
    );
    let mut second = vec![0u8; 5];
    host.rng_next_n_bytes(&mut second);
    assert_eq!(second, vec![32, 245, 170, 87, 87]);
    let mut third = vec![0u8; 3];
    host.rng_next_n_bytes(&mut third);
    assert_eq!(third, vec![159, 17, 8]);
    let mut none: Vec<u8> = Vec::new();
    host.rng_next_n_bytes(&mut none);
    assert!(none.is_empty());
}

#[test]
fn hosts_with_the_same_seed_draw_the_same_bytes() {
    let mut one = host();
    let mut two = host();
    let mut other_params = parameters();
    other_params.node_seed = 42;
    let mut other: Host<&'static str> = Host::new(other_params, 1000);
    for len in [1usize, 8, 13, 64] {
        let mut a = vec![0u8; len];
        let mut b = vec![0xffu8; len];
        one.rng_next_n_bytes(&mut a);
        two.rng_next_n_bytes(&mut b);
        assert_eq!(a, b);
    }
    let mut a = vec![0u8; 16];
    let mut c = vec![0u8; 16];
    host().rng_next_n_bytes(&mut a);
    other.rng_next_n_bytes(&mut c);
    assert_ne!(a, c);
    assert_eq!(
        c,
        vec![159, 104, 118, 68, 79, 77, 118, 208, 145, 55, 111, 87, 116, 65, 158, 81]
    );
}

#[test]
fn random_mut_hands_out_the_generator_of_the_host() {
    let mut host = host();
    let word = host.random_mut().next_u64();
    assert_eq!(word.to_le_bytes(), [155, 194, 3, 111, 127, 208, 197, 207]);
    let mut rest = vec![0u8; 8];
    host.rng_next_n_bytes(&mut rest);
    assert_eq!(rest, vec![141, 224, 63, 150, 50, 65, 66, 191]);
}
