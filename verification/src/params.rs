//! What a host is made from, and what does not change about it.

use vstd::prelude::*;
use crate::ids::HostId;
use crate::time::EmulatedTime;
use crate::time::SimulationTime;

verus! {

/// How much a host logs.
#[derive(Clone, Copy, Debug, PartialEq, Eq, Structural, Hash)]
pub enum LogLevel {
    /// Nothing was chosen: the level of the whole simulation holds.
    Unset,
    /// Errors only.
    Error,
    /// Warnings too.
    Warning,
    /// Messages about the course of the simulation too.
    Info,
    /// What helps to find a fault as well.
    Debug,
    /// Everything.
    Trace,
}

/// How a host's network interface picks the socket that sends next.
#[derive(Clone, Copy, Debug, PartialEq, Eq, Structural, Hash)]
pub enum QDiscMode {
    /// The socket whose packet was made first.
    Fifo,
    /// Each socket in turn.
    RoundRobin,
}

/// What a host is made from.
pub struct HostParameters {
    /// The number of the host.
    pub id: HostId,
    /// The seed of the host's random number generator.
    pub node_seed: u64,
    /// The name of the host.
    pub hostname: String,
    /// The node of the network graph that the host is attached to.
    pub node_id: u32,
    /// The host's IPv4 address as a number, its first octet in the most
    /// significant place.
    pub ip_addr: u32,
    /// The instant at which the simulation ends. Nothing happens at or after
    /// it.
    pub sim_end_time: EmulatedTime,
    /// Downstream bandwidth, in bits per second.
    pub requested_bw_down_bits: u64,
    /// Upstream bandwidth, in bits per second.
    pub requested_bw_up_bits: u64,
    /// Speed of the simulated CPU.
    pub cpu_frequency: u64,
    /// Owed CPU delay at or above this is reported in full.
    pub cpu_threshold: Option<SimulationTime>,
    /// Owed CPU delay below the threshold is reported in multiples of this.
    pub cpu_precision: Option<SimulationTime>,
    /// The time between two heartbeats; with `None` the host keeps no
    /// tracker.
    pub heartbeat_interval: Option<SimulationTime>,
    /// The level at which heartbeats are logged.
    pub heartbeat_log_level: LogLevel,
    /// What a heartbeat reports, as a set of flags.
    pub heartbeat_log_info: u32,
    /// How much the host logs.
    pub log_level: LogLevel,
    /// Where packet captures go, if any are made.
    pub pcap_dir: Option<String>,
    /// How many bytes of each packet are captured.
    pub pcap_capture_size: u32,
    /// How the network interface picks the socket that sends next.
    pub qdisc: QDiscMode,
    /// Initial size of a socket's receive buffer, in bytes.
    pub init_sock_recv_buf_size: u64,
    /// Whether receive buffers are sized automatically.
    pub autotune_recv_buf: bool,
    /// Initial size of a socket's send buffer, in bytes.
    pub init_sock_send_buf_size: u64,
    /// Whether send buffers are sized automatically.
    pub autotune_send_buf: bool,
    /// Speed of the timestamp counter of the machine that runs the
    /// simulation.
    pub native_tsc_frequency: u64,
    /// Whether system calls that do not block take simulated time.
    pub model_unblocked_syscall_latency: bool,
    /// How much unaccounted CPU time may build up.
    pub max_unapplied_cpu_latency: SimulationTime,
    /// The simulated time that a system call takes that does not block.
    pub unblocked_syscall_latency: SimulationTime,
    /// The simulated time that a call into the vDSO takes.
    pub unblocked_vdso_latency: SimulationTime,
}

/// What does not change about a host while it lives.
#[derive(Debug, Clone)]
pub struct HostInfo {
    /// The number of the host.
    pub id: HostId,
    /// The name of the host.
    pub name: String,
    /// The host's IPv4 address as a number, its first octet in the most
    /// significant place.
    pub default_ip: u32,
    /// How much the host logs, where that was chosen for this host.
    pub log_level: Option<LogLevel>,
}

/// The first number that a host gives to a process. The numbers below it are
/// kept free.
pub const FIRST_PROCESS_ID: u32 = 1000;

/// The first priority that a host gives to a packet. The priority below it
/// is kept for control packets.
pub const FIRST_PACKET_PRIORITY: u64 = 1;

/// The log level that was chosen for a host, if one was.
pub open spec fn chosen_log_level(level: LogLevel) -> Option<LogLevel> {
    if level == LogLevel::Unset {
        None
    } else {
        Some(level)
    }
}

} // verus!
