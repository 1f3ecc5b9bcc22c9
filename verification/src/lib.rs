//! The execution engine of one simulated host: virtual time, a time-ordered
//! event queue, a CPU delay model, deterministic counters and the locking
//! protocol of the memory that the host shares with its managed programs.

pub mod counter;
pub mod cpu;
pub mod event;
pub mod event_queue;
pub mod host;
pub mod host_model;
pub mod ids;
pub mod params;
pub mod rng;
pub mod shmem;
pub mod time;
pub mod tracker;
