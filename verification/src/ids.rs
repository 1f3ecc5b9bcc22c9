//! The numbers by which hosts and their processes are told apart.

use vstd::prelude::*;

verus! {

/// The number of a host within one simulation.
#[derive(Clone, Copy, Debug, PartialEq, Eq, Structural, PartialOrd, Ord, Hash)]
pub struct HostId(u32);

impl View for HostId {
    type V = nat;

    closed spec fn view(&self) -> nat {
        self.0 as nat
    }
}

impl HostId {
    /// Two hosts with the same number are the same host.
    pub proof fn lemma_view_injective(a: HostId, b: HostId)
        requires
            a@ == b@,
        ensures
            a == b,
    {
    }

    /// The number of a host fits in 32 bits.
    pub proof fn lemma_view_bounded(self)
        ensures
            self@ <= u32::MAX,
    {
    }

    /// The host with number `id`.
    pub fn new(id: u32) -> (host: HostId)
        ensures
            host@ == id,
    {
        HostId(id)
    }

    /// The number of the host.
    pub fn as_u32(&self) -> (id: u32)
        ensures
            id == self@,
    {
        self.0
    }
}

/// The number of a process on its host.
#[derive(Clone, Copy, Debug, PartialEq, Eq, Structural, PartialOrd, Ord, Hash)]
pub struct ProcessId(u32);

impl View for ProcessId {
    type V = nat;

    closed spec fn view(&self) -> nat {
        self.0 as nat
    }
}

impl ProcessId {
    /// Two processes with the same number are the same process.
    pub proof fn lemma_view_injective(a: ProcessId, b: ProcessId)
        requires
            a@ == b@,
        ensures
            a == b,
    {
    }

    /// The number of a process fits in 32 bits.
    pub proof fn lemma_view_bounded(self)
        ensures
            self@ <= u32::MAX,
    {
    }

    /// The process with number `id`.
    pub fn new(id: u32) -> (process: ProcessId)
        ensures
            process@ == id,
    {
        ProcessId(id)
    }

    /// The number of the process.
    pub fn as_u32(&self) -> (id: u32)
        ensures
            id == self@,
    {
        self.0
    }
}

} // verus!
