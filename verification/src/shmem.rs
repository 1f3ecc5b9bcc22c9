//! The memory that a host shares with the code that runs inside its managed
//! programs, and the lock that guards part of it.
//!
//! The block belongs to the host from the host's first moment to its last.
//! Part of the block is protected: it can be read and written through a
//! [`ShmemGuard`] only, and there is at most one guard for a block at any
//! time. Locking the block takes the protected part out of it and into the
//! guard; unlocking puts it back, with whatever the holder of the guard has
//! made of it. So nothing can touch the protected part without the guard,
//! and a block that is locked cannot be locked again.

use vstd::prelude::*;
use crate::ids::HostId;
use crate::time::EmulatedTime;
use crate::time::SimulationTime;

verus! {

/// The protected part of a host's shared memory.
#[derive(Clone, Copy, Debug, PartialEq, Eq, Structural)]
pub struct HostShmemProtected {
    /// CPU time that the managed programs have used and that the simulation
    /// has not accounted for yet.
    pub unapplied_cpu_latency: SimulationTime,
    /// The instant up to which the managed programs may run ahead.
    pub max_runahead_time: EmulatedTime,
}

/// What a [`HostShmemProtected`] stands for. Times are in nanoseconds.
pub struct ProtectedModel {
    /// CPU time that the managed programs have used and that the simulation
    /// has not accounted for yet.
    pub unapplied_cpu_latency: nat,
    /// The instant up to which the managed programs may run ahead.
    pub max_runahead_time: nat,
}

impl View for HostShmemProtected {
    type V = ProtectedModel;

    open spec fn view(&self) -> ProtectedModel {
        ProtectedModel {
            unapplied_cpu_latency: self.unapplied_cpu_latency@,
            max_runahead_time: self.max_runahead_time@,
        }
    }
}

/// What a [`HostShmem`] stands for. Times are in nanoseconds.
pub struct HostShmemModel {
    /// The number of the host that the block belongs to.
    pub host_id: nat,
    /// Whether system calls that do not block take simulated time.
    pub model_unblocked_syscall_latency: bool,
    /// How much unaccounted CPU time may build up.
    pub max_unapplied_cpu_latency: nat,
    /// The simulated time that a system call takes that does not block.
    pub unblocked_syscall_latency: nat,
    /// The simulated time that a call into the vDSO takes.
    pub unblocked_vdso_latency: nat,
    /// The protected part, where the block is not locked.
    pub protected: Option<ProtectedModel>,
}

impl HostShmemModel {
    /// Whether a guard for the block is out.
    pub open spec fn is_locked(self) -> bool {
        self.protected is None
    }

    /// The block after it was locked.
    pub open spec fn locked(self) -> HostShmemModel {
        HostShmemModel { protected: None, ..self }
    }

    /// A block that was just made for host `host_id`: it is not locked, no
    /// CPU time is unaccounted for, and the programs may not run ahead.
    pub open spec fn fresh(
        host_id: nat,
        model_unblocked_syscall_latency: bool,
        max_unapplied_cpu_latency: nat,
        unblocked_syscall_latency: nat,
        unblocked_vdso_latency: nat,
    ) -> HostShmemModel {
        HostShmemModel {
            host_id,
            model_unblocked_syscall_latency,
            max_unapplied_cpu_latency,
            unblocked_syscall_latency,
            unblocked_vdso_latency,
            protected: Some(ProtectedModel { unapplied_cpu_latency: 0, max_runahead_time: 0 }),
        }
    }

    /// The block after the guard that held `protected` was given back.
    pub open spec fn unlocked(self, protected: ProtectedModel) -> HostShmemModel {
        HostShmemModel { protected: Some(protected), ..self }
    }
}

/// What a [`ShmemGuard`] stands for.
pub struct ShmemGuardModel {
    /// The number of the host whose block the guard was taken on.
    pub host_id: nat,
    /// The protected part of that block, as the holder sees it.
    pub protected: ProtectedModel,
}

impl ShmemGuardModel {
    /// Whether this can be the guard that is out for `block`.
    pub open spec fn guards(self, block: HostShmemModel) -> bool {
        block.is_locked() && self.host_id == block.host_id
    }
}

/// The block of memory that a host shares with its managed programs.
pub struct HostShmem {
    host_id: HostId,
    model_unblocked_syscall_latency: bool,
    max_unapplied_cpu_latency: SimulationTime,
    unblocked_syscall_latency: SimulationTime,
    unblocked_vdso_latency: SimulationTime,
    protected: Option<HostShmemProtected>,
}

impl View for HostShmem {
    type V = HostShmemModel;

    closed spec fn view(&self) -> HostShmemModel {
        HostShmemModel {
            host_id: self.host_id@,
            model_unblocked_syscall_latency: self.model_unblocked_syscall_latency,
            max_unapplied_cpu_latency: self.max_unapplied_cpu_latency@,
            unblocked_syscall_latency: self.unblocked_syscall_latency@,
            unblocked_vdso_latency: self.unblocked_vdso_latency@,
            protected: match self.protected {
                Some(protected) => Some(protected@),
                None => None,
            },
        }
    }
}

/// The token that gives its holder the protected part of a locked block.
pub struct ShmemGuard {
    host_id: HostId,
    protected: HostShmemProtected,
}

impl View for ShmemGuard {
    type V = ShmemGuardModel;

    closed spec fn view(&self) -> ShmemGuardModel {
        ShmemGuardModel { host_id: self.host_id@, protected: self.protected@ }
    }
}

impl ShmemGuard {
    /// The protected part, as it stands.
    pub fn protected(&self) -> (protected: HostShmemProtected)
        ensures
            protected@ == self@.protected,
    {
        self.protected
    }

    /// Writes the protected part.
    pub fn set_protected(&mut self, protected: HostShmemProtected)
        ensures
            final(self)@ == (ShmemGuardModel { protected: protected@, ..old(self)@ }),
    {
        self.protected = protected;
    }
}

impl HostShmem {
    /// The block of host `host_id`, unlocked. No CPU time is unaccounted
    /// for, and the programs may not run ahead at all.
    pub fn new(
        host_id: HostId,
        model_unblocked_syscall_latency: bool,
        max_unapplied_cpu_latency: SimulationTime,
        unblocked_syscall_latency: SimulationTime,
        unblocked_vdso_latency: SimulationTime,
    ) -> (block: HostShmem)
        ensures
            block@ == HostShmemModel::fresh(
                host_id@,
                model_unblocked_syscall_latency,
                max_unapplied_cpu_latency@,
                unblocked_syscall_latency@,
                unblocked_vdso_latency@,
            ),
    {
        HostShmem {
            host_id,
            model_unblocked_syscall_latency,
            max_unapplied_cpu_latency,
            unblocked_syscall_latency,
            unblocked_vdso_latency,
            protected: Some(
                HostShmemProtected {
                    unapplied_cpu_latency: SimulationTime::zero(),
                    max_runahead_time: EmulatedTime::minimum(),
                },
            ),
        }
    }

    /// The host that the block belongs to.
    pub fn host_id(&self) -> (host_id: HostId)
        ensures
            host_id@ == self@.host_id,
    {
        self.host_id
    }

    /// Whether system calls that do not block take simulated time.
    pub fn model_unblocked_syscall_latency(&self) -> (b: bool)
        ensures
            b == self@.model_unblocked_syscall_latency,
    {
        self.model_unblocked_syscall_latency
    }

    /// How much unaccounted CPU time may build up.
    pub fn max_unapplied_cpu_latency(&self) -> (t: SimulationTime)
        ensures
            t@ == self@.max_unapplied_cpu_latency,
    {
        self.max_unapplied_cpu_latency
    }

    /// The simulated time that a system call takes that does not block.
    pub fn unblocked_syscall_latency(&self) -> (t: SimulationTime)
        ensures
            t@ == self@.unblocked_syscall_latency,
    {
        self.unblocked_syscall_latency
    }

    /// The simulated time that a call into the vDSO takes.
    pub fn unblocked_vdso_latency(&self) -> (t: SimulationTime)
        ensures
            t@ == self@.unblocked_vdso_latency,
    {
        self.unblocked_vdso_latency
    }

    /// Whether a guard for the block is out.
    pub fn is_locked(&self) -> (locked: bool)
        ensures
            locked == self@.is_locked(),
    {
        self.protected.is_none()
    }

    /// Locks the block and hands out its guard. The block must not be
    /// locked: a second lock would never be granted.
    pub fn lock(&mut self) -> (guard: ShmemGuard)
        requires
            !old(self)@.is_locked(),
        ensures
            final(self)@ == old(self)@.locked(),
            guard@.guards(final(self)@),
            Some(guard@.protected) == old(self)@.protected,
    {
        let protected = self.protected;
        self.protected = None;
        ShmemGuard { host_id: self.host_id, protected: protected.unwrap() }
    }

    /// Locks the block and hands out its guard, or hands out `None` and
    /// leaves the block alone where it is locked already.
    pub fn try_lock(&mut self) -> (guard: Option<ShmemGuard>)
        ensures
            match guard {
                Some(g) => {
                    &&& !old(self)@.is_locked()
                    &&& final(self)@ == old(self)@.locked()
                    &&& g@.guards(final(self)@)
                    &&& Some(g@.protected) == old(self)@.protected
                },
                None => old(self)@.is_locked() && final(self)@ == old(self)@,
            },
    {
        if self.protected.is_none() {
            None
        } else {
            Some(self.lock())
        }
    }

    /// Takes the guard back and unlocks the block. The protected part is
    /// then what the holder of the guard has made of it.
    pub fn unlock(&mut self, guard: ShmemGuard)
        requires
            guard@.guards(old(self)@),
        ensures
            final(self)@ == old(self)@.unlocked(guard@.protected),
            !final(self)@.is_locked(),
    {
        self.protected = Some(guard.protected);
    }
}

} // verus!
