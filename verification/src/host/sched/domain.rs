//! Guest domains scheduled by the host kernel.
use vstd::prelude::*;
use crate::host::vmm::VCpu;

verus! {

/// Identifier of a guest domain.
#[derive(Debug, Clone, Copy, PartialEq, Eq, Structural)]
pub struct DomainId(pub u32);

/// Scheduling state of a guest domain.
#[derive(Debug, Clone, Copy, PartialEq, Eq, Structural)]
pub enum DomainState {
    Ready,
    Running,
    Paused,
    Halted,
}

/// A hardware-isolated guest domain with its vCPU and time slice.
pub struct Domain {
    pub id: DomainId,
    pub name: &'static str,
    pub state: DomainState,
    pub vcpu: VCpu,
    pub time_slice_ticks: u32,
    pub remaining_ticks: u32,
}

impl Domain {
    /// A ready domain with a full time slice.
    pub fn new(id: DomainId, name: &'static str, vcpu: VCpu, time_slice_ticks: u32) -> (r: Domain)
        ensures
            r == (Domain {
                id,
                name,
                state: DomainState::Ready,
                vcpu,
                time_slice_ticks,
                remaining_ticks: time_slice_ticks,
            }),
    {
        Domain {
            id,
            name,
            state: DomainState::Ready,
            vcpu,
            time_slice_ticks,
            remaining_ticks: time_slice_ticks,
        }
    }

    /// Refills the time slice.
    pub fn reset_quantum(&mut self)
        ensures
            *final(self) == (Domain { remaining_ticks: old(self).time_slice_ticks, ..*old(self) }),
    {
        self.remaining_ticks = self.time_slice_ticks;
    }
}

} // verus!
