//! VM-exit dispatch: what the host must do for each exit reason.
use vstd::prelude::*;
use crate::host::vmm::VCpu;

verus! {

pub const EXIT_REASON_EXCEPTION_NMI: u64 = 0;
pub const EXIT_REASON_CPUID: u64 = 10;
pub const EXIT_REASON_VMCALL: u64 = 18;
pub const EXIT_REASON_CR_ACCESS: u64 = 28;
pub const EXIT_REASON_EPT_VIOLATION: u64 = 48;

pub const GUEST_RIP: u32 = 0x0000681E;
pub const GUEST_RSP: u32 = 0x0000681C;
pub const GUEST_CR2: u32 = 0x00006822;
pub const VM_EXIT_INSTRUCTION_LEN: u32 = 0x0000440C;
pub const EXIT_QUALIFICATION: u32 = 0x00006400;

/// What the host does about a VM exit.
#[derive(Debug, Clone, Copy, PartialEq, Eq, Structural)]
pub enum VmExitAction {
    /// A trapped guest exception: report the guest state and stop.
    ReportException,
    /// An access to unmapped guest-physical memory: report it and stop.
    ReportEptViolation,
    /// A handled instruction (VMCALL, CPUID, control-register access): step
    /// the guest past it.
    AdvanceRip,
    /// An exit the host does not handle, with its basic reason: stop.
    Unhandled(u64),
}

/// The basic exit reason: bits 0 to 15, without the VM-entry failure flags.
pub open spec fn basic_exit_reason(exit_reason: u64) -> u64 {
    exit_reason & 0xFFFF
}

/// The action for a basic exit reason.
pub open spec fn exit_action(basic: u64) -> VmExitAction {
    if basic == EXIT_REASON_EXCEPTION_NMI {
        VmExitAction::ReportException
    } else if basic == EXIT_REASON_EPT_VIOLATION {
        VmExitAction::ReportEptViolation
    } else if basic == EXIT_REASON_VMCALL || basic == EXIT_REASON_CPUID || basic
        == EXIT_REASON_CR_ACCESS {
        VmExitAction::AdvanceRip
    } else {
        VmExitAction::Unhandled(basic)
    }
}

/// Dispatches a VM exit of the guest on `vcpu` to the action the host must
/// take; the vCPU's registers are left as they are.
pub fn handle_vmexit(vcpu: &mut VCpu, exit_reason: u64) -> (r: VmExitAction)
    ensures
        r == exit_action(basic_exit_reason(exit_reason)),
        final(vcpu).id == old(vcpu).id,
        final(vcpu).registers == old(vcpu).registers,
{
    let basic_reason = exit_reason & 0xFFFF;
    match basic_reason {
        EXIT_REASON_EXCEPTION_NMI => VmExitAction::ReportException,
        EXIT_REASON_EPT_VIOLATION => VmExitAction::ReportEptViolation,
        EXIT_REASON_VMCALL => VmExitAction::AdvanceRip,
        EXIT_REASON_CPUID => VmExitAction::AdvanceRip,
        EXIT_REASON_CR_ACCESS => VmExitAction::AdvanceRip,
        _ => VmExitAction::Unhandled(basic_reason),
    }
}

/// The guest instruction pointer after the instruction that caused the exit.
pub fn advance_guest_rip(current_rip: u64, instruction_len: u64) -> (r: u64)
    requires
        current_rip + instruction_len <= u64::MAX,
    ensures
        r == current_rip + instruction_len,
{
    current_rip + instruction_len
}

/// VM-entry failure flags in the high bits never change the action.
pub proof fn lemma_exit_flags_ignored(exit_reason: u64, flags: u64)
    requires
        flags & 0xFFFF == 0,
    ensures
        exit_action(basic_exit_reason(exit_reason | flags)) == exit_action(
            basic_exit_reason(exit_reason),
        ),
{
    assert((exit_reason | flags) & 0xFFFF == exit_reason & 0xFFFF) by (bit_vector)
        requires
            flags & 0xFFFF == 0,
    ;
}

} // verus!
