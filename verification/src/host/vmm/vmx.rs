//! Values that VMX enabling and VMCS set-up write to the processor.
use vstd::prelude::*;

verus! {

/// CR4 bit that enables VMX operation.
pub const CR4_VMXE: u64 = 0x2000;

pub const GUEST_ES_SELECTOR: u32 = 0x00000800;
pub const GUEST_CS_SELECTOR: u32 = 0x00000802;
pub const GUEST_SS_SELECTOR: u32 = 0x00000804;
pub const GUEST_DS_SELECTOR: u32 = 0x00000806;
pub const GUEST_FS_SELECTOR: u32 = 0x00000808;
pub const GUEST_GS_SELECTOR: u32 = 0x0000080A;
pub const GUEST_LDTR_SELECTOR: u32 = 0x0000080C;
pub const GUEST_TR_SELECTOR: u32 = 0x0000080E;
pub const EPT_POINTER: u32 = 0x0000201A;
pub const PIN_BASED_VM_EXEC_CONTROL: u32 = 0x00004000;
pub const CPU_BASED_VM_EXEC_CONTROL: u32 = 0x00004002;
pub const EXCEPTION_BITMAP: u32 = 0x00004004;
pub const VM_EXIT_CONTROLS: u32 = 0x0000400C;
pub const VM_ENTRY_CONTROLS: u32 = 0x00004012;
pub const GUEST_CR0: u32 = 0x00006800;
pub const GUEST_CR3: u32 = 0x00006802;
pub const GUEST_CR4: u32 = 0x00006804;
pub const GUEST_RSP: u32 = 0x0000681C;
pub const GUEST_RIP: u32 = 0x0000681E;
pub const GUEST_RFLAGS: u32 = 0x00006820;
pub const HOST_CR0: u32 = 0x00006C00;
pub const HOST_CR3: u32 = 0x00006C02;
pub const HOST_CR4: u32 = 0x00006C04;
pub const HOST_RSP: u32 = 0x00006C14;
pub const HOST_RIP: u32 = 0x00006C16;

/// A 64-bit MSR value from its EDX (high) and EAX (low) halves.
pub fn msr_from_parts(high: u32, low: u32) -> (r: u64)
    ensures
        r == high * 0x1_0000_0000 + low,
{
    let r = ((high as u64) << 32) | (low as u64);
    let h = high as u64;
    let l = low as u64;
    assert(((h << 32) | l) == h * 0x1_0000_0000 + l) by (bit_vector)
        requires
            h <= 0xFFFF_FFFF,
            l <= 0xFFFF_FFFF,
    ;
    r
}

/// The EAX (low) and EDX (high) halves of a 64-bit MSR value.
pub fn msr_to_parts(val: u64) -> (r: (u32, u32))
    ensures
        r.0 == val % 0x1_0000_0000,
        r.1 == val / 0x1_0000_0000,
{
    let low = (val & 0xFFFF_FFFF) as u32;
    let high = (val >> 32) as u32;
    assert((val & 0xFFFF_FFFF) == val % 0x1_0000_0000 && (val >> 32) == val / 0x1_0000_0000)
        by (bit_vector);
    (low, high)
}

/// The VMCS revision identifier: the low 32 bits of `IA32_VMX_BASIC`.
pub fn vmx_revision_id(vmx_basic: u64) -> (r: u32)
    ensures
        r == vmx_basic % 0x1_0000_0000,
{
    let masked = vmx_basic & 0xFFFF_FFFF;
    assert(masked == vmx_basic % 0x1_0000_0000) by (bit_vector)
        requires
            masked == vmx_basic & 0xFFFF_FFFF,
    ;
    masked as u32
}

/// CR4 with VMX operation enabled.
pub fn cr4_with_vmxe(cr4: u64) -> (r: u64)
    ensures
        r == cr4 | CR4_VMXE,
{
    cr4 | CR4_VMXE
}

/// The value to write to `IA32_FEATURE_CONTROL`, if any: an unlocked MSR
/// gets its lock bit (0) and VMX-outside-SMX bit (2) set; a locked one is
/// left alone.
pub fn feature_control_update(feature_control: u64) -> (r: Option<u64>)
    ensures
        r == (if feature_control & 1 == 0 {
            Some(feature_control | 5)
        } else {
            None::<u64>
        }),
{
    if (feature_control & 1) == 0 {
        let v = feature_control | 1 | 4;
        assert(v == feature_control | 5) by (bit_vector)
            requires
                v == feature_control | 1 | 4,
        ;
        Some(v)
    } else {
        None
    }
}

/// The VMCS field writes, in order, that set up a flat 64-bit guest with
/// paging and EPT, the host's exit state, and the execution, exception and
/// entry/exit controls.
pub open spec fn vmcs_setup_sequence(
    guest_entry_rip: u64,
    guest_stack_rsp: u64,
    guest_page_table_cr3: u64,
    ept_pointer_phys: u64,
    host_vmexit_rip: u64,
    host_stack_rsp: u64,
    host_cr0: u64,
    host_cr3: u64,
    host_cr4: u64,
) -> Seq<(u32, u64)> {
    seq![
        (GUEST_CS_SELECTOR, 0x08u64),
        (GUEST_DS_SELECTOR, 0x10u64),
        (GUEST_ES_SELECTOR, 0x10u64),
        (GUEST_SS_SELECTOR, 0x10u64),
        (GUEST_FS_SELECTOR, 0x00u64),
        (GUEST_GS_SELECTOR, 0x00u64),
        (GUEST_LDTR_SELECTOR, 0x00u64),
        (GUEST_TR_SELECTOR, 0x18u64),
        (GUEST_RIP, guest_entry_rip),
        (GUEST_RSP, guest_stack_rsp),
        (GUEST_RFLAGS, 0x02u64),
        (GUEST_CR0, 0x8001003Bu64),
        (GUEST_CR3, guest_page_table_cr3),
        (GUEST_CR4, 0x20u64),
        (HOST_RIP, host_vmexit_rip),
        (HOST_RSP, host_stack_rsp),
        (HOST_CR0, host_cr0),
        (HOST_CR3, host_cr3),
        (HOST_CR4, host_cr4),
        (PIN_BASED_VM_EXEC_CONTROL, 0u64),
        (CPU_BASED_VM_EXEC_CONTROL, 0x80000000u64),
        (EPT_POINTER, ept_pointer_phys),
        (EXCEPTION_BITMAP, 0x4100u64),
        (VM_EXIT_CONTROLS, 0x8200u64),
        (VM_ENTRY_CONTROLS, 0x200u64),
    ]
}

/// The VMCS field writes of `vmcs_setup_sequence`, for the loader to issue
/// in order; `host_cr0` and `host_cr4` are the host's current control
/// registers.
pub fn vmcs_setup_writes(
    guest_entry_rip: u64,
    guest_stack_rsp: u64,
    guest_page_table_cr3: u64,
    ept_pointer_phys: u64,
    host_vmexit_rip: u64,
    host_stack_rsp: u64,
    host_cr0: u64,
    host_cr3: u64,
    host_cr4: u64,
) -> (r: Vec<(u32, u64)>)
    ensures
        r@ == vmcs_setup_sequence(
            guest_entry_rip,
            guest_stack_rsp,
            guest_page_table_cr3,
            ept_pointer_phys,
            host_vmexit_rip,
            host_stack_rsp,
            host_cr0,
            host_cr3,
            host_cr4,
        ),
{
    let mut w: Vec<(u32, u64)> = Vec::new();
    w.push((GUEST_CS_SELECTOR, 0x08));
    w.push((GUEST_DS_SELECTOR, 0x10));
    w.push((GUEST_ES_SELECTOR, 0x10));
    w.push((GUEST_SS_SELECTOR, 0x10));
    w.push((GUEST_FS_SELECTOR, 0x00));
    w.push((GUEST_GS_SELECTOR, 0x00));
    w.push((GUEST_LDTR_SELECTOR, 0x00));
    w.push((GUEST_TR_SELECTOR, 0x18));
    w.push((GUEST_RIP, guest_entry_rip));
    w.push((GUEST_RSP, guest_stack_rsp));
    w.push((GUEST_RFLAGS, 0x02));
    w.push((GUEST_CR0, 0x8001003B));
    w.push((GUEST_CR3, guest_page_table_cr3));
    w.push((GUEST_CR4, 0x20));
    w.push((HOST_RIP, host_vmexit_rip));
    w.push((HOST_RSP, host_stack_rsp));
    w.push((HOST_CR0, host_cr0));
    w.push((HOST_CR3, host_cr3));
    w.push((HOST_CR4, host_cr4));
    w.push((PIN_BASED_VM_EXEC_CONTROL, 0));
    w.push((CPU_BASED_VM_EXEC_CONTROL, 0x80000000));
    w.push((EPT_POINTER, ept_pointer_phys));
    w.push((EXCEPTION_BITMAP, 0x4100));
    w.push((VM_EXIT_CONTROLS, 0x8200));
    w.push((VM_ENTRY_CONTROLS, 0x200));
    assert(w@ =~= vmcs_setup_sequence(
        guest_entry_rip,
        guest_stack_rsp,
        guest_page_table_cr3,
        ept_pointer_phys,
        host_vmexit_rip,
        host_stack_rsp,
        host_cr0,
        host_cr3,
        host_cr4,
    ));
    w
}

/// The MSR halves recombine to the value they were split from.
pub proof fn lemma_msr_roundtrip(val: u64)
    ensures
        (val / 0x1_0000_0000) * 0x1_0000_0000 + val % 0x1_0000_0000 == val,
{
}

} // verus!
