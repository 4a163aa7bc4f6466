//! ACPI power management: the power button enable bit and soft-off (S5).
use vstd::prelude::*;

verus! {

/// Size of an ACPI table header.
pub const ACPI_HEADER_SIZE: u32 = 36;

/// The PM1 control value that enters sleep state S5 (soft off): `SLP_TYPa`
/// 5 in bits 10 to 12 and `SLP_EN` (bit 13).
pub const SLP_S5: u16 = 0x3400;

/// The power button enable bit of the PM1 enable register.
pub const PWRBTN_EN: u16 = 0x100;

/// Signature of the fixed ACPI description table.
pub open spec fn facp_signature() -> Seq<u8> {
    seq![0x46u8, 0x41u8, 0x43u8, 0x50u8]
}

/// The PM1a enable register: two bytes past the PM1a event block.
pub fn power_button_enable_port(pm1a_evt_blk: u16) -> (r: u16)
    requires
        pm1a_evt_blk + 2 <= u16::MAX,
    ensures
        r == pm1a_evt_blk + 2,
{
    pm1a_evt_blk + 2
}

/// The PM1a enable register value with the power button enabled.
pub fn power_button_enabled(current_val: u16) -> (r: u16)
    ensures
        r == current_val | PWRBTN_EN,
{
    current_val | PWRBTN_EN
}

/// Number of 32-bit table pointers in an RSDT of `length` bytes.
pub fn rsdt_entry_count(length: u32) -> (r: u32)
    requires
        length >= ACPI_HEADER_SIZE,
    ensures
        r == (length - ACPI_HEADER_SIZE) / 4,
{
    (length - ACPI_HEADER_SIZE) / 4
}

/// Index of the first table with signature "FACP" (the FADT), if any.
pub fn find_fadt(signatures: &[[u8; 4]]) -> (r: Option<usize>)
    ensures
        match r {
            Some(i) => i < signatures@.len() && signatures@[i as int]@ == facp_signature() && forall|
                j: int,
            | 0 <= j < i ==> (#[trigger] signatures@[j])@ != facp_signature(),
            None => forall|j: int|
                0 <= j < signatures@.len() ==> (#[trigger] signatures@[j])@ != facp_signature(),
        },
{
    let mut i: usize = 0;
    while i < signatures.len()
        invariant
            0 <= i <= signatures@.len(),
            forall|j: int| 0 <= j < i ==> (#[trigger] signatures@[j])@ != facp_signature(),
        decreases signatures@.len() - i,
    {
        let sig = signatures[i];
        if sig[0] == 0x46 && sig[1] == 0x41 && sig[2] == 0x43 && sig[3] == 0x50 {
            assert(sig@ =~= facp_signature());
            return Some(i);
        }
        assert(sig@ != facp_signature()) by {
            if sig@ == facp_signature() {
                assert(sig@[0] == 0x46u8);
            }
        }
        i = i + 1;
    }
    None
}

/// The soft-off command: the S5 value for the PM1a control port, unless the
/// FADT gave no PM1a control block.
pub fn shutdown_command(pm1a_cnt: u32) -> (r: Option<(u16, u16)>)
    ensures
        r == (if pm1a_cnt != 0 {
            Some((pm1a_cnt as u16, SLP_S5))
        } else {
            None::<(u16, u16)>
        }),
{
    if pm1a_cnt != 0 {
        Some((pm1a_cnt as u16, SLP_S5))
    } else {
        None
    }
}

} // verus!
