//! Boot-time structures shared by the bootloader, the host kernel and the
//! security kernel.
use vstd::prelude::*;

verus! {

/// Magic value ("EGG_OS_!" in ASCII) that tags a valid boot-information block.
pub const EGGOS_MAGIC: u64 = 0x4547475f4f535f21;

/// One entry of the physical memory map handed over by the bootloader.
#[derive(Debug, Copy, Clone)]
pub struct MemoryMapEntry {
    pub phys_addr: u64,
    pub page_count: u64,
    pub entry_type: u32,
    pub _padding: u32,
}

/// Boot information block; the memory map is given by its physical address.
#[derive(Debug, Copy, Clone)]
pub struct BootInfo {
    pub magic: u64,
    pub memory_map_addr: u64,
    pub memory_map_len: usize,
    pub virtual_kernel_addr: u64,
    pub virtual_kernel_size: u64,
}

/// A module (kernel image or ramdisk) loaded by the bootloader.
#[derive(Debug, Clone, Copy)]
pub struct ModuleInfo {
    pub base_address: u64,
    pub size: u64,
}

/// The bootloader's answer to a modules request: `module_count` entries
/// starting at the physical address `modules_addr`.
#[derive(Debug, Clone, Copy)]
pub struct ModulesResponse {
    pub module_count: usize,
    pub modules_addr: u64,
}

/// A request for boot modules, answered by the bootloader in place.
#[derive(Debug, Clone, Copy)]
pub struct ModulesRequest {
    pub response: Option<ModulesResponse>,
}

impl ModulesRequest {
    /// An unanswered request.
    pub fn new() -> (r: Self)
        ensures
            r.response is None,
    {
        Self { response: None }
    }

    /// The bootloader's answer, if any.
    pub fn response(&self) -> (r: Option<&ModulesResponse>)
        ensures
            r == match self.response {
                Some(resp) => Some(&resp),
                None => None::<&ModulesResponse>,
            },
    {
        self.response.as_ref()
    }
}

/// What the host kernel takes from the boot modules: module 0 is the guest
/// (virtual) kernel, module 1 the offline application ramdisk.
#[derive(Debug, Clone, Copy, PartialEq, Eq)]
pub struct BootModules {
    pub guest_entry_addr: u64,
    pub app_ramdisk_addr: u64,
    pub app_ramdisk_size: u64,
}

/// Picks the guest entry point and the ramdisk out of the boot modules; a
/// missing module leaves its fields at zero.
pub fn select_boot_modules(modules: &[ModuleInfo]) -> (r: BootModules)
    ensures
        r.guest_entry_addr == (if modules@.len() > 0 { modules@[0].base_address } else { 0 }),
        r.app_ramdisk_addr == (if modules@.len() > 1 { modules@[1].base_address } else { 0 }),
        r.app_ramdisk_size == (if modules@.len() > 1 { modules@[1].size } else { 0 }),
{
    let mut r = BootModules { guest_entry_addr: 0, app_ramdisk_addr: 0, app_ramdisk_size: 0 };
    if modules.len() > 0 {
        r.guest_entry_addr = modules[0].base_address;
    }
    if modules.len() > 1 {
        r.app_ramdisk_addr = modules[1].base_address;
        r.app_ramdisk_size = modules[1].size;
    }
    r
}

} // verus!
