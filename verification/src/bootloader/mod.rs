//! The UEFI bootloader's platform-independent part: reading the host
//! kernel's ELF image into a load plan, and the kernel stack location.

pub mod elf;
pub mod memory;
