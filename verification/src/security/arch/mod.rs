//! The x86_64 descriptor tables of the security kernel.

pub mod gdt;
pub mod idt;
