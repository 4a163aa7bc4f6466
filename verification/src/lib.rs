//! EggOS: the verified core of a dual-kernel x86_64 system (a VMX host kernel
//! and a security kernel), with its bootloader's ELF parsing.

pub mod common;
pub mod security;
pub mod kernel;
pub mod host;
pub mod bootloader;
