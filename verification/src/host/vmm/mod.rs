//! Virtual CPUs of guest domains, VM-exit dispatch and VMX set-up values.
use vstd::prelude::*;

pub mod vmexit;
pub mod vmx;

verus! {

/// General-purpose registers of a guest.
#[derive(Debug, Clone, Copy)]
pub struct GuestRegisters {
    pub rax: u64,
    pub rbx: u64,
    pub rcx: u64,
    pub rdx: u64,
    pub rsi: u64,
    pub rdi: u64,
    pub rbp: u64,
    pub r8: u64,
    pub r9: u64,
    pub r10: u64,
    pub r11: u64,
    pub r12: u64,
    pub r13: u64,
    pub r14: u64,
    pub r15: u64,
}

impl GuestRegisters {
    /// All registers zero.
    pub open spec fn is_zero(self) -> bool {
        &&& self.rax == 0 && self.rbx == 0 && self.rcx == 0 && self.rdx == 0
        &&& self.rsi == 0 && self.rdi == 0 && self.rbp == 0
        &&& self.r8 == 0 && self.r9 == 0 && self.r10 == 0 && self.r11 == 0
        &&& self.r12 == 0 && self.r13 == 0 && self.r14 == 0 && self.r15 == 0
    }
}

impl Default for GuestRegisters {
    fn default() -> (r: GuestRegisters)
        ensures
            r.is_zero(),
    {
        GuestRegisters {
            rax: 0,
            rbx: 0,
            rcx: 0,
            rdx: 0,
            rsi: 0,
            rdi: 0,
            rbp: 0,
            r8: 0,
            r9: 0,
            r10: 0,
            r11: 0,
            r12: 0,
            r13: 0,
            r14: 0,
            r15: 0,
        }
    }
}

/// A virtual CPU of a guest domain.
pub struct VCpu {
    pub id: u32,
    pub registers: GuestRegisters,
}

/// The value of the register that `get_reg` addresses by `index`: 0 to 3 are
/// RAX, RBX, RCX and RDX; any other index reads as zero.
pub open spec fn reg_value(regs: GuestRegisters, index: u8) -> u64 {
    if index == 0 {
        regs.rax
    } else if index == 1 {
        regs.rbx
    } else if index == 2 {
        regs.rcx
    } else if index == 3 {
        regs.rdx
    } else {
        0
    }
}

/// The registers after `set_reg` writes `val` at `index`; indices above 3
/// leave them unchanged.
pub open spec fn regs_with(regs: GuestRegisters, index: u8, val: u64) -> GuestRegisters {
    if index == 0 {
        GuestRegisters { rax: val, ..regs }
    } else if index == 1 {
        GuestRegisters { rbx: val, ..regs }
    } else if index == 2 {
        GuestRegisters { rcx: val, ..regs }
    } else if index == 3 {
        GuestRegisters { rdx: val, ..regs }
    } else {
        regs
    }
}

impl VCpu {
    /// A vCPU with all registers zero.
    pub fn new(id: u32) -> (r: VCpu)
        ensures
            r.id == id,
            r.registers.is_zero(),
    {
        VCpu { id, registers: GuestRegisters::default() }
    }

    /// Reads register `index` (RAX, RBX, RCX, RDX for 0 to 3; zero otherwise).
    pub fn get_reg(&self, index: u8) -> (r: u64)
        ensures
            r == reg_value(self.registers, index),
    {
        match index {
            0 => self.registers.rax,
            1 => self.registers.rbx,
            2 => self.registers.rcx,
            3 => self.registers.rdx,
            _ => 0,
        }
    }

    /// Writes register `index` (RAX, RBX, RCX, RDX for 0 to 3; ignored
    /// otherwise).
    pub fn set_reg(&mut self, index: u8, val: u64)
        ensures
            final(self).id == old(self).id,
            final(self).registers == regs_with(old(self).registers, index, val),
    {
        match index {
            0 => self.registers.rax = val,
            1 => self.registers.rbx = val,
            2 => self.registers.rcx = val,
            3 => self.registers.rdx = val,
            _ => {},
        }
    }
}

/// Reading back a register that was just written gives the written value
/// for the four addressable registers, and zero for any other index; the
/// other addressable registers are untouched.
pub proof fn lemma_set_then_get(regs: GuestRegisters, index: u8, val: u64, other: u8)
    ensures
        reg_value(regs_with(regs, index, val), index) == (if index <= 3 { val } else { 0 }),
        other != index ==> reg_value(regs_with(regs, index, val), other) == reg_value(regs, other),
{
}

} // verus!
