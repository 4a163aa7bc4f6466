//! The interrupt descriptor table: 64-bit interrupt gates for the CPU
//! exceptions the kernel traps.
use vstd::prelude::*;

verus! {

/// Number of IDT entries.
pub const IDT_ENTRIES: usize = 256;

/// Gate options: present, ring 0, 64-bit interrupt gate.
pub const INTERRUPT_GATE_OPTIONS: u16 = 0x8E00;

/// Kernel code segment selector used by the gates.
pub const GATE_SELECTOR: u16 = 0x08;

/// Exception vectors with a registered handler: divide error, double fault,
/// general protection fault and page fault.
pub open spec fn trapped_vectors() -> Seq<usize> {
    seq![0usize, 8usize, 13usize, 14usize]
}

/// One 16-byte IDT gate descriptor.
#[derive(Debug, Clone, Copy, PartialEq, Eq, Structural)]
pub struct IdtEntry {
    pub pointer_low: u16,
    pub gdt_selector: u16,
    pub options: u16,
    pub pointer_middle: u16,
    pub pointer_high: u32,
    pub reserved: u32,
}

/// The descriptor for a handler at `handler`: its address split into 16, 16 and 32
/// bits, the kernel code selector and interrupt-gate options.
pub open spec fn gate_for(handler: u64) -> IdtEntry {
    IdtEntry {
        pointer_low: (handler % 0x1_0000) as u16,
        gdt_selector: GATE_SELECTOR,
        options: INTERRUPT_GATE_OPTIONS,
        pointer_middle: ((handler / 0x1_0000) % 0x1_0000) as u16,
        pointer_high: (handler / 0x1_0000_0000) as u32,
        reserved: 0,
    }
}

/// The handler address that a gate points to.
pub open spec fn gate_target(e: IdtEntry) -> int {
    e.pointer_low + e.pointer_middle * 0x1_0000 + e.pointer_high * 0x1_0000_0000
}

impl IdtEntry {
    /// An empty (not present) gate.
    pub fn missing() -> (r: IdtEntry)
        ensures
            r == (IdtEntry {
                pointer_low: 0,
                gdt_selector: 0,
                options: 0,
                pointer_middle: 0,
                pointer_high: 0,
                reserved: 0,
            }),
    {
        IdtEntry {
            pointer_low: 0,
            gdt_selector: 0,
            options: 0,
            pointer_middle: 0,
            pointer_high: 0,
            reserved: 0,
        }
    }

    /// Points this descriptor at `handler` as a present ring-0 interrupt gate in the
    /// kernel code segment.
    pub fn set_handler(&mut self, handler: u64)
        ensures
            *final(self) == gate_for(handler),
    {
        let low = (handler & 0xFFFF) as u16;
        let middle = ((handler >> 16) & 0xFFFF) as u16;
        let high = (handler >> 32) as u32;
        assert((handler & 0xFFFF) == handler % 0x1_0000 && ((handler >> 16) & 0xFFFF) == (handler
            / 0x1_0000) % 0x1_0000 && (handler >> 32) == handler / 0x1_0000_0000) by (bit_vector);
        self.pointer_low = low;
        self.gdt_selector = GATE_SELECTOR;
        self.options = INTERRUPT_GATE_OPTIONS;
        self.pointer_middle = middle;
        self.pointer_high = high;
        self.reserved = 0;
    }
}

/// A gate points exactly at the handler it was set to.
pub proof fn lemma_gate_targets_handler(handler: u64)
    ensures
        gate_target(gate_for(handler)) == handler,
{
    let lo = handler % 0x1_0000;
    let mid = (handler / 0x1_0000) % 0x1_0000;
    let hi = handler / 0x1_0000_0000;
    assert(handler / 0x1_0000 == mid + 0x1_0000 * hi) by {
        vstd::arithmetic::div_mod::lemma_fundamental_div_mod((handler / 0x1_0000) as int, 0x1_0000);
        vstd::arithmetic::div_mod::lemma_div_denominator(handler as int, 0x1_0000, 0x1_0000);
    }
    vstd::arithmetic::div_mod::lemma_fundamental_div_mod(handler as int, 0x1_0000);
}

/// The interrupt descriptor table.
pub struct Idt {
    entries: [IdtEntry; IDT_ENTRIES],
}

impl Idt {
    /// The gates, by vector.
    pub closed spec fn view(&self) -> Seq<IdtEntry> {
        self.entries@
    }

    /// A table of empty gates.
    pub fn new() -> (r: Idt)
        ensures
            r@.len() == IDT_ENTRIES,
            forall|i: int| 0 <= i < IDT_ENTRIES ==> #[trigger] r@[i] == (IdtEntry {
                pointer_low: 0,
                gdt_selector: 0,
                options: 0,
                pointer_middle: 0,
                pointer_high: 0,
                reserved: 0,
            }),
    {
        Idt { entries: [IdtEntry::missing(); IDT_ENTRIES] }
    }

    /// Gate `vector`.
    pub fn entry(&self, vector: usize) -> (r: IdtEntry)
        requires
            vector < IDT_ENTRIES,
        ensures
            r == self@[vector as int],
    {
        self.entries[vector]
    }

    /// Registers `handler` for the trapped CPU exceptions: #DE (0), #DF (8),
    /// #GP (13) and #PF (14); other gates are unchanged.
    pub fn install_exception_handlers(&mut self, handler: u64)
        ensures
            final(self)@.len() == IDT_ENTRIES,
            forall|i: int|
                0 <= i < IDT_ENTRIES ==> #[trigger] final(self)@[i] == (if i == 0 || i == 8 || i == 13
                    || i == 14 {
                    gate_for(handler)
                } else {
                    old(self)@[i]
                }),
    {
        self.entries[0].set_handler(handler);
        self.entries[8].set_handler(handler);
        self.entries[13].set_handler(handler);
        self.entries[14].set_handler(handler);
    }

    /// The limit field of the table's descriptor: its size in bytes minus one.
    pub fn descriptor_limit(&self) -> (r: u16)
        ensures
            r == 4095,
    {
        4095
    }
}

} // verus!
