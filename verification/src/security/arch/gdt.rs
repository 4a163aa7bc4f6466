//! The global descriptor table: a null segment, 64-bit kernel code and
//! kernel data.
use vstd::prelude::*;

verus! {

/// Kernel code segment selector.
pub const KERNEL_CODE_SELECTOR: u16 = 0x08;

/// Kernel data segment selector.
pub const KERNEL_DATA_SELECTOR: u16 = 0x10;

/// The three segment descriptors, in table order.
pub open spec fn gdt_entries() -> Seq<u64> {
    seq![0x0000000000000000u64, 0x00af9a000000ffffu64, 0x00cf92000000ffffu64]
}

/// The global descriptor table.
pub struct Gdt {
    entries: [u64; 3],
}

impl Gdt {
    /// The descriptors, in table order.
    pub closed spec fn view(&self) -> Seq<u64> {
        self.entries@
    }

    /// The null descriptor, a 64-bit ring-0 code segment (selector 0x08) and
    /// a ring-0 data segment (selector 0x10).
    pub fn new() -> (r: Gdt)
        ensures
            r@ == gdt_entries(),
    {
        let r = Gdt { entries: [0x0000000000000000, 0x00af9a000000ffff, 0x00cf92000000ffff] };
        assert(r@ =~= gdt_entries());
        r
    }

    /// Descriptor `index` of the table.
    pub fn entry(&self, index: usize) -> (r: u64)
        requires
            index < 3,
        ensures
            r == self@[index as int],
    {
        self.entries[index]
    }

    /// The limit field of the table's descriptor: its size in bytes minus one.
    pub fn descriptor_limit(&self) -> (r: u16)
        ensures
            r == 23,
    {
        23
    }
}

} // verus!
