//! ELF64 parsing: the entry point and the loadable segments of an image,
//! with the physical placement and page count of each.
use vstd::prelude::*;

verus! {

/// Size of an ELF64 file header.
pub const ELF64_HEADER_SIZE: usize = 64;

/// Size of an ELF64 program header.
pub const ELF64_PHDR_SIZE: usize = 56;

/// Program header type of a loadable segment.
pub const PT_LOAD: u32 = 1;

/// Base of the higher half: virtual addresses from here on map to physical
/// address zero onwards.
pub const HIGHER_HALF_BASE: u64 = 0xffff_ffff_8000_0000;

/// Size of a physical page.
pub const PAGE_SIZE: u64 = 4096;

pub const ERR_TOO_SMALL: &'static str = "Buffer too small for ELF header";
pub const ERR_BAD_MAGIC: &'static str = "Invalid ELF magic number";
pub const ERR_PHDR_OUT_OF_BOUNDS: &'static str = "Program header out of bounds";

/// The ELF64 file header fields.
#[derive(Debug, Copy, Clone)]
pub struct Elf64Header {
    pub e_ident: [u8; 16],
    pub e_type: u16,
    pub e_machine: u16,
    pub e_version: u32,
    pub e_entry: u64,
    pub e_phoff: u64,
    pub e_shoff: u64,
    pub e_flags: u32,
    pub e_ehsize: u16,
    pub e_phentsize: u16,
    pub e_phnum: u16,
    pub e_shentsize: u16,
    pub e_shnum: u16,
    pub e_shstrndx: u16,
}

/// The ELF64 program header fields.
#[derive(Debug, Copy, Clone)]
pub struct Elf64Phdr {
    pub p_type: u32,
    pub p_flags: u32,
    pub p_offset: u64,
    pub p_vaddr: u64,
    pub p_paddr: u64,
    pub p_filesz: u64,
    pub p_memsz: u64,
    pub p_align: u64,
}

/// A loaded kernel image.
pub struct LoadedElf {
    pub entry_point: u64,
}

/// Where and how to load one `PT_LOAD` segment: `file_size` bytes from
/// `file_offset` in the image go to `phys_addr`, and the rest of the
/// `mem_size` bytes are zeroed, in `pages` pages; a `phys_addr` of zero lets
/// the loader place the segment anywhere.
#[derive(Debug, Copy, Clone, PartialEq, Eq, Structural)]
pub struct LoadSegment {
    pub phys_addr: u64,
    pub file_offset: u64,
    pub file_size: u64,
    pub mem_size: u64,
    pub pages: u64,
}

/// A parsed image: its entry point and loadable segments in header order.
pub struct ElfImage {
    pub entry_point: u64,
    pub segments: Vec<LoadSegment>,
}

/// Little-endian 16-bit value at `off`.
pub open spec fn le_u16(s: Seq<u8>, off: int) -> int {
    s[off] + 256 * s[off + 1]
}

/// Little-endian 32-bit value at `off`.
pub open spec fn le_u32(s: Seq<u8>, off: int) -> int {
    le_u16(s, off) + 65536 * le_u16(s, off + 2)
}

/// Little-endian 64-bit value at `off`.
pub open spec fn le_u64(s: Seq<u8>, off: int) -> int {
    le_u32(s, off) + 4294967296 * le_u32(s, off + 4)
}

/// Whether the image starts with the ELF magic `\x7fELF`.
pub open spec fn has_elf_magic(s: Seq<u8>) -> bool {
    s[0] == 0x7f && s[1] == 0x45 && s[2] == 0x4c && s[3] == 0x46
}

/// Offset of program header `i`.
pub open spec fn phdr_offset(s: Seq<u8>, i: int) -> int {
    le_u64(s, 32) + i * le_u16(s, 54)
}

/// Number of program headers.
pub open spec fn phdr_count(s: Seq<u8>) -> int {
    le_u16(s, 56)
}

/// Whether program header `i` lies wholly inside the image.
pub open spec fn phdr_in_bounds(s: Seq<u8>, i: int) -> bool {
    phdr_offset(s, i) + ELF64_PHDR_SIZE <= s.len()
}

/// Physical address of a virtual segment address: the higher half maps to
/// physical zero onwards, lower addresses are identity-mapped.
pub open spec fn phys_of_vaddr(vaddr: int) -> int {
    if vaddr >= HIGHER_HALF_BASE {
        vaddr - HIGHER_HALF_BASE
    } else {
        vaddr
    }
}

/// Whether program header `i` describes a loadable segment.
pub open spec fn is_load_phdr(s: Seq<u8>, i: int) -> bool {
    le_u32(s, phdr_offset(s, i)) == PT_LOAD
}

/// The load plan of program header `i`.
pub open spec fn segment_of(s: Seq<u8>, i: int) -> LoadSegment {
    let off = phdr_offset(s, i);
    let memsz = le_u64(s, off + 40);
    LoadSegment {
        phys_addr: phys_of_vaddr(le_u64(s, off + 16)) as u64,
        file_offset: le_u64(s, off + 8) as u64,
        file_size: le_u64(s, off + 32) as u64,
        mem_size: memsz as u64,
        pages: ((memsz + 4095) / 4096) as u64,
    }
}

/// The load plans of the loadable segments among the first `n` program
/// headers, in order.
pub open spec fn load_segments(s: Seq<u8>, n: int) -> Seq<LoadSegment>
    decreases n,
{
    if n <= 0 {
        Seq::empty()
    } else if is_load_phdr(s, n - 1) {
        load_segments(s, n - 1).push(segment_of(s, n - 1))
    } else {
        load_segments(s, n - 1)
    }
}

/// Why an image is refused, if it is: too short for a header, a wrong magic
/// number, or a program header reaching past the end.
pub open spec fn elf_error(s: Seq<u8>) -> Option<&'static str> {
    if s.len() < ELF64_HEADER_SIZE {
        Some(ERR_TOO_SMALL)
    } else if !has_elf_magic(s) {
        Some(ERR_BAD_MAGIC)
    } else if exists|i: int| 0 <= i < phdr_count(s) && !#[trigger] phdr_in_bounds(s, i) {
        Some(ERR_PHDR_OUT_OF_BOUNDS)
    } else {
        None
    }
}

fn read_u16(buf: &[u8], off: usize) -> (r: u16)
    requires
        off + 2 <= buf.len(),
    ensures
        r == le_u16(buf@, off as int),
{
    buf[off] as u16 + 256 * (buf[off + 1] as u16)
}

fn read_u32(buf: &[u8], off: usize) -> (r: u32)
    requires
        off + 4 <= buf.len(),
    ensures
        r == le_u32(buf@, off as int),
{
    let lo = read_u16(buf, off);
    let hi = read_u16(buf, off + 2);
    lo as u32 + 65536 * (hi as u32)
}

fn read_u64(buf: &[u8], off: usize) -> (r: u64)
    requires
        off + 8 <= buf.len(),
    ensures
        r == le_u64(buf@, off as int),
{
    let lo = read_u32(buf, off);
    let hi = read_u32(buf, off + 4);
    lo as u64 + 4294967296 * (hi as u64)
}

/// Reads an image's ELF64 header and program headers into a load plan: the
/// entry point and, for each `PT_LOAD` header in order, where its bytes go
/// and how many pages it needs.
pub fn parse_elf(buffer: &[u8]) -> (r: Result<ElfImage, &'static str>)
    ensures
        match elf_error(buffer@) {
            Some(e) => r matches Err(e2) && e2 == e,
            None => r matches Ok(img) && img.entry_point == le_u64(buffer@, 24)
                && img.segments@ == load_segments(buffer@, phdr_count(buffer@)),
        },
{
    if buffer.len() < ELF64_HEADER_SIZE {
        return Err(ERR_TOO_SMALL);
    }
    if !(buffer[0] == 0x7f && buffer[1] == 0x45 && buffer[2] == 0x4c && buffer[3] == 0x46) {
        return Err(ERR_BAD_MAGIC);
    }
    let e_entry = read_u64(buffer, 24);
    let phoff = read_u64(buffer, 32);
    let phentsize = read_u16(buffer, 54);
    let phnum = read_u16(buffer, 56);
    let ghost s = buffer@;
    let mut segments: Vec<LoadSegment> = Vec::new();
    let mut i: u16 = 0;
    while i < phnum
        invariant
            s == buffer@,
            s.len() >= ELF64_HEADER_SIZE,
            has_elf_magic(s),
            phoff == le_u64(s, 32),
            phentsize == le_u16(s, 54),
            phnum == phdr_count(s),
            e_entry == le_u64(s, 24),
            0 <= i <= phnum,
            forall|j: int| 0 <= j < i ==> #[trigger] phdr_in_bounds(s, j),
            segments@ == load_segments(s, i as int),
        decreases phnum - i,
    {
        assert((i as u128) * (phentsize as u128) <= 0xffff * 0xffff) by (nonlinear_arith)
            requires
                i <= 0xffff,
                phentsize <= 0xffff,
        ;
        let offset: u128 = phoff as u128 + (i as u128) * (phentsize as u128);
        assert(offset == phdr_offset(s, i as int));
        if offset + (ELF64_PHDR_SIZE as u128) > buffer.len() as u128 {
            assert(!phdr_in_bounds(s, i as int));
            return Err(ERR_PHDR_OUT_OF_BOUNDS);
        }
        let off = offset as usize;
        let p_type = read_u32(buffer, off);
        if p_type == PT_LOAD {
            let p_vaddr = read_u64(buffer, off + 16);
            let p_offset = read_u64(buffer, off + 8);
            let filesz = read_u64(buffer, off + 32);
            let memsz = read_u64(buffer, off + 40);
            let phys_addr = if p_vaddr >= HIGHER_HALF_BASE {
                p_vaddr - HIGHER_HALF_BASE
            } else {
                p_vaddr
            };
            let pages128: u128 = (memsz as u128 + 4095) / 4096;
            assert(pages128 <= u64::MAX) by (nonlinear_arith)
                requires
                    pages128 == (memsz as u128 + 4095) / 4096,
                    memsz <= u64::MAX,
            ;
            let seg = LoadSegment {
                phys_addr,
                file_offset: p_offset,
                file_size: filesz,
                mem_size: memsz,
                pages: pages128 as u64,
            };
            assert(seg == segment_of(s, i as int));
            segments.push(seg);
        }
        i = i + 1;
    }
    Ok(ElfImage { entry_point: e_entry, segments })
}

/// The byte range of the image holding a segment's file part, when it lies
/// inside an image of `len` bytes; copying a segment reads exactly these
/// bytes.
pub fn segment_file_range(seg: &LoadSegment, len: usize) -> (r: Option<(usize, usize)>)
    ensures
        r == (if seg.file_offset + seg.file_size <= len {
            Some((seg.file_offset as usize, (seg.file_offset + seg.file_size) as usize))
        } else {
            None::<(usize, usize)>
        }),
{
    if seg.file_offset as u128 + seg.file_size as u128 <= len as u128 {
        Some((seg.file_offset as usize, (seg.file_offset + seg.file_size) as usize))
    } else {
        None
    }
}

/// A segment's page count is the fewest 4 KiB pages that hold its memory
/// size.
pub proof fn lemma_pages_cover(mem_size: nat)
    ensures
        ((mem_size + 4095) / 4096) * 4096 >= mem_size,
        ((mem_size + 4095) / 4096) * 4096 < mem_size + 4096,
{
    vstd::arithmetic::div_mod::lemma_fundamental_div_mod((mem_size + 4095) as int, 4096);
}

/// Higher-half addresses map below the higher-half base, identity-mapped
/// addresses are unchanged.
pub proof fn lemma_phys_placement(vaddr: u64)
    ensures
        vaddr >= HIGHER_HALF_BASE ==> phys_of_vaddr(vaddr as int) == vaddr - HIGHER_HALF_BASE
            && phys_of_vaddr(vaddr as int) < 0x8000_0000,
        vaddr < HIGHER_HALF_BASE ==> phys_of_vaddr(vaddr as int) == vaddr,
{
}

} // verus!
