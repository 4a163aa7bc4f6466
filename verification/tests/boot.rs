use eggos::bootloader::elf::{parse_elf, segment_file_range, LoadSegment, ERR_BAD_MAGIC, ERR_PHDR_OUT_OF_BOUNDS, ERR_TOO_SMALL};
use eggos::bootloader::memory::allocate_kernel_stack;
use eggos::common::{select_boot_modules, ModuleInfo, ModulesRequest, ModulesResponse, EGGOS_MAGIC};

fn put_u16(b: &mut [u8], off: usize, v: u16) {
    b[off..off + 2].copy_from_slice(&v.to_le_bytes());
}
fn put_u32(b: &mut [u8], off: usize, v: u32) {
    b[off..off + 4].copy_from_slice(&v.to_le_bytes());
}
fn put_u64(b: &mut [u8], off: usize, v: u64) {
    b[off..off + 8].copy_from_slice(&v.to_le_bytes());
}

fn image(phdrs: &[(u32, u64, u64, u64, u64)]) -> Vec<u8> {
    let mut b = vec![0u8; 64 + 56 * phdrs.len()];
    b[0..4].copy_from_slice(&[0x7f, b'E', b'L', b'F']);
    put_u64(&mut b, 24, 0xffff_ffff_8010_0000);
    put_u64(&mut b, 32, 64);
    put_u16(&mut b, 54, 56);
    put_u16(&mut b, 56, phdrs.len() as u16);
    for (i, &(p_type, off, vaddr, filesz, memsz)) in phdrs.iter().enumerate() {
        let o = 64 + 56 * i;
        put_u32(&mut b, o, p_type);
        put_u64(&mut b, o + 8, off);
        put_u64(&mut b, o + 16, vaddr);
        put_u64(&mut b, o + 32, filesz);
        put_u64(&mut b, o + 40, memsz);
    }
    b
}

#[test]
fn elf_load_plan() {
    let b = image(&[
        (1, 0x1000, 0xffff_ffff_8010_0000, 0x2345, 0x3000),
        (4, 0, 0, 0, 0),
        (1, 0x4000, 0x20_0000, 0, 1),
    ]);
    let img = parse_elf(&b).ok().unwrap();
    assert_eq!(img.entry_point, 0xffff_ffff_8010_0000);
    assert_eq!(
        img.segments,
        vec![
            LoadSegment { phys_addr: 0x10_0000, file_offset: 0x1000, file_size: 0x2345, mem_size: 0x3000, pages: 3 },
            LoadSegment { phys_addr: 0x20_0000, file_offset: 0x4000, file_size: 0, mem_size: 1, pages: 1 },
        ]
    );
}

#[test]
fn elf_errors() {
    assert_eq!(parse_elf(&[0u8; 63]).err(), Some(ERR_TOO_SMALL));
    let mut b = image(&[]);
    assert!(parse_elf(&b).is_ok());
    b[1] = b'X';
    assert_eq!(parse_elf(&b).err(), Some(ERR_BAD_MAGIC));
    let mut c = image(&[(1, 0, 0, 0, 0)]);
    put_u16(&mut c, 56, 2); // claims a second header past the end
    assert_eq!(parse_elf(&c).err(), Some(ERR_PHDR_OUT_OF_BOUNDS));
    let mut d = image(&[]);
    put_u64(&mut d, 32, u64::MAX);
    put_u16(&mut d, 56, 1);
    assert_eq!(parse_elf(&d).err(), Some(ERR_PHDR_OUT_OF_BOUNDS));
}

#[test]
fn elf_page_counts() {
    let b = image(&[(1, 0, 0, 0, 0), (1, 0, 0, 0, 4096), (1, 0, 0, 0, 4097), (1, 0, 0, 0, u64::MAX)]);
    let img = parse_elf(&b).ok().unwrap();
    let pages: Vec<u64> = img.segments.iter().map(|s| s.pages).collect();
    assert_eq!(pages, vec![0, 1, 2, 0x10_0000_0000_0000]);
}

#[test]
fn kernel_stack_location() {
    assert_eq!(allocate_kernel_stack(), Ok(0x9_0000));
}

#[test]
fn boot_modules_selection() {
    assert_eq!(EGGOS_MAGIC.to_be_bytes(), *b"EGG_OS_!");
    let req = ModulesRequest::new();
    assert!(req.response().is_none());
    let answered = ModulesRequest { response: Some(ModulesResponse { module_count: 2, modules_addr: 0x8000 }) };
    assert_eq!(answered.response().unwrap().module_count, 2);
    let m = [ModuleInfo { base_address: 0x100000, size: 10 }, ModuleInfo { base_address: 0x200000, size: 20 }];
    let s = select_boot_modules(&m);
    assert_eq!((s.guest_entry_addr, s.app_ramdisk_addr, s.app_ramdisk_size), (0x100000, 0x200000, 20));
    let one = select_boot_modules(&m[..1]);
    assert_eq!((one.guest_entry_addr, one.app_ramdisk_addr, one.app_ramdisk_size), (0x100000, 0, 0));
    let none = select_boot_modules(&[]);
    assert_eq!(none.guest_entry_addr, 0);
}

#[test]
fn segment_file_range_stays_in_the_image() {
    let seg = LoadSegment { phys_addr: 0x100000, file_offset: 64, file_size: 100, mem_size: 200, pages: 1 };
    assert_eq!(segment_file_range(&seg, 164), Some((64, 164)));
    assert_eq!(segment_file_range(&seg, 163), None);
    let huge = LoadSegment { file_offset: u64::MAX, file_size: 2, ..seg };
    assert_eq!(segment_file_range(&huge, usize::MAX), None);
}
