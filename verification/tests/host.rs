use eggos::host::drivers::power::{
    find_fadt, power_button_enable_port, power_button_enabled, rsdt_entry_count, shutdown_command, SLP_S5,
};
use eggos::host::drivers::serial::SerialPort as HostSerial;
use eggos::host::hypercall::handle_hypercall as stub_hypercall;
use eggos::host::hypercall::hypercall::{
    handle_hypercall, HYPERCALL_ALLOC_FRAME, HYPERCALL_IPC_RECV, HYPERCALL_IPC_SEND,
};
use eggos::host::memory::ept::{
    init_host_memory, process_data_chunks, BumpAllocator, Ept, HostMemoryManager, MAX_CHUNK_SIZE,
};
use eggos::host::sched::{Domain, DomainId, DomainState, HostScheduler, MAX_GUEST_DOMAINS};
use eggos::host::vmm::vmexit::{advance_guest_rip, handle_vmexit, VmExitAction};
use eggos::host::vmm::vmx::{
    cr4_with_vmxe, feature_control_update, msr_from_parts, msr_to_parts, vmcs_setup_writes,
    vmx_revision_id, EPT_POINTER, GUEST_RIP, HOST_CR4, VM_ENTRY_CONTROLS,
};
use eggos::host::vmm::VCpu;

fn three_domains() -> HostScheduler {
    let mut s = HostScheduler::new();
    assert_eq!(s.register_domain("security_kernel", VCpu::new(0), 2), Some(DomainId(0)));
    assert_eq!(s.register_domain("guest_a", VCpu::new(1), 2), Some(DomainId(1)));
    assert_eq!(s.register_domain("guest_b", VCpu::new(2), 2), Some(DomainId(2)));
    s
}

#[test]
fn register_stops_at_capacity() {
    let mut s = HostScheduler::new();
    for i in 0..MAX_GUEST_DOMAINS {
        assert_eq!(s.register_domain("d", VCpu::new(i as u32), 1), Some(DomainId(i as u32)));
    }
    assert_eq!(s.register_domain("extra", VCpu::new(9), 1), None);
}

#[test]
fn switch_is_round_robin() {
    let mut s = three_domains();
    assert_eq!(s.switch_to_next_domain(), Some(DomainId(1)));
    assert_eq!(s.switch_to_next_domain(), Some(DomainId(2)));
    assert_eq!(s.switch_to_next_domain(), Some(DomainId(0)));
    assert_eq!(s.switch_to_next_domain(), Some(DomainId(1)));
}

#[test]
fn switch_needs_two_domains() {
    let mut s = HostScheduler::new();
    assert_eq!(s.switch_to_next_domain(), None);
    s.register_domain("only", VCpu::new(0), 1);
    assert_eq!(s.switch_to_next_domain(), None);
    assert_eq!(s.on_timer_tick(), None);
}

#[test]
fn paused_domains_are_skipped() {
    let mut s = three_domains();
    assert_eq!(s.pause_domain(DomainId(1)), None); // not current: no switch
    assert_eq!(s.switch_to_next_domain(), Some(DomainId(2)));
    // pausing the current domain switches away from it
    assert_eq!(s.pause_domain(DomainId(2)), Some(DomainId(0)));
    s.unpause_domain(DomainId(1));
    assert_eq!(s.switch_to_next_domain(), Some(DomainId(1)));
    // unknown ids change nothing
    assert_eq!(s.pause_domain(DomainId(7)), None);
    s.unpause_domain(DomainId(7));
}

#[test]
fn all_paused_runs_nothing() {
    let mut s = HostScheduler::new();
    s.register_domain("a", VCpu::new(0), 1);
    s.register_domain("b", VCpu::new(1), 1);
    assert_eq!(s.pause_domain(DomainId(1)), None);
    // current (0) is paused and nothing else is ready: nothing runs
    assert_eq!(s.pause_domain(DomainId(0)), None);
    assert_eq!(s.switch_to_next_domain(), None);
    assert_eq!(s.on_timer_tick(), None);
    s.unpause_domain(DomainId(1));
    assert_eq!(s.switch_to_next_domain(), Some(DomainId(1)));
}

#[test]
fn timer_ticks_consume_the_slice() {
    let mut s = three_domains();
    assert_eq!(s.on_timer_tick(), None); // 2 -> 1 tick left
    assert_eq!(s.on_timer_tick(), Some(DomainId(1))); // slice over: switch
    assert_eq!(s.on_timer_tick(), None);
    assert_eq!(s.on_timer_tick(), Some(DomainId(2)));
}

#[test]
fn zero_slice_switches_every_tick() {
    let mut s = HostScheduler::new();
    s.register_domain("a", VCpu::new(0), 0);
    s.register_domain("b", VCpu::new(1), 0);
    assert_eq!(s.on_timer_tick(), Some(DomainId(1)));
    assert_eq!(s.on_timer_tick(), Some(DomainId(0)));
}

#[test]
fn domain_quantum_resets() {
    let mut d = Domain::new(DomainId(3), "g", VCpu::new(3), 5);
    assert_eq!(d.state, DomainState::Ready);
    assert_eq!(d.remaining_ticks, 5);
    d.remaining_ticks = 1;
    d.reset_quantum();
    assert_eq!(d.remaining_ticks, 5);
}

#[test]
fn vcpu_registers() {
    let mut v = VCpu::new(7);
    assert_eq!(v.id, 7);
    for i in 0..6u8 {
        assert_eq!(v.get_reg(i), 0);
    }
    v.set_reg(0, 11);
    v.set_reg(1, 22);
    v.set_reg(2, 33);
    v.set_reg(3, 44);
    v.set_reg(4, 55);
    assert_eq!((v.get_reg(0), v.get_reg(1), v.get_reg(2), v.get_reg(3), v.get_reg(4)), (11, 22, 33, 44, 0));
    assert_eq!(v.registers.rsi, 0);
}

#[test]
fn frames_are_page_aligned_and_bounded() {
    let mut small = HostMemoryManager::new();
    small.init(4096, 100);
    assert_eq!(small.allocate_frame(), 0);
    let mut m = HostMemoryManager::new();
    assert_eq!(m.allocate_frame(), 0);
    m.init(0x1001, 0x3000);
    // usable range 0x1001..0x4001: only whole frames inside it are handed out
    assert_eq!(m.allocate_frame(), 0x2000);
    assert_eq!(m.allocate_frame(), 0x3000);
    assert_eq!(m.allocate_frame(), 0);
    assert_eq!(m.allocate_frame(), 0);
}

#[test]
fn bump_allocator_packs_into_frames() {
    let mut m = HostMemoryManager::new();
    m.init(0x10000, 0x3000);
    let mut b = BumpAllocator::new();
    assert_eq!(b.alloc_bytes(&mut m, 0, 1), 0);
    assert_eq!(b.alloc_bytes(&mut m, 4097, 1), 0);
    assert_eq!(b.alloc_bytes(&mut m, 3, 1), 0x10000);
    assert_eq!(b.alloc_bytes(&mut m, 8, 8), 0x10008);
    assert_eq!(b.alloc_bytes(&mut m, 1, 1), 0x10010);
    assert_eq!(b.alloc_bytes(&mut m, 4, 4), 0x10014);
    // does not fit: next frame
    assert_eq!(b.alloc_bytes(&mut m, 4090, 1), 0x11000);
    assert_eq!(b.alloc_bytes(&mut m, 4096, 1), 0x12000);
    assert_eq!(b.alloc_bytes(&mut m, 1, 1), 0);
}

#[test]
fn host_memory_boot_allocation() {
    let mut m = HostMemoryManager::new();
    m.init(0x1000000, 0x10000000);
    let mut b = BumpAllocator::new();
    init_host_memory(&mut b, &mut m);
    assert_eq!(b.alloc_bytes(&mut m, 1, 1), 0x1000003);
    assert_eq!(m.allocate_frame(), 0x1001000);
}

#[test]
fn data_is_chunked_at_64k() {
    let data = vec![7u8; 2 * MAX_CHUNK_SIZE + 5];
    let mut sizes = Vec::new();
    process_data_chunks(&data, |c: &[u8]| sizes.push(c.len()));
    assert_eq!(sizes, vec![MAX_CHUNK_SIZE, MAX_CHUNK_SIZE, 5]);
    let mut count = 0;
    process_data_chunks(&[], |_c: &[u8]| count += 1);
    assert_eq!(count, 0);
}

#[test]
fn eptp_encodes_walk_and_memory_type() {
    assert_eq!(Ept { pml4_addr: 0x12345678 }.eptp(), 0x1234501E);
    assert_eq!(Ept { pml4_addr: 0 }.eptp(), 0x1E);
    assert_eq!(Ept { pml4_addr: u64::MAX }.eptp(), 0xFFFF_FFFF_FFFF_F01E);
}

#[test]
fn hypercalls_dispatch() {
    let mut m = HostMemoryManager::new();
    m.init(0x4000, 0x2000);
    assert_eq!(handle_hypercall(&mut m, HYPERCALL_IPC_SEND, 0, 0), 0);
    assert_eq!(handle_hypercall(&mut m, HYPERCALL_IPC_RECV, 0, 0), 0);
    assert_eq!(handle_hypercall(&mut m, HYPERCALL_ALLOC_FRAME, 0, 0), 0x4000);
    assert_eq!(handle_hypercall(&mut m, HYPERCALL_ALLOC_FRAME, 0, 0), 0x5000);
    assert_eq!(handle_hypercall(&mut m, HYPERCALL_ALLOC_FRAME, 0, 0), 0);
    assert_eq!(handle_hypercall(&mut m, 0x99, 0, 0), u64::MAX);
    assert_eq!(stub_hypercall(0x99, 1, 2), 0);
}

#[test]
fn vm_exits_are_classified() {
    let mut v = VCpu::new(0);
    assert_eq!(handle_vmexit(&mut v, 0), VmExitAction::ReportException);
    assert_eq!(handle_vmexit(&mut v, 48), VmExitAction::ReportEptViolation);
    assert_eq!(handle_vmexit(&mut v, 18), VmExitAction::AdvanceRip);
    assert_eq!(handle_vmexit(&mut v, 10), VmExitAction::AdvanceRip);
    assert_eq!(handle_vmexit(&mut v, 28), VmExitAction::AdvanceRip);
    assert_eq!(handle_vmexit(&mut v, 0x8000_0012), VmExitAction::AdvanceRip);
    assert_eq!(handle_vmexit(&mut v, 0x1_0031), VmExitAction::Unhandled(49));
    assert_eq!(advance_guest_rip(0x1000, 3), 0x1003);
}

#[test]
fn vmx_values() {
    assert_eq!(msr_from_parts(0x1234, 0x5678), 0x0000_1234_0000_5678);
    assert_eq!(msr_to_parts(0x0000_1234_0000_5678), (0x5678, 0x1234));
    assert_eq!(vmx_revision_id(0xdead_beef_0000_0004), 4);
    assert_eq!(cr4_with_vmxe(0x20), 0x2020);
    assert_eq!(feature_control_update(0), Some(5));
    assert_eq!(feature_control_update(0x2), Some(7));
    assert_eq!(feature_control_update(1), None);
    let w = vmcs_setup_writes(0x100000, 0x200000, 0x3000, 0x401e, 0x500000, 0x600000, 0x11, 0x7000, 0x2020);
    assert_eq!(w.len(), 25);
    assert_eq!(w[8], (GUEST_RIP, 0x100000));
    assert_eq!(w[18], (HOST_CR4, 0x2020));
    assert_eq!(w[21], (EPT_POINTER, 0x401e));
    assert_eq!(w[24], (VM_ENTRY_CONTROLS, 0x200));
}

#[test]
fn acpi_power_values() {
    assert_eq!(power_button_enable_port(0x400), 0x402);
    assert_eq!(power_button_enabled(0x0021), 0x0121);
    assert_eq!(rsdt_entry_count(36), 0);
    assert_eq!(rsdt_entry_count(36 + 4 * 5), 5);
    let sigs = [*b"APIC", *b"FACP", *b"FACP"];
    assert_eq!(find_fadt(&sigs), Some(1));
    assert_eq!(find_fadt(&[*b"HPET"]), None);
    assert_eq!(SLP_S5, (5 << 10) | (1 << 13));
    assert_eq!(shutdown_command(0x404), Some((0x404, SLP_S5)));
    assert_eq!(shutdown_command(0x1_0404), Some((0x404, SLP_S5)));
    assert_eq!(shutdown_command(0), None);
}

#[test]
fn host_console_programming() {
    let w = HostSerial::init_writes();
    assert_eq!(w, vec![(0x3F9, 0x00), (0x3FB, 0x80), (0x3F8, 0x03), (0x3F9, 0x00), (0x3FB, 0x03), (0x3FA, 0xC7), (0x3FC, 0x0B)]);
    assert_eq!(HostSerial::line_status_port(), 0x3FD);
}

#[test]
fn bump_blocks_are_aligned_and_disjoint() {
    let mut m = HostMemoryManager::new();
    m.init(0x20000, 0x8000);
    let mut b = BumpAllocator::new();
    let requests: [(usize, usize); 8] = [(3, 1), (16, 16), (5, 2), (100, 64), (4000, 8), (7, 4), (2048, 4096), (1, 1)];
    let mut blocks: Vec<(u64, usize)> = Vec::new();
    for (size, align) in requests {
        let r = b.alloc_bytes(&mut m, size, align);
        assert_ne!(r, 0);
        assert_eq!(r % align as u64, 0);
        assert_eq!(r / 4096, (r + size as u64 - 1) / 4096);
        blocks.push((r, size));
    }
    for i in 0..blocks.len() {
        for j in i + 1..blocks.len() {
            assert!(blocks[i].0 + blocks[i].1 as u64 <= blocks[j].0);
        }
    }
}
