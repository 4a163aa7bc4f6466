use eggos::kernel::capability::gate::{
    CapGate, ERR_INSUFFICIENT_RIGHTS, ERR_INVALID_TOKEN, ERR_OUT_OF_BOUNDS, ERR_REVOKED,
    ERR_TABLE_FULL, MAX_CAPABILITIES,
};
use eggos::kernel::capability::{allocate_with_capability, init, ERR_OUT_OF_RAM};
use eggos::security::capability::token::{CapRights, CapToken, ResourceKind};

#[test]
fn attenuate_keeps_only_common_rights() {
    let parent = CapRights::read_write();
    let child = parent.attenuate(CapRights::full_control());
    assert_eq!(child, CapRights::read_write());
    let child2 = CapRights::read_only().attenuate(CapRights::execute_only());
    assert_eq!(child2, CapRights::none());
}

#[test]
fn satisfies_checks_every_required_right() {
    assert!(CapRights::full_control().satisfies(CapRights::read_write()));
    assert!(CapRights::read_write().satisfies(CapRights::read_only()));
    assert!(!CapRights::read_only().satisfies(CapRights::read_write()));
    assert!(CapRights::none().satisfies(CapRights::none()));
    assert!(!CapRights::read_write().satisfies(CapRights::execute_only()));
}

#[test]
fn derive_needs_grant_and_active() {
    let full = CapToken::new(1, 1, ResourceKind::DriverControl, 0x2000, 0x100, CapRights::full_control());
    let child = full.derive(2, CapRights::read_only()).unwrap();
    assert_eq!(child.id, 2);
    assert_eq!(child.rights, CapRights::read_only());
    assert_eq!(child.resource_addr, 0x2000);
    assert_eq!(child.size_bytes, 0x100);
    assert!(child.active);
    // no grant right: derivation refused
    assert!(child.derive(3, CapRights::read_only()).is_none());
    let mut inactive = full;
    inactive.active = false;
    assert!(inactive.derive(4, CapRights::read_only()).is_none());
}

#[test]
fn mint_assigns_sequential_ids() {
    let mut gate = CapGate::new();
    let a = gate.mint(2, ResourceKind::MemoryRegion, 0x1000, 0x100, CapRights::read_write()).unwrap();
    let b = gate.mint(1, ResourceKind::IpcChannel, 0x5000, 0x10, CapRights::read_only()).unwrap();
    assert_eq!(a.id, 1000);
    assert_eq!(b.id, 1001);
    assert!(a.active && b.active);
    assert_eq!(b.resource_kind, ResourceKind::IpcChannel);
}

#[test]
fn mint_fails_when_table_full() {
    let mut gate = CapGate::new();
    for i in 0..MAX_CAPABILITIES {
        let t = gate.mint(1, ResourceKind::MemoryRegion, i, 1, CapRights::read_only()).unwrap();
        assert_eq!(t.id, 1000 + i as u64);
    }
    assert_eq!(
        gate.mint(1, ResourceKind::MemoryRegion, 0, 1, CapRights::read_only()),
        Err(ERR_TABLE_FULL)
    );
}

#[test]
fn verify_access_reports_each_refusal() {
    let mut gate = CapGate::new();
    let t = gate.mint(2, ResourceKind::MemoryRegion, 0x1000, 0x100, CapRights::read_write()).unwrap();
    assert_eq!(gate.verify_access(t.id, 0x1000, 0x100, CapRights::read_write()), Ok(()));
    assert_eq!(gate.verify_access(t.id, 0x1080, 0x80, CapRights::read_only()), Ok(()));
    assert_eq!(gate.verify_access(t.id, 0x0fff, 1, CapRights::read_only()), Err(ERR_OUT_OF_BOUNDS));
    assert_eq!(gate.verify_access(t.id, 0x1000, 0x101, CapRights::read_only()), Err(ERR_OUT_OF_BOUNDS));
    assert_eq!(
        gate.verify_access(t.id, 0x1000, 0x10, CapRights::execute_only()),
        Err(ERR_INSUFFICIENT_RIGHTS)
    );
    assert_eq!(gate.verify_access(999, 0x1000, 0x10, CapRights::read_only()), Err(ERR_INVALID_TOKEN));
    assert_eq!(gate.verify_access(t.id + 1, 0x1000, 0x10, CapRights::read_only()), Err(ERR_INVALID_TOKEN));
}

#[test]
fn revoked_token_stays_refused() {
    let mut gate = CapGate::new();
    let t = gate.mint(2, ResourceKind::MemoryRegion, 0x1000, 0x100, CapRights::read_write()).unwrap();
    assert!(gate.revoke(t.id));
    assert_eq!(gate.verify_access(t.id, 0x1000, 0x10, CapRights::read_only()), Err(ERR_REVOKED));
    // minting more tokens does not bring it back
    let u = gate.mint(2, ResourceKind::MemoryRegion, 0x1000, 0x100, CapRights::read_write()).unwrap();
    assert_eq!(gate.verify_access(t.id, 0x1000, 0x10, CapRights::read_only()), Err(ERR_REVOKED));
    assert_eq!(gate.verify_access(u.id, 0x1000, 0x10, CapRights::read_only()), Ok(()));
    // revoking again still finds it; unknown ids are not found
    assert!(gate.revoke(t.id));
    assert!(!gate.revoke(4242));
}

#[test]
fn boot_capabilities_are_minted() {
    let mut gate = CapGate::new();
    init(&mut gate);
    assert_eq!(gate.verify_access(1000, 0xFD000000, 1920 * 1080 * 4, CapRights::read_write()), Ok(()));
    assert_eq!(
        gate.verify_access(1000, 0xFD000000, 16, CapRights::execute_only()),
        Err(ERR_INSUFFICIENT_RIGHTS)
    );
    assert_eq!(gate.verify_access(1001, 0x10001000, 0x1000, CapRights::full_control()), Ok(()));
}

#[test]
fn capability_guarded_allocation() {
    let mut gate = CapGate::new();
    let (ptr, token) =
        allocate_with_capability(&mut gate, 2, 150 * 1024, CapRights::read_write(), Some(0x80_0000)).unwrap();
    assert_eq!(ptr, 0x80_0000);
    assert_eq!(token.id, 1000);
    assert_eq!(token.resource_kind, ResourceKind::MemoryRegion);
    assert_eq!(token.size_bytes, 150 * 1024);
    assert_eq!(gate.verify_access(token.id, ptr, 150 * 1024, CapRights::read_write()), Ok(()));
    let err = allocate_with_capability(&mut gate, 2, 16, CapRights::read_only(), None);
    assert_eq!(err.map(|_| ()), Err(ERR_OUT_OF_RAM));
}
