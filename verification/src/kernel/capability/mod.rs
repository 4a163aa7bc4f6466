//! Capability minting at boot and capability-guarded allocation.
use vstd::prelude::*;

pub mod gate;

use crate::security::capability::token::{CapRights, CapToken, ResourceKind};
use gate::{gate_successor, lemma_gate_successor_trans, CapGate, FIRST_TOKEN_ID, MAX_CAPABILITIES};

verus! {

pub const ERR_OUT_OF_RAM: &'static str = "Memory Allocation Failed: Out of RAM";

/// Physical base of the boot framebuffer.
pub const FRAMEBUFFER_MMIO_BASE: usize = 0xFD000000;

/// Size in bytes of the 1920x1080, 4-bytes-per-pixel boot framebuffer.
pub const FRAMEBUFFER_MMIO_SIZE: usize = 8294400;

/// Physical base of the system device window.
pub const DEVICE_MMIO_BASE: usize = 0x10001000;

/// Size in bytes of the system device window.
pub const DEVICE_MMIO_SIZE: usize = 0x1000;

/// The two boot tokens: read-write access to the framebuffer for the user
/// tier, full control of the device window for the system tier; `first_id`
/// is the identifier of the first.
pub open spec fn boot_tokens(first_id: int) -> Seq<CapToken> {
    seq![
        CapToken {
            id: first_id as u64,
            owner_tier: 2,
            resource_kind: ResourceKind::MmioDevice,
            resource_addr: FRAMEBUFFER_MMIO_BASE,
            size_bytes: FRAMEBUFFER_MMIO_SIZE,
            rights: CapRights { read: true, write: true, execute: false, grant: false },
            active: true,
        },
        CapToken {
            id: (first_id + 1) as u64,
            owner_tier: 1,
            resource_kind: ResourceKind::MmioDevice,
            resource_addr: DEVICE_MMIO_BASE,
            size_bytes: DEVICE_MMIO_SIZE,
            rights: CapRights { read: true, write: true, execute: true, grant: true },
            active: true,
        },
    ]
}

/// Mints the boot capabilities into the token table, as many as fit.
pub fn init(gate: &mut CapGate)
    requires
        old(gate).wf(),
    ensures
        final(gate).wf(),
        gate_successor(*old(gate), *final(gate)),
        final(gate).tokens() == old(gate).tokens() + boot_tokens(
            FIRST_TOKEN_ID + old(gate).tokens().len(),
        ).take(
            if old(gate).tokens().len() + 2 <= MAX_CAPABILITIES {
                2
            } else {
                MAX_CAPABILITIES - old(gate).tokens().len()
            },
        ),
{
    proof {
        gate::lemma_token_ids(*gate);
    }
    let ghost t0 = gate.tokens();
    let ghost g0 = *gate;
    let ghost b = boot_tokens(FIRST_TOKEN_ID + t0.len());
    let _ = gate.mint(
        2,
        ResourceKind::MmioDevice,
        FRAMEBUFFER_MMIO_BASE,
        FRAMEBUFFER_MMIO_SIZE,
        CapRights::read_write(),
    );
    let ghost g1 = *gate;
    let _ = gate.mint(
        1,
        ResourceKind::MmioDevice,
        DEVICE_MMIO_BASE,
        DEVICE_MMIO_SIZE,
        CapRights::full_control(),
    );
    proof {
        lemma_gate_successor_trans(g0, g1, *gate);
        if t0.len() + 2 <= MAX_CAPABILITIES {
            assert(gate.tokens() =~= t0 + b.take(2));
        } else if t0.len() + 1 == MAX_CAPABILITIES {
            assert(gate.tokens() =~= t0 + b.take(1));
        } else {
            assert(gate.tokens() =~= t0 + b.take(0));
        }
    }
}

/// Grants a capability over freshly allocated memory. `allocated` is what
/// the memory allocator returned for `bytes`; on success the new token
/// covers exactly the allocated range with the requested rights.
pub fn allocate_with_capability(
    gate: &mut CapGate,
    owner_tier: u8,
    bytes: usize,
    rights: CapRights,
    allocated: Option<usize>,
) -> (r: Result<(usize, CapToken), &'static str>)
    requires
        old(gate).wf(),
    ensures
        final(gate).wf(),
        gate_successor(*old(gate), *final(gate)),
        match allocated {
            None => r == Err::<(usize, CapToken), &'static str>(ERR_OUT_OF_RAM) && final(gate).tokens()
                == old(gate).tokens(),
            Some(ptr) => if old(gate).tokens().len() < MAX_CAPABILITIES {
                let t = CapToken {
                    id: (FIRST_TOKEN_ID + old(gate).tokens().len()) as u64,
                    owner_tier,
                    resource_kind: ResourceKind::MemoryRegion,
                    resource_addr: ptr,
                    size_bytes: bytes,
                    rights,
                    active: true,
                };
                &&& r == Ok::<(usize, CapToken), &'static str>((ptr, t))
                &&& final(gate).tokens() == old(gate).tokens().push(t)
            } else {
                &&& r == Err::<(usize, CapToken), &'static str>(gate::ERR_TABLE_FULL)
                &&& final(gate).tokens() == old(gate).tokens()
            },
        },
{
    let ptr = match allocated {
        Some(p) => p,
        None => return Err(ERR_OUT_OF_RAM),
    };
    let token = gate.mint(owner_tier, ResourceKind::MemoryRegion, ptr, bytes, rights)?;
    Ok((ptr, token))
}

} // verus!
