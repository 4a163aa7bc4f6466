//! Capability rights and tokens, with attenuation on derivation.
use vstd::prelude::*;

verus! {

/// A set of access rights.
#[derive(Debug, Clone, Copy, PartialEq, Eq, Structural)]
pub struct CapRights {
    pub read: bool,
    pub write: bool,
    pub execute: bool,
    pub grant: bool,
}

impl CapRights {
    /// No rights at all.
    pub fn none() -> (r: CapRights)
        ensures
            r == (CapRights { read: false, write: false, execute: false, grant: false }),
    {
        CapRights { read: false, write: false, execute: false, grant: false }
    }

    /// Read access only.
    pub fn read_only() -> (r: CapRights)
        ensures
            r == (CapRights { read: true, write: false, execute: false, grant: false }),
    {
        CapRights { read: true, write: false, execute: false, grant: false }
    }

    /// Read and write access.
    pub fn read_write() -> (r: CapRights)
        ensures
            r == (CapRights { read: true, write: true, execute: false, grant: false }),
    {
        CapRights { read: true, write: true, execute: false, grant: false }
    }

    /// Execute access only.
    pub fn execute_only() -> (r: CapRights)
        ensures
            r == (CapRights { read: false, write: false, execute: true, grant: false }),
    {
        CapRights { read: false, write: false, execute: true, grant: false }
    }

    /// Every right, including the right to derive further tokens.
    pub fn full_control() -> (r: CapRights)
        ensures
            r == (CapRights { read: true, write: true, execute: true, grant: true }),
    {
        CapRights { read: true, write: true, execute: true, grant: true }
    }

    /// Every right that `required` asks for is held by `self`.
    pub open spec fn covers(self, required: CapRights) -> bool {
        &&& required.read ==> self.read
        &&& required.write ==> self.write
        &&& required.execute ==> self.execute
        &&& required.grant ==> self.grant
    }

    /// The rights held both by `self` and by `other`.
    pub open spec fn meet(self, other: CapRights) -> CapRights {
        CapRights {
            read: self.read && other.read,
            write: self.write && other.write,
            execute: self.execute && other.execute,
            grant: self.grant && other.grant,
        }
    }

    /// Derives child rights that never exceed the parent's: the rights both
    /// held and requested.
    pub fn attenuate(&self, requested: CapRights) -> (r: CapRights)
        ensures
            r == self.meet(requested),
    {
        CapRights {
            read: self.read && requested.read,
            write: self.write && requested.write,
            execute: self.execute && requested.execute,
            grant: self.grant && requested.grant,
        }
    }

    /// Whether these rights include every right in `required`.
    pub fn satisfies(&self, required: CapRights) -> (r: bool)
        ensures
            r == self.covers(required),
    {
        (!required.read || self.read) && (!required.write || self.write) && (!required.execute
            || self.execute) && (!required.grant || self.grant)
    }
}

/// Attenuation never amplifies: the attenuated rights are covered both by
/// the parent's rights and by the requested ones.
pub proof fn lemma_attenuate_never_amplifies(parent: CapRights, requested: CapRights)
    ensures
        parent.covers(parent.meet(requested)),
        requested.covers(parent.meet(requested)),
{
}

/// Attenuating by rights that the parent already covers gives exactly the
/// requested rights, and only then.
pub proof fn lemma_attenuate_exact_iff_covered(parent: CapRights, requested: CapRights)
    ensures
        parent.covers(requested) <==> parent.meet(requested) == requested,
{
}

/// `covers` is a partial order: reflexive, transitive and antisymmetric.
pub proof fn lemma_covers_partial_order(a: CapRights, b: CapRights, c: CapRights)
    ensures
        a.covers(a),
        a.covers(b) && b.covers(c) ==> a.covers(c),
        a.covers(b) && b.covers(a) ==> a == b,
{
}

/// Full control covers every set of rights and no rights are covered by
/// every set.
pub proof fn lemma_rights_extremes(a: CapRights)
    ensures
        (CapRights { read: true, write: true, execute: true, grant: true }).covers(a),
        a.covers(CapRights { read: false, write: false, execute: false, grant: false }),
{
}

/// The kind of resource that a token guards.
#[derive(Debug, Clone, Copy, PartialEq, Eq, Structural)]
pub enum ResourceKind {
    MemoryRegion,
    MmioDevice,
    IpcChannel,
    DriverControl,
}

/// A capability token over a resource range.
#[derive(Debug, Clone, Copy, PartialEq, Eq, Structural)]
pub struct CapToken {
    pub id: u64,
    /// Ring tier of the owner (1 for system, 2 for user).
    pub owner_tier: u8,
    pub resource_kind: ResourceKind,
    pub resource_addr: usize,
    pub size_bytes: usize,
    pub rights: CapRights,
    pub active: bool,
}

impl CapToken {
    /// A fresh, active token.
    pub fn new(
        id: u64,
        owner_tier: u8,
        resource_kind: ResourceKind,
        resource_addr: usize,
        size_bytes: usize,
        rights: CapRights,
    ) -> (r: CapToken)
        ensures
            r == (CapToken {
                id,
                owner_tier,
                resource_kind,
                resource_addr,
                size_bytes,
                rights,
                active: true,
            }),
    {
        CapToken { id, owner_tier, resource_kind, resource_addr, size_bytes, rights, active: true }
    }

    /// Derives a child token with equal or reduced rights; only an active
    /// token holding the grant right can derive.
    pub fn derive(&self, child_id: u64, requested_rights: CapRights) -> (r: Option<CapToken>)
        ensures
            r == (if !self.active || !self.rights.grant {
                None
            } else {
                Some(
                    CapToken {
                        id: child_id,
                        owner_tier: self.owner_tier,
                        resource_kind: self.resource_kind,
                        resource_addr: self.resource_addr,
                        size_bytes: self.size_bytes,
                        rights: self.rights.meet(requested_rights),
                        active: true,
                    },
                )
            }),
    {
        if !self.active || !self.rights.grant {
            return None;
        }
        Some(
            CapToken {
                id: child_id,
                owner_tier: self.owner_tier,
                resource_kind: self.resource_kind,
                resource_addr: self.resource_addr,
                size_bytes: self.size_bytes,
                rights: self.rights.attenuate(requested_rights),
                active: true,
            },
        )
    }
}

/// A derived token covers the same resource as its parent and never holds a
/// right that the parent lacks.
pub proof fn lemma_derive_never_amplifies(parent: CapToken, child: CapToken, requested: CapRights)
    requires
        parent.active,
        parent.rights.grant,
        child.rights == parent.rights.meet(requested),
        child.resource_addr == parent.resource_addr,
        child.size_bytes == parent.size_bytes,
    ensures
        parent.rights.covers(child.rights),
        requested.covers(child.rights),
        child.resource_addr == parent.resource_addr && child.size_bytes == parent.size_bytes,
{
}

} // verus!
