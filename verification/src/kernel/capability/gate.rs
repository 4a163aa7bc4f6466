//! The capability gate: a fixed table of minted tokens, access checks and
//! revocation.
use vstd::prelude::*;
use crate::security::capability::token::{CapRights, CapToken, ResourceKind};

verus! {

/// Number of token slots in a gate.
pub const MAX_CAPABILITIES: usize = 32;

/// Identifier given to the first token a gate mints; later tokens count up.
pub const FIRST_TOKEN_ID: u64 = 1000;

pub const ERR_TABLE_FULL: &'static str = "Capability Gate Error: Token Table Full";
pub const ERR_REVOKED: &'static str = "Access Denied: Capability Token Revoked";
pub const ERR_OUT_OF_BOUNDS: &'static str = "Access Denied: Requested Address Outside Capability Bounds";
pub const ERR_INSUFFICIENT_RIGHTS: &'static str = "Access Denied: Insufficient Capability Rights";
pub const ERR_INVALID_TOKEN: &'static str = "Access Denied: Invalid Capability Token ID";

/// A table of capability tokens. Tokens are minted into the first free slot
/// and never removed; revocation only deactivates them.
pub struct CapGate {
    slots: [Option<CapToken>; MAX_CAPABILITIES],
    next_id: u64,
}

/// How a gate may change between two states: tokens are only added after
/// the existing ones, and an existing token either stays as it is or is
/// deactivated.
pub open spec fn gate_successor(a: CapGate, b: CapGate) -> bool {
    &&& a.tokens().len() <= b.tokens().len()
    &&& forall|i: int|
        0 <= i < a.tokens().len() ==> #[trigger] b.tokens()[i] == a.tokens()[i] || b.tokens()[i]
            == (CapToken { active: false, ..a.tokens()[i] })
}

impl CapGate {
    /// Number of tokens minted so far.
    pub closed spec fn minted(&self) -> nat {
        (self.next_id - FIRST_TOKEN_ID) as nat
    }

    /// The minted tokens, in minting order.
    pub closed spec fn tokens(&self) -> Seq<CapToken> {
        Seq::new(self.minted(), |i: int| self.slots@[i].unwrap())
    }

    /// The table's invariant: the minted tokens fill a prefix of the slots and
    /// the token in slot `i` has identifier `FIRST_TOKEN_ID + i`.
    pub closed spec fn wf(&self) -> bool {
        &&& FIRST_TOKEN_ID <= self.next_id <= FIRST_TOKEN_ID + MAX_CAPABILITIES
        &&& forall|i: int|
            0 <= i < MAX_CAPABILITIES ==> (#[trigger] self.slots@[i] is Some <==> i < self.minted())
        &&& forall|i: int|
            0 <= i < self.minted() ==> (#[trigger] self.slots@[i]).unwrap().id == FIRST_TOKEN_ID + i
    }

    /// The token carrying identifier `id`, if one was minted.
    pub open spec fn lookup(&self, id: u64) -> Option<CapToken> {
        if FIRST_TOKEN_ID <= id < FIRST_TOKEN_ID + self.tokens().len() {
            Some(self.tokens()[id - FIRST_TOKEN_ID])
        } else {
            None
        }
    }

    /// Whether the arithmetic of an access check stays within `usize`: for an
    /// active token whose base lies at or below `target_addr`, both range ends
    /// must be representable.
    pub open spec fn access_in_range(&self, token_id: u64, target_addr: usize, requested_bytes: usize) -> bool {
        match self.lookup(token_id) {
            Some(t) => t.active && target_addr >= t.resource_addr ==> {
                &&& target_addr + requested_bytes <= usize::MAX
                &&& t.resource_addr + t.size_bytes <= usize::MAX
            },
            None => true,
        }
    }

    /// The verdict of an access check.
    pub open spec fn access(
        &self,
        token_id: u64,
        target_addr: usize,
        requested_bytes: usize,
        required_rights: CapRights,
    ) -> Result<(), &'static str> {
        match self.lookup(token_id) {
            None => Err(ERR_INVALID_TOKEN),
            Some(t) => if !t.active {
                Err(ERR_REVOKED)
            } else if target_addr < t.resource_addr || target_addr + requested_bytes > t.resource_addr
                + t.size_bytes {
                Err(ERR_OUT_OF_BOUNDS)
            } else if !t.rights.covers(required_rights) {
                Err(ERR_INSUFFICIENT_RIGHTS)
            } else {
                Ok(())
            },
        }
    }

    /// An empty gate.
    pub fn new() -> (r: CapGate)
        ensures
            r.wf(),
            r.tokens() == Seq::<CapToken>::empty(),
    {
        let r = CapGate { slots: [None; MAX_CAPABILITIES], next_id: FIRST_TOKEN_ID };
        assert(r.tokens() =~= Seq::<CapToken>::empty());
        r
    }

    /// Mints a brand new active token for a system resource into the first
    /// free slot; fails when all slots are taken.
    pub fn mint(
        &mut self,
        owner_tier: u8,
        kind: ResourceKind,
        addr: usize,
        size: usize,
        rights: CapRights,
    ) -> (r: Result<CapToken, &'static str>)
        requires
            old(self).wf(),
        ensures
            final(self).wf(),
            gate_successor(*old(self), *final(self)),
            old(self).tokens().len() < MAX_CAPABILITIES ==> {
                let t = CapToken {
                    id: (FIRST_TOKEN_ID + old(self).tokens().len()) as u64,
                    owner_tier,
                    resource_kind: kind,
                    resource_addr: addr,
                    size_bytes: size,
                    rights,
                    active: true,
                };
                &&& r == Ok::<CapToken, &'static str>(t)
                &&& final(self).tokens() == old(self).tokens().push(t)
            },
            old(self).tokens().len() >= MAX_CAPABILITIES ==> {
                &&& r == Err::<CapToken, &'static str>(ERR_TABLE_FULL)
                &&& final(self).tokens() == old(self).tokens()
            },
    {
        let ghost old_tokens = self.tokens();
        let mut i: usize = 0;
        while i < MAX_CAPABILITIES
            invariant
                0 <= i <= MAX_CAPABILITIES,
                self.wf(),
                self.tokens() == old_tokens,
                old_tokens == old(self).tokens(),
                *self == *old(self),
                i <= self.minted(),
            decreases MAX_CAPABILITIES - i,
        {
            if self.slots[i].is_none() {
                let token = CapToken::new(self.next_id, owner_tier, kind, addr, size, rights);
                let ghost old_slots = self.slots@;
                self.next_id = self.next_id + 1;
                self.slots[i] = Some(token);
                proof {
                    assert(i == old_tokens.len());
                    assert(self.minted() == old(self).minted() + 1);
                    assert forall|j: int| 0 <= j < self.minted() implies #[trigger] self.slots@[j]
                        == old_slots.update(i as int, Some(token))[j] by {}
                    assert(self.tokens() =~= old_tokens.push(token));
                }
                return Ok(token);
            }
            i = i + 1;
        }
        Err(ERR_TABLE_FULL)
    }

    /// Checks that a token exists, is active, covers the address range and
    /// holds the required rights.
    pub fn verify_access(
        &self,
        token_id: u64,
        target_addr: usize,
        requested_bytes: usize,
        required_rights: CapRights,
    ) -> (r: Result<(), &'static str>)
        requires
            self.wf(),
            self.access_in_range(token_id, target_addr, requested_bytes),
        ensures
            r == self.access(token_id, target_addr, requested_bytes, required_rights),
    {
        let mut i: usize = 0;
        while i < MAX_CAPABILITIES
            invariant
                0 <= i <= MAX_CAPABILITIES,
                self.wf(),
                self.access_in_range(token_id, target_addr, requested_bytes),
                forall|j: int|
                    0 <= j < i && #[trigger] self.slots@[j] is Some ==> self.slots@[j].unwrap().id
                        != token_id,
            decreases MAX_CAPABILITIES - i,
        {
            if let Some(slot) = self.slots[i] {
                if slot.id == token_id {
                    assert(self.tokens()[i as int] == slot);
                    if !slot.active {
                        return Err(ERR_REVOKED);
                    }
                    if target_addr < slot.resource_addr || (target_addr + requested_bytes) > (
                    slot.resource_addr + slot.size_bytes) {
                        return Err(ERR_OUT_OF_BOUNDS);
                    }
                    if !slot.rights.satisfies(required_rights) {
                        return Err(ERR_INSUFFICIENT_RIGHTS);
                    }
                    return Ok(());
                }
            }
            i = i + 1;
        }
        proof {
            if FIRST_TOKEN_ID <= token_id < FIRST_TOKEN_ID + self.tokens().len() {
                let j = token_id - FIRST_TOKEN_ID;
                assert(self.slots@[j] is Some);
            }
        }
        Err(ERR_INVALID_TOKEN)
    }

    /// Revokes the token carrying `token_id`; reports whether one was found.
    pub fn revoke(&mut self, token_id: u64) -> (r: bool)
        requires
            old(self).wf(),
        ensures
            final(self).wf(),
            gate_successor(*old(self), *final(self)),
            r == (old(self).lookup(token_id) is Some),
            r ==> final(self).tokens() == old(self).tokens().update(
                token_id - FIRST_TOKEN_ID,
                CapToken { active: false, ..old(self).tokens()[token_id - FIRST_TOKEN_ID] },
            ),
            !r ==> final(self).tokens() == old(self).tokens(),
    {
        let ghost old_tokens = self.tokens();
        let mut i: usize = 0;
        while i < MAX_CAPABILITIES
            invariant
                0 <= i <= MAX_CAPABILITIES,
                self.wf(),
                self.tokens() == old_tokens,
                *self == *old(self),
                forall|j: int|
                    0 <= j < i && #[trigger] self.slots@[j] is Some ==> self.slots@[j].unwrap().id
                        != token_id,
            decreases MAX_CAPABILITIES - i,
        {
            if let Some(token) = self.slots[i] {
                if token.id == token_id {
                    self.slots[i] = Some(CapToken { active: false, ..token });
                    proof {
                        assert(self.tokens() =~= old_tokens.update(
                            token_id - FIRST_TOKEN_ID,
                            CapToken { active: false, ..old_tokens[token_id - FIRST_TOKEN_ID] },
                        ));
                    }
                    return true;
                }
            }
            i = i + 1;
        }
        proof {
            if FIRST_TOKEN_ID <= token_id < FIRST_TOKEN_ID + self.tokens().len() {
                let j = token_id - FIRST_TOKEN_ID;
                assert(self.slots@[j] is Some);
            }
        }
        false
    }
}

/// Every minted token carries identifier `FIRST_TOKEN_ID` plus its minting
/// position, so identifiers are distinct and a lookup finds the one token
/// with that identifier.
pub proof fn lemma_token_ids(gate: CapGate)
    requires
        gate.wf(),
    ensures
        gate.tokens().len() <= MAX_CAPABILITIES,
        forall|i: int|
            0 <= i < gate.tokens().len() ==> (#[trigger] gate.tokens()[i]).id == FIRST_TOKEN_ID + i,
        forall|i: int|
            0 <= i < gate.tokens().len() ==> gate.lookup((#[trigger] gate.tokens()[i]).id) == Some(
                gate.tokens()[i],
            ),
        forall|id: u64|
            (#[trigger] gate.lookup(id)) is None ==> forall|i: int|
                0 <= i < gate.tokens().len() ==> (#[trigger] gate.tokens()[i]).id != id,
{
    assert forall|i: int| 0 <= i < gate.tokens().len() implies (#[trigger] gate.tokens()[i]).id
        == FIRST_TOKEN_ID + i by {
        assert(gate.slots@[i] is Some);
    }
}

/// A freshly minted token grants exactly the accesses that lie inside its
/// range and ask for rights it holds.
pub proof fn lemma_minted_token_access(
    before: CapGate,
    after: CapGate,
    t: CapToken,
    target_addr: usize,
    requested_bytes: usize,
    required_rights: CapRights,
)
    requires
        before.wf(),
        after.wf(),
        t.active,
        t.id == FIRST_TOKEN_ID + before.tokens().len(),
        after.tokens() == before.tokens().push(t),
    ensures
        (after.access(t.id, target_addr, requested_bytes, required_rights) is Ok) <==> (t.resource_addr
            <= target_addr && target_addr + requested_bytes <= t.resource_addr + t.size_bytes
            && t.rights.covers(required_rights)),
{
    assert(after.lookup(t.id) == Some(t));
}

/// After a token is revoked, every access through it is refused as revoked.
pub proof fn lemma_revoked_token_refused(
    before: CapGate,
    after: CapGate,
    token_id: u64,
    target_addr: usize,
    requested_bytes: usize,
    required_rights: CapRights,
)
    requires
        before.wf(),
        before.lookup(token_id) is Some,
        after.tokens() == before.tokens().update(
            token_id - FIRST_TOKEN_ID,
            CapToken { active: false, ..before.tokens()[token_id - FIRST_TOKEN_ID] },
        ),
    ensures
        after.access(token_id, target_addr, requested_bytes, required_rights) == Err::<
            (),
            &'static str,
        >(ERR_REVOKED),
{
}

/// Two successive gate steps make one.
pub proof fn lemma_gate_successor_trans(a: CapGate, b: CapGate, c: CapGate)
    requires
        gate_successor(a, b),
        gate_successor(b, c),
    ensures
        gate_successor(a, c),
{
    assert forall|i: int| 0 <= i < a.tokens().len() implies #[trigger] c.tokens()[i] == a.tokens()[i]
        || c.tokens()[i] == (CapToken { active: false, ..a.tokens()[i] }) by {
        assert(gate_successor(a, b) ==> (b.tokens()[i] == a.tokens()[i] || b.tokens()[i] == (CapToken {
            active: false,
            ..a.tokens()[i]
        })));
        assert(c.tokens()[i] == b.tokens()[i] || c.tokens()[i] == (CapToken { active: false, ..b.tokens()[i] }));
    }
}

/// The token carrying `id` exists and has been deactivated.
pub open spec fn is_revoked(g: CapGate, id: u64) -> bool {
    g.lookup(id) matches Some(t) && !t.active
}

/// Revocation is permanent: along any run of gate states where each step is
/// a `gate_successor` (as every `mint` and `revoke` is), a token that is
/// revoked stays revoked, and every access through it is refused as revoked.
pub proof fn lemma_revocation_permanent(
    history: Seq<CapGate>,
    token_id: u64,
    target_addr: usize,
    requested_bytes: usize,
    required_rights: CapRights,
)
    requires
        history.len() >= 1,
        forall|i: int| 0 <= i < history.len() - 1 ==> #[trigger] gate_successor(history[i], history[i + 1]),
        is_revoked(history[0], token_id),
    ensures
        forall|i: int|
            0 <= i < history.len() ==> is_revoked(#[trigger] history[i], token_id),
        forall|i: int|
            0 <= i < history.len() ==> (#[trigger] history[i]).access(
                token_id,
                target_addr,
                requested_bytes,
                required_rights,
            ) == Err::<(), &'static str>(ERR_REVOKED),
{
    lemma_revoked_prefix(history, token_id, history.len() - 1);
}

/// The token stays revoked in the first `n + 1` states of the run.
proof fn lemma_revoked_prefix(history: Seq<CapGate>, token_id: u64, n: int)
    requires
        0 <= n < history.len(),
        forall|i: int| 0 <= i < history.len() - 1 ==> #[trigger] gate_successor(history[i], history[i + 1]),
        is_revoked(history[0], token_id),
    ensures
        forall|i: int|
            0 <= i <= n ==> is_revoked(#[trigger] history[i], token_id),
    decreases n,
{
    if n > 0 {
        lemma_revoked_prefix(history, token_id, n - 1);
        let k = n - 1;
        assert(gate_successor(history[k], history[k + 1]));
        assert(is_revoked(history[k], token_id));
        let j = token_id - FIRST_TOKEN_ID;
        assert(history[k + 1].tokens()[j] == history[k].tokens()[j] || history[k + 1].tokens()[j]
            == (CapToken { active: false, ..history[k].tokens()[j] }));
    }
}

/// Minting never changes an existing token: a revoked token stays revoked
/// and an unknown identifier other than the new token's stays unknown.
pub proof fn lemma_mint_preserves_tokens(before: CapGate, after: CapGate, t: CapToken, id: u64)
    requires
        before.wf(),
        t.id == FIRST_TOKEN_ID + before.tokens().len(),
        after.tokens() == before.tokens().push(t),
        id != t.id,
    ensures
        after.lookup(id) == before.lookup(id),
{
}

} // verus!
