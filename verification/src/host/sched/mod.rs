//! Round-robin scheduling of guest domains on the host.
use vstd::prelude::*;

pub mod domain;

use crate::host::vmm::VCpu;
pub use domain::{Domain, DomainId, DomainState};

verus! {

/// Maximum number of guest domains.
pub const MAX_GUEST_DOMAINS: usize = 4;

/// The domain `d` in state `s`.
pub open spec fn with_state(d: Domain, s: DomainState) -> Domain {
    Domain { state: s, ..d }
}

/// The index of the first domain in state `Ready` among positions
/// `(cur + k) % count`, `(cur + k + 1) % count`, ..., `(cur + count) % count`.
pub open spec fn first_ready_from(domains: Seq<Domain>, cur: int, k: int) -> Option<int>
    decreases domains.len() + 1 - k,
{
    if k > domains.len() || k < 1 {
        None
    } else if domains[(cur + k) % (domains.len() as int)].state == DomainState::Ready {
        Some((cur + k) % (domains.len() as int))
    } else {
        first_ready_from(domains, cur, k + 1)
    }
}

/// The domains after the current one has been marked `Ready` if it was
/// `Running`.
pub open spec fn yield_current(domains: Seq<Domain>, cur: int) -> Seq<Domain> {
    if domains[cur].state == DomainState::Running {
        domains.update(cur, with_state(domains[cur], DomainState::Ready))
    } else {
        domains
    }
}

/// The domain chosen by a switch: the first ready domain in round-robin
/// order after `cur` (checking `cur` itself last, once it has yielded), or
/// none when no domain is ready.
pub open spec fn next_domain(domains: Seq<Domain>, cur: int) -> Option<int> {
    first_ready_from(yield_current(domains, cur), cur, 1)
}

/// The domains after a switch from `cur` with more than one domain: the
/// current one yields, and the chosen one, if any, runs.
pub open spec fn switched_domains(domains: Seq<Domain>, cur: int) -> Seq<Domain> {
    let y = yield_current(domains, cur);
    match next_domain(domains, cur) {
        Some(n) => y.update(n, with_state(y[n], DomainState::Running)),
        None => y,
    }
}

/// The outcome of a switch from `cur`: the new domains, the new current
/// index, and the domain whose vCPU must run. With at most one domain
/// nothing changes and nothing runs; when no domain is ready, the current
/// index stays and nothing runs.
pub open spec fn switch_result(domains: Seq<Domain>, cur: int) -> (Seq<Domain>, int, Option<DomainId>) {
    if domains.len() <= 1 {
        (domains, cur, None)
    } else {
        match next_domain(domains, cur) {
            Some(n) => (switched_domains(domains, cur), n, Some(DomainId(n as u32))),
            None => (switched_domains(domains, cur), cur, None),
        }
    }
}

/// The domains after one timer tick on the current domain `cur`, before any
/// switch: its remaining ticks drop by one (not below zero), and an
/// exhausted slice is refilled.
pub open spec fn ticked_domains(domains: Seq<Domain>, cur: int) -> Seq<Domain> {
    let d = domains[cur];
    let rem: u32 = if d.remaining_ticks > 0 { (d.remaining_ticks - 1) as u32 } else { 0 };
    if rem == 0 {
        domains.update(cur, Domain { remaining_ticks: d.time_slice_ticks, ..d })
    } else {
        domains.update(cur, Domain { remaining_ticks: rem, ..d })
    }
}

/// Whether the current domain's slice runs out on this tick.
pub open spec fn slice_expires(domains: Seq<Domain>, cur: int) -> bool {
    domains[cur].remaining_ticks <= 1
}

/// The host's scheduler: up to `MAX_GUEST_DOMAINS` registered domains and
/// the index of the current one.
pub struct HostScheduler {
    domains: [Option<Domain>; MAX_GUEST_DOMAINS],
    current_index: usize,
    count: usize,
}

impl HostScheduler {
    /// The registered domains, in registration order.
    pub closed spec fn domains(&self) -> Seq<Domain> {
        Seq::new(self.count as nat, |i: int| self.domains@[i].unwrap())
    }

    /// Index of the current domain.
    pub closed spec fn current(&self) -> int {
        self.current_index as int
    }

    /// The scheduler's invariant: registered domains fill a prefix of the
    /// slots, each domain's identifier is its slot, and the current index
    /// names a registered domain once there is one.
    pub closed spec fn wf(&self) -> bool {
        &&& self.count <= MAX_GUEST_DOMAINS
        &&& self.current_index < MAX_GUEST_DOMAINS
        &&& self.count > 0 ==> self.current_index < self.count
        &&& self.count == 0 ==> self.current_index == 0
        &&& forall|i: int|
            0 <= i < MAX_GUEST_DOMAINS ==> (#[trigger] self.domains@[i] is Some <==> i < self.count)
        &&& forall|i: int|
            0 <= i < self.count ==> (#[trigger] self.domains@[i]).unwrap().id.0 == i
        &&& forall|i: int|
            0 <= i < self.count && (#[trigger] self.domains@[i]).unwrap().state
                == DomainState::Running ==> i == self.current_index
    }

    /// The public face of the invariant.
    pub open spec fn valid(&self) -> bool {
        &&& self.wf()
        &&& self.domains().len() <= MAX_GUEST_DOMAINS
        &&& (self.domains().len() > 0 ==> 0 <= self.current() < self.domains().len())
        &&& forall|i: int| 0 <= i < self.domains().len() ==> (#[trigger] self.domains()[i]).id.0 == i
        &&& forall|i: int|
            0 <= i < self.domains().len() && (#[trigger] self.domains()[i]).state
                == DomainState::Running ==> i == self.current()
    }

    proof fn lemma_valid(&self)
        requires
            self.wf(),
        ensures
            self.valid(),
    {
        assert forall|i: int| 0 <= i < self.domains().len() implies (
        #[trigger] self.domains()[i]).id.0 == i by {
            assert(self.domains@[i] is Some);
        }
        assert forall|i: int|
            0 <= i < self.domains().len() && (#[trigger] self.domains()[i]).state
                == DomainState::Running implies i == self.current() by {
            assert(self.domains@[i] is Some);
        }
    }

    /// A scheduler with no domains.
    pub fn new() -> (r: HostScheduler)
        ensures
            r.valid(),
            r.domains() == Seq::<Domain>::empty(),
            r.current() == 0,
    {
        let r = HostScheduler { domains: [None, None, None, None], current_index: 0, count: 0 };
        assert(r.domains() =~= Seq::<Domain>::empty());
        proof {
            r.lemma_valid();
        }
        r
    }

    /// Registers a new guest domain under the next free identifier; fails
    /// when `MAX_GUEST_DOMAINS` are registered.
    pub fn register_domain(&mut self, name: &'static str, vcpu: VCpu, time_slice_ticks: u32) -> (r:
        Option<DomainId>)
        requires
            old(self).valid(),
        ensures
            final(self).valid(),
            final(self).current() == old(self).current(),
            old(self).domains().len() >= MAX_GUEST_DOMAINS ==> r is None && final(self).domains()
                == old(self).domains(),
            old(self).domains().len() < MAX_GUEST_DOMAINS ==> {
                let id = DomainId(old(self).domains().len() as u32);
                &&& r == Some(id)
                &&& final(self).domains() == old(self).domains().push(
                    Domain {
                        id,
                        name,
                        state: DomainState::Ready,
                        vcpu,
                        time_slice_ticks,
                        remaining_ticks: time_slice_ticks,
                    },
                )
            },
    {
        if self.count >= MAX_GUEST_DOMAINS {
            return None;
        }
        let ghost old_domains = self.domains();
        let domain_id = DomainId(self.count as u32);
        let domain = Domain::new(domain_id, name, vcpu, time_slice_ticks);
        self.domains[self.count] = Some(domain);
        self.count = self.count + 1;
        proof {
            assert(self.domains() =~= old_domains.push(domain));
            assert(self.wf());
            self.lemma_valid();
        }
        Some(domain_id)
    }

    /// Preemptively switches to the next ready domain in round-robin order
    /// and marks it running. Returns the domain whose vCPU must now run, or
    /// `None` when at most one domain is registered (nothing changes then)
    /// or when no domain is ready (the current domain yields and nothing
    /// runs; a paused or halted domain is never started).
    pub fn switch_to_next_domain(&mut self) -> (r: Option<DomainId>)
        requires
            old(self).valid(),
        ensures
            final(self).valid(),
            (final(self).domains(), final(self).current(), r) == switch_result(
                old(self).domains(),
                old(self).current(),
            ),
    {
        if self.count <= 1 {
            return None;
        }
        proof {
            self.lemma_valid();
        }
        let ghost d0 = self.domains();
        let ghost cur = self.current_index as int;
        if let Some(domain) = &mut self.domains[self.current_index] {
            if domain.state == DomainState::Running {
                domain.state = DomainState::Ready;
            }
        }
        let ghost y = yield_current(d0, cur);
        assert(self.domains() =~= y);
        assert forall|i: int| 0 <= i < y.len() implies (#[trigger] y[i]).state != DomainState::Running by {
            assert(self.domains@[i] is Some);
        }
        let mut next: usize = (self.current_index + 1) % self.count;
        let mut k: usize = 1;
        let mut found: bool = false;
        while k <= self.count
            invariant_except_break
                self.wf(),
                self.count > 1,
                self.domains() == y,
                y == yield_current(d0, cur),
                y.len() == self.count,
                forall|i: int| 0 <= i < y.len() ==> (#[trigger] y[i]).state != DomainState::Running,
                self.current_index == cur,
                1 <= k <= self.count + 1,
                next == (cur + k) % (self.count as int),
                first_ready_from(y, cur, 1) == first_ready_from(y, cur, k as int),
                !found,
            ensures
                self.wf(),
                self.domains() == y,
                found ==> next_domain(d0, cur) == Some(self.current_index as int),
                !found ==> next_domain(d0, cur) is None && self.current_index == cur,
            decreases self.count + 1 - k,
        {
            proof {
                assert(self.domains@[next as int] is Some);
            }
            if let Some(domain) = &self.domains[next] {
                if domain.state == DomainState::Ready {
                    assert(self.domains()[next as int] == *domain);
                    assert(first_ready_from(y, cur, k as int) == Some(next as int));
                    self.current_index = next;
                    found = true;
                    break;
                }
            }
            assert(y[next as int].state != DomainState::Ready);
            proof {
                vstd::arithmetic::div_mod::lemma_add_mod_noop(cur + k, 1, self.count as int);
                vstd::arithmetic::div_mod::lemma_small_mod(1, self.count as nat);
                assert(first_ready_from(y, cur, k as int) == first_ready_from(y, cur, k + 1));
            }
            next = (next + 1) % self.count;
            k = k + 1;
        }
        if !found {
            proof {
                assert(self.domains() =~= switched_domains(d0, cur));
                assert forall|i: int|
                    0 <= i < self.count && (#[trigger] self.domains@[i]).unwrap().state
                        == DomainState::Running implies i == self.current_index by {
                    assert(self.domains()[i] == y[i]);
                }
                self.lemma_valid();
            }
            return None;
        }
        let ghost n = self.current_index as int;
        if let Some(domain) = &mut self.domains[self.current_index] {
            domain.state = DomainState::Running;
        }
        proof {
            assert(self.domains() =~= switched_domains(d0, cur));
            assert forall|i: int|
                0 <= i < self.count && (#[trigger] self.domains@[i]).unwrap().state
                    == DomainState::Running implies i == self.current_index by {
                if i != n {
                    assert(self.domains()[i] == y[i]);
                    if i == cur {
                    } else {
                        assert(y[i] == d0[i]);
                    }
                }
            }
            self.lemma_valid();
        }
        Some(DomainId(self.current_index as u32))
    }

    /// One timer tick: the current domain's slice shrinks by one tick; when
    /// it runs out it is refilled and the scheduler switches domains. Returns
    /// the domain whose vCPU must now run, if a switch chose one.
    pub fn on_timer_tick(&mut self) -> (r: Option<DomainId>)
        requires
            old(self).valid(),
        ensures
            final(self).valid(),
            old(self).domains().len() == 0 ==> r is None && final(self).domains() == old(
                self,
            ).domains() && final(self).current() == old(self).current(),
            old(self).domains().len() > 0 ==> {
                let mid = ticked_domains(old(self).domains(), old(self).current());
                if slice_expires(old(self).domains(), old(self).current()) {
                    (final(self).domains(), final(self).current(), r) == switch_result(
                        mid,
                        old(self).current(),
                    )
                } else {
                    &&& final(self).domains() == mid
                    &&& final(self).current() == old(self).current()
                    &&& r is None
                }
            },
    {
        if self.count == 0 {
            return None;
        }
        let ghost d0 = self.domains();
        let ghost cur = self.current_index as int;
        proof {
            assert(self.domains@[cur] is Some);
        }
        let mut expired = false;
        if let Some(current_domain) = &mut self.domains[self.current_index] {
            if current_domain.remaining_ticks > 0 {
                current_domain.remaining_ticks = current_domain.remaining_ticks - 1;
            }
            if current_domain.remaining_ticks == 0 {
                current_domain.reset_quantum();
                expired = true;
            }
        }
        proof {
            assert(self.domains() =~= ticked_domains(d0, cur));
            assert(self.wf());
            self.lemma_valid();
        }
        if expired {
            return self.switch_to_next_domain();
        }
        None
    }

    /// Pauses a domain; pausing the current domain switches away from it.
    /// Returns the domain whose vCPU must now run, if a switch chose one.
    /// An unknown identifier changes nothing.
    pub fn pause_domain(&mut self, id: DomainId) -> (r: Option<DomainId>)
        requires
            old(self).valid(),
        ensures
            final(self).valid(),
            id.0 >= old(self).domains().len() ==> r is None && final(self).domains() == old(
                self,
            ).domains() && final(self).current() == old(self).current(),
            id.0 < old(self).domains().len() ==> {
                let mid = old(self).domains().update(
                    id.0 as int,
                    with_state(old(self).domains()[id.0 as int], DomainState::Paused),
                );
                if old(self).current() == id.0 {
                    (final(self).domains(), final(self).current(), r) == switch_result(
                        mid,
                        old(self).current(),
                    )
                } else {
                    &&& final(self).domains() == mid
                    &&& final(self).current() == old(self).current()
                    &&& r is None
                }
            },
    {
        let idx = id.0 as usize;
        if idx >= self.count {
            return None;
        }
        let ghost d0 = self.domains();
        proof {
            assert(self.domains@[idx as int] is Some);
        }
        if let Some(domain) = &mut self.domains[idx] {
            domain.state = DomainState::Paused;
        }
        proof {
            assert(self.domains() =~= d0.update(
                idx as int,
                with_state(d0[idx as int], DomainState::Paused),
            ));
            assert(self.wf());
            self.lemma_valid();
        }
        if self.current_index == idx {
            return self.switch_to_next_domain();
        }
        None
    }

    /// Marks a paused domain ready again. An unknown identifier changes
    /// nothing.
    pub fn unpause_domain(&mut self, id: DomainId)
        requires
            old(self).valid(),
        ensures
            final(self).valid(),
            final(self).current() == old(self).current(),
            final(self).domains() == (if id.0 < old(self).domains().len() {
                old(self).domains().update(
                    id.0 as int,
                    with_state(old(self).domains()[id.0 as int], DomainState::Ready),
                )
            } else {
                old(self).domains()
            }),
    {
        let idx = id.0 as usize;
        if idx >= self.count {
            return;
        }
        let ghost d0 = self.domains();
        proof {
            assert(self.domains@[idx as int] is Some);
        }
        if let Some(domain) = &mut self.domains[idx] {
            domain.state = DomainState::Ready;
        }
        proof {
            assert(self.domains() =~= d0.update(
                idx as int,
                with_state(d0[idx as int], DomainState::Ready),
            ));
            assert(self.wf());
            self.lemma_valid();
        }
    }
}

/// Time slices on a timer tick: a domain with more than one tick left
/// loses one tick and keeps running; when its slice runs out (one tick or
/// none left) it is refilled to its full slice, so its next turn lasts a
/// whole slice. The switch that follows changes only domain states, never
/// remaining ticks, and no other domain's ticks change.
pub proof fn lemma_timer_tick_slices(domains: Seq<Domain>, cur: int)
    requires
        0 <= cur < domains.len(),
    ensures
        ({
            let mid = ticked_domains(domains, cur);
            let after = switch_result(mid, cur).0;
            &&& mid.len() == domains.len()
            &&& domains[cur].remaining_ticks > 1 ==> {
                &&& !slice_expires(domains, cur)
                &&& mid[cur].remaining_ticks == domains[cur].remaining_ticks - 1
            }
            &&& domains[cur].remaining_ticks <= 1 ==> {
                &&& slice_expires(domains, cur)
                &&& mid[cur].remaining_ticks == domains[cur].time_slice_ticks
                &&& after.len() == domains.len()
                &&& after[cur].remaining_ticks == domains[cur].time_slice_ticks
            }
            &&& mid[cur].time_slice_ticks == domains[cur].time_slice_ticks
            &&& mid[cur].state == domains[cur].state
            &&& forall|i: int| 0 <= i < domains.len() && i != cur ==> #[trigger] mid[i] == domains[i]
            &&& forall|i: int|
                0 <= i < domains.len() ==> (#[trigger] after[i]).remaining_ticks == mid[i].remaining_ticks
        }),
{
    let mid = ticked_domains(domains, cur);
    let y = yield_current(mid, cur);
    assert(y.len() == mid.len());
    assert forall|i: int| 0 <= i < mid.len() implies (#[trigger] y[i]).remaining_ticks
        == mid[i].remaining_ticks by {}
    if mid.len() > 1 {
        lemma_first_ready(y, cur, 1);
        let s = switched_domains(mid, cur);
        match next_domain(mid, cur) {
            Some(n) => {
                assert(0 <= n < y.len());
                assert forall|i: int| 0 <= i < mid.len() implies (#[trigger] s[i]).remaining_ticks
                    == mid[i].remaining_ticks by {
                    if i == n {
                        assert(s[i] == with_state(y[n], DomainState::Running));
                    } else {
                        assert(s[i] == y[i]);
                    }
                }
            },
            None => {
                assert(s == y);
            },
        }
    }
}

/// No domain at the round-robin steps `from`, ..., `to - 1` after `cur` is
/// ready.
pub open spec fn none_ready_between(domains: Seq<Domain>, cur: int, from: int, to: int) -> bool {
    forall|l: int|
        from <= l < to ==> (#[trigger] domains[(cur + l) % (domains.len() as int)]).state
            != DomainState::Ready
}

/// What the round-robin search finds, step by step: a found domain is
/// ready, it sits `j` steps after `cur`, and no domain at fewer steps (from
/// `k` on) is ready; when nothing is found, no domain from step `k` to a full
/// turn is ready.
proof fn lemma_first_ready(domains: Seq<Domain>, cur: int, k: int)
    requires
        domains.len() > 0,
        1 <= k,
    ensures
        match first_ready_from(domains, cur, k) {
            Some(i) => {
                &&& 0 <= i < domains.len()
                &&& domains[i].state == DomainState::Ready
                &&& exists|j: int|
                    k <= j <= domains.len() && i == (cur + j) % (domains.len() as int)
                        && #[trigger] none_ready_between(domains, cur, k, j)
            },
            None => forall|l: int|
                k <= l <= domains.len() ==> (#[trigger] domains[(cur + l) % (domains.len() as int)]).state
                    != DomainState::Ready,
        },
    decreases domains.len() + 1 - k,
{
    let n = domains.len() as int;
    if k > n {
    } else if domains[(cur + k) % n].state == DomainState::Ready {
        assert(none_ready_between(domains, cur, k, k));
    } else {
        lemma_first_ready(domains, cur, k + 1);
        match first_ready_from(domains, cur, k + 1) {
            Some(i) => {
                let j = choose|j: int|
                    k + 1 <= j <= n && i == (cur + j) % n && #[trigger] none_ready_between(
                        domains,
                        cur,
                        k + 1,
                        j,
                    );
                assert(none_ready_between(domains, cur, k, j));
            },
            None => {},
        }
    }
}

/// Round-robin switching: with more than one domain, the chosen domain is
/// the first ready one after the current domain in cyclic order (the current
/// domain itself is checked last, after it has yielded); every domain passed
/// over is not ready. The chosen domain is the only one left running, and no
/// other domain changes except the current one, which yields. When no
/// domain is ready, none is chosen and none runs. A paused or halted domain
/// is never started.
pub proof fn lemma_switch_round_robin(domains: Seq<Domain>, cur: int)
    requires
        domains.len() > 1,
        0 <= cur < domains.len(),
        forall|i: int| 0 <= i < domains.len() && i != cur ==> (#[trigger] domains[i]).state != DomainState::Running,
    ensures
        ({
            let y = yield_current(domains, cur);
            let s = switched_domains(domains, cur);
            let len = domains.len() as int;
            &&& match next_domain(domains, cur) {
                Some(n) => {
                    &&& 0 <= n < len
                    &&& y[n].state == DomainState::Ready
                    &&& s[n].state == DomainState::Running
                    &&& exists|j: int|
                        1 <= j <= len && n == (cur + j) % len && #[trigger] none_ready_between(y, cur, 1, j)
                    &&& forall|i: int| 0 <= i < len && i != n && i != cur ==> #[trigger] s[i] == domains[i]
                },
                None => {
                    &&& forall|i: int| 0 <= i < len ==> (#[trigger] y[i]).state != DomainState::Ready
                    &&& forall|i: int| 0 <= i < len ==> (#[trigger] s[i]).state != DomainState::Running
                },
            }
            &&& (exists|i: int| 0 <= i < len && (#[trigger] y[i]).state == DomainState::Ready) <==> next_domain(
                domains,
                cur,
            ) is Some
            &&& forall|i: int|
                0 <= i < len && (domains[i].state == DomainState::Paused || domains[i].state
                    == DomainState::Halted) ==> #[trigger] s[i] == domains[i]
        }),
{
    let y = yield_current(domains, cur);
    let len = domains.len() as int;
    lemma_first_ready(y, cur, 1);
    if exists|i: int| 0 <= i < len && (#[trigger] y[i]).state == DomainState::Ready {
        let i = choose|i: int| 0 <= i < len && (#[trigger] y[i]).state == DomainState::Ready;
        if first_ready_from(y, cur, 1) is None {
            // every position is reached at some step between 1 and len
            let l = if i > cur { i - cur } else { i - cur + len };
            if i > cur {
                vstd::arithmetic::div_mod::lemma_small_mod(i as nat, len as nat);
                assert((cur + l) % len == i);
            } else {
                vstd::arithmetic::div_mod::lemma_small_mod(i as nat, len as nat);
                vstd::arithmetic::div_mod::lemma_mod_add_multiples_vanish(i, len);
                assert(cur + l == len + i);
                assert((cur + l) % len == i);
            }
            assert(y[(cur + l) % len].state != DomainState::Ready);
        }
    }
    if next_domain(domains, cur) is None {
        assert forall|i: int| 0 <= i < len implies (#[trigger] y[i]).state != DomainState::Ready by {
            if y[i].state == DomainState::Ready {
                assert(exists|i: int| 0 <= i < len && (#[trigger] y[i]).state == DomainState::Ready);
            }
        }
        assert forall|i: int| 0 <= i < len implies (#[trigger] switched_domains(domains, cur)[i]).state
            != DomainState::Running by {
            assert(switched_domains(domains, cur)[i] == y[i]);
            if i != cur {
                assert(y[i] == domains[i]);
            }
        }
    }
}

} // verus!
