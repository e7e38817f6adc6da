//! Rotation over RPC endpoints: each request is routed to the next healthy
//! endpoint in round-robin order.

use vstd::prelude::*;

verus! {

/// Health of one RPC endpoint, as reported to clients.
#[derive(Debug, Clone)]
pub struct RpcHealth {
    pub url: String,
    pub is_healthy: bool,
}

/// The offset, counted from `start` and wrapping around, of the first healthy
/// endpoint among the offsets `from..health.len()`.
pub open spec fn first_healthy_offset(health: Seq<bool>, start: nat, from: nat) -> Option<nat>
    decreases health.len() - from,
{
    if from >= health.len() {
        None
    } else if health[(start + from) as int % (health.len() as int)] {
        Some(from)
    } else {
        first_healthy_offset(health, start, from + 1)
    }
}

/// The endpoint chosen when the rotation cursor stands at `start`: the first
/// healthy endpoint at or after `start` (wrapping around), or `start` itself
/// when none is healthy.
pub open spec fn pick(health: Seq<bool>, start: nat) -> nat {
    match first_healthy_offset(health, start, 0) {
        Some(off) => ((start + off) as int % (health.len() as int)) as nat,
        None => start,
    }
}

/// Where the rotation cursor stands after a pick from `start`: just past the
/// chosen endpoint, or one past `start` when none is healthy.
pub open spec fn next_cursor(health: Seq<bool>, start: nat) -> nat {
    match first_healthy_offset(health, start, 0) {
        Some(off) => ((start + off + 1) as int % (health.len() as int)) as nat,
        None => ((start + 1) as int % (health.len() as int)) as nat,
    }
}

/// What `first_healthy_offset` finds: the first healthy offset at or after
/// `from`, with every offset before it unhealthy; or, when it finds none,
/// no healthy offset at all from `from` on.
pub proof fn lemma_first_healthy_offset(health: Seq<bool>, start: nat, from: nat)
    requires
        health.len() > 0,
    ensures
        match first_healthy_offset(health, start, from) {
            Some(k) => {
                &&& from <= k < health.len()
                &&& health[(start + k) as int % (health.len() as int)]
                &&& forall|m: nat| from <= m < k ==> !#[trigger] health[(start + m) as int % (health.len() as int)]
            },
            None => forall|m: nat| from <= m < health.len() ==> !#[trigger] health[(start + m) as int % (health.len() as int)],
        },
    decreases health.len() - from,
{
    if from < health.len() {
        lemma_first_healthy_offset(health, start, from + 1);
    }
}

/// Whenever some endpoint is healthy, the pick is a healthy endpoint, and
/// every endpoint the rotation passes over on the way to it is unhealthy.
pub proof fn law_pick_is_healthy(health: Seq<bool>, start: nat, j: int)
    requires
        start < health.len(),
        0 <= j < health.len(),
        health[j],
    ensures
        pick(health, start) < health.len(),
        health[pick(health, start) as int],
        first_healthy_offset(health, start, 0) matches Some(k) && forall|m: nat| m < k
            ==> !#[trigger] health[(start + m) as int % (health.len() as int)],
{
    let n = health.len() as int;
    lemma_first_healthy_offset(health, start, 0);
    let o: nat = if j >= start { (j - start) as nat } else { (j + n - start) as nat };
    assert((start + o) as int % n == j) by {
        if j >= start {
            vstd::arithmetic::div_mod::lemma_small_mod(j as nat, n as nat);
        } else {
            vstd::arithmetic::div_mod::lemma_small_mod(j as nat, n as nat);
            vstd::arithmetic::div_mod::lemma_mod_self_0(n);
            vstd::arithmetic::div_mod::lemma_add_mod_noop(j, n, n);
        }
    }
    assert(health[(start + o) as int % n]);
    let k = first_healthy_offset(health, start, 0)->0;
    vstd::arithmetic::div_mod::lemma_mod_bound((start + k) as int, n);
}

/// How many steps the rotation takes from `start` to reach `target`,
/// wrapping around after the last endpoint.
pub open spec fn cyclic_distance(start: nat, target: nat, len: nat) -> nat {
    if target >= start { (target - start) as nat } else { (target + len - start) as nat }
}

/// Whenever some endpoint is healthy, the rotation picks the first healthy
/// endpoint met when walking from the cursor (wrapping around), and the
/// cursor afterwards stands just past the picked endpoint, so that healthy
/// endpoints are used in turn.
pub proof fn law_cursor_moves_past_pick(health: Seq<bool>, start: nat, j: int)
    requires
        start < health.len(),
        0 <= j < health.len(),
        health[j],
    ensures
        pick(health, start) < health.len(),
        health[pick(health, start) as int],
        next_cursor(health, start) == (pick(health, start) + 1) as int % (health.len() as int),
        forall|m: nat| m < cyclic_distance(start, pick(health, start), health.len())
            ==> !#[trigger] health[(start + m) as int % (health.len() as int)],
{
    let n = health.len() as int;
    law_pick_is_healthy(health, start, j);
    lemma_first_healthy_offset(health, start, 0);
    let k = first_healthy_offset(health, start, 0)->0;
    let p = pick(health, start);
    assert(p == ((start + k) as int % n) as nat);
    if start + k < n {
        vstd::arithmetic::div_mod::lemma_small_mod((start + k) as nat, n as nat);
        assert(cyclic_distance(start, p, health.len()) == k);
    } else {
        vstd::arithmetic::div_mod::lemma_small_mod((start + k - n) as nat, n as nat);
        vstd::arithmetic::div_mod::lemma_mod_self_0(n);
        vstd::arithmetic::div_mod::lemma_add_mod_noop((start + k - n) as int, n, n);
        assert(p == start + k - n);
        assert(cyclic_distance(start, p, health.len()) == k);
    }
    vstd::arithmetic::div_mod::lemma_add_mod_noop((start + k) as int, 1, n);
    vstd::arithmetic::div_mod::lemma_mod_bound(1, n);
    if n > 1 {
        vstd::arithmetic::div_mod::lemma_small_mod(1, n as nat);
    } else {
        assert(1int % n == 0) by {
            vstd::arithmetic::div_mod::lemma_mod_self_0(n);
        }
        assert(((p as int) + 1) % n == 0) by {
            vstd::arithmetic::div_mod::lemma_mod_self_0(n);
        }
        assert((start + k + 1) as int % n == 0) by {
            vstd::arithmetic::div_mod::lemma_mod_self_0(n);
        }
    }
}

/// With every endpoint healthy the rotation is a plain round robin: the
/// endpoint under the cursor is picked and the cursor moves one on.
pub proof fn law_round_robin_when_all_healthy(health: Seq<bool>, start: nat)
    requires
        start < health.len(),
        forall|i: int| 0 <= i < health.len() ==> health[i],
    ensures
        pick(health, start) == start,
        next_cursor(health, start) == (start + 1) as int % (health.len() as int),
{
    vstd::arithmetic::div_mod::lemma_small_mod(start, health.len());
    assert(health[start as int]);
    assert(first_healthy_offset(health, start, 0) == Some(0nat));
}

/// With no endpoint healthy the endpoint under the cursor is used anyway and
/// the cursor moves one on.
pub proof fn law_fallback_when_none_healthy(health: Seq<bool>, start: nat)
    requires
        start < health.len(),
        forall|i: int| 0 <= i < health.len() ==> !health[i],
    ensures
        pick(health, start) == start,
        next_cursor(health, start) == (start + 1) as int % (health.len() as int),
{
    lemma_first_healthy_offset(health, start, 0);
    match first_healthy_offset(health, start, 0) {
        Some(k) => {
            vstd::arithmetic::div_mod::lemma_mod_bound((start + k) as int, health.len() as int);
            assert(!health[(start + k) as int % (health.len() as int)]);
        },
        None => {},
    }
}

/// A set of RPC endpoints with their health and a round-robin cursor.
pub struct ConnectionManager {
    urls: Vec<String>,
    health: Vec<bool>,
    next_client_index: usize,
}

impl ConnectionManager {
    /// The endpoint URLs, in the order they were configured.
    pub closed spec fn urls(&self) -> Seq<Seq<char>> {
        self.urls@.map_values(|u: String| u@)
    }

    /// The health flag of each endpoint.
    pub closed spec fn health(&self) -> Seq<bool> {
        self.health@
    }

    /// The endpoint the rotation tries first on the next pick.
    pub closed spec fn cursor(&self) -> nat {
        self.next_client_index as nat
    }

    /// One health flag per endpoint, and the cursor names an endpoint
    /// (or is 0 when there is none).
    pub open spec fn wf(&self) -> bool {
        &&& self.health().len() == self.urls().len()
        &&& (self.urls().len() == 0 ==> self.cursor() == 0)
        &&& (self.urls().len() > 0 ==> self.cursor() < self.urls().len())
    }

    /// A manager over `rpc_urls`, every endpoint initially healthy and the
    /// cursor on the first one.
    pub fn new(rpc_urls: Vec<String>) -> (m: ConnectionManager)
        ensures
            m.wf(),
            m.urls() == rpc_urls@.map_values(|u: String| u@),
            m.health() == Seq::new(rpc_urls@.len(), |i: int| true),
            m.cursor() == 0,
    {
        let mut health: Vec<bool> = Vec::new();
        let mut i: usize = 0;
        while i < rpc_urls.len()
            invariant
                i <= rpc_urls.len(),
                health@ == Seq::new(i as nat, |j: int| true),
            decreases rpc_urls.len() - i,
        {
            health.push(true);
            i = i + 1;
        }
        let m = ConnectionManager { urls: rpc_urls, health, next_client_index: 0 };
        assert(m.health() =~= Seq::new(rpc_urls@.len(), |i: int| true));
        m
    }

    /// How many endpoints there are.
    pub fn len(&self) -> (n: usize)
        ensures
            n == self.urls().len(),
    {
        self.urls.len()
    }

    /// Picks the endpoint for the next request (see `pick`) and advances the
    /// cursor past it (see `next_cursor`).
    pub fn get_healthy_client(&mut self) -> (index: usize)
        requires
            old(self).wf(),
            old(self).urls().len() > 0,
        ensures
            index == pick(old(self).health(), old(self).cursor()),
            index < old(self).urls().len(),
            final(self).cursor() == next_cursor(old(self).health(), old(self).cursor()),
            final(self).urls() == old(self).urls(),
            final(self).health() == old(self).health(),
            final(self).wf(),
    {
        let n = self.urls.len();
        let start = self.next_client_index;
        let ghost h = self.health@;
        let mut i: usize = 0;
        while i < n
            invariant
                n == self.urls@.len(),
                n == self.health@.len(),
                h == self.health@,
                self.urls@ == old(self).urls@,
                self.health@ == old(self).health@,
                start == self.next_client_index,
                start == old(self).next_client_index,
                start < n,
                i <= n,
                first_healthy_offset(h, start as nat, 0) == first_healthy_offset(h, start as nat, i as nat),
            decreases n - i,
        {
            let index = if i < n - start { start + i } else { i - (n - start) };
            assert(index as int == (start + i) as int % (n as int)) by {
                if i < n - start {
                    vstd::arithmetic::div_mod::lemma_small_mod((start + i) as nat, n as nat);
                } else {
                    vstd::arithmetic::div_mod::lemma_small_mod((start + i - n) as nat, n as nat);
                    vstd::arithmetic::div_mod::lemma_mod_self_0(n as int);
                    vstd::arithmetic::div_mod::lemma_add_mod_noop((start + i - n) as int, n as int, n as int);
                }
            }
            if self.health[index] {
                let next = if index + 1 < n { index + 1 } else { 0 };
                proof {
                    assert(first_healthy_offset(h, start as nat, i as nat) == Some(i as nat));
                    assert(next as int == (start + i + 1) as int % (n as int)) by {
                        vstd::arithmetic::div_mod::lemma_add_mod_noop((start + i) as int, 1, n as int);
                        if n > 1 {
                            vstd::arithmetic::div_mod::lemma_small_mod(1, n as nat);
                        }
                        if index + 1 < n {
                            vstd::arithmetic::div_mod::lemma_small_mod((index + 1) as nat, n as nat);
                        } else {
                            vstd::arithmetic::div_mod::lemma_mod_self_0(n as int);
                        }
                    }
                }
                self.next_client_index = next;
                return index;
            }
            assert(first_healthy_offset(h, start as nat, i as nat) == first_healthy_offset(h, start as nat, (i + 1) as nat));
            i = i + 1;
        }
        assert(first_healthy_offset(h, start as nat, n as nat) is None);
        let next = if start + 1 < n { start + 1 } else { 0 };
        proof {
            if start + 1 < n {
                vstd::arithmetic::div_mod::lemma_small_mod((start + 1) as nat, n as nat);
            } else {
                vstd::arithmetic::div_mod::lemma_mod_self_0(n as int);
            }
        }
        self.next_client_index = next;
        start
    }

    /// Replaces the health flags with the results of a health check.
    pub fn set_health(&mut self, results: Vec<bool>)
        requires
            old(self).wf(),
            results@.len() == old(self).urls().len(),
        ensures
            final(self).health() == results@,
            final(self).urls() == old(self).urls(),
            final(self).cursor() == old(self).cursor(),
            final(self).wf(),
    {
        self.health = results;
    }

    /// The URL and health of every endpoint, in order.
    pub fn get_health_status(&self) -> (status: Vec<RpcHealth>)
        requires
            self.wf(),
        ensures
            status@.len() == self.urls().len(),
            forall|i: int| 0 <= i < status@.len() ==> {
                &&& (#[trigger] status@[i]).url@ == self.urls()[i]
                &&& status@[i].is_healthy == self.health()[i]
            },
    {
        let mut out: Vec<RpcHealth> = Vec::new();
        let mut i: usize = 0;
        while i < self.urls.len()
            invariant
                self.wf(),
                i <= self.urls@.len(),
                out@.len() == i,
                forall|j: int| 0 <= j < i ==> {
                    &&& (#[trigger] out@[j]).url@ == self.urls()[j]
                    &&& out@[j].is_healthy == self.health()[j]
                },
            decreases self.urls@.len() - i,
        {
            let healthy = if i < self.health.len() { self.health[i] } else { false };
            out.push(RpcHealth { url: self.urls[i].clone(), is_healthy: healthy });
            i = i + 1;
        }
        out
    }
}

} // verus!
