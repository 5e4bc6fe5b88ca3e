//! The network workload.
//!
//! Server mode binds one kernel TCP listener and answers every received
//! line with a fixed payload; that loop is all socket I/O and lives with
//! the binary. Client mode drives a churning population of userspace TCP
//! connections over a TUN device. The stack polling, socket creation and
//! closing are performed outside this crate; [`ClientState`] carries every
//! decision the client loop makes — which connection to open next, from
//! which synthetic local endpoint, which to evict, which to close — with
//! the population invariants proved.

use vstd::prelude::*;

#[allow(unused_imports)]
use rand::Rng;

use crate::BaseConfig;
use crate::Ipv4Octets;
use crate::WorkloadConfig;

verus! {

/// A network worker: the per-process identity plus the full configuration,
/// from which the payload reads its `Network` parameters.
#[derive(Debug, Clone, Copy, PartialEq, Eq, Structural)]
pub struct NetworkWorker {
    pub config: BaseConfig,
    pub workload: WorkloadConfig,
}

impl NetworkWorker {
    pub fn new(workload: WorkloadConfig, cpu: u32, process: usize) -> (w: NetworkWorker)
        ensures
            w.workload == workload,
            w.config == (BaseConfig { cpu_id: cpu, process_index: process }),
    {
        NetworkWorker { config: BaseConfig { cpu_id: cpu, process_index: process }, workload }
    }
}

/// The address as a big-endian 32-bit quantity.
pub open spec fn addr_bits(a: Ipv4Octets) -> int {
    a.o0 * 0x100_0000 + a.o1 * 0x1_0000 + a.o2 * 0x100 + a.o3
}

/// The four octets of a big-endian 32-bit quantity.
pub open spec fn addr_of_bits(b: int) -> Ipv4Octets {
    Ipv4Octets {
        o0: (b / 0x100_0000 % 0x100) as u8,
        o1: (b / 0x1_0000 % 0x100) as u8,
        o2: (b / 0x100 % 0x100) as u8,
        o3: (b % 0x100) as u8,
    }
}

/// The bits of the synthetic local address for connection `index`:
/// the base address plus `index / conns_per_addr + 1`, wrapping around
/// the 32-bit address space.
pub open spec fn local_addr_bits(addr: Ipv4Octets, conns_per_addr: u16, index: u32) -> int {
    (addr_bits(addr) + index / (conns_per_addr as u32) + 1) % 0x1_0000_0000
}

/// The local port for connection `index`: the first dynamic port plus
/// `index % conns_per_addr`, wrapping around the 16-bit port space.
pub open spec fn local_port(conns_per_addr: u16, index: u32) -> int {
    (49152 + index % (conns_per_addr as u32)) % 0x1_0000
}

/// Map a global connection index to a local address and port. The octets
/// are incremented (with carry) every `conns_per_addr` connections; within
/// such a group only the port is incremented. The first port taken is
/// 49152, the bottom of the dynamic range.
///
/// E.g. with base address 10.0.0.1, 100 connections per address and
/// index 10, the result is 10.0.0.2:49162: the base address itself is
/// already claimed, so the group of the first 100 connections sits on the
/// next address, 10.0.0.2.
pub fn get_local_addr_port(addr: Ipv4Octets, conns_per_addr: u16, index: u32) -> (r: (
    Ipv4Octets,
    u16,
))
    requires
        conns_per_addr >= 1,
    ensures
        r.0 == addr_of_bits(local_addr_bits(addr, conns_per_addr, index)),
        r.1 == local_port(conns_per_addr, index),
{
    let cpa: u32 = conns_per_addr as u32;
    let port: u16 = ((49152u32 + index % cpa) % 0x1_0000) as u16;

    let bits: u64 = (addr.o0 as u64) * 0x100_0000 + (addr.o1 as u64) * 0x1_0000 + (addr.o2
        as u64) * 0x100 + (addr.o3 as u64);
    let wrapped: u64 = (bits + (index / cpa) as u64 + 1) % 0x1_0000_0000;
    let local_addr = Ipv4Octets {
        o0: (wrapped / 0x100_0000 % 0x100) as u8,
        o1: (wrapped / 0x1_0000 % 0x100) as u8,
        o2: (wrapped / 0x100 % 0x100) as u8,
        o3: (wrapped % 0x100) as u8,
    };
    (local_addr, port)
}

/// When neither the address sum nor the port sum overflows its space, the
/// mapping is exactly `addr + index / conns_per_addr + 1` (with octet
/// carry) and `49152 + index % conns_per_addr`.
pub proof fn lemma_local_endpoint_formula(addr: Ipv4Octets, conns_per_addr: u16, index: u32)
    requires
        conns_per_addr >= 1,
        addr_bits(addr) + index / (conns_per_addr as u32) + 1 < 0x1_0000_0000,
        49152 + index % (conns_per_addr as u32) < 0x1_0000,
    ensures
        local_addr_bits(addr, conns_per_addr, index) == addr_bits(addr) + index / (
        conns_per_addr as u32) + 1,
        local_port(conns_per_addr, index) == 49152 + index % (conns_per_addr as u32),
{
    let b = addr_bits(addr) + index / (conns_per_addr as u32) + 1;
    assert(b >= 0);
    vstd::arithmetic::div_mod::lemma_small_mod(b as nat, 0x1_0000_0000);
    let p = 49152 + index % (conns_per_addr as u32);
    vstd::arithmetic::div_mod::lemma_small_mod(p as nat, 0x1_0000);
}

/// When the address sum runs past the end of the 32-bit address space, the
/// result is the defined wrap: the sum minus the size of the space.
pub proof fn lemma_local_addr_wraps(addr: Ipv4Octets, conns_per_addr: u16, index: u32)
    requires
        conns_per_addr >= 1,
        addr_bits(addr) + index / (conns_per_addr as u32) + 1 >= 0x1_0000_0000,
    ensures
        local_addr_bits(addr, conns_per_addr, index) == addr_bits(addr) + index / (
        conns_per_addr as u32) + 1 - 0x1_0000_0000,
{
    let b = addr_bits(addr) + index / (conns_per_addr as u32) + 1;
    assert(b < 2 * 0x1_0000_0000);
    vstd::arithmetic::div_mod::lemma_mod_sub_multiples_vanish(b, 0x1_0000_0000);
    vstd::arithmetic::div_mod::lemma_small_mod((b - 0x1_0000_0000) as nat, 0x1_0000_0000);
}

/// The fixed reply the server side sends for every received line.
pub fn server_response() -> (s: &'static str)
    ensures
        s@ == "hello\n"@,
{
    "hello\n"
}

/// A global send timer throttles data across the whole connection
/// population: one socket may send only when more than the configured
/// interval has elapsed since the last send.
pub fn interval_elapsed(elapsed_ms: u128, threshold_ms: u128) -> (due: bool)
    ensures
        due == (elapsed_ms > threshold_ms),
{
    elapsed_ms > threshold_ms
}

/// One dynamic connection: the socket handle it lives under, when it was
/// opened, and the lifetime drawn for it at creation.
#[derive(Debug, Clone, Copy, PartialEq, Eq, Structural)]
pub struct DynConn {
    pub handle: u64,
    pub opened_at_ms: u64,
    pub lifetime_ms: u64,
}

/// Whether some entry of `s` carries the handle `h`.
pub open spec fn has_handle(s: Seq<DynConn>, h: u64) -> bool {
    exists|i: int| 0 <= i < s.len() && s[i].handle == h
}

/// The client's connection-population manager.
///
/// The population consists of a static set created once at startup, which
/// lives for the whole run, and a capped map of dynamic connections
/// created by the arrival process and torn down by the departure process
/// (or by preemption when the cap is reached). Closed handles pass through
/// a queue so that the surrounding loop can remove the sockets at the end
/// of the iteration in which the close was decided.
pub struct ClientState {
    /// Size of the static connection set.
    pub connections_static: u32,
    /// Cap on the number of live dynamic connections.
    pub connections_dyn_max: usize,
    /// Whether a random dynamic connection is evicted to admit an arrival
    /// when the cap is reached.
    pub preempt: bool,
    /// Current number of open connections, static and dynamic, including
    /// those whose close is scheduled but not yet performed.
    pub total_conns: u32,
    /// The live dynamic connections.
    pub dynamic: Vec<DynConn>,
    /// Handles whose sockets are to be removed at the end of the current
    /// loop iteration.
    pub close_queue: Vec<u64>,
}

impl ClientState {
    /// The population invariant: the connection count balances, the
    /// dynamic population respects its cap, and handles are distinct.
    pub open spec fn wf(&self) -> bool {
        &&& self.total_conns == self.connections_static + self.dynamic@.len()
            + self.close_queue@.len()
        &&& self.dynamic@.len() <= self.connections_dyn_max
        &&& forall|i: int, j: int|
            0 <= i < j < self.dynamic@.len() ==> self.dynamic@[i].handle
                != self.dynamic@[j].handle
        &&& forall|i: int, j: int|
            0 <= i < self.dynamic@.len() && 0 <= j < self.close_queue@.len()
                ==> self.dynamic@[i].handle != self.close_queue@[j]
    }

    /// Start with the static set open and no dynamic connections.
    pub fn new(connections_static: u32, connections_dyn_max: usize, preempt: bool) -> (s:
        ClientState)
        ensures
            s.wf(),
            s.connections_static == connections_static,
            s.connections_dyn_max == connections_dyn_max,
            s.preempt == preempt,
            s.total_conns == connections_static,
            s.dynamic@.len() == 0,
            s.close_queue@.len() == 0,
    {
        ClientState {
            connections_static,
            connections_dyn_max,
            preempt,
            total_conns: connections_static,
            dynamic: Vec::new(),
            close_queue: Vec::new(),
        }
    }

    pub fn dynamic_count(&self) -> (n: usize)
        ensures
            n == self.dynamic@.len(),
    {
        self.dynamic.len()
    }

    pub fn total_conns(&self) -> (n: u32)
        ensures
            n == self.total_conns,
    {
        self.total_conns
    }

    /// The global index under which the next inserted connection computes
    /// its local endpoint: one past the current population.
    pub fn next_connection_index(&self) -> (i: u32)
        requires
            self.total_conns < u32::MAX,
        ensures
            i == self.total_conns + 1,
    {
        self.total_conns + 1
    }

    /// Whether `h` is a live dynamic handle or already scheduled to close.
    pub fn known_handle(&self, h: u64) -> (known: bool)
        ensures
            known == (has_handle(self.dynamic@, h) || self.close_queue@.contains(h)),
    {
        let mut i: usize = 0;
        while i < self.dynamic.len()
            invariant
                0 <= i <= self.dynamic@.len(),
                forall|k: int| 0 <= k < i ==> self.dynamic@[k].handle != h,
            decreases self.dynamic@.len() - i,
        {
            if self.dynamic[i].handle == h {
                return true;
            }
            i = i + 1;
        }
        let mut j: usize = 0;
        while j < self.close_queue.len()
            invariant
                0 <= j <= self.close_queue@.len(),
                forall|k: int| 0 <= k < j ==> self.close_queue@[k] != h,
                forall|k: int| 0 <= k < self.dynamic@.len() ==> self.dynamic@[k].handle != h,
            decreases self.close_queue@.len() - j,
        {
            if self.close_queue[j] == h {
                return true;
            }
            j = j + 1;
        }
        false
    }

    /// Make room for an arrival. When the dynamic population is at its cap
    /// and preemption is enabled, a uniformly random dynamic connection is
    /// removed from the population and its handle queued for close; the
    /// caller closes that socket. Otherwise nothing changes.
    pub fn prepare_arrival(&mut self) -> (victim: Option<u64>)
        requires
            old(self).wf(),
        ensures
            final(self).wf(),
            final(self).connections_static == old(self).connections_static,
            final(self).connections_dyn_max == old(self).connections_dyn_max,
            final(self).preempt == old(self).preempt,
            final(self).total_conns == old(self).total_conns,
            if old(self).preempt && old(self).dynamic@.len() == old(self).connections_dyn_max
                && old(self).connections_dyn_max > 0 {
                &&& victim matches Some(h) && exists|i: int|
                    {
                        &&& 0 <= i < old(self).dynamic@.len()
                        &&& old(self).dynamic@[i].handle == h
                        &&& final(self).dynamic@ == old(self).dynamic@.remove(i)
                    }
                &&& final(self).close_queue@ == old(self).close_queue@.push(victim.unwrap())
            } else {
                &&& victim is None
                &&& final(self).dynamic@ == old(self).dynamic@
                &&& final(self).close_queue@ == old(self).close_queue@
            },
    {
        if self.preempt && self.connections_dyn_max > 0 && self.dynamic.len()
            == self.connections_dyn_max {
            let idx = pick_victim_index(self.dynamic.len());
            let conn = self.dynamic.remove(idx);
            self.close_queue.push(conn.handle);
            assert(old(self).dynamic@[idx as int].handle == conn.handle);
            Some(conn.handle)
        } else {
            None
        }
    }

    /// Decide one arrival, as far as the network stack is not involved:
    /// make room as [`Self::prepare_arrival`] does, and if the dynamic
    /// population then has room, hand back the local endpoint of the new
    /// connection, computed for index `total_conns + 1`. The caller
    /// creates and connects a socket exactly when an endpoint comes
    /// back, and registers it under a fresh handle with
    /// [`Self::insert_dynamic`].
    pub fn plan_arrival(&mut self, addr: Ipv4Octets, conns_per_addr: u16) -> (r: (
        Option<u64>,
        Option<(Ipv4Octets, u16)>,
    ))
        requires
            old(self).wf(),
            conns_per_addr >= 1,
        ensures
            final(self).wf(),
            final(self).connections_static == old(self).connections_static,
            final(self).connections_dyn_max == old(self).connections_dyn_max,
            final(self).preempt == old(self).preempt,
            final(self).total_conns == old(self).total_conns,
            if old(self).preempt && old(self).dynamic@.len() == old(self).connections_dyn_max
                && old(self).connections_dyn_max > 0 {
                &&& r.0 matches Some(h) && exists|i: int|
                    {
                        &&& 0 <= i < old(self).dynamic@.len()
                        &&& old(self).dynamic@[i].handle == h
                        &&& final(self).dynamic@ == old(self).dynamic@.remove(i)
                    }
                &&& final(self).close_queue@ == old(self).close_queue@.push(r.0.unwrap())
            } else {
                &&& r.0 is None
                &&& final(self).dynamic@ == old(self).dynamic@
                &&& final(self).close_queue@ == old(self).close_queue@
            },
            (r.1 is Some) == (final(self).dynamic@.len() < old(self).connections_dyn_max && old(
                self,
            ).total_conns < u32::MAX),
            r.1 matches Some(e) ==> e == (
                addr_of_bits(
                    local_addr_bits(
                        addr,
                        conns_per_addr,
                        (old(self).total_conns + 1) as u32,
                    ),
                ),
                local_port(conns_per_addr, (old(self).total_conns + 1) as u32) as u16,
            ),
    {
        let victim = self.prepare_arrival();
        if self.dynamic.len() < self.connections_dyn_max && self.total_conns < u32::MAX {
            let endpoint = get_local_addr_port(addr, conns_per_addr, self.total_conns + 1);
            (victim, Some(endpoint))
        } else {
            (victim, None)
        }
    }

    /// Insert one arrival: the connection is inserted and counted exactly
    /// when the dynamic population is below its cap, the handle is fresh,
    /// and the count has room. The caller connects the inserted socket
    /// from the endpoint computed for its index.
    pub fn insert_dynamic(&mut self, handle: u64, opened_at_ms: u64, lifetime_ms: u64) -> (inserted:
        bool)
        requires
            old(self).wf(),
        ensures
            final(self).wf(),
            final(self).connections_static == old(self).connections_static,
            final(self).connections_dyn_max == old(self).connections_dyn_max,
            final(self).preempt == old(self).preempt,
            inserted == (old(self).dynamic@.len() < old(self).connections_dyn_max && !(
            has_handle(old(self).dynamic@, handle) || old(self).close_queue@.contains(handle))
                && old(self).total_conns < u32::MAX),
            inserted ==> {
                &&& final(self).dynamic@ == old(self).dynamic@.push(
                    DynConn { handle, opened_at_ms, lifetime_ms },
                )
                &&& final(self).total_conns == old(self).total_conns + 1
                &&& final(self).close_queue@ == old(self).close_queue@
            },
            !inserted ==> {
                &&& final(self).dynamic@ == old(self).dynamic@
                &&& final(self).total_conns == old(self).total_conns
                &&& final(self).close_queue@ == old(self).close_queue@
            },
    {
        if self.dynamic.len() < self.connections_dyn_max && !self.known_handle(handle)
            && self.total_conns < u32::MAX {
            self.dynamic.push(DynConn { handle, opened_at_ms, lifetime_ms });
            self.total_conns = self.total_conns + 1;
            true
        } else {
            false
        }
    }

    /// Departure check for one socket. A dynamic connection whose drawn
    /// lifetime has elapsed leaves the population and its handle is queued
    /// for close; the caller closes the socket exactly when `true` comes
    /// back. Static connections (unknown handles) are left alone.
    pub fn expire_if_due(&mut self, handle: u64, now_ms: u64) -> (close: bool)
        requires
            old(self).wf(),
        ensures
            final(self).wf(),
            final(self).connections_static == old(self).connections_static,
            final(self).connections_dyn_max == old(self).connections_dyn_max,
            final(self).preempt == old(self).preempt,
            final(self).total_conns == old(self).total_conns,
            close == exists|i: int|
                {
                    &&& 0 <= i < old(self).dynamic@.len()
                    &&& old(self).dynamic@[i].handle == handle
                    &&& now_ms > old(self).dynamic@[i].opened_at_ms + old(
                        self,
                    ).dynamic@[i].lifetime_ms
                },
            close ==> exists|i: int|
                {
                    &&& 0 <= i < old(self).dynamic@.len()
                    &&& old(self).dynamic@[i].handle == handle
                    &&& final(self).dynamic@ == old(self).dynamic@.remove(i)
                } && final(self).close_queue@ == old(self).close_queue@.push(handle),
            !close ==> final(self).dynamic@ == old(self).dynamic@ && final(self).close_queue@
                == old(self).close_queue@,
    {
        let mut i: usize = 0;
        while i < self.dynamic.len()
            invariant
                old(self).wf(),
                0 <= i <= self.dynamic@.len(),
                forall|k: int| 0 <= k < i ==> self.dynamic@[k].handle != handle,
                *self == *old(self),
            decreases self.dynamic@.len() - i,
        {
            if self.dynamic[i].handle == handle {
                let conn = self.dynamic[i];
                let ghost oi = i as int;
                let ghost odyn = self.dynamic@;
                proof {
                    // The handles are distinct, so entry `oi` is the only
                    // one that can satisfy the departure condition.
                    assert forall|k: int|
                        0 <= k < odyn.len() && odyn[k].handle == handle implies k == oi by {
                        if k != oi {
                            if k < oi {
                                assert(odyn[k].handle != odyn[oi].handle);
                            } else {
                                assert(odyn[oi].handle != odyn[k].handle);
                            }
                        }
                    }
                }
                if (now_ms as u128) > (conn.opened_at_ms as u128) + (conn.lifetime_ms as u128) {
                    self.dynamic.remove(i);
                    self.close_queue.push(handle);
                    proof {
                        odyn.remove_ensures(oi);
                        assert(self.dynamic@ == odyn.remove(oi));
                        assert forall|a: int, b: int|
                            0 <= a < b < self.dynamic@.len() implies self.dynamic@[a].handle
                            != self.dynamic@[b].handle by {
                            if b < oi {
                            } else if a < oi {
                                assert(self.dynamic@[b] == odyn[b + 1]);
                            } else {
                                assert(self.dynamic@[a] == odyn[a + 1]);
                                assert(self.dynamic@[b] == odyn[b + 1]);
                            }
                        }
                        assert forall|a: int, j: int|
                            0 <= a < self.dynamic@.len() && 0 <= j < self.close_queue@.len()
                            implies self.dynamic@[a].handle != self.close_queue@[j] by {
                            let ghost oa = if a < oi {
                                a
                            } else {
                                a + 1
                            };
                            assert(self.dynamic@[a] == odyn[oa]);
                            if j < old(self).close_queue@.len() {
                            } else {
                                assert(self.close_queue@[j] == handle);
                                assert(oa != oi);
                            }
                        }
                    }
                    return true;
                }
                return false;
            }
            i = i + 1;
        }
        false
    }

    /// Hand back every handle scheduled for close and account for the
    /// removals. The caller removes each returned handle from the socket
    /// set; the population count drops by exactly that many.
    pub fn drain_close_queue(&mut self) -> (handles: Vec<u64>)
        requires
            old(self).wf(),
        ensures
            final(self).wf(),
            final(self).connections_static == old(self).connections_static,
            final(self).connections_dyn_max == old(self).connections_dyn_max,
            final(self).preempt == old(self).preempt,
            handles@ == old(self).close_queue@,
            final(self).close_queue@.len() == 0,
            final(self).dynamic@ == old(self).dynamic@,
            final(self).total_conns == old(self).total_conns - old(self).close_queue@.len(),
    {
        let mut handles: Vec<u64> = Vec::new();
        let mut i: usize = 0;
        while i < self.close_queue.len()
            invariant
                0 <= i <= self.close_queue@.len(),
                handles@ == self.close_queue@.take(i as int),
                *self == *old(self),
            decreases self.close_queue@.len() - i,
        {
            handles.push(self.close_queue[i]);
            i = i + 1;
        }
        assert(handles@ == self.close_queue@);
        let drained: u32 = self.close_queue.len() as u32;
        self.total_conns = self.total_conns - drained;
        self.close_queue.clear();
        handles
    }
}

/// At every loop-iteration boundary — once the close queue has been
/// drained — the population count is exactly the size of the static set
/// plus the size of the dynamic population.
pub proof fn lemma_population_balance(s: ClientState)
    requires
        s.wf(),
        s.close_queue@.len() == 0,
    ensures
        s.total_conns == s.connections_static + s.dynamic@.len(),
{
}

/// With preemption enabled the dynamic population never exceeds its cap:
/// the invariant carries the bound through every transition.
pub proof fn lemma_dynamic_population_capped(s: ClientState)
    requires
        s.wf(),
    ensures
        s.dynamic@.len() <= s.connections_dyn_max,
{
}

/// Relies on rand's `Rng::gen_range` over `0..n`: the result is uniform in
/// the range, so in particular below `n`; the call panics on an empty
/// range, which the precondition rules out.
#[verifier::external_body]
fn pick_victim_index(n: usize) -> (i: usize)
    requires
        n > 0,
    ensures
        i < n,
{
    rand::thread_rng().gen_range(0..n)
}

/// The local endpoints of the static connection set, in socket order:
/// connection `i` of `count` gets the endpoint computed for index `i`.
pub fn initial_endpoints(addr: Ipv4Octets, conns_per_addr: u16, count: u32) -> (v: Vec<
    (Ipv4Octets, u16),
>)
    requires
        conns_per_addr >= 1,
    ensures
        v@.len() == count,
        forall|i: int|
            0 <= i < count ==> #[trigger] v@[i] == (
                addr_of_bits(local_addr_bits(addr, conns_per_addr, i as u32)),
                local_port(conns_per_addr, i as u32) as u16,
            ),
{
    let mut v: Vec<(Ipv4Octets, u16)> = Vec::new();
    let mut i: u32 = 0;
    while i < count
        invariant
            0 <= i <= count,
            conns_per_addr >= 1,
            v@.len() == i,
            forall|k: int|
                0 <= k < i ==> #[trigger] v@[k] == (
                    addr_of_bits(local_addr_bits(addr, conns_per_addr, k as u32)),
                    local_port(conns_per_addr, k as u32) as u16,
                ),
        decreases count - i,
    {
        let e = get_local_addr_port(addr, conns_per_addr, i);
        v.push(e);
        i = i + 1;
    }
    v
}

} // verus!
