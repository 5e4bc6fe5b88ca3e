//! Network workload tests: the local endpoint mapping with its octet
//! carry and wrap, the static endpoint set, and the client's connection
//! population manager.

use berserker::worker::network::{
    get_local_addr_port, initial_endpoints, interval_elapsed, server_response, ClientState,
};
use berserker::Ipv4Octets;

fn v4(o0: u8, o1: u8, o2: u8, o3: u8) -> Ipv4Octets {
    Ipv4Octets::new(o0, o1, o2, o3)
}

#[test]
fn test_get_local_addr_port() {
    let test_cases = vec![
        // (addr, conns_per_addr, index, expected_ip, expected_port)
        //
        // 10 conns per group, 15 -> second group, increment = 2
        (v4(192, 168, 1, 100), 10, 15, v4(192, 168, 1, 102), 49157),
        // 9 conns per group, 15 -> second group, increment = 2
        (v4(192, 168, 1, 255), 9, 15, v4(192, 168, 2, 1), 49158),
        // 12 conns per group, 15 -> second group, increment = 2
        (v4(192, 255, 255, 255), 12, 15, v4(193, 0, 0, 1), 49155),
        // 1 conn per group, 512 -> 512 group, increment = 512
        (v4(192, 168, 1, 100), 1, 512, v4(192, 168, 3, 101), 49152),
        // 1 conn per group, 65636 -> 65636 group, increment = 65636
        (v4(192, 168, 1, 100), 1, 65636, v4(192, 169, 1, 201), 49152),
        // 100 conn per group, 1 -> group, increment = 1
        (v4(10, 0, 0, 1), 100, 1, v4(10, 0, 0, 2), 49153),
    ];

    for (addr, conns_per_addr, index, expected_ip, expected_port) in test_cases {
        let (ip, port) = get_local_addr_port(addr, conns_per_addr, index);
        assert_eq!(ip, expected_ip);
        assert_eq!(port, expected_port);
    }
}

#[test]
fn test_local_addr_wraps_around_address_space() {
    // 255.255.255.255 + 0/1 + 1 runs past the end of the address space
    // and wraps to 0.0.0.0.
    let (ip, port) = get_local_addr_port(v4(255, 255, 255, 255), 1, 0);
    assert_eq!(ip, v4(0, 0, 0, 0));
    assert_eq!(port, 49152);
}

#[test]
fn test_initial_endpoints_pack_per_address() {
    // Ten static connections at 100 per address: all on 10.0.0.2, ports
    // 49152..49161.
    let endpoints = initial_endpoints(v4(10, 0, 0, 1), 100, 10);
    assert_eq!(endpoints.len(), 10);
    for (i, (addr, port)) in endpoints.iter().enumerate() {
        assert_eq!(*addr, v4(10, 0, 0, 2));
        assert_eq!(*port, 49152 + i as u16);
    }
}

#[test]
fn test_population_balance() {
    // total_conns is the static count plus the dynamic map size at every
    // loop-iteration boundary.
    let mut state = ClientState::new(10, 5, false);
    assert_eq!(state.total_conns(), 10);
    assert_eq!(state.dynamic_count(), 0);

    assert!(state.insert_dynamic(1, 0, 1000));
    assert!(state.insert_dynamic(2, 0, 2000));
    assert_eq!(state.total_conns(), 12);
    assert_eq!(state.dynamic_count(), 2);

    // A duplicate handle is refused and changes nothing.
    assert!(!state.insert_dynamic(2, 5, 2000));
    assert_eq!(state.total_conns(), 12);

    // Expire the first connection past its lifetime: it is closed and
    // queued, and the count drops when the queue is drained.
    assert!(state.expire_if_due(1, 1500));
    assert!(!state.expire_if_due(2, 1500));
    let closed = state.drain_close_queue();
    assert_eq!(closed, vec![1]);
    assert_eq!(state.total_conns(), 11);
    assert_eq!(state.dynamic_count(), 1);
}

#[test]
fn test_expiry_is_by_drawn_lifetime() {
    let mut state = ClientState::new(0, 4, false);
    assert!(state.insert_dynamic(7, 100, 50));
    // Not yet due at the exact deadline, due strictly after it.
    assert!(!state.expire_if_due(7, 150));
    assert!(state.expire_if_due(7, 151));
    // A static (unknown) handle is left alone.
    assert!(!state.expire_if_due(99, 10_000));
}

#[test]
fn test_preemption_respects_cap() {
    // With preemption enabled the dynamic map never exceeds its cap: at
    // the cap, one random victim is evicted per arrival before the new
    // connection is inserted.
    let mut state = ClientState::new(0, 3, true);
    assert!(state.insert_dynamic(1, 0, 10_000));
    assert!(state.insert_dynamic(2, 0, 10_000));
    assert!(state.insert_dynamic(3, 0, 10_000));
    assert_eq!(state.dynamic_count(), 3);

    // At capacity: no insert without preparing first.
    assert!(!state.insert_dynamic(4, 0, 10_000));

    let victim = state.prepare_arrival();
    let victim = victim.expect("preemption must pick a victim at capacity");
    assert!(victim == 1 || victim == 2 || victim == 3);
    assert_eq!(state.dynamic_count(), 2);
    assert!(state.insert_dynamic(4, 0, 10_000));
    assert_eq!(state.dynamic_count(), 3);

    // The victim's socket is closed at the end of the iteration.
    let closed = state.drain_close_queue();
    assert_eq!(closed, vec![victim]);
    assert_eq!(state.total_conns(), 3);
}

#[test]
fn test_prepare_arrival_without_preemption() {
    let mut state = ClientState::new(0, 1, false);
    assert!(state.insert_dynamic(1, 0, 10_000));
    // Preemption disabled: nothing is evicted and the arrival is refused.
    assert_eq!(state.prepare_arrival(), None);
    assert!(!state.insert_dynamic(2, 0, 10_000));
    assert_eq!(state.dynamic_count(), 1);
}

#[test]
fn test_plan_arrival() {
    // An arrival below the cap yields the endpoint for index
    // total_conns + 1 and evicts nobody.
    let mut state = ClientState::new(10, 5, false);
    let (victim, endpoint) = state.plan_arrival(v4(10, 0, 0, 1), 100);
    assert_eq!(victim, None);
    // Index 11 at 100 connections per address: still the first synthetic
    // address, port 49152 + 11.
    assert_eq!(endpoint, Some((v4(10, 0, 0, 2), 49163)));

    // At the cap without preemption no endpoint comes back.
    let mut full = ClientState::new(0, 1, false);
    assert!(full.insert_dynamic(1, 0, 1000));
    let (victim, endpoint) = full.plan_arrival(v4(10, 0, 0, 1), 100);
    assert_eq!(victim, None);
    assert_eq!(endpoint, None);

    // At the cap with preemption the victim makes room.
    let mut preempting = ClientState::new(0, 1, true);
    assert!(preempting.insert_dynamic(1, 0, 1000));
    let (victim, endpoint) = preempting.plan_arrival(v4(10, 0, 0, 1), 100);
    assert_eq!(victim, Some(1));
    assert_eq!(endpoint, Some((v4(10, 0, 0, 2), 49154)));
}

#[test]
fn test_next_connection_index() {
    let mut state = ClientState::new(10, 5, false);
    assert_eq!(state.next_connection_index(), 11);
    assert!(state.insert_dynamic(1, 0, 1000));
    assert_eq!(state.next_connection_index(), 12);
}

#[test]
fn test_server_response() {
    assert_eq!(server_response(), "hello\n");
}

#[test]
fn test_send_throttle() {
    // One socket may send only when more than the interval has elapsed.
    assert!(!interval_elapsed(100, 100));
    assert!(interval_elapsed(101, 100));
}
