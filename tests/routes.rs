use ssh_router::addr::{HostIp, Target};
use ssh_router::routes::RouteTable;

fn v4(a: u8, b: u8, c: u8, d: u8) -> HostIp {
    HostIp::V4(u32::from_be_bytes([a, b, c, d]))
}

fn target(ip: HostIp, port: u16) -> Target {
    Target { ip, port }
}

#[test]
fn empty_table_resolves_nothing() {
    let table = RouteTable::new();
    assert!(table.is_empty());
    assert_eq!(table.resolve(&v4(10, 0, 0, 5)), None);
}

#[test]
fn resolve_finds_configured_route() {
    let t = target(v4(192, 168, 1, 10), 22);
    let table = RouteTable::from_entries(&vec![(v4(10, 0, 0, 5), t)]);
    assert!(!table.is_empty());
    assert_eq!(table.resolve(&v4(10, 0, 0, 5)), Some(t));
    assert_eq!(table.resolve(&v4(10, 0, 0, 6)), None);
}

#[test]
fn resolve_keeps_hosts_apart() {
    let a = target(v4(192, 168, 1, 10), 22);
    let b = target(v4(192, 168, 1, 11), 2022);
    let table = RouteTable::from_entries(&vec![(v4(10, 0, 0, 5), a), (v4(10, 0, 0, 6), b)]);
    assert_eq!(table.resolve(&v4(10, 0, 0, 5)), Some(a));
    assert_eq!(table.resolve(&v4(10, 0, 0, 6)), Some(b));
}

#[test]
fn later_route_for_same_host_wins() {
    let first = target(v4(192, 168, 1, 10), 22);
    let second = target(v4(192, 168, 1, 20), 22);
    let table = RouteTable::from_entries(&vec![(v4(10, 0, 0, 5), first), (v4(10, 0, 0, 5), second)]);
    assert_eq!(table.resolve(&v4(10, 0, 0, 5)), Some(second));
}

#[test]
fn insert_replaces_and_adds() {
    let mut table = RouteTable::new();
    let a = target(v4(192, 168, 1, 10), 22);
    let b = target(v4(192, 168, 1, 11), 22);
    table.insert(v4(10, 0, 0, 5), a);
    table.insert(v4(10, 0, 0, 6), a);
    table.insert(v4(10, 0, 0, 5), b);
    assert_eq!(table.resolve(&v4(10, 0, 0, 5)), Some(b));
    assert_eq!(table.resolve(&v4(10, 0, 0, 6)), Some(a));
}

#[test]
fn ipv4_and_ipv6_keys_differ() {
    let t = target(HostIp::V6(1), 22);
    let table = RouteTable::from_entries(&vec![(HostIp::V6(1), t)]);
    assert_eq!(table.resolve(&HostIp::V6(1)), Some(t));
    assert_eq!(table.resolve(&HostIp::V4(1)), None);
}
