use ssh_router::relay::{Relay, RelayFault, Stage};

#[test]
fn new_relay_waits_for_a_read() {
    let relay = Relay::new();
    assert_eq!(relay.stage(), Stage::Reading);
    assert_eq!(relay.count(), 0);
    assert!(relay.pending().is_empty());
}

#[test]
fn eof_at_start_finishes_without_error() {
    let mut relay = Relay::new();
    relay.on_read(&[]);
    assert_eq!(relay.stage(), Stage::Finished);
    assert_eq!(relay.count(), 0);
}

#[test]
fn bytes_pass_through_unchanged_and_in_order() {
    let mut relay = Relay::new();
    let mut out: Vec<u8> = Vec::new();
    for chunk in [&b"SSH-2.0-"[..], &b"\x00\xff\r\n"[..], &b"end"[..]] {
        relay.on_read(chunk);
        assert_eq!(relay.stage(), Stage::Writing);
        assert_eq!(relay.pending(), chunk);
        let n = relay.pending().len();
        out.extend_from_slice(relay.pending());
        relay.on_written(n);
        assert_eq!(relay.stage(), Stage::Reading);
    }
    relay.on_read(&[]);
    assert_eq!(relay.stage(), Stage::Finished);
    assert_eq!(out, b"SSH-2.0-\x00\xff\r\nend".to_vec());
    assert_eq!(relay.count(), 15);
}

#[test]
fn partial_writes_keep_the_rest_pending() {
    let mut relay = Relay::new();
    relay.on_read(b"abcdef");
    relay.on_written(2);
    assert_eq!(relay.stage(), Stage::Writing);
    assert_eq!(relay.pending(), b"cdef");
    assert_eq!(relay.count(), 2);
    relay.on_written(3);
    assert_eq!(relay.pending(), b"f");
    relay.on_written(1);
    assert_eq!(relay.stage(), Stage::Reading);
    assert_eq!(relay.count(), 6);
}

#[test]
fn zero_length_write_fails() {
    let mut relay = Relay::new();
    relay.on_read(b"abc");
    relay.on_written(0);
    assert_eq!(relay.stage(), Stage::Failed(RelayFault::Write));
    assert_eq!(relay.count(), 0);
}

#[test]
fn read_error_fails() {
    let mut relay = Relay::new();
    relay.on_read(b"ab");
    relay.on_written(2);
    relay.on_read_error();
    assert_eq!(relay.stage(), Stage::Failed(RelayFault::Read));
    assert_eq!(relay.count(), 2);
}

#[test]
fn write_error_fails() {
    let mut relay = Relay::new();
    relay.on_read(b"ab");
    relay.on_write_error();
    assert_eq!(relay.stage(), Stage::Failed(RelayFault::Write));
    assert_eq!(relay.count(), 0);
}
