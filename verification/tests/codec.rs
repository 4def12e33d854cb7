use netloop::{addr_from_bytes, addr_to_bytes, event_to_ints, AddrV4, NetError, RawEvent, SockAddr};

fn v4(o0: u8, o1: u8, o2: u8, o3: u8, port: u16) -> SockAddr {
    SockAddr::V4(AddrV4 {
        o0,
        o1,
        o2,
        o3,
        port,
    })
}

fn as_u16_le(array: &[u8]) -> u16 {
    u16::from(array[0]) | (u16::from(array[1]) << 8)
}

#[test]
fn test_addr_to_bytes() {
    let mut mem = vec![0u8; 6];
    addr_to_bytes(&v4(1, 2, 3, 4, 100), &mut mem).unwrap();
    assert_eq!(mem, [1, 2, 3, 4, 100, 0]);

    let mut mem = vec![0u8; 6];
    addr_to_bytes(&v4(127, 0, 0, 1, 34254), &mut mem).unwrap();
    assert_eq!(as_u16_le(&mem[4..6]), 34254u16);
}

#[test]
fn addr_to_bytes_leaves_tail_alone() {
    let mut mem = vec![9u8; 8];
    addr_to_bytes(&v4(10, 20, 30, 40, 0x1234), &mut mem).unwrap();
    assert_eq!(mem, [10, 20, 30, 40, 0x34, 0x12, 9, 9]);
}

#[test]
fn addr_to_bytes_rejects_v6_untouched() {
    let mut mem = vec![7u8; 6];
    let r = addr_to_bytes(&SockAddr::V6, &mut mem);
    assert_eq!(r, Err(NetError::UnsupportedAddressFamily));
    assert_eq!(mem, [7, 7, 7, 7, 7, 7]);
}

#[test]
fn addr_from_bytes_reads_wire_form() {
    let a = addr_from_bytes(&[1, 2, 3, 4, 100, 0]);
    assert_eq!(
        a,
        AddrV4 {
            o0: 1,
            o1: 2,
            o2: 3,
            o3: 4,
            port: 100
        }
    );
    let b = addr_from_bytes(&[127, 0, 0, 1, 0xCE, 0x85]);
    assert_eq!(b.port, 34254);
}

#[test]
fn addr_round_trip() {
    let addrs = [
        v4(1, 2, 3, 4, 100),
        v4(127, 0, 0, 1, 34254),
        v4(255, 255, 255, 255, 65535),
        v4(0, 0, 0, 0, 0),
    ];
    for addr in addrs {
        let mut mem = vec![0u8; 6];
        addr_to_bytes(&addr, &mut mem).unwrap();
        let back = addr_from_bytes(&mem);
        assert_eq!(SockAddr::V4(back), addr);
    }
}

fn ev(token: usize, readable: bool, writable: bool, hup: bool, error: bool) -> RawEvent {
    RawEvent {
        token,
        readable,
        writable,
        hup,
        error,
    }
}

#[test]
fn event_to_ints_packs_bits() {
    assert_eq!(event_to_ints(&ev(0, true, false, false, false)), (0, 1));
    assert_eq!(event_to_ints(&ev(0, false, true, false, false)), (0, 2));
    assert_eq!(event_to_ints(&ev(0, true, true, false, false)), (0, 3));
    assert_eq!(event_to_ints(&ev(0, false, false, true, false)), (0, 4));
    assert_eq!(event_to_ints(&ev(0, false, false, false, true)), (0, 8));
    assert_eq!(event_to_ints(&ev(0, true, true, true, true)), (0, 15));
    assert_eq!(event_to_ints(&ev(0, false, false, false, false)), (0, 0));
}

#[test]
fn event_to_ints_passes_handle_through() {
    assert_eq!(event_to_ints(&ev(7, true, false, false, false)), (7, 1));
    assert_eq!(
        event_to_ints(&ev(123_456_789, false, true, false, false)),
        (123_456_789, 2)
    );
}
