use std::time::Duration;

use netloop::{AddrV4, NetError, NetLoop, QueueError, ShutdownMode, SockAddr};

fn v4(o0: u8, o1: u8, o2: u8, o3: u8, port: u16) -> SockAddr {
    SockAddr::V4(AddrV4 {
        o0,
        o1,
        o2,
        o3,
        port,
    })
}

fn local(port: u16) -> SockAddr {
    v4(127, 0, 0, 1, port)
}

/// Whether this environment can make a loopback TCP connection at all: a bare
/// network namespace whose loopback interface is down can bind and listen but
/// never connect. Probed with mio directly, so a connect failure of the
/// library itself still fails the tests wherever loopback works.
fn loopback_usable() -> bool {
    let l = match mio::net::TcpListener::bind(&([127, 0, 0, 1], 0u16).into()) {
        Ok(l) => l,
        Err(_) => return false,
    };
    let addr = match l.local_addr() {
        Ok(a) => a,
        Err(_) => return false,
    };
    mio::net::TcpStream::connect(&addr).is_ok()
}

/// Listens, connects to the listener, and drains events until the connection
/// is both accepted and writable. Returns the manager with the listener,
/// connector and accepted handles.
fn setup_pair(port: u16) -> (NetLoop, usize, usize, usize) {
    let mut nl = NetLoop::new();
    let l = nl.tcp_listen(&local(port)).unwrap();
    let c = nl.tcp_connect(&local(port)).unwrap();
    let mut accepted: Option<usize> = None;
    let mut writable = false;
    while accepted.is_none() || !writable {
        let ev = nl.recv_timeout(Duration::from_secs(5)).unwrap();
        if ev.token == l && ev.readable && accepted.is_none() {
            accepted = Some(nl.tcp_accept(l).unwrap());
        }
        if ev.token == c && ev.writable {
            writable = true;
        }
    }
    (nl, l, c, accepted.unwrap())
}

#[test]
fn listen_connect_read_write() {
    if !loopback_usable() {
        return;
    }
    let mut nl = NetLoop::new();
    let listener = nl.tcp_listen(&local(34254)).unwrap();
    let conn = nl.tcp_connect(&local(34254)).unwrap();

    let to_write = [0, 1, 2, 3, 4, 5, 6, 7, 8];
    loop {
        let event = nl.recv().unwrap();
        if event.token == conn && event.writable {
            nl.write_stream(event.token, &to_write).unwrap();
        } else if event.token == listener && event.readable {
            nl.tcp_accept(event.token).unwrap();
        } else if event.token == 2 && event.readable {
            let mut b = vec![0u8; 9];
            nl.read_stream(event.token, &mut b).unwrap();
            assert_eq!(b, to_write);
            break;
        } else {
            continue;
        }
    }
}

#[test]
fn listen_rejects_v6() {
    let mut nl = NetLoop::new();
    assert_eq!(
        nl.tcp_listen(&SockAddr::V6),
        Err(NetError::UnsupportedAddressFamily)
    );
    assert_eq!(
        nl.tcp_connect(&SockAddr::V6),
        Err(NetError::UnsupportedAddressFamily)
    );
    assert!(!nl.is_listening);
}

#[test]
fn bind_in_use_fails() {
    let mut nl = NetLoop::new();
    nl.tcp_listen(&local(34260)).unwrap();
    assert_eq!(nl.tcp_listen(&local(34260)), Err(NetError::Bind));
}

#[test]
fn kind_safety() {
    let mut nl = NetLoop::new();
    let l = nl.tcp_listen(&local(34261)).unwrap();
    let mut buf = vec![0u8; 4];
    assert_eq!(nl.read_stream(l, &mut buf), Err(NetError::WrongKind));
    assert_eq!(nl.write_stream(l, &[1, 2, 3]), Err(NetError::WrongKind));
    assert_eq!(nl.peer_addr(l), Err(NetError::WrongKind));
    assert_eq!(nl.shutdown(l, ShutdownMode::Both), Err(NetError::WrongKind));
    if !loopback_usable() {
        return;
    }
    let c = nl.tcp_connect(&local(34261)).unwrap();
    assert_eq!(nl.tcp_accept(c), Err(NetError::WrongKind));
}

#[test]
fn handle_reuse_after_close() {
    let mut nl = NetLoop::new();
    let l = nl.tcp_listen(&local(34262)).unwrap();
    nl.close(l).unwrap();

    let mut buf = vec![0u8; 4];
    assert_eq!(nl.read_stream(l, &mut buf), Err(NetError::NotFound));
    assert_eq!(nl.write_stream(l, &[0]), Err(NetError::NotFound));
    assert_eq!(nl.tcp_accept(l), Err(NetError::NotFound));
    assert_eq!(nl.shutdown(l, ShutdownMode::Both), Err(NetError::NotFound));
    assert_eq!(nl.local_addr(l), Err(NetError::NotFound));
    assert!(matches!(nl.get_error(l), Err(NetError::NotFound)));

    let l2 = nl.tcp_listen(&local(34262)).unwrap();
    assert_eq!(l2, l);
    assert!(matches!(nl.get_error(l2), Ok(None)));
}

#[test]
fn close_is_idempotent() {
    let mut nl = NetLoop::new();
    let l = nl.tcp_listen(&local(34263)).unwrap();
    assert_eq!(nl.close(l), Ok(()));
    assert_eq!(nl.close(l), Ok(()));
    assert_eq!(nl.close(999), Ok(()));
}

#[test]
fn queue_empty_and_timeout() {
    let mut nl = NetLoop::new();
    assert_eq!(nl.try_recv(), Err(QueueError::Empty));
    assert_eq!(
        nl.recv_timeout(Duration::from_millis(50)),
        Err(QueueError::Timeout)
    );
}

#[test]
fn accept_without_pending_would_block() {
    let mut nl = NetLoop::new();
    let l = nl.tcp_listen(&local(34264)).unwrap();
    assert_eq!(nl.tcp_accept(l), Err(NetError::WouldBlock));
}

#[test]
fn addresses_and_advisory_error() {
    let mut nl = NetLoop::new();
    let l = nl.tcp_listen(&local(34265)).unwrap();
    assert_eq!(nl.local_addr(l).unwrap(), "127.0.0.1:34265");
    assert!(matches!(nl.get_error(l), Ok(None)));
    assert!(matches!(nl.get_error(999), Err(NetError::NotFound)));
    drop(nl);
    if !loopback_usable() {
        return;
    }
    let (mut nl, l, c, a) = setup_pair(34266);
    assert_eq!(nl.local_addr(l).unwrap(), "127.0.0.1:34266");
    assert_eq!(nl.peer_addr(c).unwrap(), "127.0.0.1:34266");
    assert_eq!(nl.local_addr(a).unwrap(), "127.0.0.1:34266");
    assert!(matches!(nl.get_error(c), Ok(None)));
}

#[test]
fn read_without_data_would_block() {
    if !loopback_usable() {
        return;
    }
    let (nl, _l, c, a) = setup_pair(34267);
    let mut buf = vec![0u8; 8];
    assert_eq!(nl.read_stream(c, &mut buf), Err(NetError::WouldBlock));
    assert_eq!(nl.read_stream(a, &mut buf), Err(NetError::WouldBlock));
}

#[test]
fn partial_write_then_resume() {
    if !loopback_usable() {
        return;
    }
    let (nl, _l, c, a) = setup_pair(34268);
    let big = vec![0x5au8; 64 * 1024 * 1024];
    let n = nl.write_stream(c, &big).unwrap();
    assert!(n > 0);
    assert!(n < big.len());

    let mut total = 0usize;
    let mut chunk = vec![0u8; 1 << 20];
    let mut spins = 0u64;
    while total < n {
        match nl.read_stream(a, &mut chunk) {
            Ok(0) => panic!("peer closed unexpectedly"),
            Ok(m) => total += m,
            Err(NetError::WouldBlock) => {
                spins += 1;
                assert!(spins < 5_000_000, "reader starved");
            }
            Err(e) => panic!("read failed: {:?}", e),
        }
    }

    let mut spins = 0u64;
    loop {
        match nl.write_stream(c, &big[n..]) {
            Ok(m) => {
                assert!(m > 0);
                break;
            }
            Err(NetError::WouldBlock) => {
                spins += 1;
                assert!(spins < 5_000_000, "writer starved");
            }
            Err(e) => panic!("write failed: {:?}", e),
        }
    }
}

#[test]
fn orderly_shutdown_reads_zero() {
    if !loopback_usable() {
        return;
    }
    let (mut nl, _l, c, a) = setup_pair(34269);
    nl.shutdown(c, ShutdownMode::Write).unwrap();
    let mut buf = vec![0u8; 16];
    let mut spins = 0u64;
    loop {
        match nl.read_stream(a, &mut buf) {
            Ok(n) => {
                assert_eq!(n, 0);
                break;
            }
            Err(NetError::WouldBlock) => {
                spins += 1;
                assert!(spins < 5_000_000, "shutdown never observed");
            }
            Err(e) => panic!("read failed: {:?}", e),
        }
    }
}

#[test]
fn listen_sets_listening_flag() {
    let mut nl = NetLoop::new();
    assert!(!nl.is_listening);
    nl.tcp_listen(&local(34270)).unwrap();
    assert!(nl.is_listening);
}
