//! Upcast/downcast soundness: narrowing yields the original state exactly
//! when the protocol type matches, and a negative result otherwise.

use sockmux::proto::{Dhcpv4Socket, IcmpSocket, RawSocket, TcpSocket, UdpSocket};
use sockmux::socket::{AnySocket, Socket};
use sockmux::time::Instant;

#[test]
fn downcast_raw_roundtrip() {
    let mut raw = RawSocket::new(11);
    raw.sched.send();
    let original = raw;
    let mut sock = raw.upcast();
    assert_eq!(RawSocket::downcast(&mut sock).copied(), Some(original));
    assert_eq!(IcmpSocket::downcast(&mut sock).copied(), None);
    assert_eq!(UdpSocket::downcast(&mut sock).copied(), None);
    assert_eq!(TcpSocket::downcast(&mut sock).copied(), None);
    assert_eq!(Dhcpv4Socket::downcast(&mut sock).copied(), None);
}

#[test]
fn downcast_icmp_roundtrip() {
    let mut icmp = IcmpSocket::new(22);
    icmp.sched.set_timer(Instant::from_millis(5));
    let original = icmp;
    let mut sock = icmp.upcast();
    assert_eq!(IcmpSocket::downcast(&mut sock).copied(), Some(original));
    assert_eq!(RawSocket::downcast(&mut sock).copied(), None);
}

#[test]
fn downcast_udp_roundtrip() {
    let udp = UdpSocket::new(33);
    let original = udp;
    let mut sock = udp.upcast();
    assert_eq!(UdpSocket::downcast(&mut sock).copied(), Some(original));
    assert_eq!(TcpSocket::downcast(&mut sock).copied(), None);
}

#[test]
fn downcast_tcp_roundtrip() {
    let mut tcp = TcpSocket::new(44);
    tcp.sched.send();
    tcp.sched.set_timer(Instant::from_millis(9));
    let original = tcp;
    let mut sock = tcp.upcast();
    assert_eq!(TcpSocket::downcast(&mut sock).copied(), Some(original));
    assert_eq!(UdpSocket::downcast(&mut sock).copied(), None);
}

#[test]
fn downcast_dhcpv4_roundtrip() {
    let dhcp = Dhcpv4Socket::new(55);
    let original = dhcp;
    let mut sock = dhcp.upcast();
    assert_eq!(Dhcpv4Socket::downcast(&mut sock).copied(), Some(original));
    assert_eq!(RawSocket::downcast(&mut sock).copied(), None);
}

#[test]
fn downcast_mutation_reaches_the_sum_type() {
    let udp = UdpSocket::new(66);
    let mut sock = udp.upcast();
    if let Some(inner) = UdpSocket::downcast(&mut sock) {
        inner.sched.send();
    } else {
        panic!("expected the Udp variant");
    }
    match sock {
        Socket::Udp(s) => assert!(s.sched.tx_pending),
        _ => panic!("expected the Udp variant"),
    }
}

#[test]
fn upcast_keeps_the_state() {
    let mut tcp = TcpSocket::new(7);
    tcp.sched.send();
    match tcp.upcast() {
        Socket::Tcp(s) => {
            assert_eq!(s.sched.endpoint, 7);
            assert!(s.sched.tx_pending);
            assert_eq!(s.sched.timer, None);
        },
        _ => panic!("expected the Tcp variant"),
    }
}
