//! Scheduling hints: the uniform poll-at policy, deadline handling across
//! skipped ticks, and the arena-wide next-poll computation.

use sockmux::arena::SocketSet;
use sockmux::phy::{ChecksumCapabilities, DeviceCapabilities, HardwareAddress, Ieee802154Pan};
use sockmux::proto::{Packet, Protocol, TcpSocket, UdpSocket};
use sockmux::socket::{AnySocket, Context, PollAt, Socket};
use sockmux::time::Instant;

fn ctx_at(millis: i64) -> Context {
    Context {
        now: Instant::from_millis(millis),
        caps: DeviceCapabilities {
            checksum: ChecksumCapabilities::ignored(),
            max_transmission_unit: 1500,
            max_burst_size: None,
        },
        hardware_addr: None,
        pan_id: None,
    }
}

#[test]
fn instant_keeps_its_milliseconds() {
    let t = Instant::from_millis(-42);
    assert_eq!(t.total_millis(), -42);
    assert_eq!(Instant::from_millis(7), Instant::from_millis(7));
    assert_ne!(Instant::from_millis(7), Instant::from_millis(8));
}

#[test]
fn idle_socket_reports_ingress() {
    let udp = UdpSocket::new(7);
    assert_eq!(udp.poll_at(&ctx_at(0)), PollAt::Ingress);
    assert_eq!(udp.poll_at(&ctx_at(1_000_000)), PollAt::Ingress);
}

#[test]
fn inbound_packet_turns_ingress_into_now() {
    let cx = ctx_at(0);
    let mut udp = UdpSocket::new(7);
    assert_eq!(udp.poll_at(&cx), PollAt::Ingress);

    let claimed = udp.process(&cx, &Packet { protocol: Protocol::Udp, endpoint: 7 });
    assert!(claimed);
    // Same tick, no elapsed time: the queued reply already demands a poll.
    assert_eq!(udp.poll_at(&cx), PollAt::Now);
}

#[test]
fn unclaimed_packet_changes_nothing() {
    let cx = ctx_at(0);
    let mut udp = UdpSocket::new(7);
    assert!(!udp.process(&cx, &Packet { protocol: Protocol::Udp, endpoint: 8 }));
    assert!(!udp.process(&cx, &Packet { protocol: Protocol::Tcp, endpoint: 7 }));
    assert_eq!(udp.poll_at(&cx), PollAt::Ingress);
}

#[test]
fn queued_egress_reports_now() {
    let mut tcp = TcpSocket::new(1);
    tcp.sched.send();
    assert_eq!(tcp.poll_at(&ctx_at(0)), PollAt::Now);
}

#[test]
fn armed_timer_reports_its_deadline() {
    let mut tcp = TcpSocket::new(1);
    tcp.sched.set_timer(Instant::from_millis(100));
    assert_eq!(tcp.poll_at(&ctx_at(0)), PollAt::Time(Instant::from_millis(100)));
    assert_eq!(tcp.poll_at(&ctx_at(99)), PollAt::Time(Instant::from_millis(100)));
}

#[test]
fn expired_timer_reports_now() {
    let mut tcp = TcpSocket::new(1);
    tcp.sched.set_timer(Instant::from_millis(100));
    assert_eq!(tcp.poll_at(&ctx_at(100)), PollAt::Now);
}

#[test]
fn disarmed_timer_reports_ingress_again() {
    let mut tcp = TcpSocket::new(1);
    tcp.sched.set_timer(Instant::from_millis(100));
    tcp.sched.clear_timer();
    assert_eq!(tcp.poll_at(&ctx_at(0)), PollAt::Ingress);
    assert_eq!(tcp.poll_at(&ctx_at(200)), PollAt::Ingress);
}

#[test]
fn context_is_one_frozen_snapshot() {
    let cx = Context {
        now: Instant::from_millis(3),
        caps: DeviceCapabilities {
            checksum: ChecksumCapabilities::ignored(),
            max_transmission_unit: 1280,
            max_burst_size: Some(4),
        },
        hardware_addr: Some(HardwareAddress { octets: [2, 2, 2, 2, 2, 2] }),
        pan_id: Some(Ieee802154Pan(0xabcd)),
    };
    assert_eq!(cx.now.total_millis(), 3);
    assert_eq!(cx.caps.max_transmission_unit, 1280);
    assert_eq!(cx.caps.max_burst_size, Some(4));
    assert_eq!(cx.hardware_addr.map(|a| a.octets), Some([2u8, 2, 2, 2, 2, 2]));
    assert_eq!(cx.pan_id, Some(Ieee802154Pan(0xabcd)));
}

#[test]
fn skipping_polls_does_not_lose_the_deadline() {
    // Deterministic mock timer: a deadline armed at t=100, observed at
    // T=0 as Time(100); polls skipped until t'=250 still find the socket
    // demanding attention, so no retransmission is missed.
    let mut tcp = TcpSocket::new(1);
    tcp.sched.set_timer(Instant::from_millis(100));
    assert_eq!(tcp.poll_at(&ctx_at(0)), PollAt::Time(Instant::from_millis(100)));
    assert_eq!(tcp.poll_at(&ctx_at(250)), PollAt::Now);
}

#[test]
fn dispatch_drains_egress_and_produces_the_packet() {
    let cx = ctx_at(0);
    let mut udp = UdpSocket::new(7);
    udp.sched.send();
    let out = udp.dispatch(&cx);
    assert_eq!(out, Some(Packet { protocol: Protocol::Udp, endpoint: 7 }));
    assert_eq!(udp.poll_at(&cx), PollAt::Ingress);
    // A duplicate transmit opportunity is a no-op.
    assert_eq!(udp.dispatch(&cx), None);
}

#[test]
fn sum_type_dispatches_to_the_active_variant() {
    let cx = ctx_at(0);
    let mut tcp = TcpSocket::new(1);
    tcp.sched.set_timer(Instant::from_millis(40));
    let sock: Socket = tcp.upcast();
    assert_eq!(sock.poll_at(&cx), PollAt::Time(Instant::from_millis(40)));

    let mut udp = UdpSocket::new(2);
    udp.sched.send();
    let sock2: Socket = udp.upcast();
    assert_eq!(sock2.poll_at(&cx), PollAt::Now);
}

#[test]
fn empty_arena_polls_ingress() {
    let set = SocketSet::new(4);
    assert_eq!(set.poll_at(&ctx_at(0)), PollAt::Ingress);
}

#[test]
fn arena_poll_at_is_the_earliest_deadline() {
    let mut set = SocketSet::new(4);
    let _idle = set.add(UdpSocket::new(1).upcast()).unwrap();

    let mut late = TcpSocket::new(2);
    late.sched.set_timer(Instant::from_millis(500));
    set.add(late.upcast()).unwrap();

    let mut early = TcpSocket::new(3);
    early.sched.set_timer(Instant::from_millis(50));
    set.add(early.upcast()).unwrap();

    assert_eq!(set.poll_at(&ctx_at(0)), PollAt::Time(Instant::from_millis(50)));
}

#[test]
fn arena_poll_at_prefers_now() {
    let mut set = SocketSet::new(4);
    let mut timed = TcpSocket::new(1);
    timed.sched.set_timer(Instant::from_millis(500));
    set.add(timed.upcast()).unwrap();

    let mut ready = UdpSocket::new(2);
    ready.sched.send();
    set.add(ready.upcast()).unwrap();

    assert_eq!(set.poll_at(&ctx_at(0)), PollAt::Now);
}

#[test]
fn sweep_processes_and_polls_one_consistent_snapshot() {
    // One tick of the external event loop: build one Context, offer the
    // inbound packet along the sweep, then read the next wake deadline.
    let cx = ctx_at(10);
    let mut set = SocketSet::new(4);
    set.add(UdpSocket::new(1).upcast()).unwrap();
    set.add(TcpSocket::new(2).upcast()).unwrap();

    let inbound = Packet { protocol: Protocol::Tcp, endpoint: 2 };
    let mut claimed_by: usize = 0;
    for h in set.handles() {
        if set.get_mut(h).unwrap().process(&cx, &inbound) {
            claimed_by += 1;
        }
    }
    assert_eq!(claimed_by, 1);
    assert_eq!(set.poll_at(&cx), PollAt::Now);
}
