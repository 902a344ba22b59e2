//! The closed sum type over protocol sockets, its conversion trait, and the
//! per-tick data every socket operation receives.

use crate::phy::{DeviceCapabilities, HardwareAddress, Ieee802154Pan};
use crate::proto::{Dhcpv4Socket, IcmpSocket, Packet, Protocol, RawSocket, SchedState, TcpSocket,
    UdpSocket};
use crate::time::Instant;
use vstd::prelude::*;

verus! {

/// Indication of the next time a socket should be polled.
///
/// This is a scheduling priority, not a numeric order: `Now` demands an
/// immediate re-poll regardless of elapsed time; `Time(t)` demands a poll no
/// later than `t` (earlier polls are permitted and idempotent); `Ingress`
/// means the socket only needs attention when new data arrives.
#[derive(Clone, Copy, Debug, PartialEq, Eq, Structural)]
pub enum PollAt {
    /// The socket needs to be polled immediately.
    Now,
    /// The socket needs to be polled at the given [`Instant`].
    Time(Instant),
    /// The socket does not need to be polled unless there are external changes.
    Ingress,
}

/// Data passed to sockets when processing: one immutable snapshot per tick.
///
/// The external scheduler builds a `Context` once per tick and passes it by
/// reference into every socket operation of that tick, so all sockets observe
/// one consistent time and capability snapshot.
#[derive(Clone, Copy, Debug)]
pub struct Context {
    /// The tick's timestamp.
    pub now: Instant,
    /// What the device can do.
    pub caps: DeviceCapabilities,
    /// The device's link-layer address, where the medium has one.
    pub hardware_addr: Option<HardwareAddress>,
    /// The device's short network identifier, on media that require one.
    pub pan_id: Option<Ieee802154Pan>,
}

/// A network socket.
///
/// This enumeration abstracts the various types of sockets based on the IP
/// protocol. The active variant is fixed at construction and never changes;
/// only the variant's internal state mutates. To downcast a `Socket` value to
/// a concrete socket, use the [`AnySocket`] trait, e.g. to get a `UdpSocket`,
/// call `UdpSocket::downcast(socket)`.
#[derive(Clone, Copy, Debug, PartialEq, Eq, Structural)]
pub enum Socket {
    Raw(RawSocket),
    Icmp(IcmpSocket),
    Udp(UdpSocket),
    Tcp(TcpSocket),
    Dhcpv4(Dhcpv4Socket),
}

impl Socket {
    /// The protocol the active variant speaks.
    pub open spec fn spec_protocol(self) -> Protocol {
        match self {
            Socket::Raw(_) => Protocol::Raw,
            Socket::Icmp(_) => Protocol::Icmp,
            Socket::Udp(_) => Protocol::Udp,
            Socket::Tcp(_) => Protocol::Tcp,
            Socket::Dhcpv4(_) => Protocol::Dhcpv4,
        }
    }

    /// The active variant's scheduling state.
    pub open spec fn spec_sched(self) -> SchedState {
        match self {
            Socket::Raw(s) => s.sched,
            Socket::Icmp(s) => s.sched,
            Socket::Udp(s) => s.sched,
            Socket::Tcp(s) => s.sched,
            Socket::Dhcpv4(s) => s.sched,
        }
    }

    /// The same socket with the active variant's scheduling state replaced:
    /// the variant itself never changes.
    pub open spec fn spec_with_sched(self, st: SchedState) -> Socket {
        match self {
            Socket::Raw(_) => Socket::Raw(RawSocket { sched: st }),
            Socket::Icmp(_) => Socket::Icmp(IcmpSocket { sched: st }),
            Socket::Udp(_) => Socket::Udp(UdpSocket { sched: st }),
            Socket::Tcp(_) => Socket::Tcp(TcpSocket { sched: st }),
            Socket::Dhcpv4(_) => Socket::Dhcpv4(Dhcpv4Socket { sched: st }),
        }
    }

    /// When this socket next needs attention at time `now`.
    pub open spec fn spec_poll_at(self, now: Instant) -> PollAt {
        self.spec_sched().spec_poll_at(now)
    }

    /// Whether this socket claims packet `p`.
    pub open spec fn spec_claims(self, p: Packet) -> bool {
        self.spec_sched().spec_claims(p, self.spec_protocol())
    }

    /// The socket after one inbound packet `p` was offered.
    pub open spec fn spec_process(self, p: Packet) -> Socket {
        self.spec_with_sched(self.spec_sched().spec_process(p, self.spec_protocol()))
    }

    /// The socket after one transmit opportunity.
    pub open spec fn spec_dispatch(self) -> Socket {
        self.spec_with_sched(self.spec_sched().spec_dispatch())
    }

    /// The packet one transmit opportunity produces, if any.
    pub open spec fn spec_dispatch_packet(self) -> Option<Packet> {
        self.spec_sched().spec_dispatch_packet(self.spec_protocol())
    }

    /// Dispatches to the active variant's own `poll_at`; the only behavior
    /// the wrapper performs itself.
    pub fn poll_at(&self, cx: &Context) -> (r: PollAt)
        ensures
            r == self.spec_poll_at(cx.now),
    {
        match self {
            Socket::Raw(s) => s.poll_at(cx),
            Socket::Icmp(s) => s.poll_at(cx),
            Socket::Udp(s) => s.poll_at(cx),
            Socket::Tcp(s) => s.poll_at(cx),
            Socket::Dhcpv4(s) => s.poll_at(cx),
        }
    }

    /// Offers one inbound packet to the active variant; returns whether the
    /// socket claimed it.
    pub fn process(&mut self, cx: &Context, p: &Packet) -> (claimed: bool)
        ensures
            *final(self) == old(self).spec_process(*p),
            claimed == old(self).spec_claims(*p),
    {
        match self {
            Socket::Raw(s) => s.process(cx, p),
            Socket::Icmp(s) => s.process(cx, p),
            Socket::Udp(s) => s.process(cx, p),
            Socket::Tcp(s) => s.process(cx, p),
            Socket::Dhcpv4(s) => s.process(cx, p),
        }
    }

    /// Gives the active variant one transmit opportunity; returns the
    /// produced packet, if any.
    pub fn dispatch(&mut self, cx: &Context) -> (r: Option<Packet>)
        ensures
            *final(self) == old(self).spec_dispatch(),
            r == old(self).spec_dispatch_packet(),
    {
        match self {
            Socket::Raw(s) => s.dispatch(cx),
            Socket::Icmp(s) => s.dispatch(cx),
            Socket::Udp(s) => s.dispatch(cx),
            Socket::Tcp(s) => s.dispatch(cx),
            Socket::Dhcpv4(s) => s.dispatch(cx),
        }
    }
}

/// Law: waiting never loses a poll obligation. A socket's hint is a pure
/// function of its state and the tick's timestamp, and as long as the state
/// is not mutated, time passing only sharpens it: a socket that demanded an
/// immediate poll still demands one, and a deadline `t` stays reported —
/// as `Time(t)` while it lies ahead, as `Now` once it has been reached — so
/// skipping polls until the deadline misses nothing.
pub proof fn lemma_poll_at_stable(s: Socket, now1: Instant, now2: Instant)
    requires
        now1.millis <= now2.millis,
    ensures
        s.spec_poll_at(now1) is Now ==> s.spec_poll_at(now2) is Now,
        s.spec_poll_at(now1) matches PollAt::Time(t) ==> if t.millis <= now2.millis {
            s.spec_poll_at(now2) == PollAt::Now
        } else {
            s.spec_poll_at(now2) == PollAt::Time(t)
        },
{
}

/// Law: a poll earlier than needed is a no-op. A socket whose hint is not
/// `Now` has no egress queued, so a transmit opportunity granted anyway
/// changes nothing and produces nothing — duplicate or early polls are
/// harmless.
pub proof fn lemma_early_poll_idempotent(s: Socket, now: Instant)
    requires
        !(s.spec_poll_at(now) is Now),
    ensures
        s.spec_dispatch() == s,
        s.spec_dispatch_packet() is None,
{
}

/// A conversion trait for network sockets: the only conversion between a
/// concrete protocol type and the [`Socket`] sum type.
pub trait AnySocket: Sized {
    /// Whether `s` is this protocol's variant wrapping `self`.
    spec fn wraps(self, s: Socket) -> bool;

    /// A socket wraps at most one value: the sum type loses nothing.
    proof fn lemma_wraps_injective(a: Self, b: Self, s: Socket)
        requires
            a.wraps(s),
            b.wraps(s),
        ensures
            a == b,
    ;

    /// Infallible, total upcast into the sum type.
    fn upcast(self) -> (r: Socket)
        ensures
            self.wraps(r),
    ;

    /// Narrowing out of the sum type. A mismatch is a normal negative result,
    /// not a failure; no side effect beyond the mutable borrow on a match.
    fn downcast(socket: &mut Socket) -> (r: Option<&mut Self>)
        ensures
            match r {
                Some(p) => (*p).wraps(*old(socket)) && (*final(p)).wraps(*final(socket)),
                None => *final(socket) == *old(socket) && (forall|q: Self|
                    !q.wraps(*old(socket))),
            },
    ;
}

impl AnySocket for RawSocket {
    open spec fn wraps(self, s: Socket) -> bool {
        s == Socket::Raw(self)
    }

    proof fn lemma_wraps_injective(a: Self, b: Self, s: Socket) {
    }

    fn upcast(self) -> (r: Socket) {
        Socket::Raw(self)
    }

    fn downcast(socket: &mut Socket) -> (r: Option<&mut Self>) {
        match socket {
            Socket::Raw(s) => Some(s),
            _ => None,
        }
    }
}

impl AnySocket for IcmpSocket {
    open spec fn wraps(self, s: Socket) -> bool {
        s == Socket::Icmp(self)
    }

    proof fn lemma_wraps_injective(a: Self, b: Self, s: Socket) {
    }

    fn upcast(self) -> (r: Socket) {
        Socket::Icmp(self)
    }

    fn downcast(socket: &mut Socket) -> (r: Option<&mut Self>) {
        match socket {
            Socket::Icmp(s) => Some(s),
            _ => None,
        }
    }
}

impl AnySocket for UdpSocket {
    open spec fn wraps(self, s: Socket) -> bool {
        s == Socket::Udp(self)
    }

    proof fn lemma_wraps_injective(a: Self, b: Self, s: Socket) {
    }

    fn upcast(self) -> (r: Socket) {
        Socket::Udp(self)
    }

    fn downcast(socket: &mut Socket) -> (r: Option<&mut Self>) {
        match socket {
            Socket::Udp(s) => Some(s),
            _ => None,
        }
    }
}

impl AnySocket for TcpSocket {
    open spec fn wraps(self, s: Socket) -> bool {
        s == Socket::Tcp(self)
    }

    proof fn lemma_wraps_injective(a: Self, b: Self, s: Socket) {
    }

    fn upcast(self) -> (r: Socket) {
        Socket::Tcp(self)
    }

    fn downcast(socket: &mut Socket) -> (r: Option<&mut Self>) {
        match socket {
            Socket::Tcp(s) => Some(s),
            _ => None,
        }
    }
}

impl AnySocket for Dhcpv4Socket {
    open spec fn wraps(self, s: Socket) -> bool {
        s == Socket::Dhcpv4(self)
    }

    proof fn lemma_wraps_injective(a: Self, b: Self, s: Socket) {
    }

    fn upcast(self) -> (r: Socket) {
        Socket::Dhcpv4(self)
    }

    fn downcast(socket: &mut Socket) -> (r: Option<&mut Self>) {
        match socket {
            Socket::Dhcpv4(s) => Some(s),
            _ => None,
        }
    }
}

} // verus!
