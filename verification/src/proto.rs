//! Protocol sockets stored in the arena.
//!
//! The transport logic proper (handshakes, framing, lease negotiation) lives
//! outside this crate; what is kept here is exactly the state the
//! multiplexing layer routes and schedules on: which endpoint a socket
//! answers on, whether egress data is queued, and the next protocol timer.
//! Every variant derives its scheduling hint from that state under one
//! uniform policy, [`SchedState::spec_poll_at`].

use crate::socket::{Context, PollAt};
use crate::time::Instant;
use vstd::prelude::*;

verus! {

/// The protocol a socket speaks and a packet carries.
#[derive(Clone, Copy, Debug, PartialEq, Eq, Structural)]
pub enum Protocol {
    Raw,
    Icmp,
    Udp,
    Tcp,
    Dhcpv4,
}

/// An inbound or outbound packet, reduced to what routing needs:
/// the protocol it carries and the endpoint it is addressed to or from.
#[derive(Clone, Copy, Debug, PartialEq, Eq, Structural)]
pub struct Packet {
    pub protocol: Protocol,
    pub endpoint: u16,
}

/// The scheduling-relevant core every protocol socket keeps.
#[derive(Clone, Copy, Debug, PartialEq, Eq, Structural)]
pub struct SchedState {
    /// The endpoint this socket answers on.
    pub endpoint: u16,
    /// Whether egress data is queued for the next transmit opportunity.
    pub tx_pending: bool,
    /// The next protocol timer (retransmission, lease renewal, backoff), if armed.
    pub timer: Option<Instant>,
}

impl SchedState {
    /// The uniform scheduling policy: `Now` if data is ready to send or a
    /// timer has expired relative to `now`; else `Time(t)` if a future
    /// deadline `t` is armed; else `Ingress`.
    pub open spec fn spec_poll_at(self, now: Instant) -> PollAt {
        match self.timer {
            Some(t) => if self.tx_pending || t.millis <= now.millis {
                PollAt::Now
            } else {
                PollAt::Time(t)
            },
            None => if self.tx_pending {
                PollAt::Now
            } else {
                PollAt::Ingress
            },
        }
    }

    /// Whether this socket, speaking `proto`, claims packet `p`.
    pub open spec fn spec_claims(self, p: Packet, proto: Protocol) -> bool {
        p.protocol == proto && p.endpoint == self.endpoint
    }

    /// The state after one inbound packet `p` was offered: a claimed packet
    /// queues a reply; an unclaimed one changes nothing.
    pub open spec fn spec_process(self, p: Packet, proto: Protocol) -> SchedState {
        if self.spec_claims(p, proto) {
            SchedState { tx_pending: true, ..self }
        } else {
            self
        }
    }

    /// The state after one transmit opportunity: queued egress is drained.
    pub open spec fn spec_dispatch(self) -> SchedState {
        SchedState { tx_pending: false, ..self }
    }

    /// The packet a transmit opportunity produces, if any.
    pub open spec fn spec_dispatch_packet(self, proto: Protocol) -> Option<Packet> {
        if self.tx_pending {
            Some(Packet { protocol: proto, endpoint: self.endpoint })
        } else {
            None
        }
    }

    /// An idle socket bound to `endpoint`: nothing queued, no timer armed.
    pub fn new(endpoint: u16) -> (r: SchedState)
        ensures
            r == (SchedState { endpoint, tx_pending: false, timer: None }),
    {
        SchedState { endpoint, tx_pending: false, timer: None }
    }

    /// When this socket next needs attention, as a pure function of its state
    /// and `cx.now`.
    pub fn poll_at(&self, cx: &Context) -> (r: PollAt)
        ensures
            r == self.spec_poll_at(cx.now),
    {
        match self.timer {
            Some(t) => if self.tx_pending || t.millis <= cx.now.millis {
                PollAt::Now
            } else {
                PollAt::Time(t)
            },
            None => if self.tx_pending {
                PollAt::Now
            } else {
                PollAt::Ingress
            },
        }
    }

    /// Offers one inbound packet; returns whether this socket claimed it.
    pub fn process(&mut self, cx: &Context, p: &Packet, proto: Protocol) -> (claimed: bool)
        ensures
            *final(self) == old(self).spec_process(*p, proto),
            claimed == old(self).spec_claims(*p, proto),
    {
        if p.protocol == proto && p.endpoint == self.endpoint {
            self.tx_pending = true;
            true
        } else {
            false
        }
    }

    /// Uses one transmit opportunity; returns the produced packet, if any.
    pub fn dispatch(&mut self, cx: &Context, proto: Protocol) -> (r: Option<Packet>)
        ensures
            *final(self) == old(self).spec_dispatch(),
            r == old(self).spec_dispatch_packet(proto),
    {
        if self.tx_pending {
            self.tx_pending = false;
            Some(Packet { protocol: proto, endpoint: self.endpoint })
        } else {
            None
        }
    }

    /// Queues egress data for the next transmit opportunity.
    pub fn send(&mut self)
        ensures
            *final(self) == (SchedState { tx_pending: true, ..*old(self) }),
    {
        self.tx_pending = true;
    }

    /// Arms the protocol timer for `t`.
    pub fn set_timer(&mut self, t: Instant)
        ensures
            *final(self) == (SchedState { timer: Some(t), ..*old(self) }),
    {
        self.timer = Some(t);
    }

    /// Disarms the protocol timer.
    pub fn clear_timer(&mut self)
        ensures
            *final(self) == (SchedState { timer: None, ..*old(self) }),
    {
        self.timer = None;
    }
}

/// A raw packet socket.
#[derive(Clone, Copy, Debug, PartialEq, Eq, Structural)]
pub struct RawSocket {
    pub sched: SchedState,
}

impl RawSocket {
    /// An idle raw socket bound to `endpoint`.
    pub fn new(endpoint: u16) -> (r: RawSocket)
        ensures
            r.sched == (SchedState { endpoint, tx_pending: false, timer: None }),
    {
        RawSocket { sched: SchedState::new(endpoint) }
    }

    /// When this socket next needs attention.
    pub fn poll_at(&self, cx: &Context) -> (r: PollAt)
        ensures
            r == self.sched.spec_poll_at(cx.now),
    {
        self.sched.poll_at(cx)
    }

    /// Offers one inbound packet; returns whether this socket claimed it.
    pub fn process(&mut self, cx: &Context, p: &Packet) -> (claimed: bool)
        ensures
            final(self).sched == old(self).sched.spec_process(*p, Protocol::Raw),
            claimed == old(self).sched.spec_claims(*p, Protocol::Raw),
    {
        self.sched.process(cx, p, Protocol::Raw)
    }

    /// Uses one transmit opportunity; returns the produced packet, if any.
    pub fn dispatch(&mut self, cx: &Context) -> (r: Option<Packet>)
        ensures
            final(self).sched == old(self).sched.spec_dispatch(),
            r == old(self).sched.spec_dispatch_packet(Protocol::Raw),
    {
        self.sched.dispatch(cx, Protocol::Raw)
    }
}

/// An ICMP echo socket.
#[derive(Clone, Copy, Debug, PartialEq, Eq, Structural)]
pub struct IcmpSocket {
    pub sched: SchedState,
}

impl IcmpSocket {
    /// An idle ICMP socket bound to `endpoint`.
    pub fn new(endpoint: u16) -> (r: IcmpSocket)
        ensures
            r.sched == (SchedState { endpoint, tx_pending: false, timer: None }),
    {
        IcmpSocket { sched: SchedState::new(endpoint) }
    }

    /// When this socket next needs attention.
    pub fn poll_at(&self, cx: &Context) -> (r: PollAt)
        ensures
            r == self.sched.spec_poll_at(cx.now),
    {
        self.sched.poll_at(cx)
    }

    /// Offers one inbound packet; returns whether this socket claimed it.
    pub fn process(&mut self, cx: &Context, p: &Packet) -> (claimed: bool)
        ensures
            final(self).sched == old(self).sched.spec_process(*p, Protocol::Icmp),
            claimed == old(self).sched.spec_claims(*p, Protocol::Icmp),
    {
        self.sched.process(cx, p, Protocol::Icmp)
    }

    /// Uses one transmit opportunity; returns the produced packet, if any.
    pub fn dispatch(&mut self, cx: &Context) -> (r: Option<Packet>)
        ensures
            final(self).sched == old(self).sched.spec_dispatch(),
            r == old(self).sched.spec_dispatch_packet(Protocol::Icmp),
    {
        self.sched.dispatch(cx, Protocol::Icmp)
    }
}

/// A UDP datagram socket.
#[derive(Clone, Copy, Debug, PartialEq, Eq, Structural)]
pub struct UdpSocket {
    pub sched: SchedState,
}

impl UdpSocket {
    /// An idle UDP socket bound to `endpoint`.
    pub fn new(endpoint: u16) -> (r: UdpSocket)
        ensures
            r.sched == (SchedState { endpoint, tx_pending: false, timer: None }),
    {
        UdpSocket { sched: SchedState::new(endpoint) }
    }

    /// When this socket next needs attention.
    pub fn poll_at(&self, cx: &Context) -> (r: PollAt)
        ensures
            r == self.sched.spec_poll_at(cx.now),
    {
        self.sched.poll_at(cx)
    }

    /// Offers one inbound packet; returns whether this socket claimed it.
    pub fn process(&mut self, cx: &Context, p: &Packet) -> (claimed: bool)
        ensures
            final(self).sched == old(self).sched.spec_process(*p, Protocol::Udp),
            claimed == old(self).sched.spec_claims(*p, Protocol::Udp),
    {
        self.sched.process(cx, p, Protocol::Udp)
    }

    /// Uses one transmit opportunity; returns the produced packet, if any.
    pub fn dispatch(&mut self, cx: &Context) -> (r: Option<Packet>)
        ensures
            final(self).sched == old(self).sched.spec_dispatch(),
            r == old(self).sched.spec_dispatch_packet(Protocol::Udp),
    {
        self.sched.dispatch(cx, Protocol::Udp)
    }
}

/// A TCP stream socket.
#[derive(Clone, Copy, Debug, PartialEq, Eq, Structural)]
pub struct TcpSocket {
    pub sched: SchedState,
}

impl TcpSocket {
    /// An idle TCP socket bound to `endpoint`.
    pub fn new(endpoint: u16) -> (r: TcpSocket)
        ensures
            r.sched == (SchedState { endpoint, tx_pending: false, timer: None }),
    {
        TcpSocket { sched: SchedState::new(endpoint) }
    }

    /// When this socket next needs attention.
    pub fn poll_at(&self, cx: &Context) -> (r: PollAt)
        ensures
            r == self.sched.spec_poll_at(cx.now),
    {
        self.sched.poll_at(cx)
    }

    /// Offers one inbound packet; returns whether this socket claimed it.
    pub fn process(&mut self, cx: &Context, p: &Packet) -> (claimed: bool)
        ensures
            final(self).sched == old(self).sched.spec_process(*p, Protocol::Tcp),
            claimed == old(self).sched.spec_claims(*p, Protocol::Tcp),
    {
        self.sched.process(cx, p, Protocol::Tcp)
    }

    /// Uses one transmit opportunity; returns the produced packet, if any.
    pub fn dispatch(&mut self, cx: &Context) -> (r: Option<Packet>)
        ensures
            final(self).sched == old(self).sched.spec_dispatch(),
            r == old(self).sched.spec_dispatch_packet(Protocol::Tcp),
    {
        self.sched.dispatch(cx, Protocol::Tcp)
    }
}

/// A DHCPv4 client socket.
#[derive(Clone, Copy, Debug, PartialEq, Eq, Structural)]
pub struct Dhcpv4Socket {
    pub sched: SchedState,
}

impl Dhcpv4Socket {
    /// An idle DHCPv4 socket bound to `endpoint`.
    pub fn new(endpoint: u16) -> (r: Dhcpv4Socket)
        ensures
            r.sched == (SchedState { endpoint, tx_pending: false, timer: None }),
    {
        Dhcpv4Socket { sched: SchedState::new(endpoint) }
    }

    /// When this socket next needs attention.
    pub fn poll_at(&self, cx: &Context) -> (r: PollAt)
        ensures
            r == self.sched.spec_poll_at(cx.now),
    {
        self.sched.poll_at(cx)
    }

    /// Offers one inbound packet; returns whether this socket claimed it.
    pub fn process(&mut self, cx: &Context, p: &Packet) -> (claimed: bool)
        ensures
            final(self).sched == old(self).sched.spec_process(*p, Protocol::Dhcpv4),
            claimed == old(self).sched.spec_claims(*p, Protocol::Dhcpv4),
    {
        self.sched.process(cx, p, Protocol::Dhcpv4)
    }

    /// Uses one transmit opportunity; returns the produced packet, if any.
    pub fn dispatch(&mut self, cx: &Context) -> (r: Option<Packet>)
        ensures
            final(self).sched == old(self).sched.spec_dispatch(),
            r == old(self).sched.spec_dispatch_packet(Protocol::Dhcpv4),
    {
        self.sched.dispatch(cx, Protocol::Dhcpv4)
    }
}

} // verus!
