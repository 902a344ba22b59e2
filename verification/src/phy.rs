//! Device capability descriptors handed to sockets inside a [`Context`].
//!
//! [`Context`]: crate::socket::Context

use vstd::prelude::*;

verus! {

/// Whether a device computes or verifies a particular checksum itself.
#[derive(Clone, Copy, Debug, PartialEq, Eq, Structural)]
pub enum Checksum {
    /// Verified on ingress and computed on egress by the device.
    Both,
    /// Computed on egress only.
    Tx,
    /// Verified on ingress only.
    Rx,
    /// Left entirely to the stack.
    Disabled,
}

/// Per-protocol checksum-offload flags of a device.
#[derive(Clone, Copy, Debug, PartialEq, Eq, Structural)]
pub struct ChecksumCapabilities {
    pub ipv4: Checksum,
    pub udp: Checksum,
    pub tcp: Checksum,
    pub icmpv4: Checksum,
}

impl ChecksumCapabilities {
    /// Capabilities of a device that offloads nothing.
    pub fn ignored() -> (r: ChecksumCapabilities)
        ensures
            r == (ChecksumCapabilities {
                ipv4: Checksum::Disabled,
                udp: Checksum::Disabled,
                tcp: Checksum::Disabled,
                icmpv4: Checksum::Disabled,
            }),
    {
        ChecksumCapabilities {
            ipv4: Checksum::Disabled,
            udp: Checksum::Disabled,
            tcp: Checksum::Disabled,
            icmpv4: Checksum::Disabled,
        }
    }
}

/// What a device can do; frozen for the duration of one tick.
#[derive(Clone, Copy, Debug, PartialEq, Eq, Structural)]
pub struct DeviceCapabilities {
    /// Checksums the device offloads.
    pub checksum: ChecksumCapabilities,
    /// Largest frame the device accepts, in octets.
    pub max_transmission_unit: usize,
    /// Largest burst of frames the device accepts at once, if bounded.
    pub max_burst_size: Option<usize>,
}

/// A six-octet link-layer address.
#[derive(Clone, Copy, Debug, PartialEq, Eq)]
pub struct HardwareAddress {
    pub octets: [u8; 6],
}

/// A short network identifier, present only on media that require one.
#[derive(Clone, Copy, Debug, PartialEq, Eq, Structural)]
pub struct Ieee802154Pan(pub u16);

} // verus!
