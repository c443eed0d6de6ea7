//! Addresses, the per-connection transport context, and the tagged byte
//! buffer that a driver hands to a pipeline and takes back from it.

pub mod async_transport_tcp;
pub mod async_transport_udp;

use crate::buf::contents;
use bytes::BytesMut;
use vstd::prelude::*;

verus! {

/// A point in time, in nanoseconds since an origin that the driver chooses.
#[derive(Debug, Clone, Copy, PartialEq, Eq, Hash, Structural)]
pub struct Instant {
    pub nanos: u64,
}

impl Instant {
    /// The instant `nanos` nanoseconds after the origin.
    pub fn from_nanos(nanos: u64) -> (t: Instant)
        ensures
            t.nanos == nanos,
    {
        Instant { nanos }
    }

    /// This instant moved `nanos` nanoseconds later, stopping at the largest
    /// instant that can be represented.
    pub fn saturating_add(self, nanos: u64) -> (t: Instant)
        ensures
            t.nanos == if self.nanos + nanos <= u64::MAX {
                self.nanos + nanos
            } else {
                u64::MAX as int
            },
    {
        Instant { nanos: self.nanos.saturating_add(nanos) }
    }

    /// The nanoseconds from `earlier` to this instant, or zero when `earlier`
    /// is not earlier.
    pub fn saturating_duration_since(self, earlier: Instant) -> (d: u64)
        ensures
            d == if self.nanos >= earlier.nanos { self.nanos - earlier.nanos } else { 0 },
    {
        self.nanos.saturating_sub(earlier.nanos)
    }
}

/// An IPv4 or IPv6 address, held as the integer its bytes spell in network
/// order.
#[derive(Debug, Clone, Copy, PartialEq, Eq, Hash, Structural)]
pub enum IpAddr {
    V4(u32),
    V6(u128),
}

/// An IP address and a port.
#[derive(Debug, Clone, Copy, PartialEq, Eq, Hash, Structural)]
pub struct SocketAddr {
    pub ip: IpAddr,
    pub port: u16,
}

/// Explicit congestion notification codepoint: the two low bits of the IP
/// traffic-class byte, when they are not both zero.
#[derive(Debug, Clone, Copy, PartialEq, Eq, Hash, Structural)]
pub enum EcnCodepoint {
    /// Bits `10`.
    Ect0,
    /// Bits `01`.
    Ect1,
    /// Bits `11`.
    Ce,
}

impl EcnCodepoint {
    /// The codepoint that two bits spell, if any.
    pub open spec fn of_bits(low: u8) -> Option<EcnCodepoint> {
        if low == 0b10 {
            Some(EcnCodepoint::Ect0)
        } else if low == 0b01 {
            Some(EcnCodepoint::Ect1)
        } else if low == 0b11 {
            Some(EcnCodepoint::Ce)
        } else {
            None
        }
    }

    /// The two bits that spell this codepoint: `10` for `Ect0`, `01` for
    /// `Ect1`, `11` for `Ce`.
    pub fn bits(self) -> (r: u8)
        ensures
            Self::of_bits(r) == Some(self),
            r == match self {
                EcnCodepoint::Ect0 => 0b10u8,
                EcnCodepoint::Ect1 => 0b01u8,
                EcnCodepoint::Ce => 0b11u8,
            },
    {
        match self {
            EcnCodepoint::Ect0 => 0b10,
            EcnCodepoint::Ect1 => 0b01,
            EcnCodepoint::Ce => 0b11,
        }
    }

    /// Create EcnCodepoint from the low two bits of `x`; none when both are
    /// zero.  The higher bits are ignored.
    pub fn from_bits(x: u8) -> (r: Option<EcnCodepoint>)
        ensures
            r == Self::of_bits(x & 0b11),
            r is None <==> x % 4 == 0,
    {
        let low: u8 = x & 0b11;
        assert(low == x % 4) by (bit_vector)
            requires
                low == x & 0b11,
        ;
        if low == 0b10 {
            Some(EcnCodepoint::Ect0)
        } else if low == 0b01 {
            Some(EcnCodepoint::Ect1)
        } else if low == 0b11 {
            Some(EcnCodepoint::Ce)
        } else {
            None
        }
    }
}

/// The identity of a connection: where it is bound, whom it talks to, and the
/// congestion mark of the datagram at hand.
#[derive(Debug, Clone, Copy, PartialEq, Eq, Hash)]
pub struct TransportContext {
    /// Local socket address, either IPv4 or IPv6
    pub local_addr: SocketAddr,
    /// Optional peer socket address, either IPv4 or IPv6
    pub peer_addr: Option<SocketAddr>,
    /// Optional explicit congestion notification
    pub ecn: Option<EcnCodepoint>,
}

impl TransportContext {
    /// The context of a connection that is bound nowhere: `0.0.0.0:0`, no
    /// peer, no congestion mark.
    pub open spec fn unbound() -> TransportContext {
        TransportContext {
            local_addr: SocketAddr { ip: IpAddr::V4(0), port: 0 },
            peer_addr: None,
            ecn: None,
        }
    }
}

impl Default for TransportContext {
    fn default() -> (t: TransportContext)
        ensures
            t == TransportContext::unbound(),
    {
        TransportContext {
            local_addr: SocketAddr { ip: IpAddr::V4(0), port: 0 },
            peer_addr: None,
            ecn: None,
        }
    }
}

/// A byte buffer tagged with the time it was seen and the connection it
/// belongs to.
pub struct TaggedBytesMut {
    /// Received/Sent time
    pub now: Instant,
    /// The connection the bytes came from or go to
    pub transport: TransportContext,
    /// Message body
    pub message: BytesMut,
}

/// The mathematical content of a [`TaggedBytesMut`].
pub struct TaggedBytes {
    pub now: Instant,
    pub transport: TransportContext,
    pub message: Seq<u8>,
}

impl View for TaggedBytesMut {
    type V = TaggedBytes;

    open spec fn view(&self) -> TaggedBytes {
        TaggedBytes { now: self.now, transport: self.transport, message: contents(self.message) }
    }
}

impl TaggedBytesMut {
    /// An empty buffer seen at `now` on a connection that is bound nowhere.
    pub fn new(now: Instant) -> (t: TaggedBytesMut)
        ensures
            t@ == (TaggedBytes {
                now,
                transport: TransportContext::unbound(),
                message: Seq::<u8>::empty(),
            }),
    {
        TaggedBytesMut { now, transport: TransportContext::default(), message: BytesMut::new() }
    }
}

} // verus!
