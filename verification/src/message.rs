//! The attribute value model and the finalized link message.
//!
//! Every netkit-specific configurable value is one variant of [`InfoNetkit`];
//! an ordered, kind-homogeneous collection of such values forms the
//! [`InfoData`] payload of a [`LinkMessage`].

use vstd::prelude::*;

verus! {

/// Forwarding mode of a netkit pair: layer-2 or layer-3 operation.
#[derive(Debug, Clone, Copy, PartialEq, Eq)]
pub enum NetkitMode {
    L2,
    L3,
}

/// Default forwarding policy of one end of a netkit pair.
#[derive(Debug, Clone, Copy, PartialEq, Eq)]
pub enum NetkitPolicy {
    Forward,
    Blackhole,
}

/// Packet scrub behaviour of one end of a netkit pair: scrubbing switched
/// off, or the kernel's default scrubbing.
#[derive(Debug, Clone, Copy, PartialEq, Eq)]
pub enum NetkitScrub {
    Disabled,
    Defaulted,
}

/// Device-kind tag carried by a link message and keying its info data.
#[derive(Debug, Clone, Copy, PartialEq, Eq)]
pub enum InfoKind {
    Netkit,
}

/// One netkit-specific attribute.  The payload of each variant is exactly
/// the value domain of the corresponding kernel attribute; malformed values
/// are unrepresentable by construction.
#[derive(Debug, PartialEq)]
pub enum InfoNetkit {
    /// The embedded link message describing the peer device.
    Peer(LinkMessage),
    /// Whether the device being created is the primary end of the pair.
    Primary(bool),
    /// Forwarding policy of the primary end.
    Policy(NetkitPolicy),
    /// Forwarding policy of the peer end.
    PeerPolicy(NetkitPolicy),
    /// Forwarding mode of the pair.
    Mode(NetkitMode),
    /// Scrub behaviour of the primary end.
    Scrub(NetkitScrub),
    /// Scrub behaviour of the peer end.
    PeerScrub(NetkitScrub),
    /// Requested headroom, in bytes, reserved in front of each packet.
    Headroom(u16),
    /// Requested tailroom, in bytes, reserved behind each packet.
    Tailroom(u16),
}

/// The device-kind-specific info-data payload: an ordered sequence of
/// attributes under one device-kind tag.  Making the kind part of the
/// variant keeps every payload kind-homogeneous by construction.
#[derive(Debug, PartialEq)]
pub enum InfoData {
    Netkit(Vec<InfoNetkit>),
}

/// The finalized, immutable description of one link request: the in-memory
/// form that a netlink transport would serialize onto the wire.
///
/// No field is validated here; the construction policy is to build freely
/// and let the kernel reject requests it does not accept.
#[derive(Debug, PartialEq)]
pub struct LinkMessage {
    /// Device name the request addresses or creates.
    pub name: Option<String>,
    /// Device-kind tag, absent for kind-less requests.
    pub kind: Option<InfoKind>,
    /// Kind-specific attribute payload, absent when nothing was configured.
    pub info_data: Option<InfoData>,
    /// Namespace-placement directive: an already-resolved namespace file
    /// descriptor the device is to be moved into.
    pub netns_fd: Option<i32>,
}

impl LinkMessage {
    /// The info-data entries of this message, in wire order; empty when no
    /// payload is attached.
    pub open spec fn entries(self) -> Seq<InfoNetkit> {
        match self.info_data {
            Some(InfoData::Netkit(v)) => v@,
            None => Seq::empty(),
        }
    }
}

/// A minimal link message: it names a device and says nothing else.  This is
/// the shape of an embedded peer description at creation time.
pub open spec fn minimal_message(m: LinkMessage, name: Seq<char>) -> bool {
    &&& m.name matches Some(n) && n@ == name
    &&& m.kind is None
    &&& m.info_data is None
    &&& m.netns_fd is None
}

/// An info-data entry that embeds a minimal peer description under the given
/// peer name.
pub open spec fn is_peer_entry(e: InfoNetkit, peer: Seq<char>) -> bool {
    e matches InfoNetkit::Peer(m) && minimal_message(m, peer)
}

} // verus!
