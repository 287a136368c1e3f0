//! Typed, in-memory construction of netlink link messages for the netkit
//! device kind: a paired virtual device whose two ends (primary and peer)
//! can live in different network namespaces.
//!
//! The crate builds the message that a netlink transport would later put on
//! the wire: a device name, an optional device-kind tag, a kind-specific
//! "info data" attribute payload, and an optional namespace-placement
//! directive.  The netkit payload embeds a full link message for the peer
//! device, so one message creates both ends atomically.

pub mod builder;
pub mod message;
pub mod netkit;

pub use builder::LinkMessageBuilder;
pub use builder::LinkUnspec;
pub use message::InfoData;
pub use message::InfoKind;
pub use message::InfoNetkit;
pub use message::LinkMessage;
pub use message::NetkitMode;
pub use message::NetkitPolicy;
pub use message::NetkitScrub;
pub use netkit::LinkNetkit;
