//! The netkit specialization of the link message builder.
//!
//! [`LinkNetkit::new`] starts a request that creates both ends of a netkit
//! pair atomically: the primary device is named directly, and a minimal
//! link message for the peer is embedded as the first info-data entry.
//! Every configuration method appends exactly one attribute; nothing is
//! deduplicated or merged, so append order is wire order.

use vstd::prelude::*;

use crate::builder::LinkMessageBuilder;
use crate::builder::appended;
use crate::builder::built_from;
use crate::message::InfoData;
use crate::message::InfoKind;
use crate::message::InfoNetkit;
use crate::message::LinkMessage;
use crate::message::NetkitMode;
use crate::message::NetkitPolicy;
use crate::message::NetkitScrub;
use crate::message::is_peer_entry;

verus! {

/// Marker for the netkit device kind.
#[derive(Debug, Clone, Copy, PartialEq, Eq)]
pub struct LinkNetkit;

/// A builder freshly produced by [`LinkNetkit::new`]: bound to the netkit
/// kind, named after the primary device, and holding exactly one info-data
/// entry, the embedded minimal peer description.
pub open spec fn netkit_created(
    b: LinkMessageBuilder<LinkNetkit>,
    name: Seq<char>,
    peer: Seq<char>,
) -> bool {
    &&& b.name matches Some(n) && n@ == name
    &&& b.kind == Some(InfoKind::Netkit)
    &&& b.netns_fd is None
    &&& b.entries().len() == 1
    &&& is_peer_entry(b.entries()[0], peer)
}

impl LinkNetkit {
    /// Starts a request creating a netkit pair: the primary device under
    /// `name`, its peer under `peer`.
    pub fn new(name: &str, peer: &str) -> (r: LinkMessageBuilder<LinkNetkit>)
        ensures
            netkit_created(r, name@, peer@),
    {
        LinkMessageBuilder::<LinkNetkit>::new(name, peer)
    }
}

impl LinkMessageBuilder<LinkNetkit> {
    /// Starts a netkit-kind builder named after the primary device, with
    /// the minimal peer description already embedded as the sole entry.
    pub fn new(name: &str, peer: &str) -> (r: Self)
        ensures
            netkit_created(r, name@, peer@),
    {
        LinkMessageBuilder::<LinkNetkit>::new_with_info_kind(InfoKind::Netkit)
            .name(name.to_string())
            .peer(peer)
    }

    /// Appends one netkit attribute to the info-data payload, creating the
    /// payload container on first use.  Entries are never dropped, merged
    /// or reordered.
    pub fn append_info_data(self, info: InfoNetkit) -> (r: Self)
        ensures
            appended(r, self, info),
    {
        let LinkMessageBuilder { name, kind, info_data, netns_fd, _kind_marker } = self;
        let mut entries: Vec<InfoNetkit> = match info_data {
            Some(InfoData::Netkit(v)) => v,
            None => Vec::new(),
        };
        entries.push(info);
        LinkMessageBuilder { name, kind, info_data: Some(InfoData::Netkit(entries)), netns_fd, _kind_marker }
    }

    /// Embeds a minimal link message for the peer device, carrying only
    /// its name, as one further info-data entry.
    pub fn peer(self, peer: &str) -> (r: Self)
        ensures
            r.entries().len() == self.entries().len() + 1,
            r.entries().drop_last() == self.entries(),
            is_peer_entry(r.entries().last(), peer@),
            r.name == self.name,
            r.kind == self.kind,
            r.netns_fd == self.netns_fd,
    {
        let peer_msg = LinkMessageBuilder::<crate::builder::LinkUnspec>::new()
            .name(peer.to_string())
            .build();
        self.append_info_data(InfoNetkit::Peer(peer_msg))
    }

    /// Appends a `Primary` entry with exactly the given flag.
    pub fn primary(self, primary: bool) -> (r: Self)
        ensures
            appended(r, self, InfoNetkit::Primary(primary)),
    {
        self.append_info_data(InfoNetkit::Primary(primary))
    }

    /// Appends a `Policy` entry with exactly the given policy.
    pub fn policy(self, policy: NetkitPolicy) -> (r: Self)
        ensures
            appended(r, self, InfoNetkit::Policy(policy)),
    {
        self.append_info_data(InfoNetkit::Policy(policy))
    }

    /// Appends a `PeerPolicy` entry with exactly the given policy.
    pub fn peer_policy(self, peer_policy: NetkitPolicy) -> (r: Self)
        ensures
            appended(r, self, InfoNetkit::PeerPolicy(peer_policy)),
    {
        self.append_info_data(InfoNetkit::PeerPolicy(peer_policy))
    }

    /// Appends a `Mode` entry with exactly the given mode.
    pub fn mode(self, mode: NetkitMode) -> (r: Self)
        ensures
            appended(r, self, InfoNetkit::Mode(mode)),
    {
        self.append_info_data(InfoNetkit::Mode(mode))
    }

    /// Appends a `Scrub` entry with exactly the given scrub behaviour.
    pub fn scrub(self, scrub: NetkitScrub) -> (r: Self)
        ensures
            appended(r, self, InfoNetkit::Scrub(scrub)),
    {
        self.append_info_data(InfoNetkit::Scrub(scrub))
    }

    /// Appends a `PeerScrub` entry with exactly the given scrub behaviour.
    pub fn peer_scrub(self, scrub: NetkitScrub) -> (r: Self)
        ensures
            appended(r, self, InfoNetkit::PeerScrub(scrub)),
    {
        self.append_info_data(InfoNetkit::PeerScrub(scrub))
    }

    /// Appends a `Headroom` entry with exactly the given byte count; every
    /// 16-bit value is accepted.
    pub fn headroom(self, headroom: u16) -> (r: Self)
        ensures
            appended(r, self, InfoNetkit::Headroom(headroom)),
    {
        self.append_info_data(InfoNetkit::Headroom(headroom))
    }

    /// Appends a `Tailroom` entry with exactly the given byte count; every
    /// 16-bit value is accepted.
    pub fn tailroom(self, tailroom: u16) -> (r: Self)
        ensures
            appended(r, self, InfoNetkit::Tailroom(tailroom)),
    {
        self.append_info_data(InfoNetkit::Tailroom(tailroom))
    }
}

/// Law: finalizing a freshly created netkit builder yields a message named
/// after the primary device, tagged with the netkit kind, carrying no
/// placement directive, and whose info data is exactly one entry: the
/// embedded minimal peer description, named after the peer, with no kind
/// and no attributes of its own.
pub proof fn lemma_create_then_build(
    b: LinkMessageBuilder<LinkNetkit>,
    m: LinkMessage,
    name: Seq<char>,
    peer: Seq<char>,
)
    requires
        netkit_created(b, name, peer),
        built_from(m, b),
    ensures
        m.name matches Some(n) && n@ == name,
        m.kind == Some(InfoKind::Netkit),
        m.netns_fd is None,
        m.entries().len() == 1,
        is_peer_entry(m.entries()[0], peer),
{
}

/// Law: appending one mode and then another keeps both entries, in append
/// order, at the end of the payload; neither is dropped or merged.
pub proof fn lemma_repeated_mode_keeps_both(
    b0: LinkMessageBuilder<LinkNetkit>,
    b1: LinkMessageBuilder<LinkNetkit>,
    b2: LinkMessageBuilder<LinkNetkit>,
    m1: NetkitMode,
    m2: NetkitMode,
)
    requires
        appended(b1, b0, InfoNetkit::Mode(m1)),
        appended(b2, b1, InfoNetkit::Mode(m2)),
    ensures
        b2.entries() == b0.entries().push(InfoNetkit::Mode(m1)).push(InfoNetkit::Mode(m2)),
        b2.entries().len() == b0.entries().len() + 2,
        b2.entries()[b0.entries().len() as int] == InfoNetkit::Mode(m1),
        b2.entries()[b0.entries().len() as int + 1] == InfoNetkit::Mode(m2),
{
}

} // verus!
