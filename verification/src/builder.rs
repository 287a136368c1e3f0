//! The generic, device-kind-parameterized link message builder.
//!
//! The type parameter is a phantom kind marker: it statically restricts
//! which specialization's configuration methods are callable on a given
//! builder, so kind-foreign attributes cannot be appended at all.  The
//! kind-less marker [`LinkUnspec`] serves requests that only name an
//! existing device: embedded peer descriptions and namespace moves.

use vstd::prelude::*;

use crate::message::InfoData;
use crate::message::InfoKind;
use crate::message::InfoNetkit;
use crate::message::LinkMessage;

verus! {

/// Marker for a builder with no device kind: it can only name a device,
/// not configure kind-specific attributes.
#[derive(Debug, Clone, Copy, PartialEq, Eq)]
pub struct LinkUnspec;

/// Accumulates one link request: a name, an optional device-kind tag, the
/// kind's info-data payload, and an optional namespace-placement directive.
/// Finalizing with [`LinkMessageBuilder::build`] never fails: semantic
/// validation is deferred to the kernel round trip.
#[derive(Debug, PartialEq)]
pub struct LinkMessageBuilder<T> {
    /// Device name, once set.
    pub name: Option<String>,
    /// Device-kind tag the info data will be keyed under.
    pub kind: Option<InfoKind>,
    /// Accumulated info-data payload; created lazily on first append.
    pub info_data: Option<InfoData>,
    /// Namespace file descriptor the device is to be moved into.
    pub netns_fd: Option<i32>,
    /// Phantom kind marker; carries no data.
    pub _kind_marker: core::marker::PhantomData<T>,
}

impl<T> LinkMessageBuilder<T> {
    /// The info-data entries accumulated so far, in append order; empty
    /// while no container exists.
    pub open spec fn entries(self) -> Seq<InfoNetkit> {
        match self.info_data {
            Some(InfoData::Netkit(v)) => v@,
            None => Seq::empty(),
        }
    }

    /// A fresh builder bound to the given device kind, with nothing else
    /// set: no name, no info data, no placement directive.
    pub fn new_with_info_kind(kind: InfoKind) -> (r: Self)
        ensures
            r.kind == Some(kind),
            r.name is None,
            r.info_data is None,
            r.netns_fd is None,
    {
        LinkMessageBuilder {
            name: None,
            kind: Some(kind),
            info_data: None,
            netns_fd: None,
            _kind_marker: core::marker::PhantomData,
        }
    }

    /// Sets the device name, leaving all other accumulated state unchanged.
    pub fn name(self, name: String) -> (r: Self)
        ensures
            r.name == Some(name),
            r.kind == self.kind,
            r.info_data == self.info_data,
            r.netns_fd == self.netns_fd,
    {
        LinkMessageBuilder { name: Some(name), ..self }
    }

    /// Finalizes the builder into an immutable link message carrying
    /// exactly the accumulated state.  There is no failure path.
    pub fn build(self) -> (r: LinkMessage)
        ensures
            built_from(r, self),
    {
        LinkMessage {
            name: self.name,
            kind: self.kind,
            info_data: self.info_data,
            netns_fd: self.netns_fd,
        }
    }
}

impl LinkMessageBuilder<LinkUnspec> {
    /// A fresh kind-less builder with nothing set.
    pub fn new() -> (r: Self)
        ensures
            r.name is None,
            r.kind is None,
            r.info_data is None,
            r.netns_fd is None,
    {
        LinkMessageBuilder {
            name: None,
            kind: None,
            info_data: None,
            netns_fd: None,
            _kind_marker: core::marker::PhantomData,
        }
    }

    /// A fresh kind-less builder that already names the device, the entry
    /// point for requests addressing an existing device.
    pub fn new_with_name(name: &str) -> (r: Self)
        ensures
            r.name matches Some(n) && n@ == name@,
            r.kind is None,
            r.info_data is None,
            r.netns_fd is None,
    {
        LinkMessageBuilder::<LinkUnspec>::new().name(name.to_string())
    }

    /// Records a namespace-placement directive: the device is to be moved
    /// into the namespace behind the given, already-resolved file
    /// descriptor.  All other accumulated state is unchanged.
    pub fn setns_by_fd(self, fd: i32) -> (r: Self)
        ensures
            r.netns_fd == Some(fd),
            r.name == self.name,
            r.kind == self.kind,
            r.info_data == self.info_data,
    {
        LinkMessageBuilder { netns_fd: Some(fd), ..self }
    }
}

/// The message carries exactly the state the builder accumulated.  This is
/// everything [`LinkMessageBuilder::build`] guarantees.
pub open spec fn built_from<T>(m: LinkMessage, b: LinkMessageBuilder<T>) -> bool {
    &&& m.name == b.name
    &&& m.kind == b.kind
    &&& m.info_data == b.info_data
    &&& m.netns_fd == b.netns_fd
}

/// The post-state builder equals the pre-state builder with exactly one
/// info-data entry appended; name, kind and placement are untouched.
pub open spec fn appended<T>(
    post: LinkMessageBuilder<T>,
    pre: LinkMessageBuilder<T>,
    info: InfoNetkit,
) -> bool {
    &&& post.entries() == pre.entries().push(info)
    &&& post.name == pre.name
    &&& post.kind == pre.kind
    &&& post.netns_fd == pre.netns_fd
}

/// Law: one append adds exactly one entry, that entry is exactly the given
/// value, every earlier entry is kept unchanged in place, and the name,
/// kind and placement state of the builder are untouched.
pub proof fn lemma_append_adds_one_exact_entry<T>(
    post: LinkMessageBuilder<T>,
    pre: LinkMessageBuilder<T>,
    info: InfoNetkit,
)
    requires
        appended(post, pre, info),
    ensures
        post.entries().len() == pre.entries().len() + 1,
        post.entries().last() == info,
        forall|i: int| 0 <= i < pre.entries().len() ==> post.entries()[i] == pre.entries()[i],
        post.name == pre.name,
        post.kind == pre.kind,
        post.netns_fd == pre.netns_fd,
{
}

} // verus!
