use netkit::InfoData;
use netkit::InfoKind;
use netkit::InfoNetkit;
use netkit::LinkMessage;
use netkit::LinkMessageBuilder;
use netkit::LinkNetkit;
use netkit::LinkUnspec;
use netkit::NetkitMode;
use netkit::NetkitPolicy;
use netkit::NetkitScrub;

fn entries_of(m: LinkMessage) -> Vec<InfoNetkit> {
    match m.info_data {
        Some(InfoData::Netkit(v)) => v,
        None => panic!("message carries no netkit info data"),
    }
}

#[test]
fn create_then_build_embeds_minimal_peer() {
    let m = LinkNetkit::new("nk0", "nk1").build();
    assert_eq!(m.name.as_deref(), Some("nk0"));
    assert!(matches!(m.kind, Some(InfoKind::Netkit)));
    assert!(m.netns_fd.is_none());
    let entries = entries_of(m);
    assert_eq!(entries.len(), 1);
    match &entries[0] {
        InfoNetkit::Peer(p) => {
            assert_eq!(p.name.as_deref(), Some("nk1"));
            assert!(p.kind.is_none());
            assert!(p.info_data.is_none());
            assert!(p.netns_fd.is_none());
        }
        other => panic!("expected a peer entry, got {:?}", other),
    }
}

#[test]
fn end_to_end_scenario_headroom_then_primary() {
    let m = LinkNetkit::new("nk0", "nk1").headroom(64).primary(true).build();
    assert_eq!(m.name.as_deref(), Some("nk0"));
    assert!(matches!(m.kind, Some(InfoKind::Netkit)));
    let entries = entries_of(m);
    assert_eq!(entries.len(), 3);
    match &entries[0] {
        InfoNetkit::Peer(p) => assert_eq!(p.name.as_deref(), Some("nk1")),
        other => panic!("expected a peer entry, got {:?}", other),
    }
    assert_eq!(entries[1], InfoNetkit::Headroom(64));
    assert_eq!(entries[2], InfoNetkit::Primary(true));
}

#[test]
fn repeated_mode_keeps_both_in_append_order() {
    let m = LinkNetkit::new("nk0", "nk1")
        .mode(NetkitMode::L2)
        .mode(NetkitMode::L3)
        .build();
    let entries = entries_of(m);
    assert_eq!(entries.len(), 3);
    assert_eq!(entries[1], InfoNetkit::Mode(NetkitMode::L2));
    assert_eq!(entries[2], InfoNetkit::Mode(NetkitMode::L3));
}

#[test]
fn each_method_appends_its_exact_variant() {
    let m = LinkNetkit::new("a", "b")
        .primary(false)
        .policy(NetkitPolicy::Forward)
        .peer_policy(NetkitPolicy::Blackhole)
        .mode(NetkitMode::L3)
        .scrub(NetkitScrub::Defaulted)
        .peer_scrub(NetkitScrub::Disabled)
        .headroom(12)
        .tailroom(34)
        .build();
    let entries = entries_of(m);
    assert_eq!(entries.len(), 9);
    assert!(matches!(entries[0], InfoNetkit::Peer(_)));
    assert_eq!(entries[1], InfoNetkit::Primary(false));
    assert_eq!(entries[2], InfoNetkit::Policy(NetkitPolicy::Forward));
    assert_eq!(entries[3], InfoNetkit::PeerPolicy(NetkitPolicy::Blackhole));
    assert_eq!(entries[4], InfoNetkit::Mode(NetkitMode::L3));
    assert_eq!(entries[5], InfoNetkit::Scrub(NetkitScrub::Defaulted));
    assert_eq!(entries[6], InfoNetkit::PeerScrub(NetkitScrub::Disabled));
    assert_eq!(entries[7], InfoNetkit::Headroom(12));
    assert_eq!(entries[8], InfoNetkit::Tailroom(34));
}

#[test]
fn methods_leave_other_state_unchanged() {
    let m = LinkNetkit::new("nk0", "nk1").tailroom(9).build();
    assert_eq!(m.name.as_deref(), Some("nk0"));
    assert!(matches!(m.kind, Some(InfoKind::Netkit)));
    assert!(m.netns_fd.is_none());
}

#[test]
fn headroom_and_tailroom_accept_full_range() {
    let m = LinkNetkit::new("nk0", "nk1")
        .headroom(0)
        .headroom(65535)
        .tailroom(0)
        .tailroom(65535)
        .build();
    let entries = entries_of(m);
    assert_eq!(entries.len(), 5);
    assert_eq!(entries[1], InfoNetkit::Headroom(0));
    assert_eq!(entries[2], InfoNetkit::Headroom(65535));
    assert_eq!(entries[3], InfoNetkit::Tailroom(0));
    assert_eq!(entries[4], InfoNetkit::Tailroom(65535));
}

#[test]
fn append_info_data_creates_container_lazily() {
    let b = LinkMessageBuilder::<LinkNetkit>::new_with_info_kind(InfoKind::Netkit);
    assert!(b.info_data.is_none());
    let m = b
        .append_info_data(InfoNetkit::Primary(true))
        .name("nk7".to_string())
        .build();
    assert_eq!(m.name.as_deref(), Some("nk7"));
    let entries = entries_of(m);
    assert_eq!(entries.len(), 1);
    assert_eq!(entries[0], InfoNetkit::Primary(true));
}

#[test]
fn builder_new_matches_entry_point() {
    let m = LinkMessageBuilder::<LinkNetkit>::new("x0", "x1").build();
    assert_eq!(m.name.as_deref(), Some("x0"));
    let entries = entries_of(m);
    assert_eq!(entries.len(), 1);
    match &entries[0] {
        InfoNetkit::Peer(p) => assert_eq!(p.name.as_deref(), Some("x1")),
        other => panic!("expected a peer entry, got {:?}", other),
    }
}

#[test]
fn namespace_placement_sets_fd_only() {
    let m = LinkMessageBuilder::<LinkUnspec>::new_with_name("eth5")
        .setns_by_fd(7)
        .build();
    assert_eq!(m.name.as_deref(), Some("eth5"));
    assert!(m.kind.is_none());
    assert!(m.info_data.is_none());
    assert_eq!(m.netns_fd, Some(7));
}

#[test]
fn unspec_builder_starts_empty() {
    let m = LinkMessageBuilder::<LinkUnspec>::new().build();
    assert!(m.name.is_none());
    assert!(m.kind.is_none());
    assert!(m.info_data.is_none());
    assert!(m.netns_fd.is_none());
}

#[test]
fn peer_method_appends_further_peer_entry() {
    let m = LinkNetkit::new("nk0", "nk1").peer("nk2").build();
    let entries = entries_of(m);
    assert_eq!(entries.len(), 2);
    match &entries[1] {
        InfoNetkit::Peer(p) => {
            assert_eq!(p.name.as_deref(), Some("nk2"));
            assert!(p.kind.is_none());
            assert!(p.info_data.is_none());
        }
        other => panic!("expected a peer entry, got {:?}", other),
    }
}
