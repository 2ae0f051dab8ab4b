use p2p_web_app::boot::{plan_boot_dials, BootDial};
use p2p_web_app::commands::{command_receiver, user_record_key_bytes, ActorAction, ActorCommand, P2pRegisterUser};
use p2p_web_app::events::{
    handle_behaviour_event, kbuckets_report_text, DiscoveredPeer, KBucketEntry, NetEvent, NodeStatus, SwarmAction,
};
use p2p_web_app::status::P2pStatus;

fn s(x: &str) -> String {
    x.to_string()
}

#[test]
fn default_status_is_empty() {
    let st = P2pStatus::default();
    assert_eq!(st.peer_id, "");
    assert!(st.listeners.is_empty());
    assert_eq!(st.num_known_peers, 0);
    assert_eq!(st.k_buckets_info, "");
}

#[test]
fn snapshot_copies_every_field() {
    let st = P2pStatus { peer_id: s("p"), listeners: vec![s("a"), s("b")], num_known_peers: 2, k_buckets_info: s("i") };
    assert_eq!(st.snapshot(), st);
}

#[test]
fn listen_address_is_appended() {
    let mut st = P2pStatus::default();
    let acts = handle_behaviour_event(NetEvent::NewListenAddr { address: s("/ip4/1.2.3.4/tcp/5") }, &mut st);
    assert!(acts.is_empty());
    handle_behaviour_event(NetEvent::NewListenAddr { address: s("/ip4/1.2.3.4/tcp/6") }, &mut st);
    assert_eq!(st.listeners, vec![s("/ip4/1.2.3.4/tcp/5"), s("/ip4/1.2.3.4/tcp/6")]);
}

#[test]
fn kbuckets_report_lists_each_entry() {
    let entries = vec![
        KBucketEntry { peer: s("PeerA"), status: NodeStatus::Connected },
        KBucketEntry { peer: s("PeerB"), status: NodeStatus::Disconnected },
    ];
    assert_eq!(
        kbuckets_report_text(&entries),
        "K-Buckets (2 total entries):\n  - Peer: PeerA, Status: Connected\n  - Peer: PeerB, Status: Disconnected\n"
    );
    assert_eq!(kbuckets_report_text(&vec![]), "K-Buckets (0 total entries):\n");
}

#[test]
fn routing_update_replaces_count_and_listing() {
    let mut st = P2pStatus::default();
    let entries: Vec<KBucketEntry> =
        (0..12).map(|i| KBucketEntry { peer: format!("P{}", i), status: NodeStatus::Connected }).collect();
    let acts = handle_behaviour_event(NetEvent::RoutingUpdated { entries: entries.clone() }, &mut st);
    assert!(acts.is_empty());
    assert_eq!(st.num_known_peers, 12);
    assert!(st.k_buckets_info.starts_with("K-Buckets (12 total entries):\n  - Peer: P0, Status: Connected\n"));
    handle_behaviour_event(NetEvent::RoutingUpdated { entries: entries[..1].to_vec() }, &mut st);
    assert_eq!(st.num_known_peers, 1);
    assert_eq!(st.k_buckets_info, "K-Buckets (1 total entries):\n  - Peer: P0, Status: Connected\n");
}

#[test]
fn identify_adds_every_listen_address_of_the_peer() {
    let mut st = P2pStatus::default();
    let acts = handle_behaviour_event(
        NetEvent::IdentifyReceived { peer: s("Q"), listen_addrs: vec![s("/a"), s("/b")] },
        &mut st,
    );
    assert_eq!(
        acts,
        vec![
            SwarmAction::AddAddress { peer: s("Q"), address: s("/a") },
            SwarmAction::AddAddress { peer: s("Q"), address: s("/b") },
        ]
    );
    assert_eq!(st, P2pStatus::default());
}

#[test]
fn mdns_discovery_adds_then_dials_each_peer() {
    let mut st = P2pStatus::default();
    let acts = handle_behaviour_event(
        NetEvent::MdnsDiscovered {
            found: vec![
                DiscoveredPeer { peer: s("A"), address: s("/x") },
                DiscoveredPeer { peer: s("B"), address: s("/y") },
            ],
        },
        &mut st,
    );
    assert_eq!(
        acts,
        vec![
            SwarmAction::AddAddress { peer: s("A"), address: s("/x") },
            SwarmAction::Dial { address: s("/x") },
            SwarmAction::AddAddress { peer: s("B"), address: s("/y") },
            SwarmAction::Dial { address: s("/y") },
        ]
    );
}

#[test]
fn connection_adds_the_remote_address() {
    let mut st = P2pStatus::default();
    let acts = handle_behaviour_event(
        NetEvent::ConnectionEstablished { peer: s("C"), remote_addr: s("/r") },
        &mut st,
    );
    assert_eq!(acts, vec![SwarmAction::AddAddress { peer: s("C"), address: s("/r") }]);
    assert!(handle_behaviour_event(NetEvent::Other, &mut st).is_empty());
    assert_eq!(st, P2pStatus::default());
}

#[test]
fn peer_id_survives_any_events() {
    let mut st = P2pStatus::default();
    st.peer_id = s("me");
    let events = vec![
        NetEvent::NewListenAddr { address: s("/l1") },
        NetEvent::RoutingUpdated { entries: vec![KBucketEntry { peer: s("A"), status: NodeStatus::Connected }] },
        NetEvent::Other,
        NetEvent::NewListenAddr { address: s("/l2") },
        NetEvent::ConnectionEstablished { peer: s("C"), remote_addr: s("/r") },
    ];
    for e in events {
        handle_behaviour_event(e, &mut st);
    }
    assert_eq!(st.peer_id, "me");
    assert_eq!(st.listeners, vec![s("/l1"), s("/l2")]);
    assert_eq!(st.num_known_peers, 1);
}

#[test]
fn get_status_command_replies_with_a_copy() {
    let st = P2pStatus { peer_id: s("p"), listeners: vec![s("/l")], num_known_peers: 3, k_buckets_info: s("k") };
    assert_eq!(command_receiver(&st, ActorCommand::GetStatus, &[1, 2], &[3]), ActorAction::ReplyStatus(st.clone()));
}

#[test]
fn register_command_publishes_the_public_key_record() {
    let st = P2pStatus::default();
    match command_receiver(&st, ActorCommand::RegisterUser(Ok(P2pRegisterUser(s("alice")))), &[8, 1, 0x12], &[0, 36, 7]) {
        ActorAction::PublishKey(r) => {
            assert_eq!(r.user, "alice");
            assert_eq!(r.key, b"/pk/alice".to_vec());
            assert_eq!(r.value, vec![8, 1, 0x12]);
            assert_eq!(r.publisher, vec![0, 36, 7]);
            assert_eq!(r.ttl_secs, 60);
            assert_eq!(r.quorum, 3);
        }
        other => panic!("unexpected action {:?}", other),
    }
}

#[test]
fn register_command_reports_a_missing_user() {
    let st = P2pStatus::default();
    assert_eq!(
        command_receiver(&st, ActorCommand::RegisterUser(Err(s("channel closed"))), &[], &[]),
        ActorAction::ReportReceiveFailure(s("channel closed"))
    );
}

#[test]
fn record_key_is_utf8_of_the_name() {
    assert_eq!(user_record_key_bytes(&P2pRegisterUser(s("节"))), "/pk/节".as_bytes().to_vec());
    assert_eq!(user_record_key_bytes(&P2pRegisterUser::default()), b"/pk/".to_vec());
}

#[test]
fn boot_plan_dials_parseable_nodes_only() {
    let plan = plan_boot_dials(&vec![s("/ip4/127.0.0.1/tcp/4001"), s("not-an-addr"), s("/ip4/10.0.0.1/tcp/04001")]);
    assert_eq!(plan.len(), 3);
    assert_eq!(plan[0], BootDial::Dial(s("/ip4/127.0.0.1/tcp/4001")));
    assert!(matches!(plan[1], BootDial::Skip(_)));
    assert_eq!(plan[2], BootDial::Dial(s("/ip4/10.0.0.1/tcp/4001")));
}

#[test]
fn boot_plan_skips_unknown_protocols() {
    let plan = plan_boot_dials(&vec![s("/nosuchproto/1")]);
    assert!(matches!(plan[0], BootDial::Skip(_)));
    assert!(plan_boot_dials(&vec![]).is_empty());
}
