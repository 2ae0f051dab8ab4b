//! How the node reacts to what its libp2p swarm reports: which status fields
//! change and which addresses are handed to Kademlia or dialed.

use vstd::prelude::*;

use crate::status::{texts, P2pStatus, P2pStatusView};
use crate::text::{decimal, push_decimal};

verus! {

/// Whether Kademlia considers a routing-table peer connected.
#[derive(Debug, Clone, Copy, PartialEq, Eq, Structural)]
pub enum NodeStatus {
    Connected,
    Disconnected,
}

/// One peer of the Kademlia routing table.
#[derive(Debug, Clone, PartialEq, Eq)]
pub struct KBucketEntry {
    pub peer: String,
    pub status: NodeStatus,
}

/// A peer found by mDNS, with the address it was found at.
#[derive(Debug, Clone, PartialEq, Eq)]
pub struct DiscoveredPeer {
    pub peer: String,
    pub address: String,
}

/// What the swarm reported, with peers and addresses as text.
#[derive(Debug, Clone, PartialEq, Eq)]
pub enum NetEvent {
    /// The node listens on a new address.
    NewListenAddr { address: String },
    /// Identify received a peer's info, with the addresses it listens on.
    IdentifyReceived { peer: String, listen_addrs: Vec<String> },
    /// Kademlia updated its routing table; the entries are the whole table now.
    RoutingUpdated { entries: Vec<KBucketEntry> },
    /// mDNS discovered peers.
    MdnsDiscovered { found: Vec<DiscoveredPeer> },
    /// A connection to a peer was established at the given remote address.
    ConnectionEstablished { peer: String, remote_addr: String },
    /// Anything else: it is only logged.
    Other,
}

/// What the swarm is asked to do in response.
#[derive(Debug, Clone, PartialEq, Eq)]
pub enum SwarmAction {
    /// Add the address of the peer to Kademlia's routing table.
    AddAddress { peer: String, address: String },
    /// Dial the address.
    Dial { address: String },
}

/// A swarm action as text.
pub enum SwarmActionView {
    AddAddress { peer: Seq<char>, address: Seq<char> },
    Dial { address: Seq<char> },
}

impl View for SwarmAction {
    type V = SwarmActionView;

    open spec fn view(&self) -> SwarmActionView {
        match self {
            SwarmAction::AddAddress { peer, address } => SwarmActionView::AddAddress {
                peer: peer@,
                address: address@,
            },
            SwarmAction::Dial { address } => SwarmActionView::Dial { address: address@ },
        }
    }
}

/// The views of a sequence of actions.
pub open spec fn action_views(v: Seq<SwarmAction>) -> Seq<SwarmActionView> {
    v.map_values(|a: SwarmAction| a@)
}

/// How a node status is printed (its `Debug` name).
pub open spec fn status_label(s: NodeStatus) -> Seq<char> {
    match s {
        NodeStatus::Connected => "Connected"@,
        NodeStatus::Disconnected => "Disconnected"@,
    }
}

/// The line listing one routing-table peer.
pub open spec fn entry_line(e: KBucketEntry) -> Seq<char> {
    "  - Peer: "@ + e.peer@ + ", Status: "@ + status_label(e.status) + "\n"@
}

/// The lines listing the routing-table peers, in order.
pub open spec fn entry_lines(es: Seq<KBucketEntry>) -> Seq<char>
    decreases es.len(),
{
    if es.len() == 0 {
        Seq::empty()
    } else {
        entry_lines(es.drop_last()) + entry_line(es.last())
    }
}

/// The printable listing of a routing table: a header with the number of
/// entries, then one line per entry.
pub open spec fn kbuckets_report(es: Seq<KBucketEntry>) -> Seq<char> {
    "K-Buckets ("@ + decimal(es.len()) + " total entries):\n"@ + entry_lines(es)
}

/// The status after one event.
pub open spec fn next_status(s: P2pStatusView, e: NetEvent) -> P2pStatusView {
    match e {
        NetEvent::NewListenAddr { address } => P2pStatusView {
            peer_id: s.peer_id,
            listeners: s.listeners.push(address@),
            num_known_peers: s.num_known_peers,
            k_buckets_info: s.k_buckets_info,
        },
        NetEvent::RoutingUpdated { entries } => P2pStatusView {
            peer_id: s.peer_id,
            listeners: s.listeners,
            num_known_peers: entries@.len(),
            k_buckets_info: kbuckets_report(entries@),
        },
        _ => s,
    }
}

/// For each peer found by mDNS: add its address to Kademlia, then dial it.
pub open spec fn discovery_actions(found: Seq<DiscoveredPeer>) -> Seq<SwarmActionView>
    decreases found.len(),
{
    if found.len() == 0 {
        Seq::empty()
    } else {
        let d = found.last();
        discovery_actions(found.drop_last()) + seq![
            SwarmActionView::AddAddress { peer: d.peer@, address: d.address@ },
            SwarmActionView::Dial { address: d.address@ },
        ]
    }
}

/// For each address a peer listens on: add it to Kademlia for that peer.
pub open spec fn identify_actions(peer: Seq<char>, addrs: Seq<String>) -> Seq<SwarmActionView>
    decreases addrs.len(),
{
    if addrs.len() == 0 {
        Seq::empty()
    } else {
        identify_actions(peer, addrs.drop_last()).push(
            SwarmActionView::AddAddress { peer: peer, address: addrs.last()@ },
        )
    }
}

/// The actions one event asks of the swarm.
pub open spec fn event_actions(e: NetEvent) -> Seq<SwarmActionView> {
    match e {
        NetEvent::IdentifyReceived { peer, listen_addrs } => identify_actions(peer@, listen_addrs@),
        NetEvent::MdnsDiscovered { found } => discovery_actions(found@),
        NetEvent::ConnectionEstablished { peer, remote_addr } => seq![
            SwarmActionView::AddAddress { peer: peer@, address: remote_addr@ },
        ],
        _ => Seq::empty(),
    }
}

/// The printed name of a node status.
pub fn status_label_text(s: NodeStatus) -> (r: &'static str)
    ensures
        r@ == status_label(s),
{
    match s {
        NodeStatus::Connected => "Connected",
        NodeStatus::Disconnected => "Disconnected",
    }
}

/// The printable listing of a routing table.
pub fn kbuckets_report_text(entries: &Vec<KBucketEntry>) -> (s: String)
    ensures
        s@ == kbuckets_report(entries@),
{
    let n = entries.len();
    let mut lines = String::new();
    for i in 0..n
        invariant
            n == entries@.len(),
            lines@ == entry_lines(entries@.take(i as int)),
    {
        let e = &entries[i];
        assert(entries@.take(i + 1).drop_last() == entries@.take(i as int));
        lines.append("  - Peer: ");
        lines.append(e.peer.as_str());
        lines.append(", Status: ");
        lines.append(status_label_text(e.status));
        lines.append("\n");
    }
    assert(entries@.take(n as int) == entries@);
    let mut s = String::new();
    s.append("K-Buckets (");
    push_decimal(&mut s, n);
    s.append(" total entries):\n");
    s.append(lines.as_str());
    s
}

/// Updates the status for one swarm event and returns what the swarm must do.
pub fn handle_behaviour_event(event: NetEvent, status: &mut P2pStatus) -> (actions: Vec<SwarmAction>)
    ensures
        final(status)@ == next_status(old(status)@, event),
        action_views(actions@) == event_actions(event),
{
    let ghost e = event;
    let mut actions: Vec<SwarmAction> = Vec::new();
    match event {
        NetEvent::NewListenAddr { address } => {
            let ghost before = status.listeners@;
            status.listeners.push(address);
            assert(texts(status.listeners@) =~= texts(before).push(e->address@));
        },
        NetEvent::IdentifyReceived { peer, listen_addrs } => {
            let n = listen_addrs.len();
            for i in 0..n
                invariant
                    n == listen_addrs@.len(),
                    action_views(actions@) =~= identify_actions(peer@, listen_addrs@.take(i as int)),
            {
                assert(listen_addrs@.take(i + 1).drop_last() == listen_addrs@.take(i as int));
                actions.push(SwarmAction::AddAddress { peer: peer.clone(), address: listen_addrs[i].clone() });
            }
            assert(listen_addrs@.take(n as int) == listen_addrs@);
        },
        NetEvent::RoutingUpdated { entries } => {
            status.k_buckets_info = kbuckets_report_text(&entries);
            status.num_known_peers = entries.len();
        },
        NetEvent::MdnsDiscovered { found } => {
            let n = found.len();
            for i in 0..n
                invariant
                    n == found@.len(),
                    action_views(actions@) =~= discovery_actions(found@.take(i as int)),
            {
                let d = &found[i];
                assert(found@.take(i + 1).drop_last() == found@.take(i as int));
                actions.push(SwarmAction::AddAddress { peer: d.peer.clone(), address: d.address.clone() });
                actions.push(SwarmAction::Dial { address: d.address.clone() });
            }
            assert(found@.take(n as int) == found@);
        },
        NetEvent::ConnectionEstablished { peer, remote_addr } => {
            actions.push(SwarmAction::AddAddress { peer, address: remote_addr });
            assert(action_views(actions@) =~= event_actions(e));
        },
        NetEvent::Other => {},
    }
    actions
}

} // verus!
