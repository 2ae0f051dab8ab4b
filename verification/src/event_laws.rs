//! What holds of the status after any sequence of swarm events.

use vstd::prelude::*;

use crate::events::{
    discovery_actions, identify_actions, kbuckets_report, next_status, DiscoveredPeer, KBucketEntry, NetEvent,
    SwarmActionView,
};
use crate::status::P2pStatusView;

verus! {

/// The status after the events, processed in order.
pub open spec fn run_events(s: P2pStatusView, es: Seq<NetEvent>) -> P2pStatusView
    decreases es.len(),
{
    if es.len() == 0 {
        s
    } else {
        next_status(run_events(s, es.drop_last()), es.last())
    }
}

/// The addresses announced by the listen-address events, in order.
pub open spec fn listen_addresses(es: Seq<NetEvent>) -> Seq<Seq<char>>
    decreases es.len(),
{
    if es.len() == 0 {
        Seq::empty()
    } else {
        let prev = listen_addresses(es.drop_last());
        match es.last() {
            NetEvent::NewListenAddr { address } => prev.push(address@),
            _ => prev,
        }
    }
}

/// The routing table of the last routing update among the events, if any.
pub open spec fn latest_routing_table(es: Seq<NetEvent>) -> Option<Seq<KBucketEntry>>
    decreases es.len(),
{
    if es.len() == 0 {
        None
    } else {
        match es.last() {
            NetEvent::RoutingUpdated { entries } => Some(entries@),
            _ => latest_routing_table(es.drop_last()),
        }
    }
}

/// No event changes the node's peer id.
pub proof fn lemma_peer_id_is_kept(s: P2pStatusView, es: Seq<NetEvent>)
    ensures
        run_events(s, es).peer_id == s.peer_id,
    decreases es.len(),
{
    if es.len() > 0 {
        lemma_peer_id_is_kept(s, es.drop_last());
    }
}

/// The listeners are the ones the node started with followed by every
/// announced listen address, in the order announced; nothing else adds or
/// removes one.
pub proof fn lemma_listeners_record_listen_events(s: P2pStatusView, es: Seq<NetEvent>)
    ensures
        run_events(s, es).listeners == s.listeners + listen_addresses(es),
    decreases es.len(),
{
    if es.len() > 0 {
        lemma_listeners_record_listen_events(s, es.drop_last());
        let prev = run_events(s, es.drop_last());
        match es.last() {
            NetEvent::NewListenAddr { address } => {
                assert(s.listeners + listen_addresses(es.drop_last()).push(address@)
                    =~= (s.listeners + listen_addresses(es.drop_last())).push(address@));
            },
            _ => {},
        }
    }
}

/// The number of known peers and the routing-table listing always describe
/// the table of the latest routing update; before any update they are what
/// the node started with.
pub proof fn lemma_known_peers_follow_latest_routing_table(s: P2pStatusView, es: Seq<NetEvent>)
    ensures
        match latest_routing_table(es) {
            Some(table) => run_events(s, es).num_known_peers == table.len()
                && run_events(s, es).k_buckets_info == kbuckets_report(table),
            None => run_events(s, es).num_known_peers == s.num_known_peers
                && run_events(s, es).k_buckets_info == s.k_buckets_info,
        },
    decreases es.len(),
{
    if es.len() > 0 {
        lemma_known_peers_follow_latest_routing_table(s, es.drop_last());
    }
}

/// An mDNS discovery of n (peer, address) pairs asks for exactly 2n actions:
/// for the i-th pair, first add its address to Kademlia for its peer, then
/// dial that address. No pair is dropped, merged or reordered.
pub proof fn lemma_discovery_adds_then_dials_every_pair(found: Seq<DiscoveredPeer>)
    ensures
        discovery_actions(found).len() == 2 * found.len(),
        forall|i: int|
            0 <= i < found.len() ==> discovery_actions(found)[2 * i] == (SwarmActionView::AddAddress {
                peer: (#[trigger] found[i]).peer@,
                address: found[i].address@,
            }) && discovery_actions(found)[2 * i + 1] == (SwarmActionView::Dial { address: found[i].address@ }),
    decreases found.len(),
{
    if found.len() > 0 {
        let prev = found.drop_last();
        lemma_discovery_adds_then_dials_every_pair(prev);
        let acts = discovery_actions(found);
        assert forall|i: int| 0 <= i < found.len() implies acts[2 * i] == (SwarmActionView::AddAddress {
            peer: (#[trigger] found[i]).peer@,
            address: found[i].address@,
        }) && acts[2 * i + 1] == (SwarmActionView::Dial { address: found[i].address@ }) by {
            if i < prev.len() {
                assert(prev[i] == found[i]);
            }
        }
    }
}

/// An identify report asks for exactly one action per listen address: add
/// the i-th address to Kademlia for the identified peer.
pub proof fn lemma_identify_adds_every_listen_address(peer: Seq<char>, addrs: Seq<String>)
    ensures
        identify_actions(peer, addrs).len() == addrs.len(),
        forall|i: int|
            0 <= i < addrs.len() ==> identify_actions(peer, addrs)[i] == (SwarmActionView::AddAddress {
                peer: peer,
                address: (#[trigger] addrs[i])@,
            }),
    decreases addrs.len(),
{
    if addrs.len() > 0 {
        let prev = addrs.drop_last();
        lemma_identify_adds_every_listen_address(peer, prev);
        let acts = identify_actions(peer, addrs);
        assert forall|i: int| 0 <= i < addrs.len() implies acts[i] == (SwarmActionView::AddAddress {
            peer: peer,
            address: (#[trigger] addrs[i])@,
        }) by {
            if i < prev.len() {
                assert(prev[i] == addrs[i]);
            }
        }
    }
}

} // verus!
