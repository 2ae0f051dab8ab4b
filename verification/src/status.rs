//! The node's network status as the web front end reports it.

use vstd::prelude::*;

verus! {

/// What the node knows of its place in the network.
#[derive(Debug, Clone, PartialEq, Eq)]
pub struct P2pStatus {
    pub peer_id: String,
    /// Every address the node has been told it listens on, in order.
    pub listeners: Vec<String>,
    /// The number of peers in the Kademlia routing table at the last update.
    pub num_known_peers: usize,
    /// A printable listing of that routing table.
    pub k_buckets_info: String,
}

/// The status as mathematical values.
pub struct P2pStatusView {
    pub peer_id: Seq<char>,
    pub listeners: Seq<Seq<char>>,
    pub num_known_peers: nat,
    pub k_buckets_info: Seq<char>,
}

/// The texts of a sequence of strings.
pub open spec fn texts(v: Seq<String>) -> Seq<Seq<char>> {
    v.map_values(|s: String| s@)
}

impl View for P2pStatus {
    type V = P2pStatusView;

    open spec fn view(&self) -> P2pStatusView {
        P2pStatusView {
            peer_id: self.peer_id@,
            listeners: texts(self.listeners@),
            num_known_peers: self.num_known_peers as nat,
            k_buckets_info: self.k_buckets_info@,
        }
    }
}

/// The status of a node that has learned nothing yet.
pub open spec fn initial_status() -> P2pStatusView {
    P2pStatusView {
        peer_id: Seq::empty(),
        listeners: Seq::empty(),
        num_known_peers: 0,
        k_buckets_info: Seq::empty(),
    }
}

impl Default for P2pStatus {
    fn default() -> (s: Self)
        ensures
            s@ == initial_status(),
    {
        let s = P2pStatus {
            peer_id: String::new(),
            listeners: Vec::new(),
            num_known_peers: 0,
            k_buckets_info: String::new(),
        };
        assert(s@.listeners =~= Seq::<Seq<char>>::empty());
        s
    }
}

/// A copy of a list of strings.
pub fn copy_strings(v: &Vec<String>) -> (r: Vec<String>)
    ensures
        texts(r@) == texts(v@),
{
    let mut r: Vec<String> = Vec::new();
    let n = v.len();
    for i in 0..n
        invariant
            n == v@.len(),
            r@.len() == i,
            forall|j: int| 0 <= j < i ==> #[trigger] r@[j]@ == v@[j]@,
    {
        r.push(v[i].clone());
    }
    assert(texts(r@) =~= texts(v@));
    r
}

impl P2pStatus {
    /// A copy of the status, as handed to whoever asked for it.
    pub fn snapshot(&self) -> (r: P2pStatus)
        ensures
            r@ == self@,
    {
        P2pStatus {
            peer_id: self.peer_id.clone(),
            listeners: copy_strings(&self.listeners),
            num_known_peers: self.num_known_peers,
            k_buckets_info: self.k_buckets_info.clone(),
        }
    }
}

} // verus!
