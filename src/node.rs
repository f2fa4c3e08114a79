use vstd::prelude::*;
use crate::seqs::other_than;
use crate::identity::{identity_name, NodeIdentity};
use crate::message::{Command, Data, EventLoopMessage, NetworkPackage};
use crate::selector::{parent_ssid, parent_ssid_of, ApRecord, RadioError, DEFAULT_SSID};
use crate::topology::{attached, child_other_than, dropped, PeerState, PeersView, TopologyError};

verus! {

/// What the node asks its surroundings to do after a message.
#[derive(Debug)]
pub enum NodeAction {
    /// Scan the air and hand the records to `apply_scan`.
    Scan,
    /// Send the held state once upward, to the parent, and once to each
    /// direct child; each child forwards it on to its own children when it
    /// handles the same command, so the walk covers the tree one level per hop.
    Propagate { upward: String, downward: Vec<u32> },
    /// Relay an opaque payload to the parent and to each child.
    Relay { payload: u32, upward: String, downward: Vec<u32> },
    /// The topology was updated (or already matched the message).
    Updated,
    /// The topology refused the change; a re-scan is due before retrying.
    Rejected(TopologyError),
}

/// The node as plain values.
pub struct NodeView {
    pub identity: NodeIdentity,
    /// The network this node attaches to as a client.
    pub parent: Seq<char>,
    pub peers: PeersView,
}

/// The peers after one message.
pub open spec fn peers_after(v: PeersView, m: EventLoopMessage) -> PeersView {
    match m {
        EventLoopMessage::Network(NetworkPackage::ReceivesNewPropagation(id)) => {
            if v.visible.contains(id) {
                attached(v, id)
            } else {
                v
            }
        },
        EventLoopMessage::Network(NetworkPackage::DropYourConnection(id)) => dropped(v, id),
        _ => v,
    }
}

/// The node after a scan: only the parent follows the scan.
pub open spec fn after_scan(n: NodeView, records: Seq<ApRecord>) -> NodeView {
    NodeView { parent: parent_ssid_of(records), ..n }
}

/// A mesh node: its identity for this boot, its current parent, and the
/// topology below it. The identity is fixed at creation.
pub struct MeshNode {
    identity: NodeIdentity,
    parent: String,
    peers: PeerState,
}

impl View for MeshNode {
    type V = NodeView;

    closed spec fn view(&self) -> NodeView {
        NodeView { identity: self.identity, parent: self.parent@, peers: self.peers@ }
    }
}

impl MeshNode {
    /// The whole topology state, subtrees included.
    pub closed spec fn peers_spec(&self) -> PeerState {
        self.peers
    }

    pub open spec fn wf(&self) -> bool {
        &&& self@.identity.wf()
        &&& self.peers_spec().wf()
        &&& self.peers_spec()@ == self@.peers
    }

    /// A node with no parent elected yet (it aims at the default network)
    /// and no peers.
    pub fn new(identity: NodeIdentity) -> (r: MeshNode)
        requires
            identity.wf(),
        ensures
            r.wf(),
            r@.identity == identity,
            r@.parent == DEFAULT_SSID@,
            r@.peers.visible.len() == 0,
            r@.peers.children.len() == 0,
    {
        MeshNode { identity, parent: String::from_str(DEFAULT_SSID), peers: PeerState::new() }
    }

    pub fn identity(&self) -> (r: NodeIdentity)
        ensures
            r == self@.identity,
    {
        self.identity
    }

    /// The name this node broadcasts.
    pub fn own_name(&self) -> (r: String)
        ensures
            r@ == identity_name(self@.identity.suffix_spec()),
    {
        self.identity.name()
    }

    pub fn parent(&self) -> (r: String)
        ensures
            r@ == self@.parent,
    {
        self.parent.clone()
    }

    /// Read-only access to the topology, for status display.
    pub fn peers(&self) -> (r: &PeerState)
        ensures
            r@ == self@.peers,
            *r == self.peers_spec(),
    {
        &self.peers
    }

    /// Takes the result of a scan: re-elects the parent. The identity and
    /// the topology stay as they are.
    pub fn apply_scan(&mut self, records: &Vec<ApRecord>)
        requires
            old(self).wf(),
        ensures
            final(self).wf(),
            final(self)@ == after_scan(old(self)@, records@),
            final(self).peers_spec() == old(self).peers_spec(),
    {
        self.parent = parent_ssid(records);
    }

    /// Takes the outcome of a periodic scan. A failed scan counts as a scan
    /// that saw nothing, so the node falls back to the default network and
    /// the next tick tries again.
    pub fn apply_scan_result(&mut self, result: &Result<Vec<ApRecord>, RadioError>)
        requires
            old(self).wf(),
        ensures
            final(self).wf(),
            result matches Ok(records) ==> final(self)@ == after_scan(old(self)@, records@),
            result is Err ==> final(self)@ == after_scan(old(self)@, Seq::empty()),
            final(self).peers_spec() == old(self).peers_spec(),
    {
        match result {
            Ok(records) => self.apply_scan(records),
            Err(_) => {
                let none: Vec<ApRecord> = Vec::new();
                self.apply_scan(&none);
            },
        }
    }

    /// Takes the peer identifiers seen by the latest scan: they replace the
    /// visible peers, less those already attached; children stay as they are.
    pub fn apply_peer_scan(&mut self, ids: &Vec<u32>)
        requires
            old(self).wf(),
        ensures
            final(self).wf(),
            final(self)@.identity == old(self)@.identity,
            final(self)@.parent == old(self)@.parent,
            final(self).peers_spec().child_peers@ == old(self).peers_spec().child_peers@,
            forall|x: u32| #[trigger] final(self)@.peers.visible.contains(x)
                <==> ids@.contains(x) && !old(self)@.peers.children.contains(x),
    {
        self.peers.apply_scan(ids);
    }

    /// Reacts to one message from the bus.
    pub fn handle(&mut self, message: EventLoopMessage) -> (r: NodeAction)
        requires
            old(self).wf(),
        ensures
            final(self).wf(),
            final(self)@ == (NodeView { peers: peers_after(old(self)@.peers, message), ..old(self)@ }),
            message is Command || message is Data ==> final(self).peers_spec() == old(self).peers_spec(),
            message matches EventLoopMessage::Network(NetworkPackage::DropYourConnection(id)) ==> {
                &&& final(self).peers_spec().visible_peers@ == old(self).peers_spec().visible_peers@.filter(other_than(id))
                &&& final(self).peers_spec().child_peers@ == old(self).peers_spec().child_peers@.filter(child_other_than(id))
            },
            message matches EventLoopMessage::Network(NetworkPackage::ReceivesNewPropagation(id)) ==> {
                &&& !old(self)@.peers.visible.contains(id) ==> final(self).peers_spec() == old(self).peers_spec()
                &&& old(self)@.peers.visible.contains(id) ==> {
                    let c = final(self).peers_spec().child_peers@;
                    &&& c.drop_last() == old(self).peers_spec().child_peers@
                    &&& c.len() > 0
                    &&& c.last().id == id
                    &&& c.last().child_peers.visible_peers@.len() == 0
                    &&& c.last().child_peers.child_peers@.len() == 0
                }
            },
            message == EventLoopMessage::Command(Command::ScanNetwork) ==> r is Scan,
            message == EventLoopMessage::Command(Command::PropagateNow) ==> {
                &&& r matches NodeAction::Propagate { upward, downward }
                &&& upward@ == old(self)@.parent
                &&& downward@ == old(self)@.peers.children
            },
            message matches EventLoopMessage::Data(Data(p)) ==> {
                &&& r matches NodeAction::Relay { payload, upward, downward }
                &&& payload == p
                &&& upward@ == old(self)@.parent
                &&& downward@ == old(self)@.peers.children
            },
            message matches EventLoopMessage::Network(NetworkPackage::DropYourConnection(_)) ==> r is Updated,
            message matches EventLoopMessage::Network(NetworkPackage::ReceivesNewPropagation(id)) ==> {
                &&& old(self)@.peers.visible.contains(id) ==> r is Updated
                &&& old(self)@.peers.children.contains(id)
                    ==> r == NodeAction::Rejected(TopologyError::AlreadyChild(id))
                &&& !old(self)@.peers.visible.contains(id) && !old(self)@.peers.children.contains(id)
                    ==> r == NodeAction::Rejected(TopologyError::UnknownPeer(id))
            },
    {
        match message {
            EventLoopMessage::Command(Command::ScanNetwork) => NodeAction::Scan,
            EventLoopMessage::Command(Command::PropagateNow) => NodeAction::Propagate {
                upward: self.parent.clone(),
                downward: self.peers.child_ids(),
            },
            EventLoopMessage::Data(Data(payload)) => NodeAction::Relay {
                payload,
                upward: self.parent.clone(),
                downward: self.peers.child_ids(),
            },
            EventLoopMessage::Network(NetworkPackage::DropYourConnection(id)) => {
                self.peers.drop_connection(id);
                NodeAction::Updated
            },
            EventLoopMessage::Network(NetworkPackage::ReceivesNewPropagation(id)) => {
                match self.peers.attach(id, PeerState::new()) {
                    Ok(()) => NodeAction::Updated,
                    Err(e) => NodeAction::Rejected(e),
                }
            },
        }
    }
}

/// Handling `PropagateNow` a second time, with no topology change between,
/// leaves the peers as the first time did.
pub proof fn lemma_propagate_idempotent(v: PeersView)
    ensures
        peers_after(peers_after(v, EventLoopMessage::Command(Command::PropagateNow)),
            EventLoopMessage::Command(Command::PropagateNow))
            == peers_after(v, EventLoopMessage::Command(Command::PropagateNow)),
{
}

/// Any number of scans leaves the node's identity as it was created: two
/// successive scans never change it.
pub proof fn lemma_identity_stable_across_scans(n: NodeView, a: Seq<ApRecord>, b: Seq<ApRecord>)
    ensures
        after_scan(after_scan(n, a), b).identity == n.identity,
        after_scan(n, a).identity == n.identity,
{
}

} // verus!
