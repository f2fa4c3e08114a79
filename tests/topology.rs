use mesh_node::message::{Command, Data, EventLoopMessage, NetworkPackage};
use mesh_node::node::{MeshNode, NodeAction};
use mesh_node::selector::RadioError;
use mesh_node::identity::NodeIdentity;
use mesh_node::selector::ApRecord;
use mesh_node::topology::{PeerState, TopologyError};

fn no_double_count(p: &PeerState) -> bool {
    p.visible_peers.iter().all(|v| !p.child_peers.iter().any(|c| c.id == *v))
}

#[test]
fn observe_adds_each_peer_once() {
    let mut p = PeerState::new();
    p.observe(3);
    p.observe(5);
    p.observe(3);
    assert_eq!(p.visible_peers, vec![3, 5]);
    assert!(p.is_visible(5));
    assert!(!p.is_child(5));
}

#[test]
fn propagation_promotes_visible_peer() {
    let mut p = PeerState::new();
    p.observe(7);
    p.observe(8);
    assert_eq!(p.attach(7, PeerState::new()), Ok(()));
    assert_eq!(p.visible_peers, vec![8]);
    assert_eq!(p.child_ids(), vec![7]);
    assert!(no_double_count(&p));
    p.observe(7);
    assert_eq!(p.visible_peers, vec![8]);
}

#[test]
fn propagation_from_unknown_peer_is_refused() {
    let mut p = PeerState::new();
    p.observe(1);
    assert_eq!(p.attach(9, PeerState::new()), Err(TopologyError::UnknownPeer(9)));
    assert_eq!(p.visible_peers, vec![1]);
    assert!(p.child_ids().is_empty());
}

#[test]
fn double_attachment_is_refused() {
    let mut p = PeerState::new();
    p.observe(4);
    assert_eq!(p.attach(4, PeerState::new()), Ok(()));
    assert_eq!(p.attach(4, PeerState::new()), Err(TopologyError::AlreadyChild(4)));
    assert_eq!(p.child_ids(), vec![4]);
}

#[test]
fn drop_unknown_peer_changes_nothing() {
    let mut p = PeerState::new();
    p.observe(1);
    p.observe(2);
    assert_eq!(p.attach(2, PeerState::new()), Ok(()));
    p.drop_connection(42);
    assert_eq!(p.visible_peers, vec![1]);
    assert_eq!(p.child_ids(), vec![2]);
}

#[test]
fn drop_visible_peer() {
    let mut p = PeerState::new();
    p.observe(1);
    p.observe(2);
    p.observe(3);
    p.drop_connection(2);
    assert_eq!(p.visible_peers, vec![1, 3]);
}

#[test]
fn scenario_attach_then_drop_removes_subtree() {
    let mut sub = PeerState::new();
    sub.observe(11);
    sub.observe(12);
    assert_eq!(sub.attach(12, PeerState::new()), Ok(()));
    let mut p = PeerState::new();
    p.observe(7);
    p.observe(8);
    assert_eq!(p.attach(7, sub), Ok(()));
    assert!(!p.is_visible(7));
    assert_eq!(p.child_ids(), vec![7]);
    let idx = p.child_index(7).unwrap();
    assert_eq!(p.child_peers[idx].child_peers.child_ids(), vec![12]);
    p.drop_connection(7);
    assert!(p.child_ids().is_empty());
    assert!(p.child_index(7).is_none());
    assert_eq!(p.visible_peers, vec![8]);
}

#[test]
fn node_scenario_receive_then_drop() {
    let mut n = MeshNode::new(NodeIdentity::from_seed(1));
    n.apply_peer_scan(&vec![7, 9]);
    let a = n.handle(EventLoopMessage::Network(NetworkPackage::ReceivesNewPropagation(7)));
    assert!(matches!(a, NodeAction::Updated));
    assert_eq!(n.peers().child_ids(), vec![7]);
    assert_eq!(n.peers().visible_peers, vec![9]);
    let b = n.handle(EventLoopMessage::Network(NetworkPackage::DropYourConnection(7)));
    assert!(matches!(b, NodeAction::Updated));
    assert!(n.peers().child_ids().is_empty());
    assert_eq!(n.peers().visible_peers, vec![9]);
}

#[test]
fn node_rejects_unknown_propagation() {
    let mut n = MeshNode::new(NodeIdentity::from_seed(1));
    match n.handle(EventLoopMessage::Network(NetworkPackage::ReceivesNewPropagation(3))) {
        NodeAction::Rejected(e) => assert_eq!(e, TopologyError::UnknownPeer(3)),
        other => panic!("unexpected action {:?}", other),
    }
}

#[test]
fn propagate_twice_is_idempotent() {
    let mut n = MeshNode::new(NodeIdentity::from_seed(77));
    n.apply_scan(&vec![ApRecord { ssid: "up".to_string(), signal_strength: -30, channel: 4 }]);
    n.apply_peer_scan(&vec![1, 2, 3]);
    n.handle(EventLoopMessage::Network(NetworkPackage::ReceivesNewPropagation(2)));
    let first = n.handle(EventLoopMessage::Command(Command::PropagateNow));
    let vis1 = n.peers().visible_peers.clone();
    let kids1 = n.peers().child_ids();
    let second = n.handle(EventLoopMessage::Command(Command::PropagateNow));
    assert_eq!(n.peers().visible_peers, vis1);
    assert_eq!(n.peers().child_ids(), kids1);
    for a in [first, second] {
        match a {
            NodeAction::Propagate { upward, downward } => {
                assert_eq!(upward, "up");
                assert_eq!(downward, vec![2]);
            }
            other => panic!("unexpected action {:?}", other),
        }
    }
}

#[test]
fn scan_command_asks_for_scan_and_data_is_relayed() {
    let mut n = MeshNode::new(NodeIdentity::from_seed(1));
    assert!(matches!(n.handle(EventLoopMessage::Command(Command::ScanNetwork)), NodeAction::Scan));
    match n.handle(EventLoopMessage::Data(Data(99))) {
        NodeAction::Relay { payload, upward, downward } => {
            assert_eq!(payload, 99);
            assert_eq!(upward, "FB-WLAN-OG");
            assert!(downward.is_empty());
        }
        other => panic!("unexpected action {:?}", other),
    }
}

#[test]
fn identity_stable_across_scans() {
    let mut n = MeshNode::new(NodeIdentity::from_seed(31_415));
    let before = n.own_name();
    n.apply_scan(&vec![ApRecord { ssid: "A".to_string(), signal_strength: -70, channel: 3 }]);
    assert_eq!(n.parent(), "A");
    n.apply_scan(&vec![ApRecord { ssid: "B".to_string(), signal_strength: -40, channel: 6 }]);
    assert_eq!(n.parent(), "B");
    assert_eq!(n.own_name(), before);
    assert_eq!(n.identity(), NodeIdentity::from_seed(31_415));
}

#[test]
fn failed_scan_falls_back_to_default() {
    let mut n = MeshNode::new(NodeIdentity::from_seed(2));
    n.apply_scan_result(&Ok(vec![ApRecord { ssid: "A".to_string(), signal_strength: -70, channel: 3 }]));
    assert_eq!(n.parent(), "A");
    n.apply_scan_result(&Err(RadioError));
    assert_eq!(n.parent(), "FB-WLAN-OG");
}

#[test]
fn announced_state_holding_the_peer_is_refused() {
    let mut inner = PeerState::new();
    inner.observe(5);
    let mut announced = PeerState::new();
    announced.observe(6);
    assert_eq!(announced.attach(6, inner), Ok(()));
    let mut p = PeerState::new();
    p.observe(5);
    assert_eq!(p.attach(5, announced), Err(TopologyError::OwnAncestor(5)));
    assert_eq!(p.visible_peers, vec![5]);
    assert!(p.child_ids().is_empty());
}

#[test]
fn tree_membership_looks_at_every_depth() {
    let mut leaf = PeerState::new();
    leaf.observe(30);
    let mut mid = PeerState::new();
    mid.observe(20);
    assert_eq!(mid.attach(20, leaf), Ok(()));
    let mut top = PeerState::new();
    top.observe(10);
    top.observe(11);
    assert_eq!(top.attach(10, mid), Ok(()));
    for id in [10, 11, 20, 30] {
        assert!(top.contains_anywhere(id));
    }
    assert!(!top.contains_anywhere(40));
    top.drop_connection(10);
    for id in [10, 20, 30] {
        assert!(!top.contains_anywhere(id));
    }
    assert!(top.contains_anywhere(11));
}

#[test]
fn scan_replaces_visible_peers() {
    let mut p = PeerState::new();
    p.apply_scan(&vec![1, 2, 2, 3]);
    assert_eq!(p.visible_peers, vec![1, 2, 3]);
    assert_eq!(p.attach(2, PeerState::new()), Ok(()));
    p.apply_scan(&vec![3, 2, 4, 4]);
    assert_eq!(p.visible_peers, vec![3, 4]);
    assert_eq!(p.child_ids(), vec![2]);
    p.apply_scan(&vec![]);
    assert!(p.visible_peers.is_empty());
    assert_eq!(p.child_ids(), vec![2]);
}

#[test]
fn node_peer_scan_drops_peers_no_longer_seen() {
    let mut n = MeshNode::new(NodeIdentity::from_seed(8));
    n.apply_peer_scan(&vec![1, 5]);
    assert_eq!(n.peers().visible_peers, vec![1, 5]);
    n.apply_peer_scan(&vec![5]);
    assert_eq!(n.peers().visible_peers, vec![5]);
    assert!(matches!(
        n.handle(EventLoopMessage::Network(NetworkPackage::ReceivesNewPropagation(1))),
        NodeAction::Rejected(TopologyError::UnknownPeer(1))
    ));
}
