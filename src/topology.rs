use vstd::prelude::*;
use crate::seqs::{
    lemma_filter_absent, lemma_filter_all, lemma_filter_no_dup, lemma_remove_id,
    lemma_remove_is_filter, other_than,
};

verus! {

/// A peer attached to this node, together with the part of the tree it owns.
#[derive(Debug)]
pub struct ChildPeer {
    pub id: u32,
    pub child_peers: PeerState,
}

/// This node's view of the mesh: peers seen on the air, and the children
/// attached below it, each owning its own subtree.
#[derive(Debug)]
pub struct PeerState {
    pub visible_peers: Vec<u32>,
    pub child_peers: Vec<ChildPeer>,
}

/// Why a topology change was refused.
#[derive(Copy, Clone, Debug, PartialEq, Eq, Structural)]
pub enum TopologyError {
    /// The peer was not seen by a scan; re-scan before retrying.
    UnknownPeer(u32),
    /// The peer is already attached as a child.
    AlreadyChild(u32),
    /// The state the peer announced holds the peer itself, which would make
    /// it its own ancestor.
    OwnAncestor(u32),
}

/// The identifiers held at the top of a `PeerState`.
pub struct PeersView {
    /// Peers seen on the air and not attached.
    pub visible: Seq<u32>,
    /// Attached children, in order of attachment.
    pub children: Seq<u32>,
}

pub open spec fn ids_of(c: Seq<ChildPeer>) -> Seq<u32> {
    c.map_values(|p: ChildPeer| p.id)
}

pub open spec fn child_other_than(id: u32) -> spec_fn(ChildPeer) -> bool {
    |c: ChildPeer| c.id != id
}

/// The view after a peer is seen on the air.
pub open spec fn observed(v: PeersView, id: u32) -> PeersView {
    if v.visible.contains(id) || v.children.contains(id) {
        v
    } else {
        PeersView { visible: v.visible.push(id), children: v.children }
    }
}

/// The view after a visible peer is promoted to a child.
pub open spec fn attached(v: PeersView, id: u32) -> PeersView {
    PeersView { visible: v.visible.filter(other_than(id)), children: v.children.push(id) }
}

/// The view after a peer is evicted, with whatever it owned.
pub open spec fn dropped(v: PeersView, id: u32) -> PeersView {
    PeersView { visible: v.visible.filter(other_than(id)), children: v.children.filter(other_than(id)) }
}

/// No identifier twice, and none both visible and attached.
pub open spec fn view_wf(v: PeersView) -> bool {
    &&& v.visible.no_duplicates()
    &&& v.children.no_duplicates()
    &&& forall|x: u32| !(#[trigger] v.visible.contains(x) && v.children.contains(x))
}

/// `id` appears anywhere in the tree below this node, visible or attached,
/// at any depth.
pub open spec fn tree_contains(p: PeerState, id: u32) -> bool
    decreases p,
{
    ||| p.visible_peers@.contains(id)
    ||| exists|i: int|
        0 <= i < p.child_peers@.len() && ((#[trigger] p.child_peers@[i]).id == id
            || tree_contains(p.child_peers@[i].child_peers, id))
}

/// Well formed at every depth: each state in the tree, this one and every
/// child's, holds no identifier twice and none both visible and attached.
pub open spec fn tree_wf(p: PeerState) -> bool
    decreases p,
{
    &&& view_wf(p@)
    &&& forall|i: int|
        0 <= i < p.child_peers@.len() ==> tree_wf((#[trigger] p.child_peers@[i]).child_peers)
}

impl View for PeerState {
    type V = PeersView;

    open spec fn view(&self) -> PeersView {
        PeersView { visible: self.visible_peers@, children: ids_of(self.child_peers@) }
    }
}

/// Removing the one child with a given identifier is filtering it out.
proof fn lemma_remove_child(c: Seq<ChildPeer>, i: int)
    requires
        0 <= i < c.len(),
        ids_of(c).no_duplicates(),
    ensures
        c.remove(i) == c.filter(child_other_than(c[i].id)),
        ids_of(c.remove(i)) == ids_of(c).filter(other_than(c[i].id)),
{
    let id = c[i].id;
    assert forall|j: int| 0 <= j < c.len() && j != i implies child_other_than(id)(#[trigger] c[j]) by {
        assert(ids_of(c)[j] != ids_of(c)[i]);
    }
    lemma_remove_is_filter(c, child_other_than(id), i);
    lemma_ids_of_filter(c, id);
}

proof fn lemma_ids_of_filter(c: Seq<ChildPeer>, id: u32)
    ensures
        ids_of(c.filter(child_other_than(id))) == ids_of(c).filter(other_than(id)),
    decreases c.len(),
{
    reveal(Seq::filter);
    if c.len() > 0 {
        lemma_ids_of_filter(c.drop_last(), id);
        assert(ids_of(c).drop_last() =~= ids_of(c.drop_last()));
        let f = c.drop_last().filter(child_other_than(id));
        assert(ids_of(f.push(c.last())) =~= ids_of(f).push(c.last().id));
    }
}

impl PeerState {
    /// A state with no peers at all.
    pub fn new() -> (r: PeerState)
        ensures
            r@.visible.len() == 0,
            r@.children.len() == 0,
            r.child_peers@.len() == 0,
            r.wf(),
    {
        PeerState { visible_peers: Vec::new(), child_peers: Vec::new() }
    }

    pub open spec fn wf(&self) -> bool {
        tree_wf(*self)
    }

    /// Position of `id` among the visible peers, if it is one.
    pub fn visible_index(&self, id: u32) -> (r: Option<usize>)
        ensures
            r is None <==> !self@.visible.contains(id),
            r matches Some(i) ==> i < self.visible_peers@.len() && self.visible_peers@[i as int] == id,
    {
        let mut i: usize = 0;
        while i < self.visible_peers.len()
            invariant
                i <= self.visible_peers@.len(),
                forall|j: int| 0 <= j < i ==> self.visible_peers@[j] != id,
            decreases self.visible_peers@.len() - i,
        {
            if self.visible_peers[i] == id {
                return Some(i);
            }
            i = i + 1;
        }
        None
    }

    /// Whether `id` is seen on the air and not attached.
    pub fn is_visible(&self, id: u32) -> (r: bool)
        ensures
            r == self@.visible.contains(id),
    {
        self.visible_index(id).is_some()
    }

    /// Position of the child `id`, if it is attached.
    pub fn child_index(&self, id: u32) -> (r: Option<usize>)
        ensures
            r is None <==> !self@.children.contains(id),
            r matches Some(i) ==> i < self.child_peers@.len() && self.child_peers@[i as int].id == id,
    {
        let mut i: usize = 0;
        while i < self.child_peers.len()
            invariant
                i <= self.child_peers@.len(),
                forall|j: int| 0 <= j < i ==> self.child_peers@[j].id != id,
            decreases self.child_peers@.len() - i,
        {
            if self.child_peers[i].id == id {
                proof {
                    assert(ids_of(self.child_peers@)[i as int] == id);
                }
                return Some(i);
            }
            i = i + 1;
        }
        proof {
            if ids_of(self.child_peers@).contains(id) {
                let k = choose|k: int| 0 <= k < ids_of(self.child_peers@).len() && ids_of(self.child_peers@)[k] == id;
                assert(self.child_peers@[k].id == id);
            }
        }
        None
    }

    /// Whether `id` is attached as a child.
    pub fn is_child(&self, id: u32) -> (r: bool)
        ensures
            r == self@.children.contains(id),
    {
        self.child_index(id).is_some()
    }

    /// Whether `id` appears anywhere in this tree.
    pub fn contains_anywhere(&self, id: u32) -> (r: bool)
        ensures
            r == tree_contains(*self, id),
        decreases self,
    {
        if self.is_visible(id) {
            return true;
        }
        let mut i: usize = 0;
        while i < self.child_peers.len()
            invariant
                i <= self.child_peers@.len(),
                !self.visible_peers@.contains(id),
                forall|j: int| 0 <= j < i ==> !((#[trigger] self.child_peers@[j]).id == id
                    || tree_contains(self.child_peers@[j].child_peers, id)),
            decreases self.child_peers@.len() - i,
        {
            let c = &self.child_peers[i];
            proof {
                assert(decreases_to!(self.child_peers => self.child_peers@[i as int]));
            }
            if c.id == id || c.child_peers.contains_anywhere(id) {
                return true;
            }
            i = i + 1;
        }
        assert(!tree_contains(*self, id));
        false
    }

    /// The identifiers of the attached children, in order of attachment.
    pub fn child_ids(&self) -> (r: Vec<u32>)
        ensures
            r@ == self@.children,
    {
        let mut r: Vec<u32> = Vec::new();
        let mut i: usize = 0;
        while i < self.child_peers.len()
            invariant
                i <= self.child_peers@.len(),
                r@ == ids_of(self.child_peers@.subrange(0, i as int)),
            decreases self.child_peers@.len() - i,
        {
            r.push(self.child_peers[i].id);
            i = i + 1;
            proof {
                assert(ids_of(self.child_peers@.subrange(0, i as int))
                    =~= ids_of(self.child_peers@.subrange(0, i - 1)).push(self.child_peers@[i - 1].id));
            }
        }
        assert(self.child_peers@.subrange(0, i as int) =~= self.child_peers@);
        r
    }

    /// Records that `id` was seen on the air. A peer that is already known,
    /// visible or attached, is left as it is.
    pub fn observe(&mut self, id: u32)
        requires
            old(self).wf(),
        ensures
            final(self).wf(),
            final(self)@ == observed(old(self)@, id),
            final(self).child_peers@ == old(self).child_peers@,
    {
        if !self.is_visible(id) && !self.is_child(id) {
            self.visible_peers.push(id);
            proof {
                assert forall|x: u32| #[trigger] self.visible_peers@.contains(x)
                    <==> old(self).visible_peers@.contains(x) || x == id by {
                    let o = old(self).visible_peers@;
                    if self.visible_peers@.contains(x) && x != id {
                        let k = choose|k: int| 0 <= k < o.len() + 1 && o.push(id)[k] == x;
                        assert(o[k] == x);
                    }
                    if o.contains(x) {
                        let k = choose|k: int| 0 <= k < o.len() && o[k] == x;
                        assert(self.visible_peers@[k] == x);
                    }
                    if x == id {
                        assert(self.visible_peers@[o.len() as int] == x);
                    }
                }
            }
        }
    }

    /// Takes the identifiers seen by the latest scan: the visible peers become
    /// exactly the scanned peers that are not attached, each once, in order of
    /// first appearance. Peers missing from the scan stop being visible;
    /// attached children stay as they are.
    pub fn apply_scan(&mut self, ids: &Vec<u32>)
        requires
            old(self).wf(),
        ensures
            final(self).wf(),
            final(self).child_peers@ == old(self).child_peers@,
            forall|x: u32| #[trigger] final(self)@.visible.contains(x)
                <==> ids@.contains(x) && !old(self)@.children.contains(x),
    {
        self.visible_peers = Vec::new();
        let mut i: usize = 0;
        while i < ids.len()
            invariant
                i <= ids@.len(),
                self.wf(),
                self.child_peers@ == old(self).child_peers@,
                forall|x: u32| #[trigger] self@.visible.contains(x)
                    <==> ids@.subrange(0, i as int).contains(x) && !old(self)@.children.contains(x),
            decreases ids@.len() - i,
        {
            let ghost before = self@.visible;
            self.observe(ids[i]);
            proof {
                let pre = ids@.subrange(0, i as int);
                let post = ids@.subrange(0, i + 1);
                assert(post =~= pre.push(ids@[i as int]));
                assert forall|x: u32| #[trigger] post.contains(x) <==> pre.contains(x) || x == ids@[i as int] by {
                    if post.contains(x) && x != ids@[i as int] {
                        let k = choose|k: int| 0 <= k < post.len() && post[k] == x;
                        assert(pre[k] == x);
                    }
                    if pre.contains(x) {
                        let k = choose|k: int| 0 <= k < pre.len() && pre[k] == x;
                        assert(post[k] == x);
                    }
                    if x == ids@[i as int] {
                        assert(post[i as int] == x);
                    }
                }
                assert forall|x: u32| #[trigger] before.push(ids@[i as int]).contains(x)
                    <==> before.contains(x) || x == ids@[i as int] by {
                    let b = before.push(ids@[i as int]);
                    if b.contains(x) && x != ids@[i as int] {
                        let k = choose|k: int| 0 <= k < b.len() && b[k] == x;
                        assert(before[k] == x);
                    }
                    if before.contains(x) {
                        let k = choose|k: int| 0 <= k < before.len() && before[k] == x;
                        assert(b[k] == x);
                    }
                    if x == ids@[i as int] {
                        assert(b[before.len() as int] == x);
                    }
                }
            }
            i = i + 1;
        }
        assert(ids@.subrange(0, i as int) =~= ids@);
    }

    /// Promotes the visible peer `id` to a child that owns `reachable`, the
    /// state it announced. Fails, and changes nothing, when `id` is already a
    /// child, was never seen, or appears in `reachable`.
    pub fn attach(&mut self, id: u32, reachable: PeerState) -> (r: Result<(), TopologyError>)
        requires
            old(self).wf(),
            reachable.wf(),
        ensures
            final(self).wf(),
            old(self)@.children.contains(id) ==> r == Err::<(), TopologyError>(TopologyError::AlreadyChild(id)),
            !old(self)@.children.contains(id) && !old(self)@.visible.contains(id)
                ==> r == Err::<(), TopologyError>(TopologyError::UnknownPeer(id)),
            old(self)@.visible.contains(id) && tree_contains(reachable, id)
                ==> r == Err::<(), TopologyError>(TopologyError::OwnAncestor(id)),
            r is Err ==> *final(self) == *old(self),
            old(self)@.visible.contains(id) && !tree_contains(reachable, id) ==> {
                &&& r is Ok
                &&& final(self)@ == attached(old(self)@, id)
                &&& final(self).child_peers@ == old(self).child_peers@.push(
                    (ChildPeer { id: id, child_peers: reachable }),
                )
            },
    {
        if self.is_child(id) {
            return Err(TopologyError::AlreadyChild(id));
        }
        let i = match self.visible_index(id) {
            Some(i) => i,
            None => {
                return Err(TopologyError::UnknownPeer(id));
            },
        };
        if reachable.contains_anywhere(id) {
            return Err(TopologyError::OwnAncestor(id));
        }
        proof {
            assert(old(self)@.visible[i as int] == id);
            lemma_remove_id(self.visible_peers@, i as int);
            lemma_changes_keep_wf(old(self)@, id);
        }
        self.visible_peers.remove(i);
        self.child_peers.push(ChildPeer { id, child_peers: reachable });
        proof {
            let o = old(self)@;
            assert(ids_of(self.child_peers@) =~= o.children.push(id));
            assert(self@ == attached(o, id));
        }
        Ok(())
    }

    /// Evicts `id`, whether visible or attached; an attached peer takes its
    /// whole subtree with it. An unknown `id` changes nothing.
    pub fn drop_connection(&mut self, id: u32)
        requires
            old(self).wf(),
        ensures
            final(self).wf(),
            final(self)@ == dropped(old(self)@, id),
            final(self).child_peers@ == old(self).child_peers@.filter(child_other_than(id)),
            !old(self)@.visible.contains(id) && !old(self)@.children.contains(id)
                ==> *final(self) == *old(self),
    {
        let vis = self.visible_index(id);
        let child = self.child_index(id);
        if vis.is_none() && child.is_none() {
            proof {
                lemma_filter_absent(self.visible_peers@, id);
                lemma_filter_absent(ids_of(self.child_peers@), id);
                lemma_ids_of_filter(self.child_peers@, id);
                assert forall|j: int| 0 <= j < self.child_peers@.len()
                    implies child_other_than(id)(#[trigger] self.child_peers@[j]) by {
                    if self.child_peers@[j].id == id {
                        assert(ids_of(self.child_peers@)[j] == id);
                    }
                }
                lemma_filter_all(self.child_peers@, child_other_than(id));
            }
            return;
        }
        match vis {
            Some(i) => {
                proof {
                    lemma_remove_id(self.visible_peers@, i as int);
                }
                self.visible_peers.remove(i);
            },
            None => {
                proof {
                    lemma_filter_absent(self.visible_peers@, id);
                }
            },
        }
        assert(self@.visible == old(self)@.visible.filter(other_than(id)));
        match child {
            Some(i) => {
                proof {
                    lemma_remove_child(self.child_peers@, i as int);
                }
                self.child_peers.remove(i);
            },
            None => {
                proof {
                    lemma_filter_absent(ids_of(self.child_peers@), id);
                    lemma_ids_of_filter(self.child_peers@, id);
                    assert forall|j: int| 0 <= j < self.child_peers@.len()
                        implies child_other_than(id)(#[trigger] self.child_peers@[j]) by {
                        if self.child_peers@[j].id == id {
                            assert(ids_of(self.child_peers@)[j] == id);
                        }
                    }
                    lemma_filter_all(self.child_peers@, child_other_than(id));
                }
            },
        }
        proof {
            lemma_changes_keep_wf(old(self)@, id);
            assert(self@.children == old(self)@.children.filter(other_than(id)));
            assert(self@ == dropped(old(self)@, id));
        }
    }
}

/// Every change of the topology keeps it well formed; in particular no peer
/// is ever both a bare visible peer and an attached child.
pub proof fn lemma_changes_keep_wf(v: PeersView, id: u32)
    requires
        view_wf(v),
    ensures
        view_wf(observed(v, id)),
        v.visible.contains(id) ==> view_wf(attached(v, id)),
        view_wf(dropped(v, id)),
{
    lemma_filter_no_dup(v.visible, id);
    lemma_filter_no_dup(v.children, id);
    let o = observed(v, id);
    if !(v.visible.contains(id) || v.children.contains(id)) {
        assert forall|x: u32| #[trigger] v.visible.push(id).contains(x) <==> v.visible.contains(x) || x == id by {
            if v.visible.push(id).contains(x) && x != id {
                let k = choose|k: int| 0 <= k < v.visible.len() + 1 && v.visible.push(id)[k] == x;
                assert(v.visible[k] == x);
            }
            if v.visible.contains(x) {
                let k = choose|k: int| 0 <= k < v.visible.len() && v.visible[k] == x;
                assert(v.visible.push(id)[k] == x);
            }
            if x == id {
                assert(v.visible.push(id)[v.visible.len() as int] == x);
            }
        }
    }
    if v.visible.contains(id) {
        assert(!v.children.contains(id));
        assert forall|x: u32| #[trigger] v.children.push(id).contains(x) <==> v.children.contains(x) || x == id by {
            if v.children.push(id).contains(x) && x != id {
                let k = choose|k: int| 0 <= k < v.children.len() + 1 && v.children.push(id)[k] == x;
                assert(v.children[k] == x);
            }
            if v.children.contains(x) {
                let k = choose|k: int| 0 <= k < v.children.len() && v.children[k] == x;
                assert(v.children.push(id)[k] == x);
            }
            if x == id {
                assert(v.children.push(id)[v.children.len() as int] == x);
            }
        }
    }
}

/// Dropping a peer that is neither visible nor attached leaves the view as it was.
pub proof fn lemma_drop_unknown_is_noop(v: PeersView, id: u32)
    requires
        !v.visible.contains(id),
        !v.children.contains(id),
    ensures
        dropped(v, id) == v,
{
    lemma_filter_absent(v.visible, id);
    lemma_filter_absent(v.children, id);
}

} // verus!
