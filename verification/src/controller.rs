//! The selection controller: the single authorized mutator of the
//! selected-node set.
//!
//! The selection is an ordered set: node identifiers in insertion order,
//! with no duplicates. Every operation is total; selecting a node that is
//! already selected, or deselecting one that is not, is a silent no-op.

use vstd::prelude::*;

use crate::NodeId;

verus! {

/// No identifier occurs twice in the sequence.
pub open spec fn no_dups(s: Seq<NodeId>) -> bool {
    forall|i: int, j: int| 0 <= i < j < s.len() ==> s[i] != s[j]
}

/// Effect of selecting `node` without clearing: appended at the end unless
/// already present.
pub open spec fn spec_insert(s: Seq<NodeId>, node: NodeId) -> Seq<NodeId> {
    if s.contains(node) {
        s
    } else {
        s.push(node)
    }
}

/// Effect of `select_one_node`: with `reset` the selection becomes exactly
/// the one node, otherwise the node is appended unless already present.
pub open spec fn spec_select_one(s: Seq<NodeId>, reset: bool, node: NodeId) -> Seq<NodeId> {
    if reset {
        seq![node]
    } else {
        spec_insert(s, node)
    }
}

/// Effect of `deselect_one_node`: the occurrence of `node` is removed,
/// the order of the remaining identifiers is kept.
pub open spec fn spec_deselect_one(s: Seq<NodeId>, node: NodeId) -> Seq<NodeId> {
    if s.contains(node) {
        s.remove(s.index_of(node))
    } else {
        s
    }
}

/// Effect of `deselect_all_nodes`: nothing stays selected.
pub open spec fn spec_deselect_all(s: Seq<NodeId>) -> Seq<NodeId> {
    Seq::empty()
}

/// Effect of `toggle_node_selected`: deselect if present, otherwise select
/// without clearing the rest.
pub open spec fn spec_toggle(s: Seq<NodeId>, node: NodeId) -> Seq<NodeId> {
    if s.contains(node) {
        spec_deselect_one(s, node)
    } else {
        spec_select_one(s, false, node)
    }
}

/// Position of the first occurrence of `node` in `v`, if any.
fn find_node(v: &Vec<NodeId>, node: NodeId) -> (r: Option<usize>)
    ensures
        match r {
            Some(i) => 0 <= i < v@.len() && v@[i as int] == node,
            None => !v@.contains(node),
        },
{
    let mut i: usize = 0;
    while i < v.len()
        invariant
            0 <= i <= v.len(),
            forall|j: int| 0 <= j < i ==> v@[j] != node,
        decreases v.len() - i,
    {
        if v[i] == node {
            return Some(i);
        }
        i += 1;
    }
    None
}

/// Mediates all mutation of the selected-node set.
pub struct Controller {
    selected: Vec<NodeId>,
}

impl View for Controller {
    type V = Seq<NodeId>;

    closed spec fn view(&self) -> Seq<NodeId> {
        self.selected@
    }
}

impl Controller {
    /// The selection holds no duplicate identifiers.
    pub open spec fn wf(self) -> bool {
        no_dups(self@)
    }

    /// A controller with nothing selected.
    pub fn new() -> (c: Controller)
        ensures
            c@ == Seq::<NodeId>::empty(),
            c.wf(),
    {
        Controller { selected: Vec::new() }
    }

    /// Returns true if the given node is selected.
    pub fn is_node_selected(&self, node: NodeId) -> (r: bool)
        ensures
            r == self@.contains(node),
    {
        let r = find_node(&self.selected, node);
        r.is_some()
    }

    /// Select one node.
    /// If `reset` is true, the previous selection will be cleared.
    pub fn select_one_node(&mut self, reset: bool, node: NodeId)
        requires
            old(self).wf(),
        ensures
            final(self)@ == spec_select_one(old(self)@, reset, node),
            final(self).wf(),
    {
        if reset {
            self.selected.clear();
            self.selected.push(node);
            proof {
                assert(self@ =~= seq![node]);
            }
        } else {
            if !self.is_node_selected(node) {
                self.selected.push(node);
            }
        }
        proof {
            lemma_select_one_no_dups(old(self)@, reset, node);
        }
    }

    /// Deselect one node. Does nothing if the node is not selected.
    pub fn deselect_one_node(&mut self, node: NodeId)
        requires
            old(self).wf(),
        ensures
            final(self)@ == spec_deselect_one(old(self)@, node),
            final(self).wf(),
    {
        let ghost s = old(self)@;
        match find_node(&self.selected, node) {
            Some(i) => {
                self.selected.remove(i);
                proof {
                    assert(s.contains(node));
                    let k = s.index_of(node);
                    assert(0 <= k < s.len() && s[k] == node);
                    assert(k == i) by {
                        if k != i {
                            assert(s[k] == s[i as int]);
                        }
                    }
                    lemma_deselect_one_no_dups(s, node);
                }
            },
            None => {
                proof {
                    assert(!s.contains(node));
                }
            },
        }
    }

    /// Toggle selection of one node: deselects it if selected, otherwise
    /// selects it without clearing the rest of the selection.
    pub fn toggle_node_selected(&mut self, node: NodeId)
        requires
            old(self).wf(),
        ensures
            final(self)@ == spec_toggle(old(self)@, node),
            final(self).wf(),
    {
        if self.is_node_selected(node) {
            self.deselect_one_node(node);
        } else {
            self.select_one_node(false, node);
        }
    }

    /// Deselect all nodes.
    pub fn deselect_all_nodes(&mut self)
        ensures
            final(self)@ == spec_deselect_all(old(self)@),
            final(self)@ == Seq::<NodeId>::empty(),
            final(self).wf(),
    {
        self.selected.clear();
    }

    /// Returns the selected nodes, in insertion order.
    pub fn selected_nodes(&self) -> (r: &[NodeId])
        ensures
            r@ == self@,
    {
        self.selected.as_slice()
    }
}

/// Selecting preserves freedom from duplicates.
pub proof fn lemma_select_one_no_dups(s: Seq<NodeId>, reset: bool, node: NodeId)
    requires
        no_dups(s),
    ensures
        no_dups(spec_select_one(s, reset, node)),
{
    if !reset && !s.contains(node) {
        let t = s.push(node);
        assert forall|i: int, j: int| 0 <= i < j < t.len() implies t[i] != t[j] by {
            if j == s.len() {
                assert(t[i] == s[i]);
                assert(s.contains(s[i]));
            }
        }
    }
}

/// Deselecting preserves freedom from duplicates.
pub proof fn lemma_deselect_one_no_dups(s: Seq<NodeId>, node: NodeId)
    requires
        no_dups(s),
    ensures
        no_dups(spec_deselect_one(s, node)),
{
    if s.contains(node) {
        let k = s.index_of(node);
        let t = s.remove(k);
        assert forall|i: int, j: int| 0 <= i < j < t.len() implies t[i] != t[j] by {
            let si: int = if i < k { i } else { i + 1 };
            let sj: int = if j < k { j } else { j + 1 };
            assert(t[i] == s[si]);
            assert(t[j] == s[sj]);
        }
    }
}

/// Toggling preserves freedom from duplicates.
pub proof fn lemma_toggle_no_dups(s: Seq<NodeId>, node: NodeId)
    requires
        no_dups(s),
    ensures
        no_dups(spec_toggle(s, node)),
{
    if s.contains(node) {
        lemma_deselect_one_no_dups(s, node);
    } else {
        lemma_select_one_no_dups(s, false, node);
    }
}

} // verus!
