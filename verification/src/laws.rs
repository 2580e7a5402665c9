//! Laws of the selection controller, stated over the specification
//! functions that the controller's contracts use.

use vstd::prelude::*;

use crate::NodeId;
use crate::controller::no_dups;
use crate::controller::spec_deselect_all;
use crate::controller::spec_deselect_one;
use crate::controller::spec_insert;
use crate::controller::spec_select_one;
use crate::controller::spec_toggle;
use crate::controller::lemma_deselect_one_no_dups;
use crate::controller::lemma_select_one_no_dups;
use crate::controller::lemma_toggle_no_dups;

verus! {

/// One call into the selection controller.
#[derive(Clone, Copy, Debug)]
pub enum SelOp {
    Select { reset: bool, node: NodeId },
    Deselect { node: NodeId },
    Toggle { node: NodeId },
    DeselectAll,
}

/// The selection after one controller call.
pub open spec fn apply_op(s: Seq<NodeId>, op: SelOp) -> Seq<NodeId> {
    match op {
        SelOp::Select { reset, node } => spec_select_one(s, reset, node),
        SelOp::Deselect { node } => spec_deselect_one(s, node),
        SelOp::Toggle { node } => spec_toggle(s, node),
        SelOp::DeselectAll => spec_deselect_all(s),
    }
}

/// The selection after a sequence of controller calls.
pub open spec fn apply_ops(s: Seq<NodeId>, ops: Seq<SelOp>) -> Seq<NodeId>
    decreases ops.len(),
{
    if ops.len() == 0 {
        s
    } else {
        apply_ops(apply_op(s, ops[0]), ops.subrange(1, ops.len() as int))
    }
}

/// One controller call preserves freedom from duplicates.
pub proof fn lemma_apply_op_no_dups(s: Seq<NodeId>, op: SelOp)
    requires
        no_dups(s),
    ensures
        no_dups(apply_op(s, op)),
{
    match op {
        SelOp::Select { reset, node } => lemma_select_one_no_dups(s, reset, node),
        SelOp::Deselect { node } => lemma_deselect_one_no_dups(s, node),
        SelOp::Toggle { node } => lemma_toggle_no_dups(s, node),
        SelOp::DeselectAll => {},
    }
}

/// After any sequence of select, deselect, toggle and clear calls the
/// selection holds no duplicate identifiers.
pub proof fn lemma_apply_ops_no_dups(s: Seq<NodeId>, ops: Seq<SelOp>)
    requires
        no_dups(s),
    ensures
        no_dups(apply_ops(s, ops)),
    decreases ops.len(),
{
    if ops.len() != 0 {
        lemma_apply_op_no_dups(s, ops[0]);
        lemma_apply_ops_no_dups(apply_op(s, ops[0]), ops.subrange(1, ops.len() as int));
    }
}

/// Selecting with reset yields a selection of exactly the one node,
/// whatever was selected before.
pub proof fn lemma_select_reset_exact(s: Seq<NodeId>, node: NodeId)
    ensures
        spec_select_one(s, true, node) == seq![node],
        spec_select_one(s, true, node).to_set() == set![node],
{
    assert(seq![node][0] == node);
    assert(seq![node].contains(node));
    assert(spec_select_one(s, true, node).to_set() =~= set![node]);
}

/// Toggling the same node twice leaves the same identifiers selected; if
/// the node was not selected to begin with, the selection is restored
/// exactly, insertion order included.
pub proof fn lemma_toggle_involution(s: Seq<NodeId>, node: NodeId)
    requires
        no_dups(s),
    ensures
        spec_toggle(spec_toggle(s, node), node).to_set() == s.to_set(),
        !s.contains(node) ==> spec_toggle(spec_toggle(s, node), node) == s,
{
    if !s.contains(node) {
        let t1 = s.push(node);
        assert(t1[s.len() as int] == node);
        assert(t1.contains(node));
        let k = t1.index_of(node);
        assert(0 <= k < t1.len() && t1[k] == node);
        assert(k == s.len()) by {
            if k < s.len() {
                assert(s[k] == node);
            }
        }
        assert(spec_toggle(spec_toggle(s, node), node) == t1.remove(k));
        assert(t1.remove(k) =~= s);
    } else {
        let k = s.index_of(node);
        assert(0 <= k < s.len() && s[k] == node);
        let t1 = s.remove(k);
        assert forall|j: int| 0 <= j < t1.len() implies t1[j] != node by {
            if j < k {
                assert(t1[j] == s[j]);
            } else {
                assert(t1[j] == s[j + 1]);
            }
        }
        assert(!t1.contains(node));
        let t2 = t1.push(node);
        assert(spec_toggle(s, node) == t1);
        assert(spec_toggle(t1, node) == t2);
        assert forall|x: NodeId| s.to_set().contains(x) implies t2.to_set().contains(x) by {
            let j = choose|i: int| 0 <= i < s.len() && s[i] == x;
            if x == node {
                assert(t2[t1.len() as int] == x);
            } else if j < k {
                assert(t1[j] == x);
                assert(t2[j] == x);
            } else {
                assert(j != k);
                assert(t1[j - 1] == x);
                assert(t2[j - 1] == x);
            }
            assert(t2.contains(x));
        }
        assert forall|x: NodeId| t2.to_set().contains(x) implies s.to_set().contains(x) by {
            let j = choose|i: int| 0 <= i < t2.len() && t2[i] == x;
            if j == t1.len() {
                assert(s[k] == x);
            } else {
                assert(t1[j] == x);
                if j < k {
                    assert(s[j] == x);
                } else {
                    assert(s[j + 1] == x);
                }
            }
            assert(s.contains(x));
        }
        assert(t2.to_set() =~= s.to_set());
    }
}

/// Clearing the selection always yields the empty selection, and doing it
/// again changes nothing.
pub proof fn lemma_deselect_all_idempotent(s: Seq<NodeId>)
    ensures
        spec_deselect_all(s) == Seq::<NodeId>::empty(),
        spec_deselect_all(spec_deselect_all(s)) == spec_deselect_all(s),
{
}

/// Selecting a node that is already selected changes nothing.
pub proof fn lemma_insert_idempotent(s: Seq<NodeId>, node: NodeId)
    requires
        s.contains(node),
    ensures
        spec_insert(s, node) == s,
{
}

} // verus!
