use snarl_core::NodeId;
use snarl_core::controller::Controller;

#[test]
fn select_keeps_insertion_order_without_duplicates() {
    let mut c = Controller::new();
    c.select_one_node(false, NodeId(3));
    c.select_one_node(false, NodeId(1));
    c.select_one_node(false, NodeId(3));
    c.select_one_node(false, NodeId(2));
    assert_eq!(c.selected_nodes(), &[NodeId(3), NodeId(1), NodeId(2)][..]);
}

#[test]
fn select_with_reset_yields_exactly_one_node() {
    let mut c = Controller::new();
    c.select_one_node(false, NodeId(1));
    c.select_one_node(false, NodeId(2));
    c.select_one_node(true, NodeId(7));
    assert_eq!(c.selected_nodes(), &[NodeId(7)][..]);

    let mut empty = Controller::new();
    empty.select_one_node(true, NodeId(7));
    assert_eq!(empty.selected_nodes(), &[NodeId(7)][..]);
}

#[test]
fn deselect_removes_only_the_named_node() {
    let mut c = Controller::new();
    c.select_one_node(false, NodeId(1));
    c.select_one_node(false, NodeId(2));
    c.select_one_node(false, NodeId(3));
    c.deselect_one_node(NodeId(2));
    assert_eq!(c.selected_nodes(), &[NodeId(1), NodeId(3)][..]);
}

#[test]
fn deselect_absent_node_is_a_no_op() {
    let mut c = Controller::new();
    c.select_one_node(false, NodeId(1));
    c.deselect_one_node(NodeId(9));
    assert_eq!(c.selected_nodes(), &[NodeId(1)][..]);
}

#[test]
fn toggle_selects_then_deselects() {
    let mut c = Controller::new();
    c.toggle_node_selected(NodeId(5));
    assert!(c.is_node_selected(NodeId(5)));
    c.toggle_node_selected(NodeId(5));
    assert!(!c.is_node_selected(NodeId(5)));
}

#[test]
fn toggle_twice_restores_state_for_unselected_node() {
    let mut c = Controller::new();
    c.select_one_node(false, NodeId(1));
    c.select_one_node(false, NodeId(2));
    c.toggle_node_selected(NodeId(9));
    c.toggle_node_selected(NodeId(9));
    assert_eq!(c.selected_nodes(), &[NodeId(1), NodeId(2)][..]);
}

#[test]
fn toggle_twice_restores_membership_for_selected_node() {
    let mut c = Controller::new();
    c.select_one_node(false, NodeId(1));
    c.select_one_node(false, NodeId(2));
    c.toggle_node_selected(NodeId(1));
    c.toggle_node_selected(NodeId(1));
    assert!(c.is_node_selected(NodeId(1)));
    assert!(c.is_node_selected(NodeId(2)));
    assert_eq!(c.selected_nodes().len(), 2);
    // the re-toggled node moves to the end: membership is restored, the
    // insertion order records the new selection
    assert_eq!(c.selected_nodes(), &[NodeId(2), NodeId(1)][..]);
}

#[test]
fn toggle_never_clears_unrelated_selection() {
    let mut c = Controller::new();
    c.select_one_node(false, NodeId(1));
    c.toggle_node_selected(NodeId(2));
    assert!(c.is_node_selected(NodeId(1)));
    assert!(c.is_node_selected(NodeId(2)));
}

#[test]
fn deselect_all_empties_and_is_idempotent() {
    let mut c = Controller::new();
    c.select_one_node(false, NodeId(1));
    c.select_one_node(false, NodeId(2));
    c.deselect_all_nodes();
    assert!(c.selected_nodes().is_empty());
    c.deselect_all_nodes();
    assert!(c.selected_nodes().is_empty());
}

#[test]
fn mixed_sequence_reflects_net_effect_in_order() {
    let mut c = Controller::new();
    c.select_one_node(false, NodeId(4));
    c.toggle_node_selected(NodeId(2));
    c.select_one_node(false, NodeId(4));
    c.deselect_one_node(NodeId(7));
    c.select_one_node(false, NodeId(9));
    c.toggle_node_selected(NodeId(2));
    c.select_one_node(false, NodeId(2));
    assert_eq!(c.selected_nodes(), &[NodeId(4), NodeId(9), NodeId(2)][..]);
    for w in c.selected_nodes().windows(2) {
        assert_ne!(w[0], w[1]);
    }
}

#[test]
fn query_on_empty_controller() {
    let c = Controller::new();
    assert!(!c.is_node_selected(NodeId(0)));
    assert!(c.selected_nodes().is_empty());
}
