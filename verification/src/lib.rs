//! Core logic of an interactive node-graph canvas: the selection controller
//! that mediates all changes to the set of selected nodes, and the style
//! resolver that turns optional per-parameter overrides, the host's ambient
//! style and the viewport zoom into concrete visual parameters.
//!
//! All on-screen dimensions are carried as fixed-point integers counting
//! thousandths of a canvas unit, so that scaling by the viewport zoom is
//! exact integer arithmetic; the zoom factor itself is a thousandths value
//! (`1000` is 1:1).

use vstd::prelude::*;

pub mod controller;
pub mod laws;
pub mod style;
pub mod types;

verus! {

/// Identifier of a node in the graph.
#[derive(Clone, Copy, PartialEq, Eq, Structural, Debug, Hash)]
pub struct NodeId(pub usize);

} // verus!
