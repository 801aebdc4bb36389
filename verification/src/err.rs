//! The closed set of geometric-construction failures surfaced to callers.

use vstd::prelude::*;

verus! {

/// A geometric-construction failure.  These are caller-input errors; no retry
/// semantics apply.
#[derive(Clone, Copy, Debug, PartialEq, Eq, Structural)]
pub enum Geom {
    /// `start_edge_chain` was given fewer than three distinct vertices, so no
    /// plane can be established.
    CannotCreatePlane,
    /// `close_edge_chain` was given a chain whose last edge does not terminate
    /// at the first edge's start vertex.
    ChainNotClosed,
}

impl Geom {
    /// The human-readable message of this failure.
    pub open spec fn message_spec(&self) -> Seq<char> {
        match self {
            Geom::CannotCreatePlane => "must provide three distinct vertices to establish a plane"@,
            Geom::ChainNotClosed => "the last edge of the chain must terminate at the start vertex of its first edge"@,
        }
    }

    /// The human-readable message of this failure.
    pub fn message(&self) -> (r: &'static str)
        ensures
            r@ == self.message_spec(),
    {
        match self {
            Geom::CannotCreatePlane => "must provide three distinct vertices to establish a plane",
            Geom::ChainNotClosed => "the last edge of the chain must terminate at the start vertex of its first edge",
        }
    }
}

} // verus!
