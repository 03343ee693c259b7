use vstd::prelude::*;

verus! {

/// The edges of the region in which characters may move, in viewport units.
///
/// A host that follows a window takes a new value whenever the window changes.
#[derive(Clone, Copy, Debug, PartialEq, Eq, Structural)]
pub struct Viewport {
    left: i64,
    right: i64,
    top: i64,
}

impl Viewport {
    /// The left edge.
    pub closed spec fn spec_left(&self) -> i64 {
        self.left
    }

    /// The right edge.
    pub closed spec fn spec_right(&self) -> i64 {
        self.right
    }

    /// The top edge.
    pub closed spec fn spec_top(&self) -> i64 {
        self.top
    }

    /// A viewport with the given edges.
    pub fn new(left: i64, right: i64, top: i64) -> (viewport: Viewport)
        ensures
            viewport.spec_left() == left,
            viewport.spec_right() == right,
            viewport.spec_top() == top,
    {
        Viewport { left, right, top }
    }

    #[verifier::when_used_as_spec(spec_left)]
    pub fn left(&self) -> (edge: i64)
        ensures
            edge == self.spec_left(),
    {
        self.left
    }

    #[verifier::when_used_as_spec(spec_right)]
    pub fn right(&self) -> (edge: i64)
        ensures
            edge == self.spec_right(),
    {
        self.right
    }

    #[verifier::when_used_as_spec(spec_top)]
    pub fn top(&self) -> (edge: i64)
        ensures
            edge == self.spec_top(),
    {
        self.top
    }
}

} // verus!
