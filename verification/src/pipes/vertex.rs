use vstd::prelude::*;

verus! {

/// A record that a vertex buffer can hold.
///
/// One record expands into `weight()` vertices when it is drawn: a point is
/// one vertex, a line segment two, a frustum glyph twelve.
pub trait GpuVertex {
    /// The number of vertices one record stands for.
    spec fn spec_weight() -> u64;

    /// Returns the number of vertices one record stands for.
    fn weight() -> (w: u64)
        ensures
            w == Self::spec_weight(),
    ;
}

} // verus!
