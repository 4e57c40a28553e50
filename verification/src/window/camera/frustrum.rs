use vstd::prelude::*;

verus! {

/// The initial placement and projection of a camera, with scalars of type `N`.
#[derive(Clone, Copy, Debug)]
pub struct CameraFrustum<N> {
    /// Where the camera stands.
    pub eye: [N; 3],
    /// The point the camera looks at.
    pub at: [N; 3],
    /// The vertical field of view.
    pub fovy: N,
    /// The distance of the near clipping plane.
    pub znear: N,
    /// The distance of the far clipping plane.
    pub zfar: N,
}

} // verus!
