//! What kind of scene is loaded, and whether it keeps the viewer redrawing.
use vstd::prelude::*;

verus! {

/// Static 3D Gaussians, or 4D Gaussians that move over time.
#[derive(Debug, Clone, Copy, PartialEq, Eq, Structural)]
pub enum SceneType {
    Gaussian3d,
    Gaussian4d,
}

impl SceneType {
    /// Whether the scene changes over time (and so needs every frame redrawn).
    pub fn is_dynamic(self) -> (r: bool)
        ensures
            r == (self == SceneType::Gaussian4d),
    {
        match self {
            SceneType::Gaussian3d => false,
            SceneType::Gaussian4d => true,
        }
    }
}

/// Whether the viewer must ask for another frame after drawing one: while
/// the camera is moving, or always for a dynamic scene.
pub fn should_request_redraw(camera_active: bool, scene_type: SceneType) -> (r: bool)
    ensures
        r == (camera_active || scene_type == SceneType::Gaussian4d),
{
    camera_active || scene_type.is_dynamic()
}

} // verus!
