//! One pass over the live camera record.
use vstd::prelude::*;

use crate::config::CameraConfig;

verus! {

/// Three single-precision components, each as its bit pattern.
#[derive(Clone, Copy, Debug, PartialEq, Eq, Structural)]
pub struct Vector3 {
    pub x: u32,
    pub y: u32,
    pub z: u32,
}

/// The fields of the host's camera that a pass reads or writes.
#[derive(Clone, Copy, Debug, PartialEq, Eq, Structural)]
pub struct CameraState {
    pub position: Vector3,
    pub forward: Vector3,
    pub fov: u32,
    pub aspect_ratio: u32,
    pub near_plane: u32,
    pub far_plane: u32,
}

/// The camera after one pass: placed at `moved_position` (its position moved
/// back along its forward direction by the distance multiplier), with its lens
/// set to the configuration whatever it held before.
pub open spec fn after_pass(c: CameraState, config: CameraConfig, moved_position: Vector3) -> CameraState {
    CameraState {
        position: moved_position,
        forward: c.forward,
        fov: config.field_of_view,
        aspect_ratio: config.aspect_ratio,
        near_plane: config.render_distance_start,
        far_plane: config.render_distance_end,
    }
}

impl CameraState {
    /// Writes one pass into this camera: the new position, then the four lens
    /// values of `config`, over whatever the host or anyone else left there.
    pub fn apply_config(&mut self, config: &CameraConfig, moved_position: Vector3)
        ensures
            *final(self) == after_pass(*old(self), *config, moved_position),
    {
        self.position = moved_position;
        self.fov = config.field_of_view;
        self.aspect_ratio = config.aspect_ratio;
        self.near_plane = config.render_distance_start;
        self.far_plane = config.render_distance_end;
    }
}

/// One frame's pass. The camera is `None` when the host has none ready: the
/// pass then writes nothing and reports nothing, and the next frame tries
/// again.
pub fn adjust_camera(camera: &mut Option<CameraState>, config: &CameraConfig, moved_position: Vector3)
    ensures
        *final(camera) == match *old(camera) {
            Some(c) => Some(after_pass(c, *config, moved_position)),
            None => None,
        },
{
    if let Some(c) = camera {
        c.apply_config(config, moved_position);
    }
}

/// A pass writes the lens values of the configuration, and a second pass with
/// the same configuration writes the same ones: only the position goes on
/// changing from pass to pass.
pub proof fn lemma_lens_settles_after_one_pass(
    c: CameraState,
    config: CameraConfig,
    first: Vector3,
    second: Vector3,
)
    ensures
        ({
            let once = after_pass(c, config, first);
            let twice = after_pass(once, config, second);
            &&& twice.fov == once.fov
            &&& twice.aspect_ratio == once.aspect_ratio
            &&& twice.near_plane == once.near_plane
            &&& twice.far_plane == once.far_plane
            &&& twice.forward == c.forward
            &&& twice.position == second
        }),
{
}

} // verus!
