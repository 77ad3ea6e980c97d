//! Rendering vocabulary: camera modes and projections, and shader modules.

use vstd::prelude::*;

verus! {

/// Where the camera sits relative to the player.
#[derive(Debug, Clone, Copy, PartialEq, Eq, Structural)]
pub enum CameraMode {
    FirstPerson,
    ThirdPerson,
    Spectator,
}

/// Camera projection.
#[derive(Debug, Clone, Copy, PartialEq, Eq, Structural)]
pub enum Projection {
    Perspective,
    Orthographic,
}

/// A shader module; the WGSL sources are compiled by the GPU backend.
#[derive(Debug, Clone, Copy, PartialEq, Eq, Structural)]
pub struct ShaderModule;

impl ShaderModule {
    pub fn new() -> (s: Self)
        ensures
            s == ShaderModule,
    {
        ShaderModule
    }
}

impl Default for ShaderModule {
    fn default() -> (s: Self)
        ensures
            s == ShaderModule,
    {
        ShaderModule
    }
}

} // verus!
