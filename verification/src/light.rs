//! Tagged spot lights and the shader-facing records derived from them.

use vstd::prelude::*;

verus! {

/// Marker for a spot light that acts as a blacklight.
///
/// The tag carries no data: attaching it to a light declares that the
/// light's transform and cone parameters take part in the per-frame
/// collection. A tagged light is expected to carry spot-light parameters;
/// [`BlacklightSource::new`] makes that pairing explicit by construction.
#[derive(Clone, Copy, Debug)]
pub struct Blacklight;

/// A three-component vector whose coordinates are stored as the raw bit
/// patterns of 32-bit floats.
///
/// Holding the bits rather than the floats lets every contract state that
/// a coordinate is carried verbatim, with no rounding or renormalization.
#[derive(Clone, Copy, Debug, PartialEq, Eq, Structural)]
pub struct Vec3Data {
    /// Bit pattern of the x coordinate.
    pub x: u32,
    /// Bit pattern of the y coordinate.
    pub y: u32,
    /// Bit pattern of the z coordinate.
    pub z: u32,
}

/// Shader data representing a single blacklight.
///
/// Field order matches the buffer layout the fragment shader expects:
/// position, direction, range, inner angle, outer angle.
#[derive(Clone, Copy, Debug, PartialEq, Eq, Structural)]
pub struct BlacklightData {
    /// World-space position of the light.
    pub position: Vec3Data,
    /// World-space direction of the light (normalized by the transform
    /// system; carried unchanged here).
    pub direction: Vec3Data,
    /// Bit pattern of the light's range.
    pub range: u32,
    /// Bit pattern of the light's inner cone angle.
    pub inner_angle: u32,
    /// Bit pattern of the light's outer cone angle.
    pub outer_angle: u32,
}

/// Per-frame snapshot of one tagged spot light, as the scene reports it:
/// whether the light is currently visible, the translation and forward
/// vector of its world transform, and its configured cone parameters.
#[derive(Clone, Copy, Debug, PartialEq, Eq, Structural)]
pub struct BlacklightSource {
    /// Whether the light is visible this frame (not culled).
    pub visible: bool,
    /// Translation component of the light's world transform.
    pub position: Vec3Data,
    /// Forward-facing unit vector of the light's world transform.
    pub direction: Vec3Data,
    /// Bit pattern of the configured range.
    pub range: u32,
    /// Bit pattern of the configured inner cone angle.
    pub inner_angle: u32,
    /// Bit pattern of the configured outer cone angle.
    pub outer_angle: u32,
}

/// The record a source yields: its five light values, copied unchanged.
pub open spec fn record_of(l: BlacklightSource) -> BlacklightData {
    BlacklightData {
        position: l.position,
        direction: l.direction,
        range: l.range,
        inner_angle: l.inner_angle,
        outer_angle: l.outer_angle,
    }
}

impl BlacklightSource {
    /// Build a snapshot of one tagged light.
    ///
    /// The tag itself holds no data, so a snapshot pairs it explicitly
    /// with the visibility flag, transform components and spot-light
    /// parameters that the sync cycle reads.
    pub fn new(
        visible: bool,
        position: Vec3Data,
        direction: Vec3Data,
        range: u32,
        inner_angle: u32,
        outer_angle: u32,
    ) -> (r: Self)
        ensures
            r.visible == visible,
            r.position == position,
            r.direction == direction,
            r.range == range,
            r.inner_angle == inner_angle,
            r.outer_angle == outer_angle,
    {
        BlacklightSource { visible, position, direction, range, inner_angle, outer_angle }
    }

    /// Extract the shader record for this source: a direct, lossless copy
    /// of its position, direction, range and cone angles.
    pub fn record(&self) -> (r: BlacklightData)
        ensures
            r == record_of(*self),
    {
        BlacklightData {
            position: self.position,
            direction: self.direction,
            range: self.range,
            inner_angle: self.inner_angle,
            outer_angle: self.outer_angle,
        }
    }
}

} // verus!
