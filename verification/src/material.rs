//! Material instances and their mathematical view.

use vstd::prelude::*;
use crate::light::BlacklightData;

verus! {

/// Alpha blending mode used when the renderer draws a material.
///
/// Mirrors the host renderer's blend modes; the mask variant carries its
/// cutoff threshold as the bit pattern of a 32-bit float.
#[derive(Clone, Copy, Debug, PartialEq, Eq, Structural)]
pub enum AlphaMode {
    /// Fully opaque.
    Opaque,
    /// Cut off below the carried alpha threshold.
    Mask(u32),
    /// Standard alpha blending.
    Blend,
    /// Premultiplied alpha blending.
    Premultiplied,
    /// Alpha-to-coverage multisampling.
    AlphaToCoverage,
    /// Additive blending.
    Add,
    /// Multiplicative blending.
    Multiply,
}

/// An RGBA color in linear space, each channel stored as the bit pattern
/// of a 32-bit float.
#[derive(Clone, Copy, Debug, PartialEq, Eq, Structural)]
pub struct LinearRgbaData {
    /// Bit pattern of the red channel.
    pub red: u32,
    /// Bit pattern of the green channel.
    pub green: u32,
    /// Bit pattern of the blue channel.
    pub blue: u32,
    /// Bit pattern of the alpha channel.
    pub alpha: u32,
}

/// Material which is invisible until exposed to light from a spot light
/// tagged as a blacklight.
///
/// An instance holds the light records the shader consumes together with
/// its static appearance parameters. The records are not an instance's
/// own: each sync cycle overwrites them with the one global collection,
/// identically for every instance.
#[derive(Clone, Debug)]
pub struct BlacklightMaterial {
    /// Light records processed by the shader, replaced wholesale each
    /// sync cycle.
    pub lights: Vec<BlacklightData>,
    /// Identifier of the base color texture asset revealed by blacklight
    /// exposure, if any. The host resolves it; this crate carries it.
    pub base_texture: Option<u64>,
    /// Base color of the material; multiplies with the texture.
    pub base_color: LinearRgbaData,
    /// Alpha mode for this material.
    pub alpha_mode: AlphaMode,
}

/// Mathematical view of a material instance: its record sequence and its
/// static appearance parameters.
#[verifier::ext_equal]
pub ghost struct MaterialView {
    /// The record sequence the shader would read.
    pub lights: Seq<BlacklightData>,
    /// Identifier of the base texture asset, if any.
    pub base_texture: Option<u64>,
    /// Base color tint.
    pub base_color: LinearRgbaData,
    /// Alpha blending mode.
    pub alpha_mode: AlphaMode,
}

impl View for BlacklightMaterial {
    type V = MaterialView;

    open spec fn view(&self) -> MaterialView {
        MaterialView {
            lights: self.lights@,
            base_texture: self.base_texture,
            base_color: self.base_color,
            alpha_mode: self.alpha_mode,
        }
    }
}

impl BlacklightMaterial {
    /// Construct a new instance of this material: no light records yet,
    /// the given appearance, and alpha blending enabled.
    pub fn new(base_texture: Option<u64>, base_color: LinearRgbaData) -> (r: Self)
        ensures
            r@.lights == Seq::<BlacklightData>::empty(),
            r@.base_texture == base_texture,
            r@.base_color == base_color,
            r@.alpha_mode == AlphaMode::Blend,
    {
        BlacklightMaterial {
            lights: Vec::new(),
            base_texture,
            base_color,
            alpha_mode: AlphaMode::Blend,
        }
    }

    /// Alpha mode the renderer uses when drawing this material.
    pub fn alpha_mode(&self) -> (r: AlphaMode)
        ensures
            r == self@.alpha_mode,
    {
        self.alpha_mode
    }
}

} // verus!
