//! What a pair of formats asks of a display configuration.

use vstd::prelude::*;
use gfx_core::format::Format;
use crate::gfx::{
    alpha_stencil_bits, channel_is_srgb, is_srgb, surface_alpha_stencil_bits,
    surface_total_bits, total_bits,
};

verus! {

/// The sizes a configuration must have to back a color format and a
/// depth/stencil format.
#[derive(Clone, Copy, Debug, PartialEq, Eq, Structural)]
pub struct FormatRequest {
    /// Bits of the color channels, alpha not counted.
    pub color_bits: u8,
    /// Bits of the alpha channel.
    pub alpha_bits: u8,
    /// Bits of the depth buffer, stencil not counted.
    pub depth_bits: u8,
    /// Bits of the stencil buffer.
    pub stencil_bits: u8,
    /// Whether the color buffer must be sRGB-encoded.
    pub srgb: bool,
}

/// The minimum sizes handed to the platform when it lists configurations.
#[derive(Clone, Copy, Debug, PartialEq, Eq, Structural)]
pub struct TemplateSizes {
    pub alpha_size: u8,
    pub depth_size: u8,
    pub stencil_size: u8,
}

impl FormatRequest {
    /// A request for exactly these sizes.
    pub fn new(
        color_bits: u8,
        alpha_bits: u8,
        depth_bits: u8,
        stencil_bits: u8,
        srgb: bool,
    ) -> (request: FormatRequest)
        ensures
            request == (FormatRequest { color_bits, alpha_bits, depth_bits, stencil_bits, srgb }),
    {
        FormatRequest { color_bits, alpha_bits, depth_bits, stencil_bits, srgb }
    }

    /// The request that `color_format` and `depth_format` stand for.
    pub open spec fn spec_of_formats(color_format: Format, depth_format: Format) -> FormatRequest {
        FormatRequest {
            color_bits: (total_bits(color_format) - alpha_stencil_bits(color_format)) as u8,
            alpha_bits: alpha_stencil_bits(color_format),
            depth_bits: (total_bits(depth_format) - alpha_stencil_bits(depth_format)) as u8,
            stencil_bits: alpha_stencil_bits(depth_format),
            srgb: is_srgb(color_format),
        }
    }

    /// Derives the request from a color format and a depth/stencil format:
    /// alpha and stencil sizes as the surface types give them, color and
    /// depth sizes as what is left of a texel, and sRGB where the color
    /// channel is sRGB.
    pub fn of_formats(color_format: Format, depth_format: Format) -> (request: FormatRequest)
        ensures
            request == Self::spec_of_formats(color_format, depth_format),
            request.color_bits == total_bits(color_format) - alpha_stencil_bits(color_format),
            request.depth_bits == total_bits(depth_format) - alpha_stencil_bits(depth_format),
            alpha_stencil_bits(color_format) <= total_bits(color_format),
            alpha_stencil_bits(depth_format) <= total_bits(depth_format),
    {
        let color_total_bits = surface_total_bits(color_format);
        let alpha_bits = surface_alpha_stencil_bits(color_format);
        let depth_total_bits = surface_total_bits(depth_format);
        let stencil_bits = surface_alpha_stencil_bits(depth_format);
        let srgb = channel_is_srgb(color_format);
        FormatRequest {
            color_bits: color_total_bits - alpha_bits,
            alpha_bits,
            depth_bits: depth_total_bits - stencil_bits,
            stencil_bits,
            srgb,
        }
    }

    /// The sizes the configuration template asks for: alpha, depth and
    /// stencil exactly as requested.
    pub fn template_sizes(&self) -> (sizes: TemplateSizes)
        ensures
            sizes == (TemplateSizes {
                alpha_size: self.alpha_bits,
                depth_size: self.depth_bits,
                stencil_size: self.stencil_bits,
            }),
    {
        TemplateSizes {
            alpha_size: self.alpha_bits,
            depth_size: self.depth_bits,
            stencil_size: self.stencil_bits,
        }
    }

    /// The sRGB setting of a surface whose attributes the caller left open:
    /// sRGB is asked for exactly when the request is sRGB, and otherwise the
    /// platform's default stands.
    pub fn default_surface_srgb(&self) -> (srgb: Option<bool>)
        ensures
            srgb == (if self.srgb { Some(true) } else { None::<bool> }),
    {
        if self.srgb {
            Some(true)
        } else {
            None
        }
    }
}

} // verus!
