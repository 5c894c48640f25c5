//! The boundary to `gfx_core` and `gfx_device_gl`.
//!
//! Everything in this module is believed, not proved: the declarations make
//! the outside types known, the uninterpreted functions name what the outside
//! functions return, and each wrapper states what the outside function does
//! with its arguments.

use vstd::prelude::*;
use gfx_core::format::{ChannelType, Format, SurfaceType};
use gfx_core::handle::{RawDepthStencilView, RawRenderTargetView};
use gfx_core::texture::AaMode as GfxAaMode;
use gfx_device_gl::{create_main_targets_raw, Resources};
use crate::dimensions::{AaMode, Dimensions};

verus! {

/// `gfx_core::format::Format`: a surface type together with a channel type.
#[verifier::external_type_specification]
#[verifier::external_body]
pub struct ExFormat(gfx_core::format::Format);

/// `gfx_core::format::SurfaceType`: the layout of a texel's bits.
#[verifier::external_type_specification]
#[verifier::external_body]
pub struct ExSurfaceType(gfx_core::format::SurfaceType);

/// The surface type that `format` holds: its first field.
pub uninterp spec fn format_surface(format: Format) -> SurfaceType;

/// What `SurfaceType::get_total_bits` returns for the surface type of
/// `format`: the number of bits of one texel.
pub uninterp spec fn total_bits(format: Format) -> u8;

/// What `SurfaceType::get_alpha_stencil_bits` returns for the surface type of
/// `format`: the bits of a texel taken by alpha (color) or stencil (depth).
pub uninterp spec fn alpha_stencil_bits(format: Format) -> u8;

/// Whether the channel type of `format` is `ChannelType::Srgb`.
pub uninterp spec fn is_srgb(format: Format) -> bool;

/// Calls `SurfaceType::get_total_bits` on the surface type of `format`. The
/// result is the size in bits of the surface's data type.
#[verifier::external_body]
pub(crate) fn surface_total_bits(format: Format) -> (bits: u8)
    ensures
        bits == total_bits(format),
{
    format.0.get_total_bits()
}

/// Calls `SurfaceType::get_alpha_stencil_bits` on the surface type of
/// `format`. For every surface type the table gives an alpha/stencil size
/// that is at most the size of the data type.
#[verifier::external_body]
pub(crate) fn surface_alpha_stencil_bits(format: Format) -> (bits: u8)
    ensures
        bits == alpha_stencil_bits(format),
        bits <= total_bits(format),
{
    format.0.get_alpha_stencil_bits()
}

/// Compares the channel type of `format` with `ChannelType::Srgb`, by the
/// equality that `gfx_core` derives for `ChannelType`.
#[verifier::external_body]
pub(crate) fn channel_is_srgb(format: Format) -> (srgb: bool)
    ensures
        srgb == is_srgb(format),
{
    format.1 == ChannelType::Srgb
}

/// The color target of the main framebuffer: a `RawRenderTargetView` of the
/// OpenGL backend.
#[verifier::external_body]
#[derive(Debug)]
pub struct ColorView {
    pub raw: RawRenderTargetView<Resources>,
}

/// The depth/stencil target of the main framebuffer: a `RawDepthStencilView`
/// of the OpenGL backend.
#[verifier::external_body]
#[derive(Debug)]
pub struct DepthView {
    pub raw: RawDepthStencilView<Resources>,
}

/// What `RawRenderTargetView::get_dimensions` returns for the handle in
/// `view`: the dimensions the view was made with.
pub uninterp spec fn color_view_dimensions(view: ColorView) -> Dimensions;

/// What `RawDepthStencilView::get_dimensions` returns for the handle in
/// `view`: the dimensions the view was made with.
pub uninterp spec fn depth_view_dimensions(view: DepthView) -> Dimensions;

/// The surface type of the texture behind the handle in `view`: what
/// `get_texture().get_info().format` reads of it.
pub uninterp spec fn color_view_surface(view: ColorView) -> SurfaceType;

/// The surface type of the texture behind the handle in `view`: what
/// `get_texture().get_info().format` reads of it.
pub uninterp spec fn depth_view_surface(view: DepthView) -> SurfaceType;

/// Calls `gfx_core`'s conversion from a sample count to an anti-aliasing
/// mode: multisampling for more than one sample, a single sample otherwise.
#[verifier::external_body]
pub(crate) fn aa_mode_from_samples(samples: u8) -> (mode: AaMode)
    ensures
        mode == (if samples > 1 { AaMode::Multi(samples) } else { AaMode::Single }),
{
    match GfxAaMode::from(samples) {
        GfxAaMode::Single => AaMode::Single,
        GfxAaMode::Multi(samples) => AaMode::Multi(samples),
        GfxAaMode::Coverage(samples, fragments) => AaMode::Coverage(samples, fragments),
    }
}

/// Calls `gfx_device_gl::create_main_targets_raw` with the dimensions and the
/// surface types of the two formats. It makes the views of the main
/// framebuffer's attachments without touching the context, records the
/// dimensions in both, and gives the color view a texture of the first
/// surface type and the depth/stencil view one of the second.
#[verifier::external_body]
pub(crate) fn create_main_targets(
    dimensions: Dimensions,
    color_format: Format,
    depth_format: Format,
) -> (views: (ColorView, DepthView))
    ensures
        color_view_dimensions(views.0) == dimensions,
        depth_view_dimensions(views.1) == dimensions,
        color_view_surface(views.0) == format_surface(color_format),
        depth_view_surface(views.1) == format_surface(depth_format),
{
    let aa_mode = match dimensions.aa_mode {
        AaMode::Single => GfxAaMode::Single,
        AaMode::Multi(samples) => GfxAaMode::Multi(samples),
        AaMode::Coverage(samples, fragments) => GfxAaMode::Coverage(samples, fragments),
    };
    let dim = (dimensions.width, dimensions.height, dimensions.depth, aa_mode);
    let (color, depth) = create_main_targets_raw(dim, color_format.0, depth_format.0);
    (ColorView { raw: color }, DepthView { raw: depth })
}

/// Calls `RawRenderTargetView::get_dimensions`, which reads the dimensions
/// recorded in the view.
#[verifier::external_body]
pub(crate) fn color_dimensions(view: &ColorView) -> (dimensions: Dimensions)
    ensures
        dimensions == color_view_dimensions(*view),
{
    let (width, height, depth, aa_mode) = view.raw.get_dimensions();
    let aa_mode = match aa_mode {
        GfxAaMode::Single => AaMode::Single,
        GfxAaMode::Multi(samples) => AaMode::Multi(samples),
        GfxAaMode::Coverage(samples, fragments) => AaMode::Coverage(samples, fragments),
    };
    Dimensions { width, height, depth, aa_mode }
}

/// Calls `RawDepthStencilView::get_dimensions`, which reads the dimensions
/// recorded in the view.
#[verifier::external_body]
pub(crate) fn depth_dimensions(view: &DepthView) -> (dimensions: Dimensions)
    ensures
        dimensions == depth_view_dimensions(*view),
{
    let (width, height, depth, aa_mode) = view.raw.get_dimensions();
    let aa_mode = match aa_mode {
        GfxAaMode::Single => AaMode::Single,
        GfxAaMode::Multi(samples) => AaMode::Multi(samples),
        GfxAaMode::Coverage(samples, fragments) => AaMode::Coverage(samples, fragments),
    };
    Dimensions { width, height, depth, aa_mode }
}

} // verus!
