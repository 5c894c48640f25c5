//! Making the main render-target views and replacing them on a resize.

use vstd::prelude::*;
use gfx_core::format::Format;
use crate::dimensions::{Dimensions, PhysicalSize};
use crate::gfx::{
    color_dimensions, color_view_dimensions, color_view_surface, create_main_targets,
    depth_dimensions, depth_view_dimensions, depth_view_surface, format_surface, ColorView,
    DepthView,
};

verus! {

impl ColorView {
    /// The dimensions the view reports.
    pub fn dimensions(&self) -> (dimensions: Dimensions)
        ensures
            dimensions == color_view_dimensions(*self),
    {
        color_dimensions(self)
    }
}

impl DepthView {
    /// The dimensions the view reports.
    pub fn dimensions(&self) -> (dimensions: Dimensions)
        ensures
            dimensions == depth_view_dimensions(*self),
    {
        depth_dimensions(self)
    }
}

/// Whether the two views belong together: a color view and a depth/stencil
/// view of one framebuffer report the same dimensions.
pub open spec fn spec_views_agree(color_view: ColorView, depth_view: DepthView) -> bool {
    color_view_dimensions(color_view) == depth_view_dimensions(depth_view)
}

/// Computes [`spec_views_agree`]: the test to make before a resize of views
/// that come from elsewhere.
pub fn views_agree(color_view: &ColorView, depth_view: &DepthView) -> (agree: bool)
    ensures
        agree == spec_views_agree(*color_view, *depth_view),
{
    color_view.dimensions() == depth_view.dimensions()
}

/// Makes the first color and depth/stencil views of a window of
/// `window_size` whose configuration has `num_samples` samples.
pub fn initial_views(
    window_size: PhysicalSize,
    num_samples: u8,
    color_fmt: Format,
    ds_fmt: Format,
) -> (views: (ColorView, DepthView))
    ensures
        color_view_dimensions(views.0) == Dimensions::spec_initial(window_size, num_samples),
        depth_view_dimensions(views.1) == Dimensions::spec_initial(window_size, num_samples),
        spec_views_agree(views.0, views.1),
        color_view_surface(views.0) == format_surface(color_fmt),
        depth_view_surface(views.1) == format_surface(ds_fmt),
{
    create_main_targets(Dimensions::initial(window_size, num_samples), color_fmt, ds_fmt)
}

/// Returns new views if `new_size` is not the width and height of
/// `old_dimensions`, and `None` if it is. The new views are made for the
/// surface types of the two formats; they have the new width and height, as
/// far as a target can record them, and keep the layer count and the sample
/// layout.
#[must_use]
pub fn resized_views_raw(
    new_size: PhysicalSize,
    old_dimensions: Dimensions,
    color_fmt: Format,
    ds_fmt: Format,
) -> (views: Option<(ColorView, DepthView)>)
    ensures
        match old_dimensions.spec_resized(new_size) {
            None => views is None,
            Some(new_dimensions) => {
                &&& views matches Some((color_view, depth_view))
                &&& color_view_dimensions(color_view) == new_dimensions
                &&& depth_view_dimensions(depth_view) == new_dimensions
                &&& color_view_surface(color_view) == format_surface(color_fmt)
                &&& depth_view_surface(depth_view) == format_surface(ds_fmt)
            },
        },
{
    match old_dimensions.resized(new_size) {
        None => None,
        Some(new_dimensions) => Some(create_main_targets(new_dimensions, color_fmt, ds_fmt)),
    }
}

/// Returns new views if `new_size` is not the width and height that the
/// given views report, and `None` if it is.
///
/// The two views must belong together, as [`views_agree`] tests it.
#[must_use]
#[allow(unused_variables)]
pub fn resized_views(
    new_size: PhysicalSize,
    color_view: &ColorView,
    depth_view: &DepthView,
    color_fmt: Format,
    ds_fmt: Format,
) -> (views: Option<(ColorView, DepthView)>)
    requires
        spec_views_agree(*color_view, *depth_view),
    ensures
        match color_view_dimensions(*color_view).spec_resized(new_size) {
            None => views is None,
            Some(new_dimensions) => {
                &&& views matches Some((new_color_view, new_depth_view))
                &&& color_view_dimensions(new_color_view) == new_dimensions
                &&& depth_view_dimensions(new_depth_view) == new_dimensions
                &&& color_view_surface(new_color_view) == format_surface(color_fmt)
                &&& depth_view_surface(new_depth_view) == format_surface(ds_fmt)
            },
        },
{
    let old_dimensions = color_view.dimensions();
    resized_views_raw(new_size, old_dimensions, color_fmt, ds_fmt)
}

/// Replaces both views if `new_size` is not the width and height that they
/// report, and leaves both as they are if it is.
///
/// The two views must belong together, as [`views_agree`] tests it, and they
/// do so afterwards.
pub fn resize_views(
    new_size: PhysicalSize,
    color_view: &mut ColorView,
    depth_view: &mut DepthView,
    color_fmt: Format,
    ds_fmt: Format,
)
    requires
        spec_views_agree(*old(color_view), *old(depth_view)),
    ensures
        match color_view_dimensions(*old(color_view)).spec_resized(new_size) {
            None => *final(color_view) == *old(color_view) && *final(depth_view) == *old(
                depth_view,
            ),
            Some(new_dimensions) => {
                &&& color_view_dimensions(*final(color_view)) == new_dimensions
                &&& depth_view_dimensions(*final(depth_view)) == new_dimensions
                &&& color_view_surface(*final(color_view)) == format_surface(color_fmt)
                &&& depth_view_surface(*final(depth_view)) == format_surface(ds_fmt)
            },
        },
        spec_views_agree(*final(color_view), *final(depth_view)),
{
    if let Some((cv, dv)) = resized_views(new_size, color_view, depth_view, color_fmt, ds_fmt) {
        *color_view = cv;
        *depth_view = dv;
    }
}

} // verus!
