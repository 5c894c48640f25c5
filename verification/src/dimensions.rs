//! Window sizes and render-target dimensions.

use vstd::prelude::*;
use crate::gfx::aa_mode_from_samples;

verus! {

/// How the samples of a texel are laid out.
#[derive(Clone, Copy, Debug, PartialEq, Eq, Structural)]
pub enum AaMode {
    /// One sample per texel.
    Single,
    /// Multisampling with the given number of samples.
    Multi(u8),
    /// Coverage sampling with the given numbers of samples and fragments.
    Coverage(u8, u8),
}

/// Width, height, layer count and sample layout of a render target.
#[derive(Clone, Copy, Debug, PartialEq, Eq, Structural)]
pub struct Dimensions {
    pub width: u16,
    pub height: u16,
    pub depth: u16,
    pub aa_mode: AaMode,
}

/// Size of a window's drawable area in physical pixels.
#[derive(Clone, Copy, Debug, PartialEq, Eq, Structural)]
pub struct PhysicalSize {
    pub width: u32,
    pub height: u32,
}

/// A drawable area with at least one pixel in each direction.
#[derive(Clone, Copy, Debug)]
pub struct SurfaceExtent {
    width: u32,
    height: u32,
}

/// The low 16 bits of a pixel count: what a render target can record of it.
pub open spec fn texture_size(pixels: u32) -> u16 {
    (pixels % 0x1_0000) as u16
}

/// Computes [`texture_size`].
pub fn to_texture_size(pixels: u32) -> (size: u16)
    ensures
        size == texture_size(pixels),
        pixels <= u16::MAX ==> size == pixels,
{
    (pixels % 0x1_0000) as u16
}

impl SurfaceExtent {
    #[verifier::type_invariant]
    spec fn positive(self) -> bool {
        self.width > 0 && self.height > 0
    }

    /// The width in pixels.
    pub closed spec fn spec_width(self) -> u32 {
        self.width
    }

    /// The height in pixels.
    pub closed spec fn spec_height(self) -> u32 {
        self.height
    }

    /// The width, never zero.
    pub fn width(&self) -> (w: u32)
        ensures
            w == self.spec_width(),
            w > 0,
    {
        proof {
            use_type_invariant(self);
        }
        self.width
    }

    /// The height, never zero.
    pub fn height(&self) -> (h: u32)
        ensures
            h == self.spec_height(),
            h > 0,
    {
        proof {
            use_type_invariant(self);
        }
        self.height
    }
}

impl PhysicalSize {
    /// A size of `width` by `height` pixels.
    pub fn new(width: u32, height: u32) -> (size: PhysicalSize)
        ensures
            size == (PhysicalSize { width, height }),
    {
        PhysicalSize { width, height }
    }

    /// The size as a surface extent, or `None` if either side is zero: no
    /// surface can be made for such a window.
    pub fn non_zero(self) -> (extent: Option<SurfaceExtent>)
        ensures
            extent is None <==> (self.width == 0 || self.height == 0),
            extent matches Some(e) ==> e.spec_width() == self.width && e.spec_height()
                == self.height,
    {
        if self.width == 0 || self.height == 0 {
            None
        } else {
            Some(SurfaceExtent { width: self.width, height: self.height })
        }
    }
}

impl AaMode {
    /// The mode of a target with `samples` samples per texel: multisampling
    /// for more than one sample, a single sample otherwise.
    pub open spec fn spec_from_samples(samples: u8) -> AaMode {
        if samples > 1 {
            AaMode::Multi(samples)
        } else {
            AaMode::Single
        }
    }

    /// Computes [`AaMode::spec_from_samples`].
    pub fn from_samples(samples: u8) -> (mode: AaMode)
        ensures
            mode == Self::spec_from_samples(samples),
    {
        aa_mode_from_samples(samples)
    }
}

impl Dimensions {
    /// The dimensions of the main render targets of a window of
    /// `window_size` whose configuration has `num_samples` samples: the
    /// window's width and height, one layer, and the mode of the samples.
    pub open spec fn spec_initial(window_size: PhysicalSize, num_samples: u8) -> Dimensions {
        Dimensions {
            width: texture_size(window_size.width),
            height: texture_size(window_size.height),
            depth: 1,
            aa_mode: AaMode::spec_from_samples(num_samples),
        }
    }

    /// Computes [`Dimensions::spec_initial`].
    pub fn initial(window_size: PhysicalSize, num_samples: u8) -> (dimensions: Dimensions)
        ensures
            dimensions == Self::spec_initial(window_size, num_samples),
    {
        Dimensions {
            width: to_texture_size(window_size.width),
            height: to_texture_size(window_size.height),
            depth: 1,
            aa_mode: AaMode::from_samples(num_samples),
        }
    }

    /// The dimensions of targets made for a window of `new_size` in place
    /// of `self`: width and height follow the window, as far as a target
    /// can record them; layer count and sample layout stay.
    pub open spec fn with_size(self, new_size: PhysicalSize) -> Dimensions {
        Dimensions {
            width: texture_size(new_size.width),
            height: texture_size(new_size.height),
            depth: self.depth,
            aa_mode: self.aa_mode,
        }
    }

    /// Whether `new_size` is the width and height of `self`, pixel for
    /// pixel.
    pub open spec fn has_size(self, new_size: PhysicalSize) -> bool {
        new_size.width == self.width && new_size.height == self.height
    }

    /// The dimensions that replace `self` when the window takes `new_size`:
    /// `None` exactly when `new_size` is the width and height of `self`.
    pub open spec fn spec_resized(self, new_size: PhysicalSize) -> Option<Dimensions> {
        if self.has_size(new_size) {
            None
        } else {
            Some(self.with_size(new_size))
        }
    }

    /// Computes [`Dimensions::spec_resized`].
    pub fn resized(self, new_size: PhysicalSize) -> (replaced: Option<Dimensions>)
        ensures
            replaced == self.spec_resized(new_size),
    {
        if new_size.width == self.width as u32 && new_size.height == self.height as u32 {
            None
        } else {
            Some(
                Dimensions {
                    width: to_texture_size(new_size.width),
                    height: to_texture_size(new_size.height),
                    depth: self.depth,
                    aa_mode: self.aa_mode,
                },
            )
        }
    }
}

/// A resize changes nothing exactly when the new size is the width and the
/// height that the targets already have.
pub proof fn lemma_same_size_keeps_dimensions(dimensions: Dimensions, new_size: PhysicalSize)
    ensures
        dimensions.spec_resized(new_size) is None <==> (new_size.width == dimensions.width
            && new_size.height == dimensions.height),
{
}

/// A resize to any other size gives new dimensions. They keep the layer
/// count and the sample layout, and they have exactly the new width and the
/// new height wherever these are sizes that a target can record.
pub proof fn lemma_new_size_replaces_dimensions(dimensions: Dimensions, new_size: PhysicalSize)
    requires
        new_size.width != dimensions.width || new_size.height != dimensions.height,
    ensures
        dimensions.spec_resized(new_size) matches Some(replaced) && {
            &&& replaced.depth == dimensions.depth
            &&& replaced.aa_mode == dimensions.aa_mode
            &&& new_size.width <= u16::MAX ==> replaced.width == new_size.width
            &&& new_size.height <= u16::MAX ==> replaced.height == new_size.height
        },
{
}

/// Resizing is idempotent for the sizes that a target can record: after a
/// resize to `new_size`, a second resize to the same size changes nothing.
pub proof fn lemma_resize_twice_is_no_change(dimensions: Dimensions, new_size: PhysicalSize)
    requires
        new_size.width <= u16::MAX,
        new_size.height <= u16::MAX,
    ensures
        dimensions.spec_resized(new_size) matches Some(replaced) ==> replaced.spec_resized(
            new_size,
        ) is None,
{
}

} // verus!
