use gfx_core::format::{ChannelType, Format, SurfaceType};
use gfx_core::memory::Bind;
use gfx_core::texture;
use old_school_gfx_glutin_ext::{
    initial_views, resize_views, resized_views, resized_views_raw, views_agree, AaMode,
    Dimensions,
    PhysicalSize,
};

const SRGBA8: Format = Format(SurfaceType::R8_G8_B8_A8, ChannelType::Srgb);
const DEPTH_STENCIL: Format = Format(SurfaceType::D24_S8, ChannelType::Unorm);

fn dimensions(width: u16, height: u16, depth: u16, aa_mode: AaMode) -> Dimensions {
    Dimensions { width, height, depth, aa_mode }
}

#[test]
fn aa_mode_of_sample_counts() {
    assert_eq!(AaMode::from_samples(0), AaMode::Single);
    assert_eq!(AaMode::from_samples(1), AaMode::Single);
    assert_eq!(AaMode::from_samples(2), AaMode::Multi(2));
    assert_eq!(AaMode::from_samples(8), AaMode::Multi(8));
    assert_eq!(AaMode::from_samples(255), AaMode::Multi(255));
}

#[test]
fn initial_dimensions_follow_the_window() {
    assert_eq!(
        Dimensions::initial(PhysicalSize::new(1024, 768), 4),
        dimensions(1024, 768, 1, AaMode::Multi(4))
    );
    assert_eq!(
        Dimensions::initial(PhysicalSize::new(1, 1), 0),
        dimensions(1, 1, 1, AaMode::Single)
    );
    assert_eq!(
        Dimensions::initial(PhysicalSize::new(65535, 65535), 1),
        dimensions(65535, 65535, 1, AaMode::Single)
    );
}

#[test]
fn sizes_beyond_a_texture_keep_their_low_bits() {
    assert_eq!(
        Dimensions::initial(PhysicalSize::new(65536, 70000), 0),
        dimensions(0, 4464, 1, AaMode::Single)
    );
    assert_eq!(
        Dimensions::initial(PhysicalSize::new(u32::MAX, 65537), 0),
        dimensions(65535, 1, 1, AaMode::Single)
    );
}

#[test]
fn zero_sized_window_has_no_surface_extent() {
    assert!(PhysicalSize::new(0, 768).non_zero().is_none());
    assert!(PhysicalSize::new(1024, 0).non_zero().is_none());
    assert!(PhysicalSize::new(0, 0).non_zero().is_none());
}

#[test]
fn surface_extent_keeps_the_size() {
    let extent = PhysicalSize::new(1024, 768).non_zero().unwrap();
    assert_eq!((extent.width(), extent.height()), (1024, 768));
    let extent = PhysicalSize::new(1, u32::MAX).non_zero().unwrap();
    assert_eq!((extent.width(), extent.height()), (1, u32::MAX));
}

#[test]
fn same_size_is_no_change() {
    let old = dimensions(1024, 768, 1, AaMode::Multi(4));
    assert_eq!(old.resized(PhysicalSize::new(1024, 768)), None);
    assert!(resized_views_raw(PhysicalSize::new(1024, 768), old, SRGBA8, DEPTH_STENCIL).is_none());
}

#[test]
fn new_width_or_height_replaces_the_dimensions() {
    let old = dimensions(1024, 768, 3, AaMode::Coverage(8, 4));
    assert_eq!(
        old.resized(PhysicalSize::new(800, 768)),
        Some(dimensions(800, 768, 3, AaMode::Coverage(8, 4)))
    );
    assert_eq!(
        old.resized(PhysicalSize::new(1024, 600)),
        Some(dimensions(1024, 600, 3, AaMode::Coverage(8, 4)))
    );
    assert_eq!(
        old.resized(PhysicalSize::new(800, 600)),
        Some(dimensions(800, 600, 3, AaMode::Coverage(8, 4)))
    );
}

#[test]
fn size_beyond_a_texture_is_another_size() {
    let old = dimensions(1024, 768, 1, AaMode::Single);
    assert_eq!(
        old.resized(PhysicalSize::new(65536 + 1024, 768)),
        Some(dimensions(1024, 768, 1, AaMode::Single))
    );
    assert_eq!(
        old.resized(PhysicalSize::new(1024, 65536 + 768)),
        Some(dimensions(1024, 768, 1, AaMode::Single))
    );
    assert_eq!(
        old.resized(PhysicalSize::new(65536, 768)),
        Some(dimensions(0, 768, 1, AaMode::Single))
    );
    assert_eq!(
        old.resized(PhysicalSize::new(70000, u32::MAX)),
        Some(dimensions(4464, 65535, 1, AaMode::Single))
    );
}

#[test]
fn width_of_66560_against_1024_gives_new_views() {
    let old = dimensions(1024, 768, 1, AaMode::Single);
    let (color_view, depth_view) =
        resized_views_raw(PhysicalSize::new(66560, 768), old, SRGBA8, DEPTH_STENCIL)
            .expect("66560 is not 1024");
    let expected = (1024, 768, 1, texture::AaMode::Single);
    assert_eq!(color_view.raw.get_dimensions(), expected);
    assert_eq!(depth_view.raw.get_dimensions(), expected);
}

#[test]
fn resize_to_a_size_beyond_a_texture_replaces_the_views() {
    let (mut color_view, mut depth_view) =
        initial_views(PhysicalSize::new(1024, 768), 0, SRGBA8, DEPTH_STENCIL);
    assert!(resized_views(
        PhysicalSize::new(66560, 768),
        &color_view,
        &depth_view,
        SRGBA8,
        DEPTH_STENCIL
    )
    .is_some());
    resize_views(
        PhysicalSize::new(1024, 65536),
        &mut color_view,
        &mut depth_view,
        SRGBA8,
        DEPTH_STENCIL,
    );
    assert_eq!(color_view.raw.get_dimensions(), (1024, 0, 1, texture::AaMode::Single));
    assert_eq!(depth_view.raw.get_dimensions(), (1024, 0, 1, texture::AaMode::Single));
}

#[test]
fn resizing_twice_changes_nothing_the_second_time() {
    let old = dimensions(1024, 768, 1, AaMode::Multi(2));
    let new_size = PhysicalSize::new(640, 480);
    let replaced = old.resized(new_size).unwrap();
    assert_eq!(replaced.resized(new_size), None);
}

#[test]
fn initial_views_report_the_window_size() {
    let (color_view, depth_view) =
        initial_views(PhysicalSize::new(1024, 768), 4, SRGBA8, DEPTH_STENCIL);
    let expected = (1024, 768, 1, texture::AaMode::Multi(4));
    assert_eq!(color_view.raw.get_dimensions(), expected);
    assert_eq!(depth_view.raw.get_dimensions(), expected);
    assert_eq!(color_view.dimensions(), dimensions(1024, 768, 1, AaMode::Multi(4)));
    assert_eq!(depth_view.dimensions(), dimensions(1024, 768, 1, AaMode::Multi(4)));
}

#[test]
fn views_carry_the_surface_types_of_their_formats() {
    let (color_view, depth_view) =
        initial_views(PhysicalSize::new(320, 200), 0, SRGBA8, DEPTH_STENCIL);
    let color_info = color_view.raw.get_texture().get_info();
    let depth_info = depth_view.raw.get_texture().get_info();
    assert_eq!(color_info.format, SurfaceType::R8_G8_B8_A8);
    assert_eq!(depth_info.format, SurfaceType::D24_S8);
    assert_eq!(color_info.kind, texture::Kind::D2(320, 200, texture::AaMode::Single));
    assert_eq!(depth_info.kind, texture::Kind::D2(320, 200, texture::AaMode::Single));
    assert!(color_info.bind.contains(Bind::RENDER_TARGET));
    assert!(depth_info.bind.contains(Bind::DEPTH_STENCIL));
}

#[test]
fn resized_views_raw_reports_the_new_size() {
    let old = dimensions(1024, 768, 1, AaMode::Multi(8));
    let (color_view, depth_view) =
        resized_views_raw(PhysicalSize::new(800, 600), old, SRGBA8, DEPTH_STENCIL).unwrap();
    let expected = (800, 600, 1, texture::AaMode::Multi(8));
    assert_eq!(color_view.raw.get_dimensions(), expected);
    assert_eq!(depth_view.raw.get_dimensions(), expected);
    assert_eq!(color_view.raw.get_texture().get_info().format, SurfaceType::R8_G8_B8_A8);
    assert_eq!(depth_view.raw.get_texture().get_info().format, SurfaceType::D24_S8);
}

#[test]
fn resized_views_keep_each_format_on_its_own_view() {
    let old = dimensions(1024, 768, 1, AaMode::Single);
    let color = Format(SurfaceType::R16_G16_B16_A16, ChannelType::Float);
    let depth = Format(SurfaceType::D32, ChannelType::Float);
    let (color_view, depth_view) =
        resized_views_raw(PhysicalSize::new(800, 600), old, color, depth).unwrap();
    assert_eq!(color_view.raw.get_texture().get_info().format, SurfaceType::R16_G16_B16_A16);
    assert_eq!(depth_view.raw.get_texture().get_info().format, SurfaceType::D32);

    let (mut color_view, mut depth_view) =
        initial_views(PhysicalSize::new(1024, 768), 0, color, depth);
    resize_views(PhysicalSize::new(800, 600), &mut color_view, &mut depth_view, color, depth);
    assert_eq!(color_view.raw.get_texture().get_info().format, SurfaceType::R16_G16_B16_A16);
    assert_eq!(depth_view.raw.get_texture().get_info().format, SurfaceType::D32);
}

#[test]
fn resized_views_raw_keeps_layers_and_coverage_samples() {
    let old = dimensions(10, 20, 6, AaMode::Coverage(16, 4));
    let (color_view, depth_view) =
        resized_views_raw(PhysicalSize::new(11, 20), old, SRGBA8, DEPTH_STENCIL).unwrap();
    let expected = (11, 20, 6, texture::AaMode::Coverage(16, 4));
    assert_eq!(color_view.raw.get_dimensions(), expected);
    assert_eq!(depth_view.raw.get_dimensions(), expected);
    assert_eq!(color_view.dimensions(), dimensions(11, 20, 6, AaMode::Coverage(16, 4)));
}

#[test]
fn resized_views_reads_the_old_size_from_the_views() {
    let (color_view, depth_view) =
        initial_views(PhysicalSize::new(1024, 768), 2, SRGBA8, DEPTH_STENCIL);
    assert!(resized_views(
        PhysicalSize::new(1024, 768),
        &color_view,
        &depth_view,
        SRGBA8,
        DEPTH_STENCIL
    )
    .is_none());
    let (new_color_view, new_depth_view) = resized_views(
        PhysicalSize::new(1024, 800),
        &color_view,
        &depth_view,
        SRGBA8,
        DEPTH_STENCIL,
    )
    .unwrap();
    let expected = (1024, 800, 1, texture::AaMode::Multi(2));
    assert_eq!(new_color_view.raw.get_dimensions(), expected);
    assert_eq!(new_depth_view.raw.get_dimensions(), expected);
    assert_eq!(color_view.raw.get_dimensions(), (1024, 768, 1, texture::AaMode::Multi(2)));
}

#[test]
fn window_of_1024_by_768_resized_to_800_by_600() {
    let samples = 4;
    let (mut color_view, mut depth_view) =
        initial_views(PhysicalSize::new(1024, 768), samples, SRGBA8, DEPTH_STENCIL);
    let aa_mode = texture::AaMode::from(samples);
    assert_eq!(color_view.raw.get_dimensions(), (1024, 768, 1, aa_mode));
    assert_eq!(depth_view.raw.get_dimensions(), (1024, 768, 1, aa_mode));

    resize_views(
        PhysicalSize::new(800, 600),
        &mut color_view,
        &mut depth_view,
        SRGBA8,
        DEPTH_STENCIL,
    );
    assert_eq!(color_view.raw.get_dimensions(), (800, 600, 1, aa_mode));
    assert_eq!(depth_view.raw.get_dimensions(), (800, 600, 1, aa_mode));
}

#[test]
fn resize_to_the_same_size_keeps_the_views() {
    let (mut color_view, mut depth_view) =
        initial_views(PhysicalSize::new(640, 480), 0, SRGBA8, DEPTH_STENCIL);
    let color_before = color_view.raw.clone();
    let depth_before = depth_view.raw.clone();
    resize_views(
        PhysicalSize::new(640, 480),
        &mut color_view,
        &mut depth_view,
        SRGBA8,
        DEPTH_STENCIL,
    );
    resize_views(
        PhysicalSize::new(640, 480),
        &mut color_view,
        &mut depth_view,
        SRGBA8,
        DEPTH_STENCIL,
    );
    assert_eq!(color_view.raw, color_before);
    assert_eq!(depth_view.raw, depth_before);
    assert_eq!(color_view.raw.get_dimensions(), (640, 480, 1, texture::AaMode::Single));
}

#[test]
fn views_of_one_framebuffer_agree() {
    let (color_view, depth_view) =
        initial_views(PhysicalSize::new(1024, 768), 4, SRGBA8, DEPTH_STENCIL);
    assert!(views_agree(&color_view, &depth_view));
    let (other_color_view, other_depth_view) =
        initial_views(PhysicalSize::new(1024, 600), 4, SRGBA8, DEPTH_STENCIL);
    assert!(views_agree(&other_color_view, &other_depth_view));
    assert!(!views_agree(&color_view, &other_depth_view));
    assert!(!views_agree(&other_color_view, &depth_view));
}

#[test]
fn views_with_other_samples_do_not_agree() {
    let (color_view, _) = initial_views(PhysicalSize::new(64, 64), 4, SRGBA8, DEPTH_STENCIL);
    let (_, depth_view) = initial_views(PhysicalSize::new(64, 64), 8, SRGBA8, DEPTH_STENCIL);
    assert!(!views_agree(&color_view, &depth_view));
}
