//! Swapchain configuration policy.
//!
//! Given what the surface reports — its pixel formats, present modes and
//! capabilities — these functions decide how the presentable image chain is
//! built: which format and color space to render into, which present mode to
//! use, how many images to request, and what the image extent is. The
//! numeric format, color-space and present-mode codes are the graphics API's
//! own raw values, handed in unchanged by the caller.

use vstd::prelude::*;

verus! {

/// Raw code of the preferred 8-bit BGRA format with sRGB encoding.
pub const FORMAT_B8G8R8A8_SRGB: u32 = 50;

/// Raw code of the non-linear sRGB color space.
pub const COLOR_SPACE_SRGB_NONLINEAR: u32 = 0;

/// Raw code of the triple-buffering, low-latency present mode.
pub const PRESENT_MODE_MAILBOX: u32 = 1;

/// Raw code of the universally supported vsync present mode.
pub const PRESENT_MODE_FIFO: u32 = 2;

/// Sentinel extent width meaning the surface leaves the extent undefined.
pub const EXTENT_UNDEFINED: u32 = 0xFFFF_FFFF;

/// A pixel format paired with the color space it is presented in.
#[derive(Clone, Copy, PartialEq, Eq, Structural, Debug)]
pub struct SurfaceFormat {
    pub format: u32,
    pub color_space: u32,
}

/// The surface capabilities the swapchain policy reads: the image count
/// bounds (a max of 0 means unbounded) and the current extent, whose width
/// may be the undefined sentinel.
#[derive(Clone, Copy, PartialEq, Eq, Structural, Debug)]
pub struct SurfaceCaps {
    pub min_image_count: u32,
    pub max_image_count: u32,
    pub current_extent_width: u32,
    pub current_extent_height: u32,
}

/// A width and height in pixels.
#[derive(Clone, Copy, PartialEq, Eq, Structural, Debug)]
pub struct Extent {
    pub width: u32,
    pub height: u32,
}

/// Everything the shell needs to create the swapchain.
#[derive(Clone, Copy, PartialEq, Eq, Structural, Debug)]
pub struct SwapchainConfig {
    pub format: u32,
    pub color_space: u32,
    pub present_mode: u32,
    pub image_count: u32,
    pub extent: Extent,
}

/// The format the policy prefers: 8-bit BGRA with non-linear sRGB.
pub open spec fn is_preferred_format(f: SurfaceFormat) -> bool {
    f.format == FORMAT_B8G8R8A8_SRGB && f.color_space == COLOR_SPACE_SRGB_NONLINEAR
}

/// The chosen surface format: the preferred BGRA/sRGB pair when the surface
/// reports it, otherwise the first format the surface reports.
pub open spec fn spec_surface_format(formats: Seq<SurfaceFormat>) -> SurfaceFormat
    recommends
        formats.len() > 0,
{
    if exists|i: int| 0 <= i < formats.len() && is_preferred_format(formats[i]) {
        SurfaceFormat { format: FORMAT_B8G8R8A8_SRGB, color_space: COLOR_SPACE_SRGB_NONLINEAR }
    } else {
        formats[0]
    }
}

/// The chosen present mode: mailbox when supported, else FIFO.
pub open spec fn spec_present_mode(modes: Seq<u32>) -> u32 {
    if modes.contains(PRESENT_MODE_MAILBOX) {
        PRESENT_MODE_MAILBOX
    } else {
        PRESENT_MODE_FIFO
    }
}

/// The requested image count: one more than the minimum, clamped to the
/// maximum when the surface bounds it (a max of 0 means unbounded).
pub open spec fn spec_image_count(min_image_count: int, max_image_count: int) -> int {
    if max_image_count > 0 && min_image_count + 1 > max_image_count {
        max_image_count
    } else {
        min_image_count + 1
    }
}

/// The resolved extent: the window's logical size when the surface reports
/// the undefined sentinel, otherwise the surface's current extent verbatim.
pub open spec fn spec_extent(caps: SurfaceCaps, window_width: u32, window_height: u32) -> Extent {
    if caps.current_extent_width == EXTENT_UNDEFINED {
        Extent { width: window_width, height: window_height }
    } else {
        Extent { width: caps.current_extent_width, height: caps.current_extent_height }
    }
}

/// Selects the surface format: the BGRA/sRGB pair when present, else the
/// first reported format.
pub fn choose_surface_format(formats: &Vec<SurfaceFormat>) -> (chosen: SurfaceFormat)
    requires
        formats@.len() > 0,
    ensures
        chosen == spec_surface_format(formats@),
{
    let mut chosen = formats[0];
    let mut idx: usize = 0;
    while idx < formats.len()
        invariant
            formats@.len() > 0,
            idx <= formats@.len(),
            if exists|i: int| 0 <= i < idx && is_preferred_format(formats@[i]) {
                is_preferred_format(chosen)
            } else {
                chosen == formats@[0]
            },
        decreases formats@.len() - idx,
    {
        let f = formats[idx];
        if f.format == FORMAT_B8G8R8A8_SRGB && f.color_space == COLOR_SPACE_SRGB_NONLINEAR {
            chosen = f;
            assert(is_preferred_format(formats@[idx as int]));
        }
        idx = idx + 1;
    }
    assert(chosen == spec_surface_format(formats@)) by {
        if exists|i: int| 0 <= i < formats@.len() && is_preferred_format(formats@[i]) {
            assert(is_preferred_format(chosen));
            assert(chosen == (SurfaceFormat {
                format: FORMAT_B8G8R8A8_SRGB,
                color_space: COLOR_SPACE_SRGB_NONLINEAR,
            }));
        }
    }
    chosen
}

/// Selects the present mode: mailbox when the surface supports it, else FIFO.
pub fn choose_present_mode(modes: &Vec<u32>) -> (mode: u32)
    ensures
        mode == spec_present_mode(modes@),
{
    let mut idx: usize = 0;
    while idx < modes.len()
        invariant
            idx <= modes@.len(),
            forall|i: int| 0 <= i < idx ==> modes@[i] != PRESENT_MODE_MAILBOX,
        decreases modes@.len() - idx,
    {
        if modes[idx] == PRESENT_MODE_MAILBOX {
            return PRESENT_MODE_MAILBOX;
        }
        idx = idx + 1;
    }
    assert(!modes@.contains(PRESENT_MODE_MAILBOX));
    PRESENT_MODE_FIFO
}

/// Computes how many images to request from the surface.
pub fn compute_image_count(min_image_count: u32, max_image_count: u32) -> (count: u32)
    requires
        min_image_count < u32::MAX,
    ensures
        count == spec_image_count(min_image_count as int, max_image_count as int),
{
    let desired = min_image_count + 1;
    if max_image_count > 0 && desired > max_image_count {
        max_image_count
    } else {
        desired
    }
}

/// The image count always lies within the bounds the surface reported: at
/// least the minimum, and at most the maximum whenever the maximum bounds it.
/// Valid capabilities place the minimum at or below a non-zero maximum.
pub proof fn lemma_image_count_in_bounds(min_image_count: int, max_image_count: int)
    requires
        max_image_count == 0 || min_image_count <= max_image_count,
    ensures
        spec_image_count(min_image_count, max_image_count) >= min_image_count,
        max_image_count > 0 ==> spec_image_count(min_image_count, max_image_count)
            <= max_image_count,
{
}

/// Resolves the swapchain extent from the capabilities and the window size.
pub fn resolve_extent(caps: &SurfaceCaps, window_width: u32, window_height: u32) -> (extent:
    Extent)
    ensures
        extent == spec_extent(*caps, window_width, window_height),
{
    if caps.current_extent_width == EXTENT_UNDEFINED {
        Extent { width: window_width, height: window_height }
    } else {
        Extent { width: caps.current_extent_width, height: caps.current_extent_height }
    }
}

/// The dimensionality of an image view.
#[derive(Clone, Copy, PartialEq, Eq, Structural, Debug)]
pub enum ImageViewKind {
    OneDimensional,
    TwoDimensional,
    ThreeDimensional,
}

/// The image aspect a view selects.
#[derive(Clone, Copy, PartialEq, Eq, Structural, Debug)]
pub enum ImageAspect {
    Color,
    Depth,
}

/// How one image view is derived from a swapchain image.
#[derive(Clone, Copy, PartialEq, Eq, Structural, Debug)]
pub struct ImageViewConfig {
    pub kind: ImageViewKind,
    /// Raw format code; the swapchain's format.
    pub format: u32,
    /// Every channel maps to itself.
    pub identity_swizzle: bool,
    pub aspect: ImageAspect,
    pub base_mip_level: u32,
    pub level_count: u32,
    pub base_array_layer: u32,
    pub layer_count: u32,
}

/// Declares the one view derived per swapchain image: 2D, identity channel
/// mapping, color aspect, a single mip level and a single array layer.
pub fn image_view_config(swapchain_format: u32) -> (config: ImageViewConfig)
    ensures
        config.kind is TwoDimensional,
        config.format == swapchain_format,
        config.identity_swizzle,
        config.aspect is Color,
        config.base_mip_level == 0,
        config.level_count == 1,
        config.base_array_layer == 0,
        config.layer_count == 1,
{
    ImageViewConfig {
        kind: ImageViewKind::TwoDimensional,
        format: swapchain_format,
        identity_swizzle: true,
        aspect: ImageAspect::Color,
        base_mip_level: 0,
        level_count: 1,
        base_array_layer: 0,
        layer_count: 1,
    }
}

/// Builds the complete swapchain configuration from what the surface
/// reports and the window's logical size.
pub fn plan_swapchain(
    caps: &SurfaceCaps,
    formats: &Vec<SurfaceFormat>,
    modes: &Vec<u32>,
    window_width: u32,
    window_height: u32,
) -> (config: SwapchainConfig)
    requires
        formats@.len() > 0,
        caps.min_image_count < u32::MAX,
    ensures
        config.format == spec_surface_format(formats@).format,
        config.color_space == spec_surface_format(formats@).color_space,
        config.present_mode == spec_present_mode(modes@),
        config.image_count == spec_image_count(
            caps.min_image_count as int,
            caps.max_image_count as int,
        ),
        config.extent == spec_extent(*caps, window_width, window_height),
{
    let surface_format = choose_surface_format(formats);
    let present_mode = choose_present_mode(modes);
    let image_count = compute_image_count(caps.min_image_count, caps.max_image_count);
    let extent = resolve_extent(caps, window_width, window_height);
    SwapchainConfig {
        format: surface_format.format,
        color_space: surface_format.color_space,
        present_mode,
        image_count,
        extent,
    }
}

} // verus!
