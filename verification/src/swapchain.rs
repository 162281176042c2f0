//! Swapchain negotiation: format, present mode, extent, image count and
//! sharing mode, assembled into a creation plan the shell executes.

use vstd::prelude::*;
use crate::model::{
    Extent2D, SurfaceCapabilities, SurfaceCapabilitySnapshot, SurfaceFormat,
    COLOR_SPACE_SRGB_NONLINEAR, FORMAT_B8G8R8A8_SRGB, PRESENT_MODE_FIFO, PRESENT_MODE_MAILBOX,
};

verus! {

/// The preferred surface format: 8-bit BGRA sRGB paired with the
/// standard non-linear sRGB color space.
pub open spec fn is_preferred_format(f: SurfaceFormat) -> bool {
    f.format == FORMAT_B8G8R8A8_SRGB && f.color_space == COLOR_SPACE_SRGB_NONLINEAR
}

/// Picks the first preferred entry of the surface's format enumeration,
/// falling back to the enumeration's first entry when none matches.
pub fn choose_swap_chain_format(formats: &Vec<SurfaceFormat>) -> (r: SurfaceFormat)
    requires
        formats.len() > 0,
    ensures
        (exists|i: int| 0 <= i < formats.len() && is_preferred_format(formats@[i])) ==> exists|
            i: int,
        |
            0 <= i < formats.len() && r == formats@[i] && is_preferred_format(formats@[i])
                && (forall|j: int| 0 <= j < i ==> !is_preferred_format(formats@[j])),
        (forall|i: int| 0 <= i < formats.len() ==> !is_preferred_format(formats@[i])) ==> r
            == formats@[0],
{
    let mut i: usize = 0;
    while i < formats.len()
        invariant
            i <= formats.len(),
            forall|j: int| 0 <= j < i ==> !is_preferred_format(formats@[j]),
        decreases formats.len() - i,
    {
        let f = formats[i];
        if f.format == FORMAT_B8G8R8A8_SRGB && f.color_space == COLOR_SPACE_SRGB_NONLINEAR {
            return f;
        }
        i = i + 1;
    }
    formats[0]
}

/// Picks the triple-buffered low-latency mode when the surface offers
/// it, else the strict-vsync mode that is always available.
pub fn choose_swapchain_present_mode(present_modes: &Vec<u32>) -> (r: u32)
    ensures
        (exists|i: int| 0 <= i < present_modes.len() && present_modes@[i] == PRESENT_MODE_MAILBOX)
            ==> r == PRESENT_MODE_MAILBOX,
        (forall|i: int|
            0 <= i < present_modes.len() ==> present_modes@[i] != PRESENT_MODE_MAILBOX) ==> r
            == PRESENT_MODE_FIFO,
{
    let mut i: usize = 0;
    while i < present_modes.len()
        invariant
            i <= present_modes.len(),
            forall|j: int| 0 <= j < i ==> present_modes@[j] != PRESENT_MODE_MAILBOX,
        decreases present_modes.len() - i,
    {
        if present_modes[i] == PRESENT_MODE_MAILBOX {
            return PRESENT_MODE_MAILBOX;
        }
        i = i + 1;
    }
    PRESENT_MODE_FIFO
}

/// A value clamped into the inclusive range `[lo, hi]`.
pub open spec fn spec_clamp(x: u32, lo: u32, hi: u32) -> u32 {
    if x < lo {
        lo
    } else if x > hi {
        hi
    } else {
        x
    }
}

/// The surface reports the sentinel "extent tracks the window" value:
/// a current width equal to the maximum representable value.
pub open spec fn extent_tracks_window(caps: SurfaceCapabilities) -> bool {
    caps.current_extent.width == u32::MAX
}

/// Chooses the swapchain extent: the surface's reported extent verbatim,
/// unless the surface defers to the window, in which case the given
/// framebuffer pixel size is clamped component-wise into the surface's
/// supported range.
pub fn choose_swap_extent(
    caps: &SurfaceCapabilities,
    framebuffer_width: u32,
    framebuffer_height: u32,
) -> (r: Extent2D)
    requires
        extent_tracks_window(*caps) ==> caps.min_image_extent.width
            <= caps.max_image_extent.width && caps.min_image_extent.height
            <= caps.max_image_extent.height,
    ensures
        !extent_tracks_window(*caps) ==> r == caps.current_extent,
        extent_tracks_window(*caps) ==> r.width == spec_clamp(
            framebuffer_width,
            caps.min_image_extent.width,
            caps.max_image_extent.width,
        ) && r.height == spec_clamp(
            framebuffer_height,
            caps.min_image_extent.height,
            caps.max_image_extent.height,
        ),
{
    if caps.current_extent.width != u32::MAX {
        caps.current_extent
    } else {
        Extent2D {
            width: clamp_u32(
                framebuffer_width,
                caps.min_image_extent.width,
                caps.max_image_extent.width,
            ),
            height: clamp_u32(
                framebuffer_height,
                caps.min_image_extent.height,
                caps.max_image_extent.height,
            ),
        }
    }
}

/// Clamps `x` into the inclusive range `[lo, hi]`.
fn clamp_u32(x: u32, lo: u32, hi: u32) -> (r: u32)
    requires
        lo <= hi,
    ensures
        r == spec_clamp(x, lo, hi),
{
    if x < lo {
        lo
    } else if x > hi {
        hi
    } else {
        x
    }
}

/// The image count requested from the driver: one more than the
/// surface's minimum, clamped down to the maximum when the maximum is
/// nonzero (zero means unbounded).
pub open spec fn spec_image_count(min_image_count: u32, max_image_count: u32) -> int {
    if max_image_count > 0 && min_image_count + 1 > max_image_count {
        max_image_count as int
    } else {
        min_image_count + 1
    }
}

/// Computes the image count to request for the swapchain.
pub fn swapchain_image_count(caps: &SurfaceCapabilities) -> (r: u32)
    requires
        caps.min_image_count < u32::MAX,
    ensures
        r == spec_image_count(caps.min_image_count, caps.max_image_count),
{
    let mut image_count: u32 = caps.min_image_count + 1;
    if caps.max_image_count > 0 && image_count > caps.max_image_count {
        image_count = caps.max_image_count;
    }
    image_count
}

/// How the swapchain images are shared between the graphics and
/// presentation queue families.
#[derive(Clone, Copy, Debug, PartialEq, Eq, Structural)]
pub enum SharingMode {
    /// One family owns the images; no explicit family list.
    Exclusive,
    /// The images are shared concurrently across the listed families.
    Concurrent,
}

/// The sharing decision: the mode together with the explicit queue
/// family list handed to swapchain creation.
#[derive(Clone, Debug)]
pub struct SharingPlan {
    pub mode: SharingMode,
    pub queue_family_indices: Vec<u32>,
}

/// Chooses concurrent sharing across exactly the two families when the
/// graphics and presentation families differ, and exclusive sharing
/// with an empty family list when they coincide.
pub fn choose_sharing_mode(graphics_family: u32, present_family: u32) -> (r: SharingPlan)
    ensures
        graphics_family != present_family ==> r.mode == SharingMode::Concurrent
            && r.queue_family_indices@ =~= seq![graphics_family, present_family],
        graphics_family == present_family ==> r.mode == SharingMode::Exclusive
            && r.queue_family_indices@.len() == 0,
{
    if graphics_family != present_family {
        let mut indices: Vec<u32> = Vec::new();
        indices.push(graphics_family);
        indices.push(present_family);
        SharingPlan { mode: SharingMode::Concurrent, queue_family_indices: indices }
    } else {
        SharingPlan { mode: SharingMode::Exclusive, queue_family_indices: Vec::new() }
    }
}

/// The full creation plan for the swapchain, assembled from one surface
/// snapshot. The shell copies these values into the driver's creation
/// call verbatim.
#[derive(Clone, Debug)]
pub struct SwapchainPlan {
    pub surface_format: SurfaceFormat,
    pub present_mode: u32,
    pub extent: Extent2D,
    pub min_image_count: u32,
    pub sharing: SharingPlan,
    /// Always one layer per image.
    pub image_array_layers: u32,
    /// The surface's current transform, passed through unchanged.
    pub pre_transform: u32,
    /// The images are requested for color-attachment use.
    pub color_attachment_usage: bool,
    /// Opaque composite alpha: the surface's alpha channel is ignored
    /// by the compositor.
    pub opaque_composite: bool,
    /// Obscured pixels may be discarded.
    pub clipped: bool,
}

/// Negotiates the whole swapchain configuration from the surface
/// snapshot, the window's framebuffer pixel size, and the chosen queue
/// families.
pub fn plan_swapchain(
    snapshot: &SurfaceCapabilitySnapshot,
    framebuffer_width: u32,
    framebuffer_height: u32,
    graphics_family: u32,
    present_family: u32,
) -> (r: SwapchainPlan)
    requires
        snapshot.formats.len() > 0,
        snapshot.capabilities.min_image_count < u32::MAX,
        extent_tracks_window(snapshot.capabilities) ==> snapshot.capabilities.min_image_extent.width
            <= snapshot.capabilities.max_image_extent.width
            && snapshot.capabilities.min_image_extent.height
            <= snapshot.capabilities.max_image_extent.height,
    ensures
        (exists|i: int|
            0 <= i < snapshot.formats.len() && is_preferred_format(snapshot.formats@[i])) ==> exists|
            i: int,
        |
            0 <= i < snapshot.formats.len() && r.surface_format == snapshot.formats@[i]
                && is_preferred_format(snapshot.formats@[i]) && (forall|j: int|
                0 <= j < i ==> !is_preferred_format(snapshot.formats@[j])),
        (forall|i: int|
            0 <= i < snapshot.formats.len() ==> !is_preferred_format(snapshot.formats@[i]))
            ==> r.surface_format == snapshot.formats@[0],
        (exists|i: int|
            0 <= i < snapshot.present_modes.len() && snapshot.present_modes@[i]
                == PRESENT_MODE_MAILBOX) ==> r.present_mode == PRESENT_MODE_MAILBOX,
        (forall|i: int|
            0 <= i < snapshot.present_modes.len() ==> snapshot.present_modes@[i]
                != PRESENT_MODE_MAILBOX) ==> r.present_mode == PRESENT_MODE_FIFO,
        !extent_tracks_window(snapshot.capabilities) ==> r.extent
            == snapshot.capabilities.current_extent,
        extent_tracks_window(snapshot.capabilities) ==> r.extent.width == spec_clamp(
            framebuffer_width,
            snapshot.capabilities.min_image_extent.width,
            snapshot.capabilities.max_image_extent.width,
        ) && r.extent.height == spec_clamp(
            framebuffer_height,
            snapshot.capabilities.min_image_extent.height,
            snapshot.capabilities.max_image_extent.height,
        ),
        r.min_image_count == spec_image_count(
            snapshot.capabilities.min_image_count,
            snapshot.capabilities.max_image_count,
        ),
        graphics_family != present_family ==> r.sharing.mode == SharingMode::Concurrent
            && r.sharing.queue_family_indices@ =~= seq![graphics_family, present_family],
        graphics_family == present_family ==> r.sharing.mode == SharingMode::Exclusive
            && r.sharing.queue_family_indices@.len() == 0,
        r.image_array_layers == 1,
        r.pre_transform == snapshot.capabilities.current_transform,
        r.color_attachment_usage,
        r.opaque_composite,
        r.clipped,
{
    let surface_format = choose_swap_chain_format(&snapshot.formats);
    let present_mode = choose_swapchain_present_mode(&snapshot.present_modes);
    let extent = choose_swap_extent(&snapshot.capabilities, framebuffer_width, framebuffer_height);
    let min_image_count = swapchain_image_count(&snapshot.capabilities);
    let sharing = choose_sharing_mode(graphics_family, present_family);
    SwapchainPlan {
        surface_format,
        present_mode,
        extent,
        min_image_count,
        sharing,
        image_array_layers: 1,
        pre_transform: snapshot.capabilities.current_transform,
        color_attachment_usage: true,
        opaque_composite: true,
        clipped: true,
    }
}

/// The fixed per-image view configuration: a 2D color view with
/// identity component mapping, one mip level and one array layer.
#[derive(Clone, Copy, Debug, PartialEq, Eq, Structural)]
pub struct ImageViewConfig {
    /// Index of the swapchain image the view is built over.
    pub image_index: u32,
    /// The chosen swapchain pixel format.
    pub format: u32,
    pub two_dimensional: bool,
    pub identity_swizzle: bool,
    pub color_aspect: bool,
    pub base_mip_level: u32,
    pub mip_level_count: u32,
    pub base_array_layer: u32,
    pub array_layer_count: u32,
}

/// One view configuration per swapchain image, in image order, so that
/// views and images stay in one-to-one index correspondence.
pub fn image_view_configs(image_count: u32, format: u32) -> (r: Vec<ImageViewConfig>)
    ensures
        r@.len() == image_count,
        forall|i: int|
            0 <= i < image_count ==> r@[i] == (ImageViewConfig {
                image_index: i as u32,
                format,
                two_dimensional: true,
                identity_swizzle: true,
                color_aspect: true,
                base_mip_level: 0,
                mip_level_count: 1,
                base_array_layer: 0,
                array_layer_count: 1,
            }),
{
    let mut configs: Vec<ImageViewConfig> = Vec::new();
    let mut i: u32 = 0;
    while i < image_count
        invariant
            i <= image_count,
            configs@.len() == i,
            forall|j: int|
                0 <= j < i ==> configs@[j] == (ImageViewConfig {
                    image_index: j as u32,
                    format,
                    two_dimensional: true,
                    identity_swizzle: true,
                    color_aspect: true,
                    base_mip_level: 0,
                    mip_level_count: 1,
                    base_array_layer: 0,
                    array_layer_count: 1,
                }),
        decreases image_count - i,
    {
        configs.push(
            ImageViewConfig {
                image_index: i,
                format,
                two_dimensional: true,
                identity_swizzle: true,
                color_aspect: true,
                base_mip_level: 0,
                mip_level_count: 1,
                base_array_layer: 0,
                array_layer_count: 1,
            },
        );
        i = i + 1;
    }
    configs
}

} // verus!
