//! Plain-value model of the driver data the decision logic reads.
//!
//! Driver handles themselves never enter the library; the shell probes the
//! driver and fills these structures with the numeric capability data the
//! decisions are made from. Pixel formats, color spaces and present modes
//! keep their raw numeric codes so the shell can pass them through
//! unchanged.

use vstd::prelude::*;

verus! {

/// Numeric code of the preferred 8-bit BGRA sRGB pixel format.
pub const FORMAT_B8G8R8A8_SRGB: u32 = 50;

/// Numeric code of an 8-bit RGBA linear pixel format (not preferred).
pub const FORMAT_R8G8B8A8_UNORM: u32 = 37;

/// Numeric code of the standard non-linear sRGB color space.
pub const COLOR_SPACE_SRGB_NONLINEAR: u32 = 0;

/// Numeric code of the triple-buffered low-latency present mode.
pub const PRESENT_MODE_MAILBOX: u32 = 1;

/// Numeric code of the strict-vsync present mode that is always available.
pub const PRESENT_MODE_FIFO: u32 = 2;

/// A two-dimensional pixel size.
#[derive(Clone, Copy, Debug, PartialEq, Eq, Structural)]
pub struct Extent2D {
    pub width: u32,
    pub height: u32,
}

/// A surface format entry: a pixel format paired with a color space.
#[derive(Clone, Copy, Debug, PartialEq, Eq, Structural)]
pub struct SurfaceFormat {
    pub format: u32,
    pub color_space: u32,
}

/// The numeric limits a surface reports for swapchain creation.
#[derive(Clone, Copy, Debug, PartialEq, Eq, Structural)]
pub struct SurfaceCapabilities {
    pub min_image_count: u32,
    pub max_image_count: u32,
    pub current_extent: Extent2D,
    pub min_image_extent: Extent2D,
    pub max_image_extent: Extent2D,
    pub current_transform: u32,
}

/// Everything a surface reports at swapchain (re)creation time: limits,
/// the ordered format enumeration, and the available present modes.
#[derive(Clone, Debug)]
pub struct SurfaceCapabilitySnapshot {
    pub capabilities: SurfaceCapabilities,
    pub formats: Vec<SurfaceFormat>,
    pub present_modes: Vec<u32>,
}

/// What one queue family supports: graphics work, presentation to the
/// target surface, or both.
#[derive(Clone, Copy, Debug, PartialEq, Eq, Structural)]
pub struct QueueFamilyProps {
    pub supports_graphics: bool,
    pub supports_present: bool,
}

/// The resolved queue family assignment of a candidate device. Either
/// role may be unfilled when no family supports it; the two indices may
/// coincide.
#[derive(Clone, Copy, Debug, PartialEq, Eq)]
pub struct QueueFamilyIndices {
    pub graphics_family: Option<u32>,
    pub present_family: Option<u32>,
}

impl QueueFamilyIndices {
    /// Both queue-family roles are filled.
    pub open spec fn spec_is_complete(self) -> bool {
        self.graphics_family is Some && self.present_family is Some
    }

    /// Reports whether both queue-family roles resolved to an index.
    pub fn is_complete(&self) -> (r: bool)
        ensures
            r == self.spec_is_complete(),
    {
        self.graphics_family.is_some() && self.present_family.is_some()
    }
}

/// The probed, plain-value profile of one physical device, gathered
/// fresh each selection pass.
#[derive(Clone, Copy, Debug)]
pub struct DeviceCandidate {
    /// The device is a discrete GPU (not integrated/virtual/CPU/other).
    pub discrete_gpu: bool,
    /// The device's maximum supported 2D image dimension.
    pub max_image_dimension_2d: u32,
    /// The geometry-shader feature is present.
    pub supports_geometry_shader: bool,
    /// The resolved queue family assignment against the target surface.
    pub queue_families: QueueFamilyIndices,
    /// Every required device extension is available.
    pub extensions_satisfied: bool,
    /// How many surface formats the device exposes for the surface.
    pub surface_format_count: usize,
    /// How many present modes the device exposes for the surface.
    pub present_mode_count: usize,
}

} // verus!
