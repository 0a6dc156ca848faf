//! The presentation contract consumed by the renderer: extent, image pool
//! size and pre-transform of the live swapchain, and the error taxonomy of
//! the acquire and present calls.
//!
//! A swapchain is immutable once constructed; any extent change requires
//! full reconstruction (see [`crate::resize`]), never mutation.

use vstd::prelude::*;

verus! {

/// A surface size in pixels.
#[derive(Clone, Copy, PartialEq, Eq, Structural, Debug)]
pub struct Extent {
    pub width: u32,
    pub height: u32,
}

/// The live presentation contract: how many images the surface owns, at
/// what extent, and with which pre-transform. The images themselves and
/// the surface belong to the device collaborator.
#[derive(Clone, Copy, PartialEq, Eq, Structural, Debug)]
pub struct Swapchain {
    /// Width and height every framebuffer is bound at.
    pub extent: Extent,
    /// Number of presentable images; surface-dependent and independent of
    /// the frame-slot count.
    pub image_count: usize,
    /// Surface pre-transform, carried through to command recording.
    pub pre_transform: u32,
}

/// Why an acquire call failed hard. `OutOfDate` is fatal to the current
/// swapchain and forces full reconstruction before any further rendering.
#[derive(Clone, Copy, PartialEq, Eq, Structural, Debug)]
pub enum AcquireError {
    OutOfDate,
    Other,
}

/// Why a present call failed hard, with the same distinguished
/// out-of-date condition as acquisition.
#[derive(Clone, Copy, PartialEq, Eq, Structural, Debug)]
pub enum PresentError {
    OutOfDate,
    Other,
}

impl Swapchain {
    /// Describes a reconstructed swapchain at the given extent. The old
    /// swapchain is only a resource-sharing hint for the device; it does
    /// not shape the result.
    pub fn new(
        width: u32,
        height: u32,
        image_count: usize,
        pre_transform: u32,
        old_swapchain: Option<&Swapchain>,
    ) -> (r: Swapchain)
        requires
            1 <= image_count,
        ensures
            r.extent == (Extent { width, height }),
            r.image_count == image_count,
            r.pre_transform == pre_transform,
    {
        let _ = old_swapchain;
        Swapchain { extent: Extent { width, height }, image_count, pre_transform }
    }
}

} // verus!
