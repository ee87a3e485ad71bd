//! Window and surface geometry: extents, surface capabilities, and the rules
//! that derive a new swapchain's extent and image count from them.

use vstd::prelude::*;

verus! {

/// A two-dimensional pixel extent, as the windowing system reports it for a
/// drawable area or as a swapchain adopts it for its images.
#[derive(Clone, Copy, PartialEq, Eq, Structural, Debug)]
pub struct Extent2D {
    pub width: u32,
    pub height: u32,
}

impl Extent2D {
    /// Either dimension is zero: the window is minimized (or degenerate) and
    /// no frame can be presented to it.
    pub open spec fn spec_has_zero_dimension(self) -> bool {
        self.width == 0 || self.height == 0
    }

    pub fn has_zero_dimension(&self) -> (r: bool)
        ensures
            r == self.spec_has_zero_dimension(),
    {
        self.width == 0 || self.height == 0
    }
}

/// What the surface reports when a swapchain is created or recreated. Only
/// the fields the lifecycle decisions read are kept.
#[derive(Clone, Copy, Debug)]
pub struct SurfaceCapabilities {
    /// The fixed extent the surface demands, if it demands one; `None` leaves
    /// the choice to the window's current extent.
    pub current_extent: Option<Extent2D>,
    /// The fewest swapchain images the surface supports.
    pub min_image_count: u32,
    /// The most swapchain images the surface supports; `None` means no limit.
    pub max_image_count: Option<u32>,
}

impl SurfaceCapabilities {
    /// Capabilities as the graphics API guarantees them: at least one image
    /// is supported, and a bounded maximum is no smaller than the minimum.
    pub open spec fn wf(self) -> bool {
        &&& 1 <= self.min_image_count
        &&& (self.max_image_count matches Some(max) ==> self.min_image_count <= max)
    }

    /// The extent a new swapchain must use: the surface's fixed extent when
    /// it reports one, and the window's current extent as the fallback.
    pub open spec fn spec_chosen_extent(self, window_extent: Extent2D) -> Extent2D {
        match self.current_extent {
            Some(e) => e,
            None => window_extent,
        }
    }

    pub fn chosen_extent(&self, window_extent: Extent2D) -> (r: Extent2D)
        ensures
            r == self.spec_chosen_extent(window_extent),
    {
        match self.current_extent {
            Some(e) => e,
            None => window_extent,
        }
    }

    /// The image count requested for a new swapchain: one more than the
    /// supported minimum, to leave one image in flight while another is
    /// presented, clamped to the supported maximum.
    pub open spec fn spec_image_count(self) -> u32 {
        let bumped: u32 = if self.min_image_count == u32::MAX {
            u32::MAX
        } else {
            (self.min_image_count + 1) as u32
        };
        match self.max_image_count {
            Some(max) => if bumped <= max { bumped } else { max },
            None => bumped,
        }
    }

    /// The chosen image count always lies within the surface's bounds.
    pub proof fn lemma_image_count_in_bounds(self)
        requires
            self.wf(),
        ensures
            self.min_image_count <= self.spec_image_count(),
            self.max_image_count matches Some(max) ==> self.spec_image_count() <= max,
    {
    }

    pub fn image_count(&self) -> (r: u32)
        requires
            self.wf(),
        ensures
            r == self.spec_image_count(),
            self.min_image_count <= r,
            self.max_image_count matches Some(max) ==> r <= max,
    {
        let bumped: u32 = if self.min_image_count == u32::MAX {
            u32::MAX
        } else {
            self.min_image_count + 1
        };
        match self.max_image_count {
            Some(max) => if bumped <= max { bumped } else { max },
            None => bumped,
        }
    }
}

} // verus!
