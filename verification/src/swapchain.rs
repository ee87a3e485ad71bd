//! The swapchain as the lifecycle sees it: its extent, its image count, and
//! the capability bounds it was created under. A swapchain is never mutated
//! in place; recreation derives a full replacement value.

use vstd::prelude::*;

use crate::extent::{Extent2D, SurfaceCapabilities};

verus! {

/// The lifecycle-relevant state of one swapchain.
#[derive(Clone, Copy, PartialEq, Eq, Structural, Debug)]
pub struct SwapchainState {
    /// Extent of every image in the chain.
    pub extent: Extent2D,
    /// How many presentable images the chain holds.
    pub image_count: u32,
    /// The minimum image count of the surface the chain was created under.
    pub min_image_count: u32,
    /// The maximum image count of that surface; `None` means no limit.
    pub max_image_count: Option<u32>,
}

impl SwapchainState {
    /// The structural invariant: the image count always lies within the
    /// surface's bounds recorded at creation.
    pub open spec fn wf(self) -> bool {
        &&& 1 <= self.min_image_count
        &&& self.min_image_count <= self.image_count
        &&& (self.max_image_count matches Some(max) ==> self.image_count <= max)
    }

    /// The swapchain a fresh creation yields: extent and image count derived
    /// from the capabilities, with the window extent as the fallback.
    pub open spec fn spec_create(caps: SurfaceCapabilities, window_extent: Extent2D) -> SwapchainState {
        SwapchainState {
            extent: caps.spec_chosen_extent(window_extent),
            image_count: caps.spec_image_count(),
            min_image_count: caps.min_image_count,
            max_image_count: caps.max_image_count,
        }
    }

    /// Recreation keeps the original creation parameters and only adopts the
    /// extent that the re-queried capabilities (or the window) dictate.
    pub open spec fn spec_recreate(self, caps: SurfaceCapabilities, window_extent: Extent2D) -> SwapchainState {
        SwapchainState { extent: caps.spec_chosen_extent(window_extent), ..self }
    }

    pub fn create(caps: &SurfaceCapabilities, window_extent: Extent2D) -> (r: SwapchainState)
        requires
            caps.wf(),
        ensures
            r == Self::spec_create(*caps, window_extent),
            r.wf(),
    {
        proof {
            caps.lemma_image_count_in_bounds();
        }
        SwapchainState {
            extent: caps.chosen_extent(window_extent),
            image_count: caps.image_count(),
            min_image_count: caps.min_image_count,
            max_image_count: caps.max_image_count,
        }
    }

    /// Replace this swapchain with its recreation. The image count and its
    /// bounds are creation parameters and survive unchanged, so the
    /// invariant is preserved whatever the new capabilities report.
    pub fn recreate(&mut self, caps: &SurfaceCapabilities, window_extent: Extent2D)
        ensures
            *final(self) == old(self).spec_recreate(*caps, window_extent),
            old(self).wf() ==> final(self).wf(),
    {
        self.extent = caps.chosen_extent(window_extent);
    }
}

} // verus!
