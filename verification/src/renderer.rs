//! The frame driver: one renderer per window, owning the swapchain, the
//! per-image views, the shared multisample and depth targets, and the single
//! in-flight completion token that paces CPU/GPU overlap.
//!
//! The caller performs the actual image acquisition, submission and
//! presentation against the graphics API and feeds their outcomes into
//! [`Renderer::render`], which takes every decision the frame lifecycle
//! prescribes and advances the state accordingly.

use vstd::prelude::*;

use crate::extent::{Extent2D, SurfaceCapabilities};
use crate::swapchain::SwapchainState;
use crate::upload::{spec_plan_draw, DeviceResources, DrawCommand};

verus! {

/// The single-slot completion token for the previously submitted frame.
///
/// Exactly one token is live at a time: it is taken at the start of each
/// frame and replaced at the end. Representing the slot by this two-state
/// type (rather than an option) makes an unexpectedly empty slot
/// unrepresentable instead of fatal.
#[derive(Clone, Copy, PartialEq, Eq, Structural, Debug)]
pub enum FutureSlot {
    /// An already-resolved sentinel: no GPU work is pending.
    Resolved,
    /// The completion token of a submitted frame is pending.
    Pending,
}

/// What image acquisition reported.
#[derive(Clone, Copy, PartialEq, Eq, Structural, Debug)]
pub enum AcquireOutcome {
    /// An image is available; `suboptimal` means it will still work but may
    /// not display optimally.
    Image { index: u32, suboptimal: bool },
    /// The swapchain no longer matches the surface and must be rebuilt.
    OutOfDate,
    /// Any other acquisition failure.
    Error,
}

/// What the submission-and-present request reported.
#[derive(Clone, Copy, PartialEq, Eq, Structural, Debug)]
pub enum PresentOutcome {
    /// The frame was submitted; a completion token was signalled.
    Completed,
    /// The swapchain went out of date at present time.
    OutOfDate,
    /// Any other submission failure; the frame is dropped, not retried.
    Error,
}

/// A render call that failed; the state is left exactly as it was.
#[derive(Clone, Copy, PartialEq, Eq, Structural, Debug)]
pub enum RenderError {
    /// Acquisition failed for a reason other than staleness.
    AcquireFailed,
    /// The driver reported an image index beyond the swapchain's images.
    ImageIndexOutOfRange,
}

/// What one `render` call did.
#[derive(Clone, Copy, PartialEq, Eq, Structural, Debug)]
pub struct FrameReport {
    /// The window extent had a zero dimension: nothing was acquired,
    /// recorded or submitted.
    pub skipped: bool,
    /// The swapchain image drawn into, when a frame was recorded.
    pub acquired_image: Option<u32>,
    /// Acquisition reported a suboptimal (but usable) image.
    pub suboptimal: bool,
    /// The draw command recorded, when a frame was recorded.
    pub draw: Option<DrawCommand>,
    /// The frame was submitted and its completion token stored.
    pub submitted: bool,
    /// The swapchain and its dependent resources were rebuilt.
    pub recreated: bool,
}

/// One window's frame driver.
#[derive(Clone, Copy, PartialEq, Eq, Structural, Debug)]
pub struct Renderer {
    /// The swapchain this renderer presents through.
    pub swapchain: SwapchainState,
    /// One image view per swapchain image.
    pub view_count: u32,
    /// Extent of the shared multisample color target.
    pub color_target_extent: Extent2D,
    /// Extent of the shared depth target.
    pub depth_target_extent: Extent2D,
    /// Samples per pixel of the multisample and depth targets.
    pub sample_count: u32,
    /// The in-flight completion token slot.
    pub in_flight: FutureSlot,
}

impl Renderer {
    /// The resource invariant: the view set and both shared targets always
    /// match the live swapchain; they are torn down and rebuilt together.
    pub open spec fn wf(self) -> bool {
        &&& self.swapchain.wf()
        &&& self.view_count == self.swapchain.image_count
        &&& self.color_target_extent == self.swapchain.extent
        &&& self.depth_target_extent == self.swapchain.extent
        &&& 1 <= self.sample_count
    }

    /// The renderer a fresh creation yields: swapchain from the surface
    /// capabilities, one view per image, both targets at the swapchain
    /// extent, and an already-resolved in-flight sentinel.
    pub open spec fn spec_new(
        caps: SurfaceCapabilities,
        window_extent: Extent2D,
        sample_count: u32,
    ) -> Renderer {
        let sc = SwapchainState::spec_create(caps, window_extent);
        Renderer {
            swapchain: sc,
            view_count: sc.image_count,
            color_target_extent: sc.extent,
            depth_target_extent: sc.extent,
            sample_count: sample_count,
            in_flight: FutureSlot::Resolved,
        }
    }

    pub fn new(caps: &SurfaceCapabilities, window_extent: Extent2D, sample_count: u32) -> (r:
        Renderer)
        requires
            caps.wf(),
            1 <= sample_count,
        ensures
            r == Self::spec_new(*caps, window_extent, sample_count),
            r.wf(),
    {
        let sc = SwapchainState::create(caps, window_extent);
        Renderer {
            swapchain: sc,
            view_count: sc.image_count,
            color_target_extent: sc.extent,
            depth_target_extent: sc.extent,
            sample_count,
            in_flight: FutureSlot::Resolved,
        }
    }

    /// The renderer after recreation: the swapchain adopts the extent the
    /// re-queried capabilities dictate, and the view set and both targets
    /// are rebuilt to match in the same step. The in-flight token is not
    /// touched.
    pub open spec fn spec_recreate(
        self,
        caps: SurfaceCapabilities,
        window_extent: Extent2D,
    ) -> Renderer {
        let sc = self.swapchain.spec_recreate(caps, window_extent);
        Renderer {
            swapchain: sc,
            view_count: sc.image_count,
            color_target_extent: sc.extent,
            depth_target_extent: sc.extent,
            ..self
        }
    }

    /// Recreation preserves the resource invariant whatever the new
    /// capabilities report, because the image count and its bounds are
    /// creation parameters.
    pub proof fn lemma_recreate_preserves_wf(
        self,
        caps: SurfaceCapabilities,
        window_extent: Extent2D,
    )
        requires
            self.wf(),
        ensures
            self.spec_recreate(caps, window_extent).wf(),
    {
    }

    /// Tear down the old view set and image list and rebuild the swapchain,
    /// the views and both shared targets together; never partially applied.
    pub fn recreate(&mut self, caps: &SurfaceCapabilities, window_extent: Extent2D)
        ensures
            *final(self) == old(self).spec_recreate(*caps, window_extent),
            final(self).view_count == final(self).swapchain.image_count,
            final(self).color_target_extent == final(self).swapchain.extent,
            final(self).depth_target_extent == final(self).swapchain.extent,
            final(self).in_flight == old(self).in_flight,
            old(self).wf() ==> final(self).wf(),
    {
        self.swapchain.recreate(caps, window_extent);
        self.view_count = self.swapchain.image_count;
        self.color_target_extent = self.swapchain.extent;
        self.depth_target_extent = self.swapchain.extent;
    }

    /// The state one render call leaves behind.
    pub open spec fn spec_render_next(
        self,
        window_extent: Extent2D,
        acquire: AcquireOutcome,
        present: PresentOutcome,
        caps: SurfaceCapabilities,
    ) -> Renderer {
        if window_extent.spec_has_zero_dimension() {
            self
        } else {
            match acquire {
                AcquireOutcome::OutOfDate => self.spec_recreate(caps, window_extent),
                AcquireOutcome::Error => self,
                AcquireOutcome::Image { index, suboptimal } => {
                    if index >= self.view_count {
                        self
                    } else {
                        match present {
                            PresentOutcome::Completed => Renderer {
                                in_flight: FutureSlot::Pending,
                                ..self
                            },
                            PresentOutcome::OutOfDate => Renderer {
                                in_flight: FutureSlot::Resolved,
                                ..self.spec_recreate(caps, window_extent)
                            },
                            PresentOutcome::Error => Renderer {
                                in_flight: FutureSlot::Resolved,
                                ..self
                            },
                        }
                    }
                },
            }
        }
    }

    /// The report or error one render call returns.
    pub open spec fn spec_render_result(
        self,
        window_extent: Extent2D,
        acquire: AcquireOutcome,
        present: PresentOutcome,
        caps: SurfaceCapabilities,
        resources: crate::upload::ResourcesModel,
    ) -> Result<FrameReport, RenderError> {
        if window_extent.spec_has_zero_dimension() {
            Ok(
                FrameReport {
                    skipped: true,
                    acquired_image: None,
                    suboptimal: false,
                    draw: None,
                    submitted: false,
                    recreated: false,
                },
            )
        } else {
            match acquire {
                AcquireOutcome::OutOfDate => Ok(
                    FrameReport {
                        skipped: false,
                        acquired_image: None,
                        suboptimal: false,
                        draw: None,
                        submitted: false,
                        recreated: true,
                    },
                ),
                AcquireOutcome::Error => Err(RenderError::AcquireFailed),
                AcquireOutcome::Image { index, suboptimal } => {
                    if index >= self.view_count {
                        Err(RenderError::ImageIndexOutOfRange)
                    } else {
                        Ok(
                            FrameReport {
                                skipped: false,
                                acquired_image: Some(index),
                                suboptimal: suboptimal,
                                draw: Some(spec_plan_draw(resources)),
                                submitted: present is Completed,
                                recreated: present is OutOfDate,
                            },
                        )
                    }
                },
            }
        }
    }

    /// The renderer after a whole sequence of recreations, one per resize
    /// event; each event carries the capabilities re-queried at that moment
    /// and the window extent to fall back on.
    pub open spec fn spec_apply_recreations(
        self,
        events: Seq<(SurfaceCapabilities, Extent2D)>,
    ) -> Renderer
        decreases events.len(),
    {
        if events.len() == 0 {
            self
        } else {
            self.spec_recreate(events[0].0, events[0].1).spec_apply_recreations(events.skip(1))
        }
    }

    /// Law: after any sequence of resize-triggered recreations with
    /// non-zero window dimensions, the image-view count equals the live
    /// swapchain's image count and the multisample and depth target extents
    /// equal the live swapchain extent.
    pub proof fn lemma_recreation_sequence_matches(
        self,
        events: Seq<(SurfaceCapabilities, Extent2D)>,
    )
        requires
            self.wf(),
            forall|i: int|
                0 <= i < events.len() ==> !(#[trigger] events[i]).1.spec_has_zero_dimension(),
        ensures
            self.spec_apply_recreations(events).wf(),
            self.spec_apply_recreations(events).view_count == self.spec_apply_recreations(
                events,
            ).swapchain.image_count,
            self.spec_apply_recreations(events).color_target_extent == self.spec_apply_recreations(
                events,
            ).swapchain.extent,
            self.spec_apply_recreations(events).depth_target_extent == self.spec_apply_recreations(
                events,
            ).swapchain.extent,
        decreases events.len(),
    {
        if events.len() > 0 {
            self.lemma_recreate_preserves_wf(events[0].0, events[0].1);
            self.spec_recreate(events[0].0, events[0].1).lemma_recreation_sequence_matches(
                events.skip(1),
            );
        }
    }

    /// Law: a render call while the window extent has a zero dimension is a
    /// no-op. Nothing is acquired or submitted, and the in-flight token is
    /// neither advanced nor corrupted.
    pub proof fn lemma_minimized_render_is_noop(
        self,
        window_extent: Extent2D,
        acquire: AcquireOutcome,
        present: PresentOutcome,
        caps: SurfaceCapabilities,
        resources: crate::upload::ResourcesModel,
    )
        requires
            window_extent.spec_has_zero_dimension(),
        ensures
            self.spec_render_next(window_extent, acquire, present, caps) == self,
            self.spec_render_result(window_extent, acquire, present, caps, resources) == Ok::<
                FrameReport,
                RenderError,
            >(
                FrameReport {
                    skipped: true,
                    acquired_image: None,
                    suboptimal: false,
                    draw: None,
                    submitted: false,
                    recreated: false,
                },
            ),
    {
    }

    /// Drive one presentable frame.
    ///
    /// The caller has already asked the windowing system for the current
    /// extent, performed the acquisition (unless the extent was zero), and,
    /// when a frame was recorded, submitted it with a present request; the
    /// outcomes come in as arguments, and `caps` carries the re-queried
    /// surface capabilities to rebuild from should the swapchain prove out
    /// of date. In order: a zero extent skips the frame entirely; completed
    /// resources of the previous frame are released (bookkeeping only); a
    /// stale acquisition rebuilds the swapchain and retries no earlier than
    /// the next frame; a suboptimal image is drawn anyway; the recorded draw
    /// is indexed exactly when an index buffer exists; a completed
    /// submission stores the new completion token; a stale present rebuilds
    /// the swapchain and resets the token to the resolved sentinel; any
    /// other submission failure only resets the token, dropping the frame.
    pub fn render(
        &mut self,
        window_extent: Extent2D,
        resources: &DeviceResources,
        acquire: AcquireOutcome,
        present: PresentOutcome,
        caps: &SurfaceCapabilities,
    ) -> (r: Result<FrameReport, RenderError>)
        requires
            old(self).wf(),
            resources.wf(),
        ensures
            *final(self) == old(self).spec_render_next(window_extent, acquire, present, *caps),
            r == old(self).spec_render_result(window_extent, acquire, present, *caps, resources@),
            final(self).wf(),
            window_extent.spec_has_zero_dimension() ==> *final(self) == *old(self),
            r is Err ==> *final(self) == *old(self),
            (!window_extent.spec_has_zero_dimension() && (acquire matches AcquireOutcome::Image {
                index,
                ..
            } && index < old(self).view_count) && present is OutOfDate) ==> {
                &&& final(self).in_flight is Resolved
                &&& final(self).swapchain == old(self).swapchain.spec_recreate(
                    *caps,
                    window_extent,
                )
                &&& (r matches Ok(rep) && rep.recreated && !rep.submitted)
            },
    {
        if window_extent.has_zero_dimension() {
            // Minimized window: no acquisition, no submission, and the
            // in-flight token is left exactly as it was.
            return Ok(
                FrameReport {
                    skipped: true,
                    acquired_image: None,
                    suboptimal: false,
                    draw: None,
                    submitted: false,
                    recreated: false,
                },
            );
        }
        // Releasing resources the previous frame's token has seen completed
        // is pure bookkeeping: no modelled state changes.
        match acquire {
            AcquireOutcome::OutOfDate => {
                // Stale at acquisition: rebuild now, draw again next frame.
                self.recreate(caps, window_extent);
                Ok(
                    FrameReport {
                        skipped: false,
                        acquired_image: None,
                        suboptimal: false,
                        draw: None,
                        submitted: false,
                        recreated: true,
                    },
                )
            },
            AcquireOutcome::Error => Err(RenderError::AcquireFailed),
            AcquireOutcome::Image { index, suboptimal } => {
                if index >= self.view_count {
                    return Err(RenderError::ImageIndexOutOfRange);
                }
                // Record the pass over the multisample target resolved into
                // the acquired image, with the draw the buffer set dictates.
                let draw = resources.plan_draw();
                // Take the in-flight token, chain the new work, and store
                // what the submission left behind.
                match present {
                    PresentOutcome::Completed => {
                        self.in_flight = FutureSlot::Pending;
                    },
                    PresentOutcome::OutOfDate => {
                        self.recreate(caps, window_extent);
                        self.in_flight = FutureSlot::Resolved;
                    },
                    PresentOutcome::Error => {
                        self.in_flight = FutureSlot::Resolved;
                    },
                }
                Ok(
                    FrameReport {
                        skipped: false,
                        acquired_image: Some(index),
                        suboptimal,
                        draw: Some(draw),
                        submitted: matches!(present, PresentOutcome::Completed),
                        recreated: matches!(present, PresentOutcome::OutOfDate),
                    },
                )
            },
        }
    }
}

} // verus!
