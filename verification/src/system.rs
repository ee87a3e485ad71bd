//! The visual system: every window's renderer, the shared device-resident
//! buffers, and the shared camera aspect state, driven by the directives
//! the event dispatch hands back. One renderer exists per window; the
//! device resources and the camera are shared by all of them.

use vstd::prelude::*;

use crate::camera::AspectRatio;
use crate::extent::{Extent2D, SurfaceCapabilities};
use crate::renderer::{AcquireOutcome, FrameReport, PresentOutcome, RenderError, Renderer};
use crate::upload::{DeviceResources, MeshUpload, UNIFORM_LEN};

verus! {

/// The renderers, buffers and camera state of the running application.
#[derive(Debug)]
pub struct VisualSystem {
    /// The window whose close request ends the application.
    pub primary_window_id: u64,
    /// Every window, primary first.
    pub window_ids: Vec<u64>,
    /// One renderer per window, in the windows' order; empty exactly while
    /// suspended.
    pub renderers: Vec<Renderer>,
    /// The device-local buffers shared by all renderers.
    pub resources: DeviceResources,
    /// The camera aspect state every resize updates.
    pub aspect: AspectRatio,
    /// Samples per pixel of the multisample targets of every renderer.
    pub sample_count: u32,
}

impl VisualSystem {
    /// The windows' renderers have either all been built or all dropped.
    pub open spec fn suspended(self) -> bool {
        self.renderers@.len() == 0
    }

    pub open spec fn wf(self) -> bool {
        &&& 1 <= self.window_ids@.len()
        &&& self.window_ids@[0] == self.primary_window_id
        &&& (self.renderers@.len() == self.window_ids@.len() || self.renderers@.len() == 0)
        &&& (forall|i: int, j: int|
            #![trigger self.window_ids@[i], self.window_ids@[j]]
            0 <= i < j < self.window_ids@.len() ==> self.window_ids@[i] != self.window_ids@[j])
        &&& (forall|i: int| 0 <= i < self.renderers@.len() ==> (#[trigger] self.renderers@[i]).wf())
        &&& self.resources.wf()
        &&& self.aspect.wf()
        &&& 1 <= self.sample_count
    }

    /// Some window carries this identifier.
    pub open spec fn spec_has_window(self, window_id: u64) -> bool {
        exists|i: int|
            0 <= i < self.window_ids@.len() && self.window_ids@[i] == window_id
    }

    /// The position of that window; unique identifiers make it unambiguous.
    pub open spec fn spec_window_index(self, window_id: u64) -> int {
        choose|i: int| 0 <= i < self.window_ids@.len() && self.window_ids@[i] == window_id
    }

    /// Build the system: one renderer per window against that window's
    /// current extent, the device buffers uploaded once, and the default
    /// camera aspect.
    pub fn new(
        primary_window_id: u64,
        window_ids: Vec<u64>,
        window_extents: &Vec<Extent2D>,
        caps: &SurfaceCapabilities,
        sample_count: u32,
        mesh: &MeshUpload,
        uniform0: &Vec<u8>,
        ambient_bytes: &Vec<u8>,
        directional_bytes: &Vec<u8>,
    ) -> (r: VisualSystem)
        requires
            1 <= window_ids@.len(),
            window_ids@[0] == primary_window_id,
            window_extents@.len() == window_ids@.len(),
            forall|i: int, j: int|
                0 <= i < j < window_ids@.len() ==> window_ids@[i] != window_ids@[j],
            caps.wf(),
            1 <= sample_count,
            mesh.wf(),
            uniform0@.len() == UNIFORM_LEN,
        ensures
            r.primary_window_id == primary_window_id,
            r.window_ids == window_ids,
            r.sample_count == sample_count,
            r.renderers@.len() == window_ids@.len(),
            forall|i: int|
                0 <= i < window_ids@.len() ==> r.renderers@[i] == Renderer::spec_new(
                    *caps,
                    window_extents@[i],
                    sample_count,
                ),
            r.resources@.index is Some <==> mesh.indices@.len() > 0,
            r.resources@.uniform.device == uniform0@,
            r.resources@.vertex == mesh.vertex_bytes@,
            r.resources@.instance == mesh.instance_bytes@,
            r.aspect.width == 800 && r.aspect.height == 600,
            !r.suspended(),
            r.wf(),
    {
        let resources = DeviceResources::new(mesh, uniform0, ambient_bytes, directional_bytes);
        let mut renderers: Vec<Renderer> = Vec::new();
        let mut i: usize = 0;
        while i < window_ids.len()
            invariant
                i <= window_ids@.len(),
                window_extents@.len() == window_ids@.len(),
                caps.wf(),
                1 <= sample_count,
                renderers@.len() == i,
                forall|j: int|
                    0 <= j < i ==> renderers@[j] == Renderer::spec_new(
                        *caps,
                        window_extents@[j],
                        sample_count,
                    ),
            decreases window_ids@.len() - i,
        {
            renderers.push(Renderer::new(caps, window_extents[i], sample_count));
            i = i + 1;
        }
        proof {
            assert(forall|j: int|
                0 <= j < renderers@.len() ==> (#[trigger] renderers@[j]).wf());
        }
        VisualSystem {
            primary_window_id,
            window_ids,
            renderers,
            resources,
            aspect: AspectRatio::new(),
            sample_count,
        }
    }

    /// Whether a window with this identifier exists.
    pub fn has_window(&self, window_id: u64) -> (r: bool)
        ensures
            r == self.spec_has_window(window_id),
    {
        let mut i: usize = 0;
        while i < self.window_ids.len()
            invariant
                i <= self.window_ids@.len(),
                forall|j: int| 0 <= j < i ==> self.window_ids@[j] != window_id,
            decreases self.window_ids@.len() - i,
        {
            if self.window_ids[i] == window_id {
                return true;
            }
            i = i + 1;
        }
        false
    }

    /// The position of the window carrying this identifier.
    fn window_index(&self, window_id: u64) -> (r: usize)
        requires
            self.wf(),
            self.spec_has_window(window_id),
        ensures
            r == self.spec_window_index(window_id),
            r < self.window_ids@.len(),
            self.window_ids@[r as int] == window_id,
    {
        let mut i: usize = 0;
        while i < self.window_ids.len()
            invariant
                self.wf(),
                i <= self.window_ids@.len(),
                self.spec_has_window(window_id),
                forall|j: int| 0 <= j < i ==> self.window_ids@[j] != window_id,
            decreases self.window_ids@.len() - i,
        {
            if self.window_ids[i] == window_id {
                proof {
                    let k = self.spec_window_index(window_id);
                    assert(self.window_ids@[k] == window_id);
                    if i < k {
                        assert(self.window_ids@[i as int] != self.window_ids@[k]);
                    } else if k < i {
                        assert(self.window_ids@[k] != self.window_ids@[i as int]);
                    }
                }
                return i;
            }
            i = i + 1;
        }
        proof {
            let k = self.spec_window_index(window_id);
            assert(self.window_ids@[k] == window_id);
            assert(false);
        }
        0
    }

    /// Handle a resize of one window: recreate that window's renderer
    /// against the re-queried capabilities, adopt the new aspect ratio with
    /// the height clamped away from zero, and re-upload the uniform block
    /// the caller computed from the updated camera.
    pub fn resize(
        &mut self,
        window_id: u64,
        new_size: Extent2D,
        caps: &SurfaceCapabilities,
        new_uniform: &Vec<u8>,
    )
        requires
            old(self).wf(),
            !old(self).suspended(),
            old(self).spec_has_window(window_id),
            new_uniform@.len() == UNIFORM_LEN,
        ensures
            final(self).renderers@ == old(self).renderers@.update(
                old(self).spec_window_index(window_id),
                old(self).renderers@[old(self).spec_window_index(window_id)].spec_recreate(
                    *caps,
                    new_size,
                ),
            ),
            final(self).aspect.width == new_size.width,
            final(self).aspect.height == if new_size.height == 0 {
                1u32
            } else {
                new_size.height
            },
            final(self).resources@ == old(self).resources@.after_uniform_upload(new_uniform@),
            final(self).window_ids == old(self).window_ids,
            final(self).primary_window_id == old(self).primary_window_id,
            final(self).sample_count == old(self).sample_count,
            final(self).wf(),
            !final(self).suspended(),
    {
        let i = self.window_index(window_id);
        let mut renderer = self.renderers.remove(i);
        renderer.recreate(caps, new_size);
        self.renderers.insert(i, renderer);
        self.aspect.update_aspect(new_size.width, new_size.height);
        self.resources.update_uniform(new_uniform);
        proof {
            assert(self.renderers@ =~= old(self).renderers@.update(
                old(self).spec_window_index(window_id),
                old(self).renderers@[old(self).spec_window_index(window_id)].spec_recreate(
                    *caps,
                    new_size,
                ),
            ));
        }
    }

    /// Render one frame for one window. The shared device-local buffers are
    /// bound, never altered: whatever the frame's outcome, the buffer set
    /// is left exactly as it was.
    pub fn draw(
        &mut self,
        window_id: u64,
        window_extent: Extent2D,
        acquire: AcquireOutcome,
        present: PresentOutcome,
        caps: &SurfaceCapabilities,
    ) -> (r: Result<FrameReport, RenderError>)
        requires
            old(self).wf(),
            !old(self).suspended(),
            old(self).spec_has_window(window_id),
        ensures
            final(self).renderers@ == old(self).renderers@.update(
                old(self).spec_window_index(window_id),
                old(self).renderers@[old(self).spec_window_index(window_id)].spec_render_next(
                    window_extent,
                    acquire,
                    present,
                    *caps,
                ),
            ),
            r == old(self).renderers@[old(self).spec_window_index(window_id)].spec_render_result(
                window_extent,
                acquire,
                present,
                *caps,
                old(self).resources@,
            ),
            final(self).resources == old(self).resources,
            final(self).aspect == old(self).aspect,
            final(self).window_ids == old(self).window_ids,
            final(self).primary_window_id == old(self).primary_window_id,
            final(self).sample_count == old(self).sample_count,
            final(self).wf(),
            !final(self).suspended(),
    {
        let i = self.window_index(window_id);
        let mut renderer = self.renderers.remove(i);
        let r = renderer.render(window_extent, &self.resources, acquire, present, caps);
        self.renderers.insert(i, renderer);
        proof {
            assert(self.renderers@ =~= old(self).renderers@.update(
                old(self).spec_window_index(window_id),
                old(self).renderers@[old(self).spec_window_index(window_id)].spec_render_next(
                    window_extent,
                    acquire,
                    present,
                    *caps,
                ),
            ));
        }
        r
    }

    /// Drop every renderer, releasing each swapchain with its views and
    /// targets. The windows, the device buffers and the camera survive.
    pub fn suspend(&mut self)
        ensures
            final(self).renderers@.len() == 0,
            final(self).suspended(),
            final(self).resources == old(self).resources,
            final(self).aspect == old(self).aspect,
            final(self).window_ids == old(self).window_ids,
            final(self).primary_window_id == old(self).primary_window_id,
            final(self).sample_count == old(self).sample_count,
            old(self).wf() ==> final(self).wf(),
    {
        self.renderers.clear();
    }

    /// Rebuild a fresh renderer for every kept window, bound to the kept
    /// device; each starts from an already-resolved in-flight sentinel.
    pub fn resume(&mut self, window_extents: &Vec<Extent2D>, caps: &SurfaceCapabilities)
        requires
            old(self).wf(),
            window_extents@.len() == old(self).window_ids@.len(),
            caps.wf(),
        ensures
            final(self).renderers@.len() == old(self).window_ids@.len(),
            forall|i: int|
                0 <= i < final(self).renderers@.len() ==> final(self).renderers@[i]
                    == Renderer::spec_new(*caps, window_extents@[i], old(self).sample_count),
            final(self).resources == old(self).resources,
            final(self).aspect == old(self).aspect,
            final(self).window_ids == old(self).window_ids,
            final(self).primary_window_id == old(self).primary_window_id,
            final(self).sample_count == old(self).sample_count,
            final(self).wf(),
            !final(self).suspended(),
    {
        let mut renderers: Vec<Renderer> = Vec::new();
        let mut i: usize = 0;
        while i < self.window_ids.len()
            invariant
                i <= self.window_ids@.len(),
                window_extents@.len() == self.window_ids@.len(),
                caps.wf(),
                1 <= self.sample_count,
                renderers@.len() == i,
                forall|j: int|
                    0 <= j < i ==> renderers@[j] == Renderer::spec_new(
                        *caps,
                        window_extents@[j],
                        self.sample_count,
                    ),
            decreases self.window_ids@.len() - i,
        {
            renderers.push(Renderer::new(caps, window_extents[i], self.sample_count));
            i = i + 1;
        }
        self.renderers = renderers;
    }
}

} // verus!
