//! Frame lifecycle scenarios: creation, recreation, the render step
//! function, and the in-flight token discipline.

use frame_lifecycle::extent::{Extent2D, SurfaceCapabilities};
use frame_lifecycle::renderer::{
    AcquireOutcome, FutureSlot, PresentOutcome, RenderError, Renderer,
};
use frame_lifecycle::upload::{DeviceResources, DrawCommand, MeshUpload};

fn caps(current: Option<Extent2D>, min: u32, max: Option<u32>) -> SurfaceCapabilities {
    SurfaceCapabilities { current_extent: current, min_image_count: min, max_image_count: max }
}

fn ext(width: u32, height: u32) -> Extent2D {
    Extent2D { width, height }
}

fn resources_with_indices(indices: Vec<u16>) -> DeviceResources {
    let mesh = MeshUpload {
        vertex_bytes: vec![0u8; 24 * 5],
        vertex_count: 5,
        indices,
        instance_bytes: vec![0u8; 64 * 2],
        instance_count: 2,
    };
    DeviceResources::new(&mesh, &vec![0u8; 64], &vec![1u8; 16], &vec![2u8; 24])
}

#[test]
fn image_count_is_min_plus_one_clamped_to_max() {
    assert_eq!(caps(None, 2, Some(8)).image_count(), 3);
    assert_eq!(caps(None, 2, Some(2)).image_count(), 2);
    assert_eq!(caps(None, 2, None).image_count(), 3);
}

#[test]
fn chosen_extent_prefers_surface_fixed_extent() {
    let c = caps(Some(ext(1024, 768)), 2, None);
    assert_eq!(c.chosen_extent(ext(640, 480)), ext(1024, 768));
    let c = caps(None, 2, None);
    assert_eq!(c.chosen_extent(ext(640, 480)), ext(640, 480));
}

#[test]
fn new_renderer_matches_swapchain_and_starts_resolved() {
    let r = Renderer::new(&caps(None, 2, Some(3)), ext(800, 600), 4);
    assert_eq!(r.swapchain.extent, ext(800, 600));
    assert_eq!(r.swapchain.image_count, 3);
    assert_eq!(r.view_count, r.swapchain.image_count);
    assert_eq!(r.color_target_extent, r.swapchain.extent);
    assert_eq!(r.depth_target_extent, r.swapchain.extent);
    assert_eq!(r.in_flight, FutureSlot::Resolved);
}

#[test]
fn recreation_sequence_keeps_views_and_targets_matching() {
    let mut r = Renderer::new(&caps(None, 2, Some(4)), ext(800, 600), 4);
    let sizes = [(1024u32, 768u32), (333, 777), (1, 1), (1920, 1080)];
    for (w, h) in sizes {
        r.recreate(&caps(None, 2, Some(4)), ext(w, h));
        assert_eq!(r.swapchain.extent, ext(w, h));
        assert_eq!(r.view_count, r.swapchain.image_count);
        assert_eq!(r.color_target_extent, r.swapchain.extent);
        assert_eq!(r.depth_target_extent, r.swapchain.extent);
    }
}

#[test]
fn recreation_honors_surface_fixed_extent() {
    let mut r = Renderer::new(&caps(None, 2, None), ext(800, 600), 4);
    r.recreate(&caps(Some(ext(500, 400)), 2, None), ext(123, 456));
    assert_eq!(r.swapchain.extent, ext(500, 400));
    assert_eq!(r.color_target_extent, ext(500, 400));
}

#[test]
fn render_with_zero_extent_is_noop() {
    let c = caps(None, 2, Some(3));
    let res = resources_with_indices(vec![0, 1, 2]);
    let mut r = Renderer::new(&c, ext(800, 600), 4);
    let before = r;
    let report = r
        .render(
            ext(0, 600),
            &res,
            AcquireOutcome::Image { index: 0, suboptimal: false },
            PresentOutcome::Completed,
            &c,
        )
        .unwrap();
    assert!(report.skipped);
    assert_eq!(report.acquired_image, None);
    assert!(!report.submitted);
    assert!(!report.recreated);
    assert_eq!(report.draw, None);
    assert_eq!(r, before);
}

#[test]
fn render_with_zero_height_does_not_advance_pending_future() {
    let c = caps(None, 2, Some(3));
    let res = resources_with_indices(vec![0, 1, 2]);
    let mut r = Renderer::new(&c, ext(800, 600), 4);
    r.render(
        ext(800, 600),
        &res,
        AcquireOutcome::Image { index: 0, suboptimal: false },
        PresentOutcome::Completed,
        &c,
    )
    .unwrap();
    assert_eq!(r.in_flight, FutureSlot::Pending);
    let before = r;
    let report = r
        .render(
            ext(800, 0),
            &res,
            AcquireOutcome::Image { index: 0, suboptimal: false },
            PresentOutcome::Completed,
            &c,
        )
        .unwrap();
    assert!(report.skipped);
    assert_eq!(r, before);
}

#[test]
fn successful_render_stores_pending_token() {
    let c = caps(None, 2, Some(3));
    let res = resources_with_indices(vec![0, 1, 2]);
    let mut r = Renderer::new(&c, ext(800, 600), 4);
    let report = r
        .render(
            ext(800, 600),
            &res,
            AcquireOutcome::Image { index: 1, suboptimal: false },
            PresentOutcome::Completed,
            &c,
        )
        .unwrap();
    assert!(!report.skipped);
    assert_eq!(report.acquired_image, Some(1));
    assert_eq!(report.draw, Some(DrawCommand::Indexed { index_count: 3 }));
    assert!(report.submitted);
    assert!(!report.recreated);
    assert_eq!(r.in_flight, FutureSlot::Pending);
}

#[test]
fn suboptimal_acquisition_still_draws() {
    let c = caps(None, 2, Some(3));
    let res = resources_with_indices(vec![0, 1, 2]);
    let mut r = Renderer::new(&c, ext(800, 600), 4);
    let report = r
        .render(
            ext(800, 600),
            &res,
            AcquireOutcome::Image { index: 0, suboptimal: true },
            PresentOutcome::Completed,
            &c,
        )
        .unwrap();
    assert!(report.suboptimal);
    assert!(report.submitted);
}

#[test]
fn out_of_date_acquisition_recreates_and_skips_frame() {
    let old_caps = caps(None, 2, Some(3));
    let new_caps = caps(None, 2, Some(3));
    let res = resources_with_indices(vec![0, 1, 2]);
    let mut r = Renderer::new(&old_caps, ext(800, 600), 4);
    let report = r
        .render(ext(1024, 768), &res, AcquireOutcome::OutOfDate, PresentOutcome::Completed,
            &new_caps)
        .unwrap();
    assert!(report.recreated);
    assert!(!report.submitted);
    assert_eq!(report.acquired_image, None);
    assert_eq!(r.swapchain.extent, ext(1024, 768));
    assert_eq!(r.in_flight, FutureSlot::Resolved);
}

#[test]
fn acquisition_error_fails_and_changes_nothing() {
    let c = caps(None, 2, Some(3));
    let res = resources_with_indices(vec![0, 1, 2]);
    let mut r = Renderer::new(&c, ext(800, 600), 4);
    let before = r;
    let e = r
        .render(ext(800, 600), &res, AcquireOutcome::Error, PresentOutcome::Completed, &c)
        .unwrap_err();
    assert_eq!(e, RenderError::AcquireFailed);
    assert_eq!(r, before);
}

#[test]
fn image_index_out_of_range_fails_and_changes_nothing() {
    let c = caps(None, 2, Some(3));
    let res = resources_with_indices(vec![0, 1, 2]);
    let mut r = Renderer::new(&c, ext(800, 600), 4);
    let before = r;
    let e = r
        .render(
            ext(800, 600),
            &res,
            AcquireOutcome::Image { index: 99, suboptimal: false },
            PresentOutcome::Completed,
            &c,
        )
        .unwrap_err();
    assert_eq!(e, RenderError::ImageIndexOutOfRange);
    assert_eq!(r, before);
}

#[test]
fn out_of_date_present_recreates_once_and_resolves_future() {
    let c = caps(None, 2, Some(3));
    let res = resources_with_indices(vec![0, 1, 2]);
    let mut r = Renderer::new(&c, ext(800, 600), 4);
    r.render(
        ext(800, 600),
        &res,
        AcquireOutcome::Image { index: 0, suboptimal: false },
        PresentOutcome::Completed,
        &c,
    )
    .unwrap();
    assert_eq!(r.in_flight, FutureSlot::Pending);
    let new_caps = caps(Some(ext(640, 480)), 2, Some(3));
    let report = r
        .render(
            ext(800, 600),
            &res,
            AcquireOutcome::Image { index: 0, suboptimal: false },
            PresentOutcome::OutOfDate,
            &new_caps,
        )
        .unwrap();
    assert!(report.recreated);
    assert!(!report.submitted);
    assert_eq!(r.in_flight, FutureSlot::Resolved);
    assert_eq!(r.swapchain.extent, ext(640, 480));
    assert_eq!(r.view_count, r.swapchain.image_count);
    let report = r
        .render(
            ext(640, 480),
            &res,
            AcquireOutcome::Image { index: 0, suboptimal: false },
            PresentOutcome::Completed,
            &new_caps,
        )
        .unwrap();
    assert!(report.submitted);
    assert!(!report.recreated);
}

#[test]
fn present_error_drops_frame_and_resolves_future() {
    let c = caps(None, 2, Some(3));
    let res = resources_with_indices(vec![0, 1, 2]);
    let mut r = Renderer::new(&c, ext(800, 600), 4);
    let before = r;
    let report = r
        .render(
            ext(800, 600),
            &res,
            AcquireOutcome::Image { index: 0, suboptimal: false },
            PresentOutcome::Error,
            &c,
        )
        .unwrap();
    assert!(!report.submitted);
    assert!(!report.recreated);
    assert_eq!(r.in_flight, FutureSlot::Resolved);
    assert_eq!(r.swapchain, before.swapchain);
}

#[test]
fn image_count_at_the_numeric_ceiling_does_not_wrap() {
    assert_eq!(caps(None, u32::MAX, None).image_count(), u32::MAX);
    assert_eq!(caps(None, u32::MAX, Some(u32::MAX)).image_count(), u32::MAX);
}
