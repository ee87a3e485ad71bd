//! Visual-system scenarios: buffer stability across frames, resize
//! propagation with aspect clamping, suspend/resume, event dispatch, and
//! the camera controller.

use frame_lifecycle::camera::{CameraController, MoveKey};
use frame_lifecycle::events::{
    dispatch_event, AppDirective, LoopEvent, WindowSignal,
};
use frame_lifecycle::extent::{Extent2D, SurfaceCapabilities};
use frame_lifecycle::renderer::{AcquireOutcome, FutureSlot, PresentOutcome};
use frame_lifecycle::system::VisualSystem;
use frame_lifecycle::upload::MeshUpload;

fn ext(width: u32, height: u32) -> Extent2D {
    Extent2D { width, height }
}

fn caps() -> SurfaceCapabilities {
    SurfaceCapabilities { current_extent: None, min_image_count: 2, max_image_count: Some(4) }
}

fn system() -> VisualSystem {
    let mesh = MeshUpload {
        vertex_bytes: vec![3u8; 24 * 4],
        vertex_count: 4,
        indices: vec![0, 1, 2],
        instance_bytes: vec![4u8; 64],
        instance_count: 1,
    };
    VisualSystem::new(
        10,
        vec![10, 20],
        &vec![ext(800, 600), ext(320, 200)],
        &caps(),
        4,
        &mesh,
        &vec![0u8; 64],
        &vec![1u8; 16],
        &vec![2u8; 24],
    )
}

#[test]
fn draw_keeps_device_buffers_stable() {
    let mut sys = system();
    let before_uniform = sys.resources.uniform_read_back();
    let before_vertex = sys.resources.vertex_contents().clone();
    for (w, h) in [(800u32, 600u32), (640, 480), (800, 600)] {
        sys.draw(
            10,
            ext(w, h),
            AcquireOutcome::Image { index: 0, suboptimal: false },
            PresentOutcome::Completed,
            &caps(),
        )
        .unwrap();
    }
    assert_eq!(sys.resources.uniform_read_back(), before_uniform);
    assert_eq!(sys.resources.vertex_contents(), &before_vertex);
    assert!(sys.resources.has_index_buffer());
}

#[test]
fn draw_touches_only_the_drawn_window() {
    let mut sys = system();
    let other_before = sys.renderers[1];
    sys.draw(
        10,
        ext(800, 600),
        AcquireOutcome::Image { index: 0, suboptimal: false },
        PresentOutcome::Completed,
        &caps(),
    )
    .unwrap();
    assert_eq!(sys.renderers[1], other_before);
    assert_eq!(sys.renderers[0].in_flight, FutureSlot::Pending);
}

#[test]
fn resize_recreates_renderer_and_updates_uniform() {
    let mut sys = system();
    let fresh: Vec<u8> = (0..64).map(|i| i as u8).collect();
    sys.resize(20, ext(1000, 500), &caps(), &fresh);
    assert_eq!(sys.renderers[1].swapchain.extent, ext(1000, 500));
    assert_eq!(sys.renderers[1].view_count, sys.renderers[1].swapchain.image_count);
    assert_eq!(sys.aspect.width, 1000);
    assert_eq!(sys.aspect.height, 500);
    assert_eq!(sys.resources.uniform_read_back(), fresh);
    assert_eq!(sys.renderers[0].swapchain.extent, ext(800, 600));
}

#[test]
fn resize_with_zero_height_clamps_aspect_denominator() {
    let mut sys = system();
    sys.resize(10, ext(777, 0), &caps(), &vec![0u8; 64]);
    assert_eq!(sys.aspect.width, 777);
    assert_eq!(sys.aspect.height, 1);
}

#[test]
fn resize_with_zero_width_keeps_denominator_positive() {
    let mut sys = system();
    sys.resize(10, ext(0, 0), &caps(), &vec![0u8; 64]);
    assert_eq!(sys.aspect.width, 0);
    assert_eq!(sys.aspect.height, 1);
}

#[test]
fn suspend_drops_renderers_and_resume_rebuilds_them() {
    let mut sys = system();
    let uniform_before = sys.resources.uniform_read_back();
    sys.suspend();
    assert_eq!(sys.renderers.len(), 0);
    assert_eq!(sys.window_ids, vec![10, 20]);
    sys.resume(&vec![ext(800, 600), ext(320, 200)], &caps());
    assert_eq!(sys.renderers.len(), 2);
    assert_eq!(sys.renderers[0].in_flight, FutureSlot::Resolved);
    assert_eq!(sys.renderers[1].swapchain.extent, ext(320, 200));
    assert_eq!(sys.resources.uniform_read_back(), uniform_before);
}

#[test]
fn has_window_reports_known_ids() {
    let sys = system();
    assert!(sys.has_window(10));
    assert!(sys.has_window(20));
    assert!(!sys.has_window(30));
}

#[test]
fn dispatch_close_on_primary_exits() {
    let d = dispatch_event(true, 7, &LoopEvent::Window {
        window_id: 7,
        signal: WindowSignal::CloseRequested,
    });
    assert_eq!(d.directive, AppDirective::Exit);
    assert!(d.app_started);
}

#[test]
fn dispatch_close_on_secondary_is_ignored() {
    let d = dispatch_event(true, 7, &LoopEvent::Window {
        window_id: 8,
        signal: WindowSignal::CloseRequested,
    });
    assert_eq!(d.directive, AppDirective::Ignore);
}

#[test]
fn dispatch_resize_and_redraw_name_their_window() {
    let d = dispatch_event(true, 7, &LoopEvent::Window {
        window_id: 8,
        signal: WindowSignal::Resized { new_size: Extent2D { width: 30, height: 40 } },
    });
    assert_eq!(d.directive, AppDirective::ResizeWindow {
        window_id: 8,
        new_size: Extent2D { width: 30, height: 40 },
    });
    let d = dispatch_event(true, 7, &LoopEvent::Window {
        window_id: 7,
        signal: WindowSignal::RedrawRequested,
    });
    assert_eq!(d.directive, AppDirective::DrawWindow { window_id: 7 });
}

#[test]
fn dispatch_first_resume_starts_later_resumes_rebuild() {
    let d = dispatch_event(false, 7, &LoopEvent::Resumed);
    assert_eq!(d.directive, AppDirective::StartVisualSystem);
    assert!(d.app_started);
    let d = dispatch_event(d.app_started, 7, &LoopEvent::Resumed);
    assert_eq!(d.directive, AppDirective::ResumeVisualSystem);
    assert!(d.app_started);
}

#[test]
fn dispatch_suspend_and_wait() {
    let d = dispatch_event(true, 7, &LoopEvent::Suspended);
    assert_eq!(d.directive, AppDirective::SuspendVisualSystem);
    let d = dispatch_event(true, 7, &LoopEvent::AboutToWait);
    assert_eq!(d.directive, AppDirective::RequestRedraw);
}

#[test]
fn camera_controller_tracks_pressed_keys() {
    let mut c = CameraController::new();
    assert!(c.process_key(Some(MoveKey::Forward), true));
    assert!(c.forward_pressed);
    assert!(c.process_key(Some(MoveKey::Left), true));
    assert!(c.left_pressed);
    assert!(c.process_key(Some(MoveKey::Forward), false));
    assert!(!c.forward_pressed);
    assert!(c.left_pressed);
    assert!(!c.process_key(None, true));
    assert!(!c.backward_pressed && !c.right_pressed);
}
