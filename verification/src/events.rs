//! Event dispatch: the decisions the application takes for each event the
//! windowing loop delivers. The loop itself, and the windowing toolkit's
//! own event types, stay with the caller; events arrive here already
//! reduced to the cases the application distinguishes.

use vstd::prelude::*;

use crate::extent::Extent2D;

verus! {

/// The window-level events the application reacts to.
#[derive(Clone, Copy, PartialEq, Eq, Structural, Debug)]
pub enum WindowSignal {
    CloseRequested,
    Resized { new_size: Extent2D },
    RedrawRequested,
    Other,
}

/// One event from the windowing loop, reduced to what the dispatch reads.
#[derive(Clone, Copy, PartialEq, Eq, Structural, Debug)]
pub enum LoopEvent {
    Window { window_id: u64, signal: WindowSignal },
    Resumed,
    Suspended,
    AboutToWait,
    Other,
}

/// What the application must do for one event.
#[derive(Clone, Copy, PartialEq, Eq, Structural, Debug)]
pub enum AppDirective {
    /// End the event loop: the primary window was asked to close.
    Exit,
    /// Recreate the window's renderer and propagate the new size to the
    /// camera and the uniform upload path.
    ResizeWindow { window_id: u64, new_size: Extent2D },
    /// Render one frame for the window.
    DrawWindow { window_id: u64 },
    /// First resume: build the visual system.
    StartVisualSystem,
    /// Later resumes: rebuild the renderers against the kept device and
    /// windows.
    ResumeVisualSystem,
    /// Drop all renderers.
    SuspendVisualSystem,
    /// Ask every window for a redraw.
    RequestRedraw,
    /// Nothing to do.
    Ignore,
}

/// A dispatch decision: the directive to carry out and whether the
/// application now counts as started.
#[derive(Clone, Copy, PartialEq, Eq, Structural, Debug)]
pub struct DispatchOutcome {
    pub directive: AppDirective,
    pub app_started: bool,
}

/// The decision for one event. Close requests matter only for the primary
/// window; the first resume starts the visual system, every later one
/// rebuilds the renderers.
pub open spec fn spec_dispatch_event(
    app_started: bool,
    primary_window: u64,
    event: LoopEvent,
) -> DispatchOutcome {
    match event {
        LoopEvent::Window { window_id, signal } => {
            let directive = match signal {
                WindowSignal::CloseRequested => if window_id == primary_window {
                    AppDirective::Exit
                } else {
                    AppDirective::Ignore
                },
                WindowSignal::Resized { new_size } => AppDirective::ResizeWindow {
                    window_id,
                    new_size,
                },
                WindowSignal::RedrawRequested => AppDirective::DrawWindow { window_id },
                WindowSignal::Other => AppDirective::Ignore,
            };
            DispatchOutcome { directive, app_started }
        },
        LoopEvent::Resumed => if app_started {
            DispatchOutcome { directive: AppDirective::ResumeVisualSystem, app_started: true }
        } else {
            DispatchOutcome { directive: AppDirective::StartVisualSystem, app_started: true }
        },
        LoopEvent::Suspended => DispatchOutcome {
            directive: AppDirective::SuspendVisualSystem,
            app_started,
        },
        LoopEvent::AboutToWait => DispatchOutcome {
            directive: AppDirective::RequestRedraw,
            app_started,
        },
        LoopEvent::Other => DispatchOutcome { directive: AppDirective::Ignore, app_started },
    }
}

pub fn dispatch_event(app_started: bool, primary_window: u64, event: &LoopEvent) -> (r:
    DispatchOutcome)
    ensures
        r == spec_dispatch_event(app_started, primary_window, *event),
{
    match event {
        LoopEvent::Window { window_id, signal } => {
            let directive = match signal {
                WindowSignal::CloseRequested => if *window_id == primary_window {
                    AppDirective::Exit
                } else {
                    AppDirective::Ignore
                },
                WindowSignal::Resized { new_size } => AppDirective::ResizeWindow {
                    window_id: *window_id,
                    new_size: *new_size,
                },
                WindowSignal::RedrawRequested => AppDirective::DrawWindow {
                    window_id: *window_id,
                },
                WindowSignal::Other => AppDirective::Ignore,
            };
            DispatchOutcome { directive, app_started }
        },
        LoopEvent::Resumed => if app_started {
            DispatchOutcome { directive: AppDirective::ResumeVisualSystem, app_started: true }
        } else {
            DispatchOutcome { directive: AppDirective::StartVisualSystem, app_started: true }
        },
        LoopEvent::Suspended => DispatchOutcome {
            directive: AppDirective::SuspendVisualSystem,
            app_started,
        },
        LoopEvent::AboutToWait => DispatchOutcome {
            directive: AppDirective::RequestRedraw,
            app_started,
        },
        LoopEvent::Other => DispatchOutcome { directive: AppDirective::Ignore, app_started },
    }
}

} // verus!
