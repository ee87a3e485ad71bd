//! Frame lifecycle of a swapchain-based renderer, modelled over plain values.
//!
//! The crate captures the part of a windowed renderer that has genuine
//! state-machine discipline: choosing a swapchain extent and image count from
//! surface capabilities, rebuilding swapchain-dependent resources on resize or
//! staleness, pacing CPU/GPU overlap through a single in-flight completion
//! token, and moving host data into device-local buffers through staging
//! copies. The graphics API and the windowing toolkit themselves are external
//! collaborators: callers perform the actual acquisition, submission and
//! presentation and feed their outcomes into the verified step functions here.

pub mod adapter;
pub mod camera;
pub mod events;
pub mod extent;
pub mod pipeline;
pub mod renderer;
pub mod swapchain;
pub mod system;
pub mod texture;
pub mod upload;
