//! Camera state as the lifecycle reads and writes it: the aspect ratio that
//! every resize updates, and the key-driven movement flags. The floating
//! point view-projection math itself belongs to the linear-algebra
//! collaborator; the uploader receives its result as an opaque uniform
//! block.

use vstd::prelude::*;

verus! {

/// The camera's aspect ratio, kept as the exact integer ratio of drawable
/// width to clamped drawable height. The collaborator divides the two as
/// floats when it builds the projection matrix.
#[derive(Clone, Copy, PartialEq, Eq, Structural, Debug)]
pub struct AspectRatio {
    pub width: u32,
    pub height: u32,
}

impl AspectRatio {
    /// The denominator is never zero, so the division the projection
    /// performs is always defined.
    pub open spec fn wf(self) -> bool {
        1 <= self.height
    }

    /// The default camera looks through an 800 by 600 viewport.
    pub fn new() -> (r: AspectRatio)
        ensures
            r.width == 800,
            r.height == 600,
            r.wf(),
    {
        AspectRatio { width: 800, height: 600 }
    }

    /// Adopt a window's new size. A zero height (a minimized window) is
    /// clamped to one before it becomes the denominator, so the aspect
    /// computation never divides by zero.
    pub fn update_aspect(&mut self, width: u32, height: u32)
        ensures
            final(self).width == width,
            final(self).height == if height == 0 { 1u32 } else { height },
            final(self).wf(),
    {
        self.width = width;
        self.height = if height == 0 { 1 } else { height };
    }
}

/// A movement key the camera controller reacts to; each covers both its
/// letter and its arrow variant.
#[derive(Clone, Copy, PartialEq, Eq, Structural, Debug)]
pub enum MoveKey {
    Forward,
    Backward,
    Left,
    Right,
}

/// Which movement keys are currently held; the per-frame camera update
/// reads these to displace the eye.
#[derive(Clone, Copy, PartialEq, Eq, Structural, Debug)]
pub struct CameraController {
    pub forward_pressed: bool,
    pub backward_pressed: bool,
    pub left_pressed: bool,
    pub right_pressed: bool,
}

impl CameraController {
    pub fn new() -> (r: CameraController)
        ensures
            !r.forward_pressed,
            !r.backward_pressed,
            !r.left_pressed,
            !r.right_pressed,
    {
        CameraController {
            forward_pressed: false,
            backward_pressed: false,
            left_pressed: false,
            right_pressed: false,
        }
    }

    /// The flags after one keyboard event: a movement key sets its flag to
    /// the key's pressed state, anything else changes nothing.
    pub open spec fn spec_process_key(self, key: Option<MoveKey>, pressed: bool) -> CameraController {
        match key {
            Some(MoveKey::Forward) => CameraController { forward_pressed: pressed, ..self },
            Some(MoveKey::Backward) => CameraController { backward_pressed: pressed, ..self },
            Some(MoveKey::Left) => CameraController { left_pressed: pressed, ..self },
            Some(MoveKey::Right) => CameraController { right_pressed: pressed, ..self },
            None => self,
        }
    }

    /// React to one keyboard event; the result says whether the event was
    /// consumed, exactly when it carried a movement key.
    pub fn process_key(&mut self, key: Option<MoveKey>, pressed: bool) -> (consumed: bool)
        ensures
            *final(self) == old(self).spec_process_key(key, pressed),
            consumed == (key is Some),
    {
        match key {
            Some(MoveKey::Forward) => {
                self.forward_pressed = pressed;
                true
            },
            Some(MoveKey::Backward) => {
                self.backward_pressed = pressed;
                true
            },
            Some(MoveKey::Left) => {
                self.left_pressed = pressed;
                true
            },
            Some(MoveKey::Right) => {
                self.right_pressed = pressed;
                true
            },
            None => false,
        }
    }
}

} // verus!
