//! Render throttling: draw only when something changed and a frame's time
//! has passed since the last draw.

use crate::batch::elapsed;
use vstd::prelude::*;

verus! {

/// Frames per second at most.
pub const MAX_FPS: u64 = 60;

/// Milliseconds per frame at `MAX_FPS`.
pub const FRAME_TIME_MS: u64 = 1000 / MAX_FPS;

/// Milliseconds between two render-clock ticks.
pub const RENDER_INTERVAL_MS: u64 = 100;

/// Whether a draw is wanted, and when the last one happened.
#[derive(Debug, Clone, Copy, PartialEq, Eq, Structural)]
pub struct RenderState {
    pub needs_render: bool,
    pub last_render_ms: u64,
}

impl RenderState {
    /// Wants a first draw; the clock starts at `now_ms`.
    pub fn new(now_ms: u64) -> (r: Self)
        ensures
            r.needs_render,
            r.last_render_ms == now_ms,
    {
        RenderState { needs_render: true, last_render_ms: now_ms }
    }

    /// Marks that the screen is out of date.
    pub fn request_render(&mut self)
        ensures
            final(self).needs_render,
            final(self).last_render_ms == old(self).last_render_ms,
    {
        self.needs_render = true;
    }

    /// A draw is due: one was requested and a frame's time has passed.
    pub fn should_render(&self, now_ms: u64) -> (r: bool)
        ensures
            r == (self.needs_render && elapsed(self.last_render_ms, now_ms) >= FRAME_TIME_MS),
    {
        self.needs_render && now_ms.saturating_sub(self.last_render_ms) >= FRAME_TIME_MS
    }

    /// Records a draw at `now_ms`.
    pub fn mark_rendered(&mut self, now_ms: u64)
        ensures
            !final(self).needs_render,
            final(self).last_render_ms == now_ms,
    {
        self.last_render_ms = now_ms;
        self.needs_render = false;
    }
}

} // verus!
