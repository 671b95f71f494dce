//! The lifecycle handlers: how the runtime responds to the windowing
//! system's signals (resume, tick boundaries, key events, close requests).
//! The surrounding event loop performs the platform work and feeds the
//! resulting plain values through these transitions.

use vstd::prelude::*;

use crate::frame::{frame_fresh, Frame};
use crate::gamma::{
    ContextModel, Gamma, GammaView, KeyEventOutcome, Phase, PresentMode, KEY_ESCAPE,
};
use crate::input::{edges_cleared, input_empty, key_step};

verus! {

/// Whether a key event must shut the runtime down: Escape transitions to
/// pressed while close-on-escape is configured.
pub open spec fn escape_shutdown(v: GammaView, code: u32, pressed: bool) -> bool {
    &&& pressed
    &&& code == KEY_ESCAPE
    &&& v.config.close_on_escape
    &&& !v.input.held.contains(code)
}

impl Gamma {
    /// Whether the GPU context currently exists.
    pub fn is_initialized(&self) -> (r: bool)
        ensures
            r == self@.phase is Ready,
    {
        match self.phase {
            Phase::Ready(_) => true,
            _ => false,
        }
    }

    /// The surface dimensions of the live GPU context.
    pub fn surface_size(&self) -> (r: Option<(u32, u32)>)
        ensures
            match self@.phase {
                Phase::Ready(c) => r == Some((c.surface_width, c.surface_height)),
                _ => r is None,
            },
    {
        match self.phase {
            Phase::Ready(c) => Some((c.surface_width, c.surface_height)),
            _ => None,
        }
    }

    /// Mark the moment ticking begins: the first tick's delta is measured
    /// from here, not from process start.
    pub fn begin_run(&mut self, now_nanos: u64)
        requires
            old(self).wf(),
        ensures
            final(self).wf(),
            final(self)@ == (GammaView { last_tick_nanos: now_nanos, ..old(self)@ }),
    {
        self.last_tick_nanos = now_nanos;
    }

    /// React to the window system's resume signal once the platform window
    /// and GPU resources exist, with the surface's physical size. The first
    /// resume moves the runtime to `Ready`; repeated resume signals change
    /// nothing, and a terminated runtime is not revived.
    pub fn handle_resumed(&mut self, surface_width: u32, surface_height: u32) -> (newly: bool)
        requires
            old(self).wf(),
            surface_width > 0,
            surface_height > 0,
        ensures
            final(self).wf(),
            old(self)@.phase is Uninitialized ==> {
                &&& newly
                &&& final(self)@ == (GammaView {
                    phase: Phase::Ready(ContextModel {
                        surface_width,
                        surface_height,
                        present_mode: if old(self)@.config.vsync {
                            PresentMode::AutoVsync
                        } else {
                            PresentMode::AutoNoVsync
                        },
                    }),
                    ..old(self)@
                })
            },
            !(old(self)@.phase is Uninitialized) ==> !newly && final(self)@ == old(self)@,
    {
        match self.phase {
            Phase::Uninitialized => {
                let present_mode = if self.vsync_enabled() {
                    PresentMode::AutoVsync
                } else {
                    PresentMode::AutoNoVsync
                };
                self.phase = Phase::Ready(ContextModel {
                    surface_width,
                    surface_height,
                    present_mode,
                });
                true
            },
            _ => false,
        }
    }

    /// Start a tick: compute the time since the previous tick boundary and
    /// advance the boundary. Outside the `Ready` state nothing happens.
    pub fn begin_tick(&mut self, now_nanos: u64) -> (delta: Option<u64>)
        requires
            old(self).wf(),
            now_nanos >= old(self)@.last_tick_nanos,
        ensures
            final(self).wf(),
            old(self)@.phase is Ready ==> {
                &&& delta == Some((now_nanos - old(self)@.last_tick_nanos) as u64)
                &&& final(self)@ == (GammaView {
                    last_tick_nanos: now_nanos,
                    delta_nanos: (now_nanos - old(self)@.last_tick_nanos) as u64,
                    ..old(self)@
                })
            },
            !(old(self)@.phase is Ready) ==> delta is None && final(self)@ == old(self)@,
    {
        match self.phase {
            Phase::Ready(_) => {
                let d = now_nanos - self.last_tick_nanos;
                self.delta_nanos = d;
                self.last_tick_nanos = now_nanos;
                Some(d)
            },
            _ => None,
        }
    }

    /// End a tick: report whether a composed frame must be presented, drop
    /// it, and clear the one-tick-lived input edges. The held keys survive
    /// the boundary.
    pub fn end_tick(&mut self) -> (present: bool)
        requires
            old(self).wf(),
        ensures
            final(self).wf(),
            present == old(self)@.frame is Some,
            final(self)@ == (GammaView {
                frame: None,
                input: edges_cleared(old(self)@.input),
                ..old(self)@
            }),
    {
        let present = self.frame.is_some();
        self.frame = None;
        self.input.clear_edges();
        present
    }

    /// Tear everything down: the GPU context, the frame being composed and
    /// the input state all become absent, and no later signal revives them.
    pub fn handle_close_requested(&mut self)
        requires
            old(self).wf(),
        ensures
            final(self).wf(),
            final(self)@ == (GammaView {
                phase: Phase::Terminated,
                frame: None,
                input: input_empty(),
                ..old(self)@
            }),
    {
        self.phase = Phase::Terminated;
        self.frame = None;
        self.input.reset();
    }

    /// Feed a raw key event through the edge detector, shutting down when
    /// Escape transitions to pressed and close-on-escape is configured.
    /// Outside the `Ready` state the event is ignored.
    pub fn handle_key_event(&mut self, code: u32, pressed: bool) -> (r: KeyEventOutcome)
        requires
            old(self).wf(),
        ensures
            final(self).wf(),
            !(old(self)@.phase is Ready) ==> r is Proceed && final(self)@ == old(self)@,
            old(self)@.phase is Ready && escape_shutdown(old(self)@, code, pressed) ==> {
                &&& r is ShutDown
                &&& final(self)@ == (GammaView {
                    phase: Phase::Terminated,
                    frame: None,
                    input: input_empty(),
                    ..old(self)@
                })
            },
            old(self)@.phase is Ready && !escape_shutdown(old(self)@, code, pressed) ==> {
                &&& r is Proceed
                &&& final(self)@ == (GammaView {
                    input: key_step(old(self)@.input, code, pressed),
                    ..old(self)@
                })
            },
    {
        match self.phase {
            Phase::Ready(_) => {},
            _ => {
                return KeyEventOutcome::Proceed;
            },
        }
        let was_held = self.input.is_held(code);
        if pressed && !was_held && code == KEY_ESCAPE && self.closes_on_escape() {
            self.handle_close_requested();
            return KeyEventOutcome::ShutDown;
        }
        self.input.on_key_event(code, pressed);
        KeyEventOutcome::Proceed
    }

    /// Whether a render primitive must acquire a surface image before it
    /// can record anything: the GPU context exists but no frame does.
    pub fn needs_frame(&self) -> (r: bool)
        ensures
            r == (self@.phase is Ready && self@.frame is None),
    {
        self.is_initialized() && self.frame_absent()
    }

    fn frame_absent(&self) -> (r: bool)
        ensures
            r == self@.frame is None,
    {
        self.frame.is_none()
    }

    /// Install the frame for this tick after the surface image has been
    /// acquired; repeated render primitives within the tick then share it.
    pub fn attach_frame(&mut self)
        requires
            old(self).wf(),
            old(self)@.phase is Ready,
            old(self)@.frame is None,
        ensures
            final(self).wf(),
            final(self)@ == (GammaView { frame: Some(frame_fresh()), ..old(self)@ }),
    {
        self.frame = Some(Frame::new());
    }

    /// The duration of the step between the two most recent tick
    /// boundaries, in nanoseconds.
    pub fn delta_time(&self) -> (r: u64)
        ensures
            r == self@.delta_nanos,
    {
        self.delta_nanos
    }

    /// Whether the key is currently held down.
    pub fn is_key_pressed(&self, code: u32) -> (r: bool)
        ensures
            r == self@.input.held.contains(code),
    {
        self.input.is_held(code)
    }

    /// Whether the key transitioned to pressed during this tick.
    pub fn is_key_just_pressed(&self, code: u32) -> (r: bool)
        ensures
            r == self@.input.just_pressed.contains(code),
    {
        self.input.is_just_pressed(code)
    }

    /// Whether the key transitioned to released during this tick.
    pub fn is_key_just_released(&self, code: u32) -> (r: bool)
        ensures
            r == self@.input.just_released.contains(code),
    {
        self.input.is_just_released(code)
    }
}

} // verus!
