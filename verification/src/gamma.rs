//! The runtime core: launch configuration, the all-or-nothing GPU context
//! model, and the engine state that the lifecycle handlers drive.

use vstd::prelude::*;
use vstd::string::StringExecFns;

use crate::frame::{Frame, FrameView, frame_wf};
use crate::input::{InputTracker, InputView};

verus! {

/// The key code that the runtime treats as the Escape key. Callers that
/// translate platform key events must map their Escape key to this code.
pub const KEY_ESCAPE: u32 = 1;

/// How presentation is paced, derived from the vsync flag when the surface
/// is configured.
#[derive(Clone, Copy, PartialEq, Eq, Structural, Debug)]
pub enum PresentMode {
    AutoVsync,
    AutoNoVsync,
}

/// The model of a live GPU context: the surface's pixel dimensions and its
/// present mode. The window, device, queue, surface and cached draw
/// pipeline live and die together with this value.
#[derive(Clone, Copy, PartialEq, Eq, Structural, Debug)]
pub struct ContextModel {
    pub surface_width: u32,
    pub surface_height: u32,
    pub present_mode: PresentMode,
}

/// The lifecycle of the runtime. GPU resources exist exactly in the
/// `Ready` state, so partial initialization is unrepresentable.
#[derive(Clone, Copy, PartialEq, Eq, Structural, Debug)]
pub enum Phase {
    Uninitialized,
    Ready(ContextModel),
    Terminated,
}

/// What a lifecycle signal asks the surrounding event loop to do next.
#[derive(Clone, Copy, PartialEq, Eq, Structural, Debug)]
pub enum KeyEventOutcome {
    Proceed,
    ShutDown,
}

/// The launch options, immutable once the runtime starts.
#[verifier::ext_equal]
pub ghost struct ConfigView {
    pub title: Seq<char>,
    pub logical_width: u32,
    pub logical_height: u32,
    pub resizable: bool,
    pub vsync: bool,
    pub fullscreen: bool,
    pub close_on_escape: bool,
}

/// The abstract state of the whole runtime.
#[verifier::ext_equal]
pub ghost struct GammaView {
    pub config: ConfigView,
    pub phase: Phase,
    pub frame: Option<FrameView>,
    pub input: InputView,
    pub last_tick_nanos: u64,
    pub delta_nanos: u64,
}

/// A frame can only exist while the GPU context does, it respects the
/// at-most-one-clear invariant, and a live surface has positive extent.
pub open spec fn view_wf(v: GammaView) -> bool {
    &&& (v.frame matches Some(f) ==> v.phase is Ready && frame_wf(f))
    &&& (v.phase matches Phase::Ready(c) ==> c.surface_width > 0 && c.surface_height > 0)
}

/// The runtime: configuration, lifecycle state, the frame being composed
/// this tick (if any), input tracking and tick timing.
pub struct Gamma {
    pub title: String,
    pub logical_width: u32,
    pub logical_height: u32,
    pub resizable: bool,
    pub vsync: bool,
    pub fullscreen: bool,
    pub close_on_escape: bool,
    pub phase: Phase,
    pub frame: Option<Frame>,
    pub input: InputTracker,
    pub last_tick_nanos: u64,
    pub delta_nanos: u64,
}

impl Gamma {
    pub open spec fn view(&self) -> GammaView {
        GammaView {
            config: ConfigView {
                title: self.title@,
                logical_width: self.logical_width,
                logical_height: self.logical_height,
                resizable: self.resizable,
                vsync: self.vsync,
                fullscreen: self.fullscreen,
                close_on_escape: self.close_on_escape,
            },
            phase: self.phase,
            frame: match self.frame {
                Some(f) => Some(f@),
                None => None,
            },
            input: self.input@,
            last_tick_nanos: self.last_tick_nanos,
            delta_nanos: self.delta_nanos,
        }
    }

    pub open spec fn rep_wf(&self) -> bool {
        self.input.wf()
    }

    pub open spec fn wf(&self) -> bool {
        self.rep_wf() && view_wf(self@)
    }

    /// A runtime with the engine defaults: an engine-chosen title, an
    /// 800 by 600 logical window, resizable, vsync on, windowed, and
    /// Escape not bound to close.
    pub fn new() -> (g: Gamma)
        ensures
            g.wf(),
            g@.config.title == "Gamma Game"@,
            g@.config.logical_width == 800,
            g@.config.logical_height == 600,
            g@.config.resizable,
            g@.config.vsync,
            !g@.config.fullscreen,
            !g@.config.close_on_escape,
            g@.phase is Uninitialized,
            g@.frame is None,
            g@.input == crate::input::input_empty(),
            g@.last_tick_nanos == 0,
            g@.delta_nanos == 0,
    {
        Gamma {
            title: String::from_str("Gamma Game"),
            logical_width: 800,
            logical_height: 600,
            resizable: true,
            vsync: true,
            fullscreen: false,
            close_on_escape: false,
            phase: Phase::Uninitialized,
            frame: None,
            input: InputTracker::new(),
            last_tick_nanos: 0,
            delta_nanos: 0,
        }
    }

    pub fn with_title(self, title: String) -> (g: Gamma)
        requires
            self.wf(),
        ensures
            g.wf(),
            g@ == (GammaView {
                config: ConfigView { title: title@, ..self@.config },
                ..self@
            }),
    {
        Gamma { title, ..self }
    }

    /// Set the logical window size, in positive logical units.
    pub fn with_size(self, width: u16, height: u16) -> (g: Gamma)
        requires
            self.wf(),
            width > 0,
            height > 0,
        ensures
            g.wf(),
            g@ == (GammaView {
                config: ConfigView {
                    logical_width: width as u32,
                    logical_height: height as u32,
                    ..self@.config
                },
                ..self@
            }),
    {
        Gamma { logical_width: width as u32, logical_height: height as u32, ..self }
    }

    pub fn with_resizable(self, is_resizable: bool) -> (g: Gamma)
        requires
            self.wf(),
        ensures
            g.wf(),
            g@ == (GammaView {
                config: ConfigView { resizable: is_resizable, ..self@.config },
                ..self@
            }),
    {
        Gamma { resizable: is_resizable, ..self }
    }

    pub fn with_vsync(self, use_vsync: bool) -> (g: Gamma)
        requires
            self.wf(),
        ensures
            g.wf(),
            g@ == (GammaView {
                config: ConfigView { vsync: use_vsync, ..self@.config },
                ..self@
            }),
    {
        Gamma { vsync: use_vsync, ..self }
    }

    pub fn with_fullscreen(self, fullscreen: bool) -> (g: Gamma)
        requires
            self.wf(),
        ensures
            g.wf(),
            g@ == (GammaView {
                config: ConfigView { fullscreen, ..self@.config },
                ..self@
            }),
    {
        Gamma { fullscreen, ..self }
    }

    pub fn with_close_on_escape(self, close_on_escape: bool) -> (g: Gamma)
        requires
            self.wf(),
        ensures
            g.wf(),
            g@ == (GammaView {
                config: ConfigView { close_on_escape, ..self@.config },
                ..self@
            }),
    {
        Gamma { close_on_escape, ..self }
    }

    pub fn title(&self) -> (r: &String)
        ensures
            r@ == self@.config.title,
    {
        &self.title
    }

    pub fn logical_size(&self) -> (r: (u32, u32))
        ensures
            r.0 == self@.config.logical_width,
            r.1 == self@.config.logical_height,
    {
        (self.logical_width, self.logical_height)
    }

    pub fn is_resizable(&self) -> (r: bool)
        ensures
            r == self@.config.resizable,
    {
        self.resizable
    }

    pub fn vsync_enabled(&self) -> (r: bool)
        ensures
            r == self@.config.vsync,
    {
        self.vsync
    }

    pub fn is_fullscreen(&self) -> (r: bool)
        ensures
            r == self@.config.fullscreen,
    {
        self.fullscreen
    }

    pub fn closes_on_escape(&self) -> (r: bool)
        ensures
            r == self@.config.close_on_escape,
    {
        self.close_on_escape
    }
}

} // verus!
