use vstd::prelude::*;

use crate::surface::{
    resize_reconfigures, resized, skip_for, AcquireError, FrameSkip, SurfaceConfig, SurfaceManager,
};

verus! {

/// A key that the loop tells apart.
#[derive(Clone, Copy, Debug, PartialEq, Eq, Structural)]
pub enum Key {
    Escape,
    Other,
}

/// A window event, as far as the loop's policy reads it.
#[derive(Clone, Copy, Debug, PartialEq, Eq, Structural)]
pub enum WindowInput {
    CloseRequested,
    KeyPressed { key: Key },
    Resized { width: u32, height: u32 },
    DroppedFile,
    Other,
}

/// What the overlay answered when it was offered an event.
#[derive(Clone, Copy, Debug, PartialEq, Eq, Structural)]
pub struct OverlayResponse {
    /// The overlay took the event; the application must not handle it.
    pub consumed: bool,
    /// The overlay wants a redraw.
    pub repaint: bool,
}

/// What the caller must do after an event.
#[derive(Clone, Copy, Debug, PartialEq, Eq, Structural)]
pub struct Reaction {
    /// Leave the loop once the work in flight is done.
    pub exit: bool,
    /// Apply this configuration to the surface, then call `finish_resize`.
    pub configure: Option<SurfaceConfig>,
    /// Schedule a redraw.
    pub request_redraw: bool,
}

/// The loop's state. `Closing` is terminal.
#[derive(Clone, Copy, Debug, PartialEq, Eq, Structural)]
pub enum LoopState {
    Idle,
    /// A new configuration was decided and has not been applied yet.
    Resizing,
    Closing,
}

/// The event loop's decisions: routing, resize, close and redraw policy.
#[derive(Clone, Copy, Debug, PartialEq, Eq, Structural)]
pub struct Compositor {
    pub state: LoopState,
    pub surface: SurfaceManager,
    /// Request a redraw on every idle iteration, not only when asked.
    pub continuous: bool,
}

/// Whether the application reads the event as a request to close.
pub open spec fn closes(ev: WindowInput) -> bool {
    ev == WindowInput::CloseRequested || ev == (WindowInput::KeyPressed { key: Key::Escape })
}

/// The application's own handling of an event that the overlay left alone.
pub open spec fn app_step(c: Compositor, ev: WindowInput) -> Compositor {
    if closes(ev) {
        Compositor { state: LoopState::Closing, ..c }
    } else {
        match ev {
            WindowInput::Resized { width, height } => if resize_reconfigures(width, height) {
                Compositor { state: LoopState::Resizing, surface: resized(c.surface, width, height), ..c }
            } else {
                c
            },
            _ => c,
        }
    }
}

/// The compositor after an event and the overlay's answer to it.
pub open spec fn next_state(c: Compositor, ev: WindowInput, resp: OverlayResponse) -> Compositor {
    if c.state == LoopState::Closing || resp.consumed {
        c
    } else {
        app_step(c, ev)
    }
}

/// Whether the event is a resize that the application handles and that
/// leads to a new surface configuration.
pub open spec fn accepted_resize(c: Compositor, ev: WindowInput, resp: OverlayResponse) -> bool {
    &&& c.state != LoopState::Closing
    &&& !resp.consumed
    &&& match ev {
        WindowInput::Resized { width, height } => resize_reconfigures(width, height),
        _ => false,
    }
}

/// What the caller must do after an event and the overlay's answer to it.
pub open spec fn reaction_to(c: Compositor, ev: WindowInput, resp: OverlayResponse) -> Reaction {
    let n = next_state(c, ev, resp);
    Reaction {
        exit: n.state == LoopState::Closing,
        configure: if accepted_resize(c, ev, resp) {
            Some(n.surface.config)
        } else {
            None
        },
        request_redraw: resp.repaint,
    }
}

/// The size of the frame to acquire on a redraw, if one is to be acquired:
/// only when idle, so that a pending configuration is applied first and
/// nothing is acquired once closing.
pub open spec fn frame_request_spec(c: Compositor) -> Option<(u32, u32)> {
    if c.state == LoopState::Idle {
        Some((c.surface.config.width, c.surface.config.height))
    } else {
        None
    }
}

/// The compositor once a pending configuration has been applied.
pub open spec fn resize_done(c: Compositor) -> Compositor {
    if c.state == LoopState::Resizing {
        Compositor { state: LoopState::Idle, ..c }
    } else {
        c
    }
}

impl Compositor {
    pub open spec fn wf(&self) -> bool {
        self.surface.wf()
    }

    /// An idle loop around a surface manager.
    pub fn new(surface: SurfaceManager, continuous: bool) -> (r: Compositor)
        requires
            surface.wf(),
        ensures
            r.wf(),
            r == (Compositor { state: LoopState::Idle, surface, continuous }),
    {
        Compositor { state: LoopState::Idle, surface, continuous }
    }

    /// Routes one window event. The caller has offered it to the overlay once
    /// and passes the answer; the application handles the event only where
    /// the overlay did not consume it: close request and Escape close the
    /// loop, a resize goes to the surface manager, a dropped file and all
    /// other events change nothing.
    pub fn handle_window_event(&mut self, ev: WindowInput, resp: OverlayResponse) -> (r: Reaction)
        requires
            old(self).wf(),
        ensures
            final(self).wf(),
            *final(self) == next_state(*old(self), ev, resp),
            r == reaction_to(*old(self), ev, resp),
    {
        if matches!(self.state, LoopState::Closing) || resp.consumed {
            let ghost n = next_state(*self, ev, resp);
            assert(n == *self);
            return Reaction { exit: matches!(self.state, LoopState::Closing), configure: None, request_redraw: resp.repaint };
        }
        match ev {
            WindowInput::CloseRequested | WindowInput::KeyPressed { key: Key::Escape } => {
                self.state = LoopState::Closing;
                Reaction { exit: true, configure: None, request_redraw: resp.repaint }
            },
            WindowInput::Resized { width, height } => {
                let applied = self.surface.on_resize(width, height);
                match applied {
                    Some(cfg) => {
                        self.state = LoopState::Resizing;
                        Reaction { exit: false, configure: Some(cfg), request_redraw: resp.repaint }
                    },
                    None => Reaction { exit: false, configure: None, request_redraw: resp.repaint },
                }
            },
            _ => Reaction { exit: false, configure: None, request_redraw: resp.repaint },
        }
    }

    /// Marks the configuration decided by the last resize as applied.
    pub fn finish_resize(&mut self)
        ensures
            *final(self) == resize_done(*old(self)),
    {
        if matches!(self.state, LoopState::Resizing) {
            self.state = LoopState::Idle;
        }
    }

    /// The size of the frame to acquire on a redraw, or `None` where no frame
    /// is to be acquired.
    pub fn frame_request(&self) -> (r: Option<(u32, u32)>)
        ensures
            r == frame_request_spec(*self),
    {
        if matches!(self.state, LoopState::Idle) {
            Some(self.surface.frame_extent())
        } else {
            None
        }
    }

    /// Whether to request a redraw when the loop has handled all pending
    /// events: always under the continuous policy, until closing.
    pub fn redraw_when_idle(&self) -> (r: bool)
        ensures
            r == (self.continuous && self.state != LoopState::Closing),
    {
        self.continuous && !matches!(self.state, LoopState::Closing)
    }
}

/// The compositor after a run of events, each with the overlay's answer.
pub open spec fn after_events(c: Compositor, evs: Seq<(WindowInput, OverlayResponse)>) -> Compositor
    decreases evs.len(),
{
    if evs.len() == 0 {
        c
    } else {
        let last = evs.last();
        resize_done(next_state(after_events(c, evs.drop_last()), last.0, last.1))
    }
}

/// A resize with a zero dimension changes nothing and asks for no
/// configuration.
pub proof fn lemma_degenerate_resize_ignored(
    c: Compositor,
    width: u32,
    height: u32,
    resp: OverlayResponse,
)
    requires
        width == 0 || height == 0,
    ensures
        next_state(c, WindowInput::Resized { width, height }, resp) == c,
        reaction_to(c, WindowInput::Resized { width, height }, resp).configure is None,
{
}

/// After a resize with both dimensions positive that the overlay left alone,
/// the surface is configured with exactly that size, no frame is acquired
/// before the configuration is applied, and the next frame is acquired at
/// that size.
pub proof fn lemma_resize_sets_next_frame(
    c: Compositor,
    width: u32,
    height: u32,
    resp: OverlayResponse,
)
    requires
        c.wf(),
        c.state != LoopState::Closing,
        !resp.consumed,
        width > 0,
        height > 0,
    ensures
        ({
            let ev = WindowInput::Resized { width, height };
            let n = next_state(c, ev, resp);
            &&& reaction_to(c, ev, resp).configure == Some(
                SurfaceConfig { format: c.surface.config.format, width, height },
            )
            &&& frame_request_spec(n) is None
            &&& frame_request_spec(resize_done(n)) == Some((width, height))
        }),
{
}

/// An event that the overlay consumed reaches no handler of the application:
/// the compositor is unchanged, nothing is configured, and the loop closes
/// only if it was closing already.
pub proof fn lemma_consumed_event_untouched(c: Compositor, ev: WindowInput, resp: OverlayResponse)
    requires
        resp.consumed,
    ensures
        next_state(c, ev, resp) == c,
        reaction_to(c, ev, resp) == (Reaction {
            exit: c.state == LoopState::Closing,
            configure: None,
            request_redraw: resp.repaint,
        }),
{
}

/// A close request or an Escape press that the overlay left alone moves the
/// loop to `Closing` and asks it to exit.
pub proof fn lemma_close_request_closes(c: Compositor, ev: WindowInput, resp: OverlayResponse)
    requires
        closes(ev),
        !resp.consumed,
    ensures
        next_state(c, ev, resp).state == LoopState::Closing,
        reaction_to(c, ev, resp).exit,
        frame_request_spec(next_state(c, ev, resp)) is None,
{
}

/// Once closing, the loop stays closing whatever events follow, and no frame
/// is acquired any more.
pub proof fn lemma_closing_is_final(c: Compositor, evs: Seq<(WindowInput, OverlayResponse)>)
    requires
        c.state == LoopState::Closing,
    ensures
        after_events(c, evs) == c,
        frame_request_spec(after_events(c, evs)) is None,
    decreases evs.len(),
{
    if evs.len() > 0 {
        lemma_closing_is_final(c, evs.drop_last());
    }
}

/// An outdated surface right after a resize skips the frame without a
/// diagnostic; the skip changes nothing, so the following frame is acquired
/// at the new size.
pub proof fn lemma_outdated_after_resize(
    c: Compositor,
    width: u32,
    height: u32,
    resp: OverlayResponse,
)
    requires
        c.wf(),
        c.state != LoopState::Closing,
        !resp.consumed,
        width > 0,
        height > 0,
    ensures
        skip_for(AcquireError::Outdated) == FrameSkip::Silent,
        frame_request_spec(resize_done(next_state(c, WindowInput::Resized { width, height }, resp)))
            == Some((width, height)),
{
}

} // verus!
