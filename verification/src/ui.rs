//! The debug window's handling of window-system events: which events reach
//! egui, when the surface follows a resize, when a frame is drawn, and when the
//! event loop is asked to stop.

use vstd::prelude::*;

verus! {

/// What happened to a window.
#[derive(PartialEq, Eq, Structural, Clone, Copy, Debug)]
pub enum WindowEventKind {
    /// The window's inner size became `width` by `height` pixels.
    Resized { width: u32, height: u32 },
    /// The user asked to close the window.
    CloseRequested,
    /// Any other window event.
    Other,
}

/// An event of the window system, as far as the debug window tells them apart.
#[derive(PartialEq, Eq, Structural, Clone, Copy, Debug)]
pub enum UiEvent {
    /// An event of a window; `this_window` tells whether it is the debug window.
    Window { kind: WindowEventKind, this_window: bool },
    /// A window asks to be redrawn; `this_window` as above.
    RedrawRequested { this_window: bool },
    /// The event loop has handled all pending events.
    MainEventsCleared,
    /// Any other event.
    Other,
}

impl UiEvent {
    /// Whether the event is an event of the debug window, which egui sees first.
    pub fn feeds_egui(&self) -> (feeds: bool)
        ensures
            feeds == (*self matches UiEvent::Window { this_window: true, .. }),
    {
        match self {
            UiEvent::Window { this_window, .. } => *this_window,
            _ => false,
        }
    }
}

/// What the debug window does in answer to an event.
#[derive(PartialEq, Eq, Structural, Clone, Copy, Debug)]
pub struct EventResponse {
    /// The surface is configured anew for the new size.
    pub resized: bool,
    /// A frame is drawn and presented.
    pub draw: bool,
    /// The event loop is asked to stop.
    pub exit: bool,
    /// The event counts as consumed by the debug window.
    pub consumed: bool,
}

/// Whether `event` is a resize of the debug window.
pub open spec fn is_own_resize(event: UiEvent) -> bool {
    event matches UiEvent::Window { kind: WindowEventKind::Resized { .. }, this_window: true }
}

/// The surface size after `event`: a resize of the debug window sets it, and
/// every other event leaves it.
pub open spec fn next_state(state: UiState, event: UiEvent) -> UiState {
    match event {
        UiEvent::Window { kind: WindowEventKind::Resized { width, height }, this_window: true } => {
            UiState { width, height }
        },
        _ => state,
    }
}

/// The surface size after the events of `events`, in order.
pub open spec fn run_events(state: UiState, events: Seq<UiEvent>) -> UiState
    decreases events.len(),
{
    if events.len() == 0 {
        state
    } else {
        next_state(run_events(state, events.drop_last()), events.last())
    }
}

/// The surface always has the size of the last resize of the debug window,
/// and keeps its first size until there is one.
pub proof fn law_size_follows_last_resize(state: UiState, events: Seq<UiEvent>)
    ensures
        (forall|i: int| 0 <= i < events.len() ==> !is_own_resize(#[trigger] events[i]))
            ==> run_events(state, events) == state,
        forall|i: int|
            0 <= i < events.len() && is_own_resize(#[trigger] events[i]) && (forall|j: int|
                i < j < events.len() ==> !is_own_resize(events[j])) ==> run_events(state, events)
                == next_state(state, events[i]),
    decreases events.len(),
{
    if events.len() > 0 {
        let prefix = events.drop_last();
        law_size_follows_last_resize(state, prefix);
        assert forall|i: int| 0 <= i < prefix.len() implies prefix[i] == events[i] by {}
        assert forall|i: int|
            0 <= i < events.len() && is_own_resize(#[trigger] events[i]) && (forall|j: int|
                i < j < events.len() ==> !is_own_resize(events[j])) implies run_events(state, events)
                == next_state(state, events[i]) by {
            if i < events.len() - 1 {
                assert(!is_own_resize(events[events.len() - 1]));
                assert(is_own_resize(prefix[i]));
            }
        }
    }
}

/// The size, in pixels, of the debug window's drawing surface.
#[derive(PartialEq, Eq, Structural, Clone, Copy, Debug)]
pub struct UiState {
    pub width: u32,
    pub height: u32,
}

impl UiState {
    pub fn new(width: u32, height: u32) -> (state: UiState)
        ensures
            state.width == width,
            state.height == height,
    {
        UiState { width, height }
    }

    /// Answers `event`; `egui_consumed` is what egui said of it, and counts
    /// only for events of the debug window.
    pub fn handle_event(&mut self, event: &UiEvent, egui_consumed: bool) -> (response:
        EventResponse)
        ensures
            response.resized == (*event matches UiEvent::Window {
                kind: WindowEventKind::Resized { .. },
                this_window: true,
            }),
            response.resized ==> (*event matches UiEvent::Window {
                kind: WindowEventKind::Resized { width, height },
                ..
            } && final(self).width == width && final(self).height == height),
            !response.resized ==> *final(self) == *old(self),
            *final(self) == next_state(*old(self), *event),
            response.draw == (*event is MainEventsCleared || *event matches UiEvent::RedrawRequested {
                this_window: true,
            }),
            response.exit == (*event matches UiEvent::Window {
                kind: WindowEventKind::CloseRequested,
                ..
            }),
            response.consumed == (response.resized || (*event matches UiEvent::Window {
                this_window: true,
                ..
            } && egui_consumed)),
    {
        let consumed = event.feeds_egui() && egui_consumed;
        let quiet = EventResponse { resized: false, draw: false, exit: false, consumed: false };
        match event {
            UiEvent::RedrawRequested { this_window: false } => quiet,
            UiEvent::Window { kind: WindowEventKind::Resized { width, height }, this_window: true } => {
                self.width = *width;
                self.height = *height;
                EventResponse { resized: true, draw: false, exit: false, consumed: true }
            },
            UiEvent::MainEventsCleared | UiEvent::RedrawRequested { .. } => {
                EventResponse { resized: false, draw: true, exit: false, consumed }
            },
            UiEvent::Window { kind: WindowEventKind::CloseRequested, .. } => {
                EventResponse { resized: false, draw: false, exit: true, consumed }
            },
            _ => EventResponse { consumed, ..quiet },
        }
    }
}

} // verus!
