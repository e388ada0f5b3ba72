//! The desktop application's reactions to the event loop: it initializes the
//! window and GPU once, when first resumed, then renders, resizes or exits
//! as window events arrive.

use vstd::prelude::*;

verus! {

/// A window event, as far as the application distinguishes them.
#[derive(Clone, Copy, Debug, PartialEq, Eq, Structural)]
pub enum AppEvent {
    CloseRequested,
    RedrawRequested,
    Resized { width: u32, height: u32 },
    /// Any event the application does not react to.
    Other,
}

/// What the application does in answer to a window event.
#[derive(Clone, Copy, Debug, PartialEq, Eq, Structural)]
pub enum EventResponse {
    /// Nothing.
    Ignore,
    /// Leave the event loop.
    Exit,
    /// Render a frame at the current time and ask for the next redraw.
    RenderAndRedraw,
    /// Pass the new size on to the renderer.
    Resize { width: u32, height: u32 },
}

/// Whether the window and the renderer exist yet.
pub struct Lifecycle {
    initialized: bool,
}

/// The response to `event` in a lifecycle that is, or is not yet, initialized.
pub open spec fn spec_event_response(initialized: bool, event: AppEvent) -> EventResponse {
    if !initialized {
        EventResponse::Ignore
    } else {
        match event {
            AppEvent::CloseRequested => EventResponse::Exit,
            AppEvent::RedrawRequested => EventResponse::RenderAndRedraw,
            AppEvent::Resized { width, height } => EventResponse::Resize { width, height },
            AppEvent::Other => EventResponse::Ignore,
        }
    }
}

impl Lifecycle {
    /// Whether the window and renderer have been created.
    pub closed spec fn is_initialized(&self) -> bool {
        self.initialized
    }

    /// A lifecycle before the application was first resumed.
    pub fn new() -> (lifecycle: Self)
        ensures
            !lifecycle.is_initialized(),
    {
        Lifecycle { initialized: false }
    }

    /// Reads whether the window and renderer have been created.
    pub fn initialized(&self) -> (initialized: bool)
        ensures
            initialized == self.is_initialized(),
    {
        self.initialized
    }

    /// The application was resumed. The result says whether the window and
    /// renderer must be created now: only on the first resume.
    pub fn resumed(&mut self) -> (initialize: bool)
        ensures
            initialize == !old(self).is_initialized(),
            final(self).is_initialized(),
    {
        if self.initialized {
            return false;
        }
        self.initialized = true;
        true
    }

    /// The response to a window event.
    pub fn window_event(&self, event: AppEvent) -> (response: EventResponse)
        ensures
            response == spec_event_response(self.is_initialized(), event),
    {
        if !self.initialized {
            return EventResponse::Ignore;
        }
        match event {
            AppEvent::CloseRequested => EventResponse::Exit,
            AppEvent::RedrawRequested => EventResponse::RenderAndRedraw,
            AppEvent::Resized { width, height } => EventResponse::Resize { width, height },
            AppEvent::Other => EventResponse::Ignore,
        }
    }
}

/// Before the first resume, every window event is ignored.
pub proof fn lemma_events_before_resume_ignored(event: AppEvent)
    ensures
        spec_event_response(false, event) == EventResponse::Ignore,
{
}

/// Once initialized, a close request exits, a redraw request renders, and a
/// resize forwards exactly the reported size.
pub proof fn lemma_initialized_responses(width: u32, height: u32)
    ensures
        spec_event_response(true, AppEvent::CloseRequested) == EventResponse::Exit,
        spec_event_response(true, AppEvent::RedrawRequested) == EventResponse::RenderAndRedraw,
        spec_event_response(true, AppEvent::Resized { width, height })
            == (EventResponse::Resize { width, height }),
{
}

} // verus!
