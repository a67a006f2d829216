//! The application loop's decisions: what the builder configures, and what
//! the loop does in response to each window-system event — exit, resize,
//! redraw, render or tear down. The unverified shell performs the actions
//! and feeds the events back in.

use vstd::prelude::*;
use crate::gpu::GpuBuilder;

verus! {

/// What the loop reads of one window event.
#[derive(Clone, Copy, Debug, PartialEq, Eq, Structural)]
pub enum WindowEventKind {
    /// The window system asked the window to close.
    CloseRequested,
    /// A key changed state: whether it is the escape key, and whether it was
    /// pressed rather than released.
    KeyboardInput { escape: bool, pressed: bool },
    /// The window took a new size.
    Resized { width: u32, height: u32 },
    /// Any other window event; the loop only forwards it.
    OtherWindowEvent,
}

/// What the loop reads of one event from the event loop.
#[derive(Clone, Copy, Debug, PartialEq, Eq, Structural)]
pub enum AppEvent {
    /// An event addressed to the application's window.
    Window(WindowEventKind),
    /// All pending events have been handed out; a redraw may be requested.
    EventsCleared,
    /// The window should be redrawn.
    RedrawRequested,
    /// The loop is about to end.
    LoopDestroyed,
    /// Any other event; the loop ignores it.
    OtherEvent,
}

/// What the loop is to do in response to one event.
#[derive(Clone, Copy, Debug, PartialEq, Eq)]
pub struct EventResponse {
    /// Leave the event loop.
    pub exit: bool,
    /// Rebind the surface to this size.
    pub resize: Option<(u32, u32)>,
    /// Hand the window event to the user-supplied application.
    pub forward_event: bool,
    /// Ask the window for a redraw.
    pub request_redraw: bool,
    /// Update the application and render a frame.
    pub render_frame: bool,
    /// Tear the application down.
    pub destroy: bool,
}

/// The response that does nothing.
pub open spec fn spec_no_response() -> EventResponse {
    EventResponse {
        exit: false,
        resize: None,
        forward_event: false,
        request_redraw: false,
        render_frame: false,
        destroy: false,
    }
}

/// What acquiring the next surface frame came to.
#[derive(Clone, Copy, Debug, PartialEq, Eq, Structural)]
pub enum SurfaceStatus {
    /// A frame was acquired and can be drawn to.
    Acquired,
    /// The surface no longer matches the window and this frame is lost.
    Outdated,
    /// Acquisition failed some other way.
    OtherError,
}

/// What to do with the frame just asked for.
#[derive(Clone, Copy, Debug, PartialEq, Eq, Structural)]
pub enum FrameAction {
    /// Draw and present the frame.
    Render,
    /// Skip this frame without drawing.
    SkipFrame,
    /// Report the failure and carry on.
    ReportError,
}

/// How one redraw proceeds, from what acquiring the frame came to: an
/// acquired frame is drawn and presented, an outdated surface skips the
/// frame, and any other failure is reported.
pub fn frame_action(s: SurfaceStatus) -> (r: FrameAction)
    ensures
        r == match s {
            SurfaceStatus::Acquired => FrameAction::Render,
            SurfaceStatus::Outdated => FrameAction::SkipFrame,
            SurfaceStatus::OtherError => FrameAction::ReportError,
        },
{
    match s {
        SurfaceStatus::Acquired => FrameAction::Render,
        SurfaceStatus::Outdated => FrameAction::SkipFrame,
        SurfaceStatus::OtherError => FrameAction::ReportError,
    }
}

/// What the running application keeps for its own decisions: whether the
/// escape key exits.
#[derive(Clone, Copy, Debug, PartialEq, Eq, Structural)]
pub struct App {
    pub esc: bool,
}

impl App {
    /// What the loop does for one event. Window events are always forwarded
    /// to the user-supplied application; a close request exits; an escape
    /// press exits when escape-to-exit is on; a new window size rebinds the
    /// surface; once events are cleared a redraw is requested; a redraw
    /// request renders a frame; the end of the loop tears the application
    /// down.
    pub fn handle_event(&self, e: &AppEvent) -> (r: EventResponse)
        ensures
            r == match *e {
                AppEvent::Window(k) => EventResponse {
                    exit: k matches WindowEventKind::CloseRequested
                        || (self.esc && k matches WindowEventKind::KeyboardInput {
                            escape: true, pressed: true }),
                    resize: match k {
                        WindowEventKind::Resized { width, height } => Some((width, height)),
                        _ => None,
                    },
                    forward_event: true,
                    ..spec_no_response()
                },
                AppEvent::EventsCleared => EventResponse {
                    request_redraw: true,
                    ..spec_no_response()
                },
                AppEvent::RedrawRequested => EventResponse {
                    render_frame: true,
                    ..spec_no_response()
                },
                AppEvent::LoopDestroyed => EventResponse {
                    destroy: true,
                    ..spec_no_response()
                },
                AppEvent::OtherEvent => spec_no_response(),
            },
    {
        let none = EventResponse {
            exit: false,
            resize: None,
            forward_event: false,
            request_redraw: false,
            render_frame: false,
            destroy: false,
        };
        match *e {
            AppEvent::Window(k) => {
                let exit = match k {
                    WindowEventKind::CloseRequested => true,
                    WindowEventKind::KeyboardInput { escape, pressed } => {
                        self.esc && escape && pressed
                    },
                    _ => false,
                };
                let resize = match k {
                    WindowEventKind::Resized { width, height } => Some((width, height)),
                    _ => None,
                };
                EventResponse { exit, resize, forward_event: true, ..none }
            },
            AppEvent::EventsCleared => EventResponse { request_redraw: true, ..none },
            AppEvent::RedrawRequested => EventResponse { render_frame: true, ..none },
            AppEvent::LoopDestroyed => EventResponse { destroy: true, ..none },
            AppEvent::OtherEvent => none,
        }
    }
}

/// Preferences for the application as a whole: the window's title, size and
/// resizability, the device preferences, whether to set up logging, and
/// whether the escape key exits.
#[derive(Debug)]
pub struct AppBuilder {
    pub name: String,
    pub dim: (u32, u32),
    pub gpu_builder: GpuBuilder,
    pub init_subscriber: bool,
    pub resizable: bool,
    pub esc: bool,
}

impl Default for AppBuilder {
    /// A small fixed-size window with a placeholder title, logging on,
    /// escape-to-exit on, and the default device preferences.
    fn default() -> (r: Self)
        ensures
            r.name@ == "default app"@,
            r.dim == (640u32, 360u32),
            r.gpu_builder == GpuBuilder::spec_default(),
            r.init_subscriber == true,
            r.resizable == false,
            r.esc == true,
    {
        AppBuilder {
            name: "default app".to_owned(),
            dim: (640, 360),
            gpu_builder: GpuBuilder::new(),
            init_subscriber: true,
            resizable: false,
            esc: true,
        }
    }
}

impl AppBuilder {
    /// A builder with the default preferences.
    pub fn new() -> (r: Self)
        ensures
            r.name@ == "default app"@,
            r.dim == (640u32, 360u32),
            r.gpu_builder == GpuBuilder::spec_default(),
            r.init_subscriber == true,
            r.resizable == false,
            r.esc == true,
    {
        Self::default()
    }

    /// Title the window this way.
    pub fn with_name(self, name: &str) -> (r: Self)
        ensures
            r.name@ == name@,
            r.dim == self.dim,
            r.gpu_builder == self.gpu_builder,
            r.init_subscriber == self.init_subscriber,
            r.resizable == self.resizable,
            r.esc == self.esc,
    {
        AppBuilder { name: name.to_owned(), ..self }
    }

    /// Acquire the device with these preferences.
    pub fn with_gpu(self, gpu_builder: GpuBuilder) -> (r: Self)
        ensures
            r.name@ == self.name@,
            r.dim == self.dim,
            r.gpu_builder == gpu_builder,
            r.init_subscriber == self.init_subscriber,
            r.resizable == self.resizable,
            r.esc == self.esc,
    {
        AppBuilder { gpu_builder, ..self }
    }

    /// Open the window at this size.
    pub fn with_dimension(self, width: u32, height: u32) -> (r: Self)
        ensures
            r.name@ == self.name@,
            r.dim == (width, height),
            r.gpu_builder == self.gpu_builder,
            r.init_subscriber == self.init_subscriber,
            r.resizable == self.resizable,
            r.esc == self.esc,
    {
        AppBuilder { dim: (width, height), ..self }
    }

    /// Set whether logging is set up when the application is built.
    pub fn with_init_subscriber(self, value: bool) -> (r: Self)
        ensures
            r.name@ == self.name@,
            r.dim == self.dim,
            r.gpu_builder == self.gpu_builder,
            r.init_subscriber == value,
            r.resizable == self.resizable,
            r.esc == self.esc,
    {
        AppBuilder { init_subscriber: value, ..self }
    }

    /// Set whether the window can be resized.
    pub fn with_resizable(self, value: bool) -> (r: Self)
        ensures
            r.name@ == self.name@,
            r.dim == self.dim,
            r.gpu_builder == self.gpu_builder,
            r.init_subscriber == self.init_subscriber,
            r.resizable == value,
            r.esc == self.esc,
    {
        AppBuilder { resizable: value, ..self }
    }

    /// Set whether pressing escape exits the application.
    pub fn with_esc(self, esc: bool) -> (r: Self)
        ensures
            r.name@ == self.name@,
            r.dim == self.dim,
            r.gpu_builder == self.gpu_builder,
            r.init_subscriber == self.init_subscriber,
            r.resizable == self.resizable,
            r.esc == esc,
    {
        AppBuilder { esc, ..self }
    }

    /// What the running application keeps of these preferences once the
    /// window and device exist: whether escape exits.
    pub fn build(&self) -> (r: App)
        ensures
            r.esc == self.esc,
    {
        App { esc: self.esc }
    }
}

} // verus!
