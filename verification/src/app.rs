//! The application's reaction to window events: it owns the render state once
//! the window exists and turns each event into a command for the event loop.

use vstd::prelude::*;
use crate::surface::{resized, surface_wf, FrameAction, State, SurfaceModel};

verus! {

/// The keys the application tells apart.
#[derive(Debug, Clone, Copy, PartialEq, Eq, Structural)]
pub enum KeyCode {
    Escape,
    /// Any other key with a known code.
    Other,
}

/// The window events the application reacts to.
#[derive(Debug, Clone, Copy, PartialEq, Eq, Structural)]
pub enum WindowEvent {
    CloseRequested,
    Resized { width: u32, height: u32 },
    RedrawRequested,
    /// A key with a known physical code was pressed or released.
    KeyboardInput { code: KeyCode, pressed: bool },
    /// Any other event, including keys without a known code.
    Other,
}

/// What the event loop has to do after an event.
#[derive(Debug, Clone, Copy, PartialEq, Eq, Structural)]
pub enum Command {
    Nothing,
    /// Leave the event loop.
    Exit,
    /// Configure the surface with this size.
    ConfigureSurface { width: u32, height: u32 },
    /// Request the next redraw, run the per-frame update and render; a texture
    /// is requested from the surface only when `acquire` holds.
    Redraw { acquire: bool },
}

/// Only a pressed Escape key ends the application.
pub open spec fn spec_key_exits(code: KeyCode, pressed: bool) -> bool {
    code == KeyCode::Escape && pressed
}

/// Whether a key event ends the application: Escape, when pressed.
pub fn handle_key(code: KeyCode, pressed: bool) -> (exit: bool)
    ensures
        exit == spec_key_exits(code, pressed),
{
    match code {
        KeyCode::Escape => pressed,
        KeyCode::Other => false,
    }
}

/// The effect of one window event on the application's model and the command
/// it yields. Before the render state exists every event is ignored.
pub open spec fn step(app: Option<SurfaceModel>, event: WindowEvent) -> (Option<SurfaceModel>, Command) {
    match app {
        None => (None, Command::Nothing),
        Some(m) => match event {
            WindowEvent::CloseRequested => (app, Command::Exit),
            WindowEvent::Resized { width, height } => (
                Some(resized(m, width, height)),
                if width > 0 && height > 0 {
                    Command::ConfigureSurface { width, height }
                } else {
                    Command::Nothing
                },
            ),
            WindowEvent::RedrawRequested => (app, Command::Redraw { acquire: m.configured }),
            WindowEvent::KeyboardInput { code, pressed } => (
                app,
                if spec_key_exits(code, pressed) {
                    Command::Exit
                } else {
                    Command::Nothing
                },
            ),
            WindowEvent::Other => (app, Command::Nothing),
        },
    }
}

/// The command that follows a frame's decision: a lost surface fails the
/// render, which ends the application; an outdated one is configured again
/// with the current size; otherwise nothing is left to do. Without a
/// configured surface no frame is requested, so nothing follows either.
pub open spec fn spec_after_frame(app: Option<SurfaceModel>, action: FrameAction) -> Command {
    match app {
        None => Command::Nothing,
        Some(m) => if !m.configured {
            Command::Nothing
        } else {
            match action {
                FrameAction::Fail => Command::Exit,
                FrameAction::Reconfigure => Command::ConfigureSurface {
                    width: m.width,
                    height: m.height,
                },
                _ => Command::Nothing,
            }
        },
    }
}

/// The model a state has right after it is installed for a window of the
/// given size: the fresh configuration, resized to that size.
pub open spec fn installed(width: u32, height: u32) -> SurfaceModel {
    resized(SurfaceModel { width, height, configured: false }, width, height)
}

/// The application: no render state until the window has been created.
pub struct App {
    state: Option<State>,
}

impl View for App {
    type V = Option<SurfaceModel>;

    closed spec fn view(&self) -> Option<SurfaceModel> {
        match self.state {
            Some(s) => Some(s@),
            None => None,
        }
    }
}

impl App {
    /// An application whose window does not exist yet.
    pub fn new() -> (app: App)
        ensures
            app@ is None,
    {
        App { state: None }
    }

    /// The render state, once it exists.
    pub fn state(&self) -> (s: Option<&State>)
        ensures
            match s {
                Some(st) => self@ == Some(st@),
                None => self@ is None,
            },
    {
        match &self.state {
            Some(st) => Some(st),
            None => None,
        }
    }

    /// Installs a render state built for the window: it is resized to the
    /// window's current size, which it takes when that size is non-empty. The
    /// result says whether the surface must be configured now.
    pub fn user_event(&mut self, event: State, width: u32, height: u32) -> (configure: bool)
        ensures
            configure == (width > 0 && height > 0),
            final(self)@ == Some(resized(event@, width, height)),
    {
        let mut state = event;
        let configure = state.resize(width, height);
        self.state = Some(state);
        configure
    }

    /// The window was created with the given size: a fresh render state for
    /// it is installed.
    pub fn resumed(&mut self, width: u32, height: u32) -> (configure: bool)
        ensures
            configure == (width > 0 && height > 0),
            final(self)@ == Some(installed(width, height)),
    {
        let state = State::new(width, height);
        self.user_event(state, width, height)
    }

    /// What the event loop does once a frame's action has been carried out.
    pub fn after_frame(&self, action: FrameAction) -> (c: Command)
        ensures
            c == spec_after_frame(self@, action),
    {
        match &self.state {
            None => Command::Nothing,
            Some(state) => if !state.is_surface_configured() {
                Command::Nothing
            } else {
                match action {
                    FrameAction::Fail => Command::Exit,
                    FrameAction::Reconfigure => Command::ConfigureSurface {
                        width: state.width(),
                        height: state.height(),
                    },
                    FrameAction::Draw => Command::Nothing,
                    FrameAction::Skip => Command::Nothing,
                }
            },
        }
    }

    /// Reacts to a window event.
    pub fn window_event(&mut self, event: WindowEvent) -> (c: Command)
        ensures
            (final(self)@, c) == step(old(self)@, event),
    {
        match &mut self.state {
            None => Command::Nothing,
            Some(state) => match event {
                WindowEvent::CloseRequested => Command::Exit,
                WindowEvent::Resized { width, height } => {
                    if state.resize(width, height) {
                        Command::ConfigureSurface { width, height }
                    } else {
                        Command::Nothing
                    }
                },
                WindowEvent::RedrawRequested => Command::Redraw { acquire: state.begin_frame() },
                WindowEvent::KeyboardInput { code, pressed } => {
                    if handle_key(code, pressed) {
                        Command::Exit
                    } else {
                        Command::Nothing
                    }
                },
                WindowEvent::Other => Command::Nothing,
            },
        }
    }
}

/// The handler of the bare window: it creates its window on the first resume
/// only, and leaves on a close request.
pub struct WgpuAppHandler {
    has_app: bool,
}

impl WgpuAppHandler {
    pub closed spec fn spec_has_app(self) -> bool {
        self.has_app
    }

    /// A handler without a window yet.
    pub fn new() -> (h: WgpuAppHandler)
        ensures
            !h.spec_has_app(),
    {
        WgpuAppHandler { has_app: false }
    }

    /// Whether the window exists.
    pub fn has_app(&self) -> (b: bool)
        ensures
            b == self.spec_has_app(),
    {
        self.has_app
    }

    /// The application resumed: the result says whether to create the window
    /// now, which is the case only when there is none yet.
    pub fn resumed(&mut self) -> (create: bool)
        ensures
            create == !old(self).spec_has_app(),
            final(self).spec_has_app(),
    {
        if self.has_app {
            false
        } else {
            self.has_app = true;
            true
        }
    }

    /// Whether an event ends the application: only a close request does.
    pub fn window_event(&self, event: WindowEvent) -> (exit: bool)
        ensures
            exit == (event == WindowEvent::CloseRequested),
    {
        match event {
            WindowEvent::CloseRequested => true,
            _ => false,
        }
    }
}

/// The model after a sequence of window events, taken in order.
pub open spec fn run_events(app: Option<SurfaceModel>, events: Seq<WindowEvent>) -> Option<SurfaceModel>
    decreases events.len(),
{
    if events.len() == 0 {
        app
    } else {
        run_events(step(app, events[0]).0, events.drop_first())
    }
}

/// The size of the last resize in `events` with both sides non-zero, if any.
pub open spec fn last_nonempty_resize(events: Seq<WindowEvent>) -> Option<(u32, u32)>
    decreases events.len(),
{
    if events.len() == 0 {
        None
    } else {
        match last_nonempty_resize(events.drop_first()) {
            Some(size) => Some(size),
            None => match events[0] {
                WindowEvent::Resized { width, height } => if width > 0 && height > 0 {
                    Some((width, height))
                } else {
                    None
                },
                _ => None,
            },
        }
    }
}

/// Before the window and its render state exist, every event is ignored: the
/// application stays without state and each event yields no command.
pub proof fn law_events_ignored_before_window(events: Seq<WindowEvent>)
    ensures
        run_events(None, events) is None,
        forall|i: int| 0 <= i < events.len() ==> #[trigger] step(None, events[i]).1 == Command::Nothing,
    decreases events.len(),
{
    if events.len() > 0 {
        law_events_ignored_before_window(events.drop_first());
    }
}

/// Once the surface has been configured it stays configured, whatever events
/// follow, and the state is never dropped.
pub proof fn law_configured_stays_configured(m: SurfaceModel, events: Seq<WindowEvent>)
    requires
        m.configured,
    ensures
        run_events(Some(m), events) is Some,
        run_events(Some(m), events)->0.configured,
    decreases events.len(),
{
    if events.len() > 0 {
        let next = step(Some(m), events[0]).0;
        law_configured_stays_configured(next->0, events.drop_first());
    }
}

/// No event sequence leads to a surface configured with an empty size.
pub proof fn law_events_keep_surface_wf(m: SurfaceModel, events: Seq<WindowEvent>)
    requires
        surface_wf(m),
    ensures
        run_events(Some(m), events) is Some,
        surface_wf(run_events(Some(m), events)->0),
    decreases events.len(),
{
    if events.len() > 0 {
        let next = step(Some(m), events[0]).0;
        law_events_keep_surface_wf(next->0, events.drop_first());
    }
}

/// After a sequence of events the configured size is that of the last resize
/// with a non-empty size, and the surface is configured; without such a resize
/// the model is unchanged.
pub proof fn law_size_follows_last_resize(m: SurfaceModel, events: Seq<WindowEvent>)
    ensures
        match last_nonempty_resize(events) {
            Some(size) => run_events(Some(m), events) == Some(
                SurfaceModel { width: size.0, height: size.1, configured: true },
            ),
            None => run_events(Some(m), events) == Some(m),
        },
    decreases events.len(),
{
    if events.len() > 0 {
        let next = step(Some(m), events[0]).0;
        law_size_follows_last_resize(next->0, events.drop_first());
    }
}

/// With a window, a resize to a non-empty size configures the surface with
/// exactly that size, whether or not it was configured before, and the model
/// takes that size; a size with a zero side yields no command and leaves the
/// model as it was.
pub proof fn law_resize_configures_surface(m: SurfaceModel, width: u32, height: u32)
    ensures
        width > 0 && height > 0 ==> step(Some(m), WindowEvent::Resized { width, height }) == (
            Some(SurfaceModel { width, height, configured: true }),
            Command::ConfigureSurface { width, height },
        ),
        width == 0 || height == 0 ==> step(Some(m), WindowEvent::Resized { width, height }) == (
            Some(m),
            Command::Nothing,
        ),
{
}

/// Every command to configure the surface, after a window event or after a
/// frame, carries a non-empty size, as long as the surface was never
/// configured with an empty one.
pub proof fn law_configure_commands_nonempty(app: Option<SurfaceModel>, event: WindowEvent, action: FrameAction)
    requires
        app matches Some(m) ==> surface_wf(m),
    ensures
        step(app, event).1 matches Command::ConfigureSurface { width, height } ==> width > 0
            && height > 0,
        spec_after_frame(app, action) matches Command::ConfigureSurface { width, height } ==> width
            > 0 && height > 0,
{
}

/// Resizing twice to the same size is the same as resizing once.
pub proof fn law_resize_idempotent(m: SurfaceModel, width: u32, height: u32)
    ensures
        resized(resized(m, width, height), width, height) == resized(m, width, height),
{
}

/// With a window, a close request and a pressed Escape key end the
/// application; a released Escape key and any other key do not.
pub proof fn law_exit_keys(m: SurfaceModel, pressed: bool)
    ensures
        step(Some(m), WindowEvent::CloseRequested).1 == Command::Exit,
        step(Some(m), WindowEvent::KeyboardInput { code: KeyCode::Escape, pressed: true }).1
            == Command::Exit,
        step(Some(m), WindowEvent::KeyboardInput { code: KeyCode::Escape, pressed: false }).1
            == Command::Nothing,
        step(Some(m), WindowEvent::KeyboardInput { code: KeyCode::Other, pressed }).1
            == Command::Nothing,
{
}

/// Once the surface is configured, a lost surface ends the application, and an
/// outdated one is configured again with the size the surface already has, so
/// the configuration keeps matching the model.
pub proof fn law_frame_failures(m: SurfaceModel)
    requires
        m.configured,
    ensures
        spec_after_frame(Some(m), FrameAction::Fail) == Command::Exit,
        spec_after_frame(Some(m), FrameAction::Reconfigure) == (Command::ConfigureSurface {
            width: m.width,
            height: m.height,
        }),
        spec_after_frame(Some(m), FrameAction::Draw) == Command::Nothing,
        spec_after_frame(Some(m), FrameAction::Skip) == Command::Nothing,
{
}

/// A redraw asks the surface for a texture exactly when the surface has been
/// configured; events other than a resize leave the model unchanged.
pub proof fn law_redraw_acquires_when_configured(m: SurfaceModel, event: WindowEvent)
    ensures
        step(Some(m), WindowEvent::RedrawRequested).1 == (Command::Redraw { acquire: m.configured }),
        !(event is Resized) ==> step(Some(m), event).0 == Some(m),
{
}

} // verus!
