//! The application: how a window is described before it opens, how raw
//! platform events become the canonical event stream, and the order of the
//! steps of one update tick.

use crate::command::{Command, UiSnapshot};
use crate::input::{
    Code, Key, KeyState, Modifiers, MouseButton, WindowEvent, KEYBOARD_META,
};
use crate::native;
use crate::scale::{
    logical_extent, native_extent, requested_extent, unscale_extent, PhysicalSize,
    ScaleCoordinator, ScaleState, WindowSize,
};
use crate::units::{Fixed, ScaleFactor, UNITS_PER_WHOLE};
use vstd::prelude::*;

verus! {

/// Why an application cannot start or cannot go on.
#[derive(Clone, Copy, Debug, PartialEq, Eq, Structural)]
pub enum ApplicationError {
    /// The graphics backends that were enabled are not exactly one.
    Configuration,
    /// No adapter of the machine accepted the creation of a device.
    DeviceAcquisition,
    /// The backend refused to bind a render target.
    SurfaceCreation,
    /// The backend failed to display a frame.
    Present,
}

/// How the scale factor of a window is chosen.
#[derive(Clone, Copy, Debug, PartialEq, Eq, Structural)]
pub enum WindowScalePolicy {
    /// Follow the factor that the operating system reports.
    SystemScaleFactor,
    /// Use this factor whatever the operating system reports.
    ScaleFactor(ScaleFactor),
}

impl WindowScalePolicy {
    /// Whether the window follows the factor of the operating system.
    pub open spec fn follows_system(self) -> bool {
        self is SystemScaleFactor
    }

    /// The factor a window starts with: the given one, or none at all until
    /// the operating system reports its own.
    pub open spec fn initial_factor(self) -> ScaleFactor {
        match self {
            WindowScalePolicy::SystemScaleFactor => ScaleFactor::spec_identity(),
            WindowScalePolicy::ScaleFactor(factor) => factor,
        }
    }

    /// Whether the window follows the factor of the operating system.
    pub fn uses_system_scaling(&self) -> (r: bool)
        ensures
            r == self.follows_system(),
    {
        match self {
            WindowScalePolicy::SystemScaleFactor => true,
            WindowScalePolicy::ScaleFactor(_) => false,
        }
    }

    /// The factor a window starts with.
    pub fn window_scale_factor(&self) -> (r: ScaleFactor)
        ensures
            r == self.initial_factor(),
    {
        match self {
            WindowScalePolicy::SystemScaleFactor => ScaleFactor::identity(),
            WindowScalePolicy::ScaleFactor(factor) => *factor,
        }
    }
}

/// What a window is to look like when it opens.
#[derive(Clone, Debug)]
pub struct WindowDescription {
    pub title: String,
    pub inner_size: WindowSize,
    pub user_scale_factor: ScaleFactor,
}

/// The logical width of a window whose description names none.
pub const DEFAULT_WIDTH: u32 = 800;

/// The logical height of a window whose description names none.
pub const DEFAULT_HEIGHT: u32 = 600;

/// The logical size of a window whose description names none.
pub open spec fn default_inner_size() -> WindowSize {
    WindowSize { width: DEFAULT_WIDTH, height: DEFAULT_HEIGHT }
}

impl WindowDescription {
    /// The description of a window of the default size, unscaled, with an
    /// empty title.
    pub fn new() -> (r: WindowDescription)
        ensures
            r.title@ == Seq::<char>::empty(),
            r.inner_size == default_inner_size(),
            r.user_scale_factor == ScaleFactor::spec_identity(),
    {
        WindowDescription {
            title: String::new(),
            inner_size: WindowSize { width: DEFAULT_WIDTH, height: DEFAULT_HEIGHT },
            user_scale_factor: ScaleFactor::identity(),
        }
    }
}

/// An application before it runs: the description of its window and how the
/// window is to be driven.
#[derive(Clone, Debug)]
pub struct Application {
    pub window_description: WindowDescription,
    pub window_scale_policy: WindowScalePolicy,
    pub idle_registered: bool,
    pub ignore_default_theme: bool,
}

impl Application {
    /// An application with a default window, following the scale factor of
    /// the operating system, with the built-in theme and no idle callback.
    pub fn new() -> (r: Application)
        ensures
            r.window_description.title@ == Seq::<char>::empty(),
            r.window_description.inner_size == default_inner_size(),
            r.window_description.user_scale_factor == ScaleFactor::spec_identity(),
            r.window_scale_policy == WindowScalePolicy::SystemScaleFactor,
            !r.idle_registered,
            !r.ignore_default_theme,
    {
        Application {
            window_description: WindowDescription::new(),
            window_scale_policy: WindowScalePolicy::SystemScaleFactor,
            idle_registered: false,
            ignore_default_theme: false,
        }
    }

    /// Sets the default built-in theming to be ignored.
    pub fn ignore_default_theme(self) -> (r: Application)
        ensures
            r.ignore_default_theme,
            r.window_description == self.window_description,
            r.window_scale_policy == self.window_scale_policy,
            r.idle_registered == self.idle_registered,
    {
        let mut r = self;
        r.ignore_default_theme = true;
        r
    }

    /// Changes the window's scale policy. This is for the scaling of the
    /// display only; a factor of the user's own goes through
    /// [`Application::user_scale_factor`].
    pub fn with_scale_policy(self, scale_policy: WindowScalePolicy) -> (r: Application)
        ensures
            r.window_scale_policy == scale_policy,
            r.window_description == self.window_description,
            r.idle_registered == self.idle_registered,
            r.ignore_default_theme == self.ignore_default_theme,
    {
        let mut r = self;
        r.window_scale_policy = scale_policy;
        r
    }

    /// Sets the title of the window.
    pub fn title(self, title: &str) -> (r: Application)
        ensures
            r.window_description.title@ == title@,
            r.window_description.inner_size == self.window_description.inner_size,
            r.window_description.user_scale_factor == self.window_description.user_scale_factor,
            r.window_scale_policy == self.window_scale_policy,
            r.idle_registered == self.idle_registered,
            r.ignore_default_theme == self.ignore_default_theme,
    {
        let mut r = self;
        r.window_description.title = title.to_owned();
        r
    }

    /// Sets the logical size of the window.
    pub fn inner_size(self, size: WindowSize) -> (r: Application)
        ensures
            r.window_description.inner_size == size,
            r.window_description.title == self.window_description.title,
            r.window_description.user_scale_factor == self.window_description.user_scale_factor,
            r.window_scale_policy == self.window_scale_policy,
            r.idle_registered == self.idle_registered,
            r.ignore_default_theme == self.ignore_default_theme,
    {
        let mut r = self;
        r.window_description.inner_size = size;
        r
    }

    /// Sets a scale factor applied on top of any scaling of the display.
    pub fn user_scale_factor(self, factor: ScaleFactor) -> (r: Application)
        ensures
            r.window_description.user_scale_factor == factor,
            r.window_description.title == self.window_description.title,
            r.window_description.inner_size == self.window_description.inner_size,
            r.window_scale_policy == self.window_scale_policy,
            r.idle_registered == self.idle_registered,
            r.ignore_default_theme == self.ignore_default_theme,
    {
        let mut r = self;
        r.window_description.user_scale_factor = factor;
        r
    }

    /// Records that a callback runs at the end of every tick. If the callback
    /// puts events into the queue the tick runs again, so it must not do so
    /// every time it is called.
    pub fn on_idle(self) -> (r: Application)
        ensures
            r.idle_registered,
            r.window_description == self.window_description,
            r.window_scale_policy == self.window_scale_policy,
            r.ignore_default_theme == self.ignore_default_theme,
    {
        let mut r = self;
        r.idle_registered = true;
        r
    }
}

/// Whether an event is a request to end the application: the window is about
/// to close, or, where the platform has a quit accelerator, the Q key goes
/// down while meta and nothing else is held.
pub open spec fn exit_requested(event: native::Event, quit_accelerator: bool) -> bool {
    match event {
        native::Event::Window(native::WindowEvent::WillClose) => true,
        native::Event::Keyboard(key) => quit_accelerator && key.code == Code::KeyQ
            && key.modifiers.bits == KEYBOARD_META && key.state == KeyState::Down,
        _ => false,
    }
}

/// Returns true if the provided event should cause an application to exit.
pub fn requests_exit(event: &native::Event, quit_accelerator: bool) -> (r: bool)
    ensures
        r == exit_requested(*event, quit_accelerator),
{
    match event {
        native::Event::Window(native::WindowEvent::WillClose) => true,
        native::Event::Keyboard(key) => {
            quit_accelerator && matches!(key.code, Code::KeyQ) && key.modifiers.bits
                == KEYBOARD_META && key.state == KeyState::Down
        },
        _ => false,
    }
}

/// The toolkit's name for a button of the platform: back and forward are the
/// fourth and fifth of the other buttons.
pub open spec fn translated_button(button: native::MouseButton) -> MouseButton {
    match button {
        native::MouseButton::Left => MouseButton::Left,
        native::MouseButton::Right => MouseButton::Right,
        native::MouseButton::Middle => MouseButton::Middle,
        native::MouseButton::Other(id) => MouseButton::Other(id as u16),
        native::MouseButton::Back => MouseButton::Other(4),
        native::MouseButton::Forward => MouseButton::Other(5),
    }
}

/// Translates a button of the platform into the toolkit's name for it.
pub fn translate_mouse_button(button: native::MouseButton) -> (r: MouseButton)
    ensures
        r == translated_button(button),
{
    match button {
        native::MouseButton::Left => MouseButton::Left,
        native::MouseButton::Right => MouseButton::Right,
        native::MouseButton::Middle => MouseButton::Middle,
        native::MouseButton::Other(id) => MouseButton::Other(id as u16),
        native::MouseButton::Back => MouseButton::Other(4),
        native::MouseButton::Forward => MouseButton::Other(5),
    }
}

/// The whole lines that a distance in pixels counts for on one axis: one line
/// back for anything below zero, one line forward for anything above one
/// pixel, none in between.
pub open spec fn pixel_lines(distance: Fixed) -> Fixed {
    if distance.raw < 0 {
        Fixed { raw: (-UNITS_PER_WHOLE) as i64 }
    } else if distance.raw > UNITS_PER_WHOLE {
        Fixed { raw: UNITS_PER_WHOLE }
    } else {
        Fixed { raw: 0 }
    }
}

/// The lines that a scroll movement counts for on the two axes: a movement in
/// lines as it is, a movement in pixels by [`pixel_lines`] on each axis.
pub open spec fn scroll_lines(delta: native::ScrollDelta) -> (Fixed, Fixed) {
    match delta {
        native::ScrollDelta::Lines { x, y } => (x, y),
        native::ScrollDelta::Pixels { x, y } => (pixel_lines(x), pixel_lines(y)),
    }
}

fn lines_of_pixels(distance: Fixed) -> (r: Fixed)
    ensures
        r == pixel_lines(distance),
{
    if distance.raw < 0 {
        Fixed { raw: -UNITS_PER_WHOLE }
    } else if distance.raw > UNITS_PER_WHOLE {
        Fixed { raw: UNITS_PER_WHOLE }
    } else {
        Fixed { raw: 0 }
    }
}

/// Brings a scroll movement to lines.
pub fn normalize_scroll(delta: native::ScrollDelta) -> (r: (Fixed, Fixed))
    ensures
        r == scroll_lines(delta),
{
    match delta {
        native::ScrollDelta::Lines { x, y } => (x, y),
        native::ScrollDelta::Pixels { x, y } => (lines_of_pixels(x), lines_of_pixels(y)),
    }
}

/// Where the runner stands in the course of a tick.
#[derive(Clone, Copy, Debug, PartialEq, Eq, Structural)]
pub enum Phase {
    /// Between two ticks: the native event loop has control.
    Boundary,
    /// The queue was drained and the core has processed its events; the
    /// scale is to be reconciled next.
    Reconcile,
    /// Style, animation and visual passes are done; drawing and the idle
    /// callback are next.
    Paint,
    /// All steps of the tick are done; what is left is to decide whether
    /// another tick follows at once.
    Settle,
    /// The window was asked to close; whenever the runner is asked again it
    /// asks for the close again.
    Closed,
}

/// What a runner holds, as a plain value.
pub struct RunnerState {
    /// The scale state that was last applied.
    pub scale: ScaleState,
    /// Whether the scale factor of the window follows the operating system.
    pub use_system_scaling: bool,
    /// Whether a redraw is pending.
    pub should_redraw: bool,
    /// Which modifier keys are held.
    pub modifiers: Modifiers,
    /// Whether a request to close was seen.
    pub should_terminate: bool,
    pub phase: Phase,
    /// Whether an idle callback runs at the end of each tick.
    pub idle_registered: bool,
    /// Whether the platform has a quit accelerator.
    pub quit_accelerator: bool,
}

/// The single close event that a request to exit gives rise to, unless one
/// was given before.
pub open spec fn close_commands(s: RunnerState, event: native::Event) -> Seq<Command> {
    if exit_requested(event, s.quit_accelerator) && !s.should_terminate {
        seq![Command::Send(WindowEvent::WindowClose)]
    } else {
        Seq::empty()
    }
}

/// What a mouse event becomes.
pub open spec fn mouse_commands(s: RunnerState, event: native::MouseEvent) -> Seq<Command> {
    match event {
        native::MouseEvent::CursorMoved { position } => seq![
            Command::Emit(
                WindowEvent::MouseMove(
                    position.x.spec_scaled(s.scale.os_scale_factor),
                    position.y.spec_scaled(s.scale.os_scale_factor),
                ),
            ),
        ],
        native::MouseEvent::ButtonPressed { button } => seq![
            Command::Emit(WindowEvent::MouseDown(translated_button(button))),
        ],
        native::MouseEvent::ButtonReleased { button } => seq![
            Command::Emit(WindowEvent::MouseUp(translated_button(button))),
        ],
        native::MouseEvent::WheelScrolled { delta } => seq![
            Command::Emit(WindowEvent::MouseScroll(scroll_lines(delta).0, scroll_lines(delta).1)),
        ],
        native::MouseEvent::CursorEntered => seq![Command::Emit(WindowEvent::MouseEnter)],
        native::MouseEvent::CursorLeft => seq![Command::Emit(WindowEvent::MouseLeave)],
        native::MouseEvent::Other => Seq::empty(),
    }
}

/// One character-input event for each character of a text, in order.
pub open spec fn char_commands(text: Seq<char>) -> Seq<Command>
    decreases text.len(),
{
    if text.len() == 0 {
        Seq::empty()
    } else {
        char_commands(text.drop_last()).push(Command::Emit(WindowEvent::CharInput(text.last() as u32)))
    }
}

/// The modifier state after a keyboard event: a modifier key sets or clears
/// its own modifier, any other key changes nothing.
pub open spec fn modifiers_after(modifiers: Modifiers, key: native::KeyboardEvent) -> Modifiers {
    match key.code.spec_modifier() {
        Some(which) => modifiers.with(which, key.state == KeyState::Down),
        None => modifiers,
    }
}

/// The command that announces the new modifier state, for a modifier key.
pub open spec fn announcement(s: RunnerState, key: native::KeyboardEvent) -> Seq<Command> {
    if key.code.spec_modifier() is Some {
        seq![Command::SetModifiers(modifiers_after(s.modifiers, key))]
    } else {
        Seq::empty()
    }
}

/// The event that passes the key of a keyboard event on: it carries the
/// physical key and the meaning of the raw event, unchanged.
pub open spec fn key_event(key: native::KeyboardEvent) -> Seq<Command> {
    if key.state == KeyState::Down {
        seq![Command::Emit(WindowEvent::KeyDown(key.code, key.key))]
    } else {
        seq![Command::Emit(WindowEvent::KeyUp(key.code, key.key))]
    }
}

/// What a keyboard event becomes: for a modifier key the new modifier state
/// first; then, for a key that went down, the characters it writes and the
/// key-down event after them; for a key that came up, the key-up event alone.
pub open spec fn keyboard_commands(s: RunnerState, key: native::KeyboardEvent) -> Seq<Command> {
    if key.state == KeyState::Down {
        announcement(s, key) + char_commands(key.key.text()) + key_event(key)
    } else {
        announcement(s, key) + key_event(key)
    }
}

/// The commands that bring a scale state to the core and to the surfaces:
/// the scale factor, the physical size, a resize of the surfaces unless the
/// physical size has no area, and a request for a full redraw.
pub open spec fn surface_commands(state: ScaleState) -> Seq<Command> {
    seq![
        Command::SetScaleFactor { os: state.os_scale_factor, user: state.user_scale_factor },
        Command::SetPhysicalSize(state.physical_size),
    ] + (if state.physical_size.is_degenerate() {
        Seq::empty()
    } else {
        seq![Command::ResizeSurfaces(state.physical_size)]
    }) + seq![Command::Refresh]
}

/// The scale state after the native window was resized: the logical size is
/// the native one with the user's factor taken out, the factor of the
/// operating system is the reported one where the window follows it, and the
/// user's factor stays.
pub open spec fn resized_scale(s: RunnerState, info: native::WindowInfo) -> ScaleState {
    ScaleState::of(
        WindowSize {
            width: logical_extent(info.logical_width, s.scale.user_scale_factor),
            height: logical_extent(info.logical_height, s.scale.user_scale_factor),
        },
        if s.use_system_scaling {
            info.scale
        } else {
            s.scale.os_scale_factor
        },
        s.scale.user_scale_factor,
    )
}

/// What a notification of the window becomes.
pub open spec fn window_commands(s: RunnerState, event: native::WindowEvent) -> Seq<Command> {
    match event {
        native::WindowEvent::Focused => seq![Command::Refresh],
        native::WindowEvent::Resized(info) => seq![
            Command::StoreWindowSize(resized_scale(s, info).logical_size),
        ] + surface_commands(resized_scale(s, info)),
        native::WindowEvent::WillClose => Seq::empty(),
        native::WindowEvent::Other => Seq::empty(),
    }
}

/// The commands that one raw event gives rise to, in order.
pub open spec fn event_commands(s: RunnerState, event: native::Event) -> Seq<Command> {
    close_commands(s, event) + match event {
        native::Event::Mouse(mouse) => mouse_commands(s, mouse),
        native::Event::Keyboard(key) => keyboard_commands(s, key),
        native::Event::Window(window) => window_commands(s, window),
    }
}

/// The runner after one raw event.
pub open spec fn after_event(s: RunnerState, event: native::Event) -> RunnerState {
    RunnerState {
        should_terminate: s.should_terminate || exit_requested(event, s.quit_accelerator),
        modifiers: match event {
            native::Event::Keyboard(key) => modifiers_after(s.modifiers, key),
            _ => s.modifiers,
        },
        scale: match event {
            native::Event::Window(native::WindowEvent::Resized(info)) => resized_scale(s, info),
            _ => s.scale,
        },
        ..s
    }
}

/// The commands of a change of scale within a tick: a request to the native
/// window for the new logical size, which includes the user's factor, and
/// then what brings the new state to the core and to the surfaces.
pub open spec fn scale_commands(state: ScaleState) -> Seq<Command> {
    seq![
        Command::RequestWindowSize {
            width: native_extent(state.logical_size.width, state.user_scale_factor),
            height: native_extent(state.logical_size.height, state.user_scale_factor),
        },
    ] + surface_commands(state)
}

/// How every tick begins: the queue is drained into the core, and the core
/// processes its events.
pub open spec fn opening_commands() -> Seq<Command> {
    seq![Command::DrainQueue, Command::ProcessEvents]
}

/// The passes of the core that follow the reconciliation of the scale. The
/// GPU context is bound for the style pass alone.
pub open spec fn update_commands() -> Seq<Command> {
    seq![
        Command::BindContext,
        Command::ProcessStyle,
        Command::ReleaseContext,
        Command::Animate,
        Command::UpdateVisuals,
    ]
}

/// The scale state that a tick applies: the core's logical size and user
/// factor, under the factor of the operating system that the runner holds.
pub open spec fn reconciled_scale(s: RunnerState, seen: UiSnapshot) -> ScaleState {
    ScaleState::of(seen.window_size, s.scale.os_scale_factor, seen.user_scale_factor)
}

/// Whether the core's logical size or user factor differs from what was last
/// applied.
pub open spec fn scale_changed(s: RunnerState, seen: UiSnapshot) -> bool {
    seen.window_size != s.scale.logical_size || seen.user_scale_factor
        != s.scale.user_scale_factor
}

/// The commands of the reconciliation of the scale: those of a change of
/// scale if it changed, none otherwise.
pub open spec fn reconcile_commands(s: RunnerState, seen: UiSnapshot) -> Seq<Command> {
    if scale_changed(s, seen) {
        scale_commands(reconciled_scale(s, seen))
    } else {
        Seq::empty()
    }
}

/// Whether a redraw is wanted: one is pending, or the core asks for one.
pub open spec fn redraw_wanted(s: RunnerState, seen: UiSnapshot) -> bool {
    s.should_redraw || seen.redraw_requested
}

/// Whether the tick draws: a redraw is wanted and the window has an area.
pub open spec fn draw_due(s: RunnerState, seen: UiSnapshot) -> bool {
    redraw_wanted(s, seen) && !s.scale.physical_size.is_degenerate()
}

/// The commands of the draw step: with the GPU context bound, the surface is
/// acquired and the core draws; then the frame is presented. None where no
/// draw is due.
pub open spec fn render_commands(s: RunnerState, seen: UiSnapshot) -> Seq<Command> {
    if draw_due(s, seen) {
        seq![
            Command::BindContext,
            Command::AcquireSurface,
            Command::Draw,
            Command::ReleaseContext,
            Command::Present,
        ]
    } else {
        Seq::empty()
    }
}

/// The idle callback, where one is registered.
pub open spec fn idle_commands(s: RunnerState) -> Seq<Command> {
    if s.idle_registered {
        seq![Command::Idle]
    } else {
        Seq::empty()
    }
}

/// The commands that the runner gives when asked in state `s`, the caller
/// having seen `seen` after it performed the commands given before.
pub open spec fn frame_commands(s: RunnerState, seen: UiSnapshot) -> Seq<Command> {
    match s.phase {
        Phase::Boundary => opening_commands(),
        Phase::Reconcile => reconcile_commands(s, seen) + update_commands(),
        Phase::Paint => render_commands(s, seen) + idle_commands(s),
        Phase::Settle => if s.should_terminate {
            seq![Command::Close]
        } else if seen.queued > 0 {
            opening_commands()
        } else {
            seq![Command::Yield]
        },
        Phase::Closed => seq![Command::Close],
    }
}

/// The runner after it gave the commands of [`frame_commands`].
pub open spec fn after_frame(s: RunnerState, seen: UiSnapshot) -> RunnerState {
    match s.phase {
        Phase::Boundary => RunnerState { phase: Phase::Reconcile, ..s },
        Phase::Reconcile => RunnerState {
            scale: reconciled_scale(s, seen),
            should_redraw: s.should_redraw || scale_changed(s, seen),
            phase: Phase::Paint,
            ..s
        },
        Phase::Paint => RunnerState {
            should_redraw: redraw_wanted(s, seen) && !draw_due(s, seen),
            phase: Phase::Settle,
            ..s
        },
        Phase::Settle => RunnerState {
            phase: if s.should_terminate {
                Phase::Closed
            } else if seen.queued > 0 {
                Phase::Reconcile
            } else {
                Phase::Boundary
            },
            ..s
        },
        Phase::Closed => s,
    }
}

/// Drives one window: translates the raw events of the platform and decides
/// the steps of each tick.
#[derive(Clone, Copy, Debug)]
pub struct ApplicationRunner {
    scale: ScaleCoordinator,
    use_system_scaling: bool,
    should_redraw: bool,
    modifiers: Modifiers,
    should_terminate: bool,
    phase: Phase,
    idle_registered: bool,
    quit_accelerator: bool,
}

impl View for ApplicationRunner {
    type V = RunnerState;

    closed spec fn view(&self) -> RunnerState {
        RunnerState {
            scale: self.scale.state(),
            use_system_scaling: self.use_system_scaling,
            should_redraw: self.should_redraw,
            modifiers: self.modifiers,
            should_terminate: self.should_terminate,
            phase: self.phase,
            idle_registered: self.idle_registered,
            quit_accelerator: self.quit_accelerator,
        }
    }
}

fn push_surface_commands(commands: &mut Vec<Command>, state: ScaleState)
    ensures
        final(commands)@ == old(commands)@ + surface_commands(state),
{
    commands.push(
        Command::SetScaleFactor { os: state.os_scale_factor, user: state.user_scale_factor },
    );
    commands.push(Command::SetPhysicalSize(state.physical_size));
    if !state.physical_size.is_empty() {
        commands.push(Command::ResizeSurfaces(state.physical_size));
    }
    commands.push(Command::Refresh);
}

fn push_char_commands(commands: &mut Vec<Command>, written: &str)
    ensures
        final(commands)@ == old(commands)@ + char_commands(written@),
{
    let count = written.unicode_len();
    let mut i: usize = 0;
    while i < count
        invariant
            i <= count,
            count == written@.len(),
            commands@ == old(commands)@ + char_commands(written@.take(i as int)),
        decreases count - i,
    {
        let c = written.get_char(i);
        commands.push(Command::Emit(WindowEvent::CharInput(c as u32)));
        proof {
            let after = written@.take(i + 1);
            assert(after.drop_last() =~= written@.take(i as int));
        }
        i = i + 1;
    }
    assert(written@.take(count as int) =~= written@);
}

fn opening() -> (commands: Vec<Command>)
    ensures
        commands@ == opening_commands(),
{
    let mut commands: Vec<Command> = Vec::new();
    commands.push(Command::DrainQueue);
    commands.push(Command::ProcessEvents);
    commands
}

impl ApplicationRunner {
    /// A runner between two ticks, with a redraw pending, no modifier held
    /// and no request to close, whose applied scale state is what the core's
    /// window size and user factor and the given factor of the operating
    /// system determine.
    pub fn new(
        seen: &UiSnapshot,
        use_system_scaling: bool,
        window_scale_factor: ScaleFactor,
        idle_registered: bool,
        quit_accelerator: bool,
    ) -> (r: ApplicationRunner)
        ensures
            r@ == (RunnerState {
                scale: ScaleState::of(seen.window_size, window_scale_factor, seen.user_scale_factor),
                use_system_scaling,
                should_redraw: true,
                modifiers: Modifiers::spec_empty(),
                should_terminate: false,
                phase: Phase::Boundary,
                idle_registered,
                quit_accelerator,
            }),
    {
        ApplicationRunner {
            scale: ScaleCoordinator::new(
                seen.window_size,
                window_scale_factor,
                seen.user_scale_factor,
            ),
            use_system_scaling,
            should_redraw: true,
            modifiers: Modifiers::empty(),
            should_terminate: false,
            phase: Phase::Boundary,
            idle_registered,
            quit_accelerator,
        }
    }

    /// What a mouse event becomes; the runner stays as it is.
    fn mouse_event(&self, mouse: &native::MouseEvent) -> (commands: Vec<Command>)
        ensures
            commands@ == mouse_commands(self@, *mouse),
    {
        let mut commands: Vec<Command> = Vec::new();
        match mouse {
            native::MouseEvent::CursorMoved { position } => {
                let factor = self.scale.current().os_scale_factor;
                commands.push(
                    Command::Emit(
                        WindowEvent::MouseMove(
                            position.x.scaled(factor),
                            position.y.scaled(factor),
                        ),
                    ),
                );
            },
            native::MouseEvent::ButtonPressed { button } => {
                commands.push(
                    Command::Emit(WindowEvent::MouseDown(translate_mouse_button(*button))),
                );
            },
            native::MouseEvent::ButtonReleased { button } => {
                commands.push(Command::Emit(WindowEvent::MouseUp(translate_mouse_button(*button))));
            },
            native::MouseEvent::WheelScrolled { delta } => {
                let lines = normalize_scroll(*delta);
                commands.push(Command::Emit(WindowEvent::MouseScroll(lines.0, lines.1)));
            },
            native::MouseEvent::CursorEntered => {
                commands.push(Command::Emit(WindowEvent::MouseEnter));
            },
            native::MouseEvent::CursorLeft => {
                commands.push(Command::Emit(WindowEvent::MouseLeave));
            },
            native::MouseEvent::Other => {},
        }
        commands
    }

    /// What a keyboard event becomes, and the modifier state after it.
    fn keyboard_event(&mut self, key: native::KeyboardEvent) -> (commands: Vec<Command>)
        ensures
            commands@ == keyboard_commands(old(self)@, key),
            final(self)@ == (RunnerState {
                modifiers: modifiers_after(old(self)@.modifiers, key),
                ..old(self)@
            }),
    {
        let mut commands: Vec<Command> = Vec::new();
        let pressed = key.state == KeyState::Down;
        match key.code.modifier() {
            Some(which) => {
                self.modifiers.set(which, pressed);
                commands.push(Command::SetModifiers(self.modifiers));
            },
            None => {},
        }
        let ghost announce = commands@;
        if pressed {
            match &key.key {
                Key::Character(written) => {
                    push_char_commands(&mut commands, written.as_str());
                },
                Key::Named(_) => {},
            }
            commands.push(Command::Emit(WindowEvent::KeyDown(key.code, key.key)));
            assert(commands@ =~= announce + char_commands(key.key.text()) + key_event(key));
        } else {
            commands.push(Command::Emit(WindowEvent::KeyUp(key.code, key.key)));
            assert(commands@ =~= announce + key_event(key));
        }
        commands
    }

    /// What a notification of the window becomes, and the scale state after
    /// it.
    fn window_event(&mut self, window: &native::WindowEvent) -> (commands: Vec<Command>)
        ensures
            commands@ == window_commands(old(self)@, *window),
            final(self)@ == (RunnerState {
                scale: match *window {
                    native::WindowEvent::Resized(info) => resized_scale(old(self)@, info),
                    _ => old(self)@.scale,
                },
                ..old(self)@
            }),
    {
        let mut commands: Vec<Command> = Vec::new();
        match window {
            native::WindowEvent::Focused => {
                commands.push(Command::Refresh);
            },
            native::WindowEvent::Resized(info) => {
                let applied = self.scale.current();
                let user = applied.user_scale_factor;
                let logical = WindowSize {
                    width: unscale_extent(info.logical_width, user),
                    height: unscale_extent(info.logical_height, user),
                };
                let os = if self.use_system_scaling {
                    info.scale
                } else {
                    applied.os_scale_factor
                };
                self.scale.reconcile(logical, os, user);
                commands.push(Command::StoreWindowSize(logical));
                push_surface_commands(&mut commands, self.scale.current());
            },
            native::WindowEvent::WillClose => {},
            native::WindowEvent::Other => {},
        }
        commands
    }

    /// Translates one raw event of the platform: returns the commands it
    /// gives rise to, in order, and records what it changes. Only a modifier
    /// key changes the modifier state; a request to exit raises the
    /// termination flag and gives one close event, unless the flag was raised
    /// before.
    pub fn handle_event(&mut self, event: native::Event) -> (commands: Vec<Command>)
        ensures
            commands@ == event_commands(old(self)@, event),
            final(self)@ == after_event(old(self)@, event),
    {
        let mut commands: Vec<Command> = Vec::new();
        if requests_exit(&event, self.quit_accelerator) {
            if !self.should_terminate {
                commands.push(Command::Send(WindowEvent::WindowClose));
            }
            self.should_terminate = true;
        }
        let mut translated = match event {
            native::Event::Mouse(mouse) => self.mouse_event(&mouse),
            native::Event::Keyboard(key) => self.keyboard_event(key),
            native::Event::Window(window) => self.window_event(&window),
        };
        commands.append(&mut translated);
        commands
    }

    /// Reconciles the scale with what the core holds: returns the commands
    /// of a change of scale if the logical size or the user's factor changed,
    /// and marks a redraw as pending then.
    fn reconcile_scale(&mut self, seen: &UiSnapshot) -> (commands: Vec<Command>)
        ensures
            commands@ == reconcile_commands(old(self)@, *seen),
            final(self)@ == (RunnerState {
                scale: reconciled_scale(old(self)@, *seen),
                should_redraw: old(self)@.should_redraw || scale_changed(old(self)@, *seen),
                ..old(self)@
            }),
    {
        let mut commands: Vec<Command> = Vec::new();
        let os = self.scale.current().os_scale_factor;
        if self.scale.reconcile(seen.window_size, os, seen.user_scale_factor) {
            let state = self.scale.current();
            commands.push(
                Command::RequestWindowSize {
                    width: requested_extent(state.logical_size.width, state.user_scale_factor),
                    height: requested_extent(state.logical_size.height, state.user_scale_factor),
                },
            );
            push_surface_commands(&mut commands, state);
            self.should_redraw = true;
        }
        commands
    }

    /// Decides the draw step of a tick. Where a redraw is wanted and the
    /// window has an area, returns the commands that draw and present a
    /// frame and clears the pending redraw. Where the window has no area a
    /// wanted redraw stays pending and nothing is drawn.
    pub fn render(&mut self, seen: &UiSnapshot) -> (commands: Vec<Command>)
        ensures
            commands@ == render_commands(old(self)@, *seen),
            final(self)@ == (RunnerState {
                should_redraw: redraw_wanted(old(self)@, *seen) && !draw_due(old(self)@, *seen),
                ..old(self)@
            }),
    {
        let mut commands: Vec<Command> = Vec::new();
        let wanted = self.should_redraw || seen.redraw_requested;
        if wanted && self.scale.permits_surfaces() {
            commands.push(Command::BindContext);
            commands.push(Command::AcquireSurface);
            commands.push(Command::Draw);
            commands.push(Command::ReleaseContext);
            commands.push(Command::Present);
            self.should_redraw = false;
        } else {
            self.should_redraw = wanted;
        }
        commands
    }

    /// Decides the idle step of a tick: the idle callback is called if one is
    /// registered.
    pub fn handle_idle(&self) -> (commands: Vec<Command>)
        ensures
            commands@ == idle_commands(self@),
    {
        let mut commands: Vec<Command> = Vec::new();
        if self.idle_registered {
            commands.push(Command::Idle);
        }
        commands
    }

    /// Advances the tick. The caller performs the returned commands in
    /// order, looks at the core and at the queue, and asks again, until it
    /// is told to yield or to close.
    ///
    /// A tick takes four calls. The first has the queue drained and the
    /// events processed. The second reconciles the scale and runs the style,
    /// animation and visual passes. The third draws, if a draw is due, and
    /// calls the idle callback. The fourth closes the window if a request to
    /// close was seen; else begins another tick at once if events wait in the
    /// queue; else yields to the native event loop. Once the window was
    /// closed every further call asks for the close again, so that a caller
    /// who performs commands until it is told to yield or to close always
    /// comes to an end.
    pub fn on_frame_update(&mut self, seen: &UiSnapshot) -> (commands: Vec<Command>)
        ensures
            commands@ == frame_commands(old(self)@, *seen),
            final(self)@ == after_frame(old(self)@, *seen),
    {
        match self.phase {
            Phase::Boundary => {
                self.phase = Phase::Reconcile;
                opening()
            },
            Phase::Reconcile => {
                let mut commands = self.reconcile_scale(seen);
                commands.push(Command::BindContext);
                commands.push(Command::ProcessStyle);
                commands.push(Command::ReleaseContext);
                commands.push(Command::Animate);
                commands.push(Command::UpdateVisuals);
                self.phase = Phase::Paint;
                commands
            },
            Phase::Paint => {
                let mut commands = self.render(seen);
                let mut idle = self.handle_idle();
                commands.append(&mut idle);
                self.phase = Phase::Settle;
                commands
            },
            Phase::Settle => {
                if self.should_terminate {
                    self.phase = Phase::Closed;
                    let mut commands: Vec<Command> = Vec::new();
                    commands.push(Command::Close);
                    commands
                } else if seen.queued > 0 {
                    self.phase = Phase::Reconcile;
                    opening()
                } else {
                    self.phase = Phase::Boundary;
                    let mut commands: Vec<Command> = Vec::new();
                    commands.push(Command::Yield);
                    commands
                }
            },
            Phase::Closed => {
                let mut commands: Vec<Command> = Vec::new();
                commands.push(Command::Close);
                commands
            },
        }
    }

    /// Which modifier keys are held.
    pub fn modifiers(&self) -> (r: Modifiers)
        ensures
            r == self@.modifiers,
    {
        self.modifiers
    }

    /// Whether a request to close was seen.
    pub fn should_terminate(&self) -> (r: bool)
        ensures
            r == self@.should_terminate,
    {
        self.should_terminate
    }

    /// Whether a redraw is pending.
    pub fn should_redraw(&self) -> (r: bool)
        ensures
            r == self@.should_redraw,
    {
        self.should_redraw
    }

    /// The scale state that was last applied.
    pub fn scale_state(&self) -> (r: ScaleState)
        ensures
            r == self@.scale,
            r.consistent(),
    {
        self.scale.current()
    }

    /// Where the runner stands in the course of a tick.
    pub fn phase(&self) -> (r: Phase)
        ensures
            r == self@.phase,
    {
        self.phase
    }
}

} // verus!
