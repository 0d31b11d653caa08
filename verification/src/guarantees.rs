//! What holds of the translation of events and of the course of a tick,
//! whatever the events and whatever the caller sees.

use crate::application::{
    after_event, after_frame, announcement, char_commands, close_commands, event_commands,
    exit_requested, frame_commands, key_event, keyboard_commands, mouse_commands,
    opening_commands, reconcile_commands, reconciled_scale, update_commands, window_commands,
    Phase, RunnerState,
};
use crate::command::{Command, UiSnapshot};
use crate::input::{KeyState, WindowEvent};
use crate::native;
use crate::scale::PhysicalSize;
use vstd::prelude::*;

verus! {

/// A text of `n` characters gives `n` character-input events, the `i`-th of
/// them for the `i`-th character.
pub proof fn lemma_one_event_per_character(text: Seq<char>)
    ensures
        char_commands(text).len() == text.len(),
        forall|i: int|
            0 <= i < text.len() ==> (#[trigger] char_commands(text)[i]) == Command::Emit(
                WindowEvent::CharInput(text[i] as u32),
            ),
    decreases text.len(),
{
    if text.len() > 0 {
        lemma_one_event_per_character(text.drop_last());
        assert(char_commands(text) == char_commands(text.drop_last()).push(
            Command::Emit(WindowEvent::CharInput(text.last() as u32)),
        ));
    }
}

/// How many commands announce the modifier state before a keyboard event is
/// passed on: one for a modifier key, none for any other.
pub open spec fn announced(key: native::KeyboardEvent) -> int {
    if key.code.spec_modifier() is Some {
        1
    } else {
        0
    }
}

/// A key that goes down with a text of `n` characters gives `n`
/// character-input events in the order of the text, and then the one
/// key-down event, which carries the physical key and the meaning of the raw
/// event.
pub proof fn lemma_characters_precede_key_down(s: RunnerState, key: native::KeyboardEvent)
    requires
        key.state == KeyState::Down,
    ensures
        keyboard_commands(s, key).len() == announced(key) + key.key.text().len() + 1,
        forall|i: int|
            0 <= i < key.key.text().len() ==> (#[trigger] keyboard_commands(s, key)[announced(key)
                + i]) == Command::Emit(WindowEvent::CharInput(key.key.text()[i] as u32)),
        keyboard_commands(s, key)[announced(key) + key.key.text().len()] == Command::Emit(
            WindowEvent::KeyDown(key.code, key.key),
        ),
{
    lemma_one_event_per_character(key.key.text());
}

/// Whether a command passes a character of text on.
pub open spec fn is_char_input(command: Command) -> bool {
    command matches Command::Emit(WindowEvent::CharInput(_))
}

/// A key that comes up gives the key-up event and never a character-input
/// event.
pub proof fn lemma_key_up_writes_nothing(s: RunnerState, key: native::KeyboardEvent)
    requires
        key.state == KeyState::Up,
    ensures
        keyboard_commands(s, key).len() == announced(key) + 1,
        keyboard_commands(s, key)[announced(key)] == Command::Emit(
            WindowEvent::KeyUp(key.code, key.key),
        ),
        forall|i: int|
            0 <= i < keyboard_commands(s, key).len() ==> !is_char_input(
                #[trigger] keyboard_commands(s, key)[i],
            ),
{
}

/// The modifier state changes only on a key event of a modifier key: no
/// other event and no step of a tick touches it.
pub proof fn lemma_only_modifier_keys_change_modifiers(
    s: RunnerState,
    event: native::Event,
    seen: UiSnapshot,
)
    ensures
        after_event(s, event).modifiers != s.modifiers ==> (event matches native::Event::Keyboard(
            key,
        ) && key.code.spec_modifier() is Some),
        after_frame(s, seen).modifiers == s.modifiers,
{
}

/// How many of the commands ask the window to close.
pub open spec fn close_count(commands: Seq<Command>) -> nat
    decreases commands.len(),
{
    if commands.len() == 0 {
        0
    } else {
        close_count(commands.drop_last()) + (if commands.last() == Command::Send(
            WindowEvent::WindowClose,
        ) {
            1nat
        } else {
            0nat
        })
    }
}

/// The runner after a run of events, each translated in turn.
pub open spec fn after_events(s: RunnerState, events: Seq<native::Event>) -> RunnerState
    decreases events.len(),
{
    if events.len() == 0 {
        s
    } else {
        after_event(after_events(s, events.drop_last()), events.last())
    }
}

/// The commands of a run of events, each translated in turn.
pub open spec fn commands_of_events(s: RunnerState, events: Seq<native::Event>) -> Seq<Command>
    decreases events.len(),
{
    if events.len() == 0 {
        Seq::empty()
    } else {
        commands_of_events(s, events.drop_last()) + event_commands(
            after_events(s, events.drop_last()),
            events.last(),
        )
    }
}

/// Whether any event of a run is a request to exit.
pub open spec fn any_exit_requested(events: Seq<native::Event>, quit_accelerator: bool) -> bool
    decreases events.len(),
{
    events.len() > 0 && (exit_requested(events.last(), quit_accelerator) || any_exit_requested(
        events.drop_last(),
        quit_accelerator,
    ))
}

/// The close requests of two runs of commands add up.
pub proof fn lemma_close_count_adds(first: Seq<Command>, second: Seq<Command>)
    ensures
        close_count(first + second) == close_count(first) + close_count(second),
    decreases second.len(),
{
    if second.len() == 0 {
        assert(first + second =~= first);
    } else {
        assert((first + second).drop_last() =~= first + second.drop_last());
        lemma_close_count_adds(first, second.drop_last());
    }
}

/// The character-input events of a text hold no request to close.
proof fn lemma_characters_do_not_close(text: Seq<char>)
    ensures
        close_count(char_commands(text)) == 0,
    decreases text.len(),
{
    if text.len() > 0 {
        lemma_characters_do_not_close(text.drop_last());
        assert(char_commands(text).drop_last() =~= char_commands(text.drop_last()));
    }
}

/// A run of commands of which none asks the window to close counts none.
proof fn lemma_close_count_of_others(commands: Seq<Command>)
    requires
        forall|i: int|
            0 <= i < commands.len() ==> (#[trigger] commands[i]) != Command::Send(
                WindowEvent::WindowClose,
            ),
    ensures
        close_count(commands) == 0,
    decreases commands.len(),
{
    if commands.len() > 0 {
        lemma_close_count_of_others(commands.drop_last());
    }
}

/// One event gives one request to close if it asks to exit and none was
/// given before, and no request to close otherwise.
pub proof fn lemma_close_once_per_event(s: RunnerState, event: native::Event)
    ensures
        close_count(event_commands(s, event)) == (if exit_requested(event, s.quit_accelerator)
            && !s.should_terminate {
            1nat
        } else {
            0nat
        }),
{
    let closing = close_commands(s, event);
    if closing.len() > 0 {
        assert(close_count(closing.drop_last()) == 0);
    }
    match event {
        native::Event::Mouse(mouse) => {
            lemma_close_count_of_others(mouse_commands(s, mouse));
            lemma_close_count_adds(closing, mouse_commands(s, mouse));
        },
        native::Event::Keyboard(key) => {
            let announce = announcement(s, key);
            let text = char_commands(key.key.text());
            lemma_close_count_of_others(announce);
            lemma_characters_do_not_close(key.key.text());
            lemma_close_count_of_others(key_event(key));
            if key.state == KeyState::Down {
                lemma_close_count_adds(announce, text);
                lemma_close_count_adds(announce + text, key_event(key));
            } else {
                lemma_close_count_adds(announce, key_event(key));
            }
            lemma_close_count_adds(closing, keyboard_commands(s, key));
        },
        native::Event::Window(window) => {
            lemma_close_count_of_others(window_commands(s, window));
            lemma_close_count_adds(closing, window_commands(s, window));
        },
    }
}

/// However many events of a run ask to exit, natively or by the quit
/// accelerator, the run gives one request to close, and none if the
/// termination flag was raised before it; the flag is raised after the run
/// exactly if it was raised before or some event asked to exit.
pub proof fn lemma_close_is_requested_once(s: RunnerState, events: Seq<native::Event>)
    ensures
        after_events(s, events).should_terminate == (s.should_terminate || any_exit_requested(
            events,
            s.quit_accelerator,
        )),
        after_events(s, events).quit_accelerator == s.quit_accelerator,
        close_count(commands_of_events(s, events)) == (if !s.should_terminate
            && any_exit_requested(events, s.quit_accelerator) {
            1nat
        } else {
            0nat
        }),
    decreases events.len(),
{
    if events.len() > 0 {
        let before = events.drop_last();
        lemma_close_is_requested_once(s, before);
        lemma_close_once_per_event(after_events(s, before), events.last());
        lemma_close_count_adds(
            commands_of_events(s, before),
            event_commands(after_events(s, before), events.last()),
        );
    }
}

/// A tick whose idle callback leaves the queue empty is followed by no other
/// tick: the runner begins the tick when asked at the boundary, and the
/// fourth time it is asked it yields to the native loop and is at the
/// boundary again.
pub proof fn lemma_quiet_tick_yields(
    s: RunnerState,
    first: UiSnapshot,
    second: UiSnapshot,
    third: UiSnapshot,
    fourth: UiSnapshot,
)
    requires
        s.phase == Phase::Boundary,
        !s.should_terminate,
        fourth.queued == 0,
    ensures
        frame_commands(s, first) == opening_commands(),
        ({
            let s1 = after_frame(s, first);
            let s2 = after_frame(s1, second);
            let s3 = after_frame(s2, third);
            &&& s1.phase == Phase::Reconcile
            &&& s2.phase == Phase::Paint
            &&& s3.phase == Phase::Settle
            &&& frame_commands(s3, fourth) == seq![Command::Yield]
            &&& after_frame(s3, fourth).phase == Phase::Boundary
        }),
{
}

/// A tick at whose end events wait in the queue is followed at once by
/// another full tick: the runner does not yield but has the queue drained
/// again, and goes through every step again. If the queue is empty at the end
/// of that tick the runner yields then: one event put into the queue by the
/// idle callback costs one more tick, no less and no more.
pub proof fn lemma_queued_event_costs_one_tick(
    s: RunnerState,
    first: UiSnapshot,
    second: UiSnapshot,
    third: UiSnapshot,
    fourth: UiSnapshot,
    fifth: UiSnapshot,
    sixth: UiSnapshot,
    seventh: UiSnapshot,
)
    requires
        s.phase == Phase::Boundary,
        !s.should_terminate,
        fourth.queued > 0,
        seventh.queued == 0,
    ensures
        frame_commands(s, first) == opening_commands(),
        ({
            let s1 = after_frame(s, first);
            let s2 = after_frame(s1, second);
            let s3 = after_frame(s2, third);
            let s4 = after_frame(s3, fourth);
            let s5 = after_frame(s4, fifth);
            let s6 = after_frame(s5, sixth);
            &&& s1.phase == Phase::Reconcile
            &&& s2.phase == Phase::Paint
            &&& s3.phase == Phase::Settle
            &&& frame_commands(s3, fourth) == opening_commands()
            &&& s4.phase == Phase::Reconcile
            &&& s5.phase == Phase::Paint
            &&& s6.phase == Phase::Settle
            &&& frame_commands(s6, seventh) == seq![Command::Yield]
            &&& after_frame(s6, seventh).phase == Phase::Boundary
        }),
{
}

/// Whether a run of commands hands control back to the native loop.
pub open spec fn yields(commands: Seq<Command>) -> bool {
    exists|i: int| 0 <= i < commands.len() && #[trigger] commands[i] == Command::Yield
}

/// The runner yields to the native loop at the end of a tick at which no
/// events wait in the queue and no request to close was seen, and at no
/// other time.
pub proof fn lemma_yields_only_when_quiet(s: RunnerState, seen: UiSnapshot)
    ensures
        yields(frame_commands(s, seen)) <==> s.phase == Phase::Settle && !s.should_terminate
            && seen.queued == 0,
{
    let commands = frame_commands(s, seen);
    if s.phase == Phase::Settle && !s.should_terminate && seen.queued == 0 {
        assert(commands[0] == Command::Yield);
    }
}

/// Once the window was closed the runner asks for the close whenever it is
/// asked, and stays closed: a caller who performs commands until it is told
/// to yield or to close comes to an end at every call.
pub proof fn lemma_closed_runner_asks_to_close(s: RunnerState, seen: UiSnapshot)
    requires
        s.phase == Phase::Closed,
    ensures
        frame_commands(s, seen) == seq![Command::Close],
        after_frame(s, seen) == s,
{
}

/// Whether the GPU context is bound after a run of commands that began
/// with the context as `bound` says.
pub open spec fn bound_after(commands: Seq<Command>, bound: bool) -> bool
    decreases commands.len(),
{
    if commands.len() == 0 {
        bound
    } else if commands.last() == Command::BindContext {
        true
    } else if commands.last() == Command::ReleaseContext {
        false
    } else {
        bound_after(commands.drop_last(), bound)
    }
}

/// Whatever the runner is asked and whatever the caller sees, the commands
/// of one answer leave the GPU context released. Within them, the style pass
/// stands alone between the binding and the release of the context, and the
/// draw pass between the acquisition of the surface and the release.
pub proof fn lemma_context_is_bound_for_the_pass_alone(s: RunnerState, seen: UiSnapshot)
    ensures
        !bound_after(frame_commands(s, seen), false),
        forall|i: int|
            0 <= i < frame_commands(s, seen).len() && (#[trigger] frame_commands(s, seen)[i])
                == Command::ProcessStyle ==> 0 < i && i + 1 < frame_commands(s, seen).len()
                && frame_commands(s, seen)[i - 1] == Command::BindContext && frame_commands(
                s,
                seen,
            )[i + 1] == Command::ReleaseContext,
        forall|i: int|
            0 <= i < frame_commands(s, seen).len() && (#[trigger] frame_commands(s, seen)[i])
                == Command::Draw ==> 1 < i && i + 1 < frame_commands(s, seen).len()
                && frame_commands(s, seen)[i - 2] == Command::BindContext && frame_commands(
                s,
                seen,
            )[i - 1] == Command::AcquireSurface && frame_commands(s, seen)[i + 1]
                == Command::ReleaseContext,
{
    reveal_with_fuel(bound_after, 4);
}

/// Whether a command works on a surface.
pub open spec fn is_surface_work(command: Command) -> bool {
    command is ResizeSurfaces || command == Command::AcquireSurface || command == Command::Draw
        || command == Command::Present
}

/// Whether none of the commands works on a surface.
pub open spec fn without_surface_work(commands: Seq<Command>) -> bool {
    forall|i: int| 0 <= i < commands.len() ==> !is_surface_work(#[trigger] commands[i])
}

proof fn lemma_parts_without_surface_work(first: Seq<Command>, second: Seq<Command>)
    requires
        without_surface_work(first),
        without_surface_work(second),
    ensures
        without_surface_work(first + second),
{
}

/// A window without area is given no work on surfaces: where the physical
/// size that an answer of the runner or the translation of an event leaves
/// behind is zero in either dimension, none of the commands resizes,
/// acquires, draws into or presents a surface.
pub proof fn lemma_no_surface_work_without_area(
    s: RunnerState,
    seen: UiSnapshot,
    event: native::Event,
)
    ensures
        after_frame(s, seen).scale.physical_size.is_degenerate() ==> without_surface_work(
            frame_commands(s, seen),
        ),
        after_event(s, event).scale.physical_size.is_degenerate() ==> without_surface_work(
            event_commands(s, event),
        ),
{
    match event {
        native::Event::Keyboard(key) => {
            lemma_one_event_per_character(key.key.text());
            let announce = announcement(s, key);
            let text = char_commands(key.key.text());
            lemma_parts_without_surface_work(announce, text);
            if key.state == KeyState::Down {
                lemma_parts_without_surface_work(announce + text, key_event(key));
            } else {
                lemma_parts_without_surface_work(announce, key_event(key));
            }
            lemma_parts_without_surface_work(close_commands(s, event), keyboard_commands(s, key));
        },
        _ => {},
    }
}

/// Whether a command that hands a physical size on hands this one on, and
/// hands it to the surfaces only if it has an area.
pub open spec fn carries_size(command: Command, size: PhysicalSize) -> bool {
    match command {
        Command::SetPhysicalSize(given) => given == size,
        Command::ResizeSurfaces(given) => given == size && !size.is_degenerate(),
        _ => true,
    }
}

/// Whether every command of a run carries the given size.
pub open spec fn all_carry_size(commands: Seq<Command>, size: PhysicalSize) -> bool {
    forall|i: int| 0 <= i < commands.len() ==> carries_size(#[trigger] commands[i], size)
}

proof fn lemma_parts_carry_size(first: Seq<Command>, second: Seq<Command>, size: PhysicalSize)
    requires
        all_carry_size(first, size),
        all_carry_size(second, size),
    ensures
        all_carry_size(first + second, size),
{
}

/// The physical size that the core and the surfaces are given never diverges
/// from the scale state: whatever the runner is asked and whatever event it
/// translates, every physical size among its commands is the one that its
/// scale state holds afterwards, and that state holds the rounded product of
/// the logical size and the two factors.
pub proof fn lemma_sizes_never_diverge(s: RunnerState, seen: UiSnapshot, event: native::Event)
    requires
        s.scale.consistent(),
    ensures
        after_frame(s, seen).scale.consistent(),
        after_event(s, event).scale.consistent(),
        all_carry_size(frame_commands(s, seen), after_frame(s, seen).scale.physical_size),
        all_carry_size(event_commands(s, event), after_event(s, event).scale.physical_size),
{
    lemma_sizes_of_frame(s, seen);
    lemma_sizes_of_event(s, event);
}

proof fn lemma_sizes_of_frame(s: RunnerState, seen: UiSnapshot)
    requires
        s.scale.consistent(),
    ensures
        after_frame(s, seen).scale.consistent(),
        all_carry_size(frame_commands(s, seen), after_frame(s, seen).scale.physical_size),
{
    if s.phase == Phase::Reconcile {
        lemma_parts_carry_size(
            reconcile_commands(s, seen),
            update_commands(),
            reconciled_scale(s, seen).physical_size,
        );
    }
}

proof fn lemma_sizes_of_event(s: RunnerState, event: native::Event)
    requires
        s.scale.consistent(),
    ensures
        after_event(s, event).scale.consistent(),
        all_carry_size(event_commands(s, event), after_event(s, event).scale.physical_size),
{
    let size = after_event(s, event).scale.physical_size;
    let closing = close_commands(s, event);
    match event {
        native::Event::Keyboard(key) => {
            lemma_one_event_per_character(key.key.text());
            let announce = announcement(s, key);
            let text = char_commands(key.key.text());
            lemma_parts_carry_size(announce, text, size);
            if key.state == KeyState::Down {
                lemma_parts_carry_size(announce + text, key_event(key), size);
            } else {
                lemma_parts_carry_size(announce, key_event(key), size);
            }
            lemma_parts_carry_size(closing, keyboard_commands(s, key), size);
        },
        native::Event::Mouse(mouse) => {
            lemma_parts_carry_size(closing, mouse_commands(s, mouse), size);
        },
        native::Event::Window(window) => {
            lemma_parts_carry_size(closing, window_commands(s, window), size);
        },
    }
}

/// Once the scale was reconciled with what the caller sees, reconciling it
/// again with the same sight gives no command: the same inputs twice in a
/// row ask for one resize of the window and one of the surfaces, not two.
pub proof fn lemma_second_reconciliation_is_silent(s: RunnerState, seen: UiSnapshot)
    requires
        s.phase == Phase::Reconcile,
    ensures
        reconcile_commands(after_frame(s, seen), seen) == Seq::<Command>::empty(),
        reconciled_scale(after_frame(s, seen), seen) == after_frame(s, seen).scale,
{
}

} // verus!
