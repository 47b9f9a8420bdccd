//! The window-event state machine.
//!
//! The embedding event loop hands every event to [`Phase::step`] and performs
//! the action that comes back. The machine never touches a window or a GPU
//! itself, and it ends with an explicit [`Action::Exit`] instead of leaving
//! the process from within a handler.

use vstd::prelude::*;

verus! {

/// Title of the one window.
pub const WINDOW_TITLE: &'static str = "aaa";

/// A physical key, as far as the machine tells keys apart.
#[derive(Clone, Copy, Debug, PartialEq, Eq, Structural)]
pub enum Key {
    /// The key that ends the program.
    Escape,
    Other,
}

/// What a window reports.
#[derive(Clone, Copy, Debug, PartialEq, Eq, Structural)]
pub enum WindowEvent {
    Resized { width: u32, height: u32 },
    RedrawRequested,
    CloseRequested,
    Key { key: Key, pressed: bool },
    Other,
}

/// What the event loop reports. Windows are named by their numeric id.
#[derive(Clone, Copy, Debug, PartialEq, Eq, Structural)]
pub enum Event {
    /// The windowing system is ready, and `window` was created for drawing.
    Resumed { window: u64 },
    /// `window` reported `event`.
    Window { window: u64, event: WindowEvent },
    /// The loop has handled everything pending and is about to wait.
    AboutToWait,
}

/// Where the program stands.
#[derive(Clone, Copy, Debug, PartialEq, Eq, Structural)]
pub enum Phase {
    /// No window and no GPU state yet.
    Uninitialized,
    /// Drawing into `window`.
    Running { window: u64 },
    /// Exit was signalled; nothing is drawn any more.
    Terminated,
}

/// What the event loop has to do in answer to an event.
#[derive(Clone, Copy, Debug, PartialEq, Eq, Structural)]
pub enum Action {
    /// Nothing.
    Ignore,
    /// Set up device, surface, pipeline and mesh for `window`, before any
    /// frame is drawn.
    Initialize { window: u64 },
    /// Hand the new window size to the surface configuration.
    Resize { width: u32, height: u32 },
    /// Draw one frame.
    Render,
    /// Ask the window for another redraw.
    RequestRedraw,
    /// Leave the event loop.
    Exit,
}

/// A close request, or a press of the exit key.
pub open spec fn is_exit_request(event: WindowEvent) -> bool {
    match event {
        WindowEvent::CloseRequested => true,
        WindowEvent::Key { key, pressed } => key == Key::Escape && pressed,
        _ => false,
    }
}

/// What a running program answers to an event of its own window.
pub open spec fn window_action(event: WindowEvent) -> Action {
    match event {
        WindowEvent::Resized { width, height } => Action::Resize { width, height },
        WindowEvent::RedrawRequested => Action::Render,
        WindowEvent::CloseRequested => Action::Exit,
        WindowEvent::Key { key, pressed } => if key == Key::Escape && pressed {
            Action::Exit
        } else {
            Action::Ignore
        },
        WindowEvent::Other => Action::Ignore,
    }
}

/// The phase after `event` arrives in `phase`, and the action it calls for.
pub open spec fn next(phase: Phase, event: Event) -> (Phase, Action) {
    match phase {
        Phase::Terminated => (Phase::Terminated, Action::Ignore),
        Phase::Uninitialized => match event {
            Event::Resumed { window } => (Phase::Running { window }, Action::Initialize { window }),
            _ => (Phase::Uninitialized, Action::Ignore),
        },
        Phase::Running { window: current } => match event {
            Event::Resumed { window } => (Phase::Running { window }, Action::Initialize { window }),
            Event::AboutToWait => (phase, Action::RequestRedraw),
            Event::Window { window, event } => if window != current {
                (phase, Action::Ignore)
            } else if is_exit_request(event) {
                (Phase::Terminated, Action::Exit)
            } else {
                (phase, window_action(event))
            },
        },
    }
}

/// The phase reached from `phase` once all of `events` have arrived in order.
pub open spec fn phase_after(phase: Phase, events: Seq<Event>) -> Phase
    decreases events.len(),
{
    if events.len() == 0 {
        phase
    } else {
        next(phase_after(phase, events.drop_last()), events.last()).0
    }
}

/// The action that event `i` of `events` calls for, when the events arrive in
/// order from `phase` on.
pub open spec fn action_at(phase: Phase, events: Seq<Event>, i: int) -> Action {
    next(phase_after(phase, events.take(i)), events[i]).1
}

/// Whether a window event asks the program to end.
pub fn exit_requested(event: WindowEvent) -> (exit: bool)
    ensures
        exit == is_exit_request(event),
        exit <==> window_action(event) == Action::Exit,
{
    match event {
        WindowEvent::CloseRequested => true,
        WindowEvent::Key { key, pressed } => key == Key::Escape && pressed,
        _ => false,
    }
}

/// What a running program answers to an event of its own window.
pub fn answer(event: WindowEvent) -> (action: Action)
    ensures
        action == window_action(event),
        action == Action::Exit <==> is_exit_request(event),
{
    match event {
        WindowEvent::Resized { width, height } => Action::Resize { width, height },
        WindowEvent::RedrawRequested => Action::Render,
        WindowEvent::CloseRequested => Action::Exit,
        WindowEvent::Key { key, pressed } => {
            if key == Key::Escape && pressed {
                Action::Exit
            } else {
                Action::Ignore
            }
        },
        WindowEvent::Other => Action::Ignore,
    }
}

impl Default for Phase {
    /// A program starts uninitialized.
    fn default() -> (phase: Phase)
        ensures
            phase == Phase::Uninitialized,
    {
        Phase::Uninitialized
    }
}

impl Phase {
    /// Takes one event: gives the phase that follows and the action that the
    /// event loop has to perform.
    ///
    /// - Before the first `Resumed` everything else is ignored.
    /// - `Resumed` starts drawing into the window it names, and asks for
    ///   initialization.
    /// - While running, events of other windows are ignored; of the own
    ///   window, a resize is passed on, a redraw request draws a frame, a
    ///   close request or a press of the exit key ends the program, and all
    ///   else is ignored. `AboutToWait` asks for the next redraw, which keeps
    ///   the frames coming.
    /// - Once terminated, everything is ignored.
    pub fn step(self, event: Event) -> (out: (Phase, Action))
        ensures
            out == next(self, event),
            self == Phase::Terminated ==> out == (Phase::Terminated, Action::Ignore),
            out.1 == Action::Exit ==> out.0 == Phase::Terminated,
            out.1 == Action::Render ==> self is Running && out.0 == self,
    {
        match self {
            Phase::Terminated => (Phase::Terminated, Action::Ignore),
            Phase::Uninitialized => match event {
                Event::Resumed { window } => (
                    Phase::Running { window },
                    Action::Initialize { window },
                ),
                _ => (Phase::Uninitialized, Action::Ignore),
            },
            Phase::Running { window: current } => match event {
                Event::Resumed { window } => (
                    Phase::Running { window },
                    Action::Initialize { window },
                ),
                Event::AboutToWait => (self, Action::RequestRedraw),
                Event::Window { window, event } => {
                    if window != current {
                        (self, Action::Ignore)
                    } else if exit_requested(event) {
                        (Phase::Terminated, Action::Exit)
                    } else {
                        (self, answer(event))
                    }
                },
            },
        }
    }

    /// Whether frames are being drawn.
    pub fn is_running(&self) -> (running: bool)
        ensures
            running == (*self is Running),
    {
        match self {
            Phase::Running { .. } => true,
            _ => false,
        }
    }

    /// Whether exit was signalled.
    pub fn is_terminated(&self) -> (terminated: bool)
        ensures
            terminated == (*self == Phase::Terminated),
    {
        match self {
            Phase::Terminated => true,
            _ => false,
        }
    }
}

/// The phase after the first `i + 1` events is the phase after the first `i`
/// events, moved on by event `i`.
pub proof fn lemma_phase_unfolds(phase: Phase, events: Seq<Event>, i: int)
    requires
        0 <= i < events.len(),
    ensures
        phase_after(phase, events.take(i + 1)) == next(
            phase_after(phase, events.take(i)),
            events[i],
        ).0,
{
    let prefix = events.take(i + 1);
    assert(prefix.drop_last() =~= events.take(i));
    assert(prefix.last() == events[i]);
}

/// A terminated program stays terminated: once the phase is `Terminated`
/// after the first `i` events, it is `Terminated` after any longer prefix.
pub proof fn lemma_terminated_stays(phase: Phase, events: Seq<Event>, i: int, j: int)
    requires
        0 <= i <= j <= events.len(),
        phase_after(phase, events.take(i)) == Phase::Terminated,
    ensures
        phase_after(phase, events.take(j)) == Phase::Terminated,
    decreases j - i,
{
    if i < j {
        lemma_terminated_stays(phase, events, i, j - 1);
        lemma_phase_unfolds(phase, events, j - 1);
    }
}

/// An exit is only ever signalled by an exit request of the window that is
/// being drawn into.
pub proof fn lemma_exit_only_on_request(phase: Phase, event: Event)
    requires
        next(phase, event).1 == Action::Exit,
    ensures
        next(phase, event).0 == Phase::Terminated,
        exists|window: u64, inner: WindowEvent|
            phase == (Phase::Running { window }) && event == (Event::Window {
                window,
                event: inner,
            }) && is_exit_request(inner),
{
    match (phase, event) {
        (Phase::Running { window: current }, Event::Window { window, event: inner }) => {
            assert(window == current);
            assert(phase == (Phase::Running { window }) && event == (Event::Window {
                window,
                event: inner,
            }) && is_exit_request(inner));
        },
        _ => {},
    }
}

/// No frame after exit: in any run of events, once an event has called for
/// `Exit`, every later event is ignored. In particular no later redraw
/// request is answered with `Render`.
pub proof fn lemma_nothing_after_exit(phase: Phase, events: Seq<Event>, i: int, j: int)
    requires
        0 <= i < j < events.len(),
        action_at(phase, events, i) == Action::Exit,
    ensures
        phase_after(phase, events.take(j)) == Phase::Terminated,
        action_at(phase, events, j) == Action::Ignore,
        action_at(phase, events, j) != Action::Render,
{
    lemma_phase_unfolds(phase, events, i);
    lemma_terminated_stays(phase, events, i + 1, j);
}

/// A close request or a press of the exit key, arriving for the window of a
/// running program, ends it: the event calls for `Exit`, and every event
/// after it is ignored.
pub proof fn lemma_exit_request_ends_run(
    phase: Phase,
    events: Seq<Event>,
    i: int,
    window: u64,
    request: WindowEvent,
)
    requires
        0 <= i < events.len(),
        phase_after(phase, events.take(i)) == (Phase::Running { window }),
        events[i] == (Event::Window { window, event: request }),
        is_exit_request(request),
    ensures
        action_at(phase, events, i) == Action::Exit,
        phase_after(phase, events) == Phase::Terminated,
        forall|j: int|
            i < j < events.len() ==> #[trigger] action_at(phase, events, j) == Action::Ignore,
{
    assert forall|j: int| i < j < events.len() implies #[trigger] action_at(phase, events, j)
        == Action::Ignore by {
        lemma_nothing_after_exit(phase, events, i, j);
    }
    lemma_phase_unfolds(phase, events, i);
    lemma_terminated_stays(phase, events, i + 1, events.len() as int);
    assert(events.take(events.len() as int) =~= events);
}

/// A running program was initialized: where the phase after the first `j`
/// events of a fresh program is `Running` for a window, an earlier event
/// called for the initialization of that window.
pub proof fn lemma_running_was_initialized(events: Seq<Event>, j: int, window: u64)
    requires
        0 <= j <= events.len(),
        phase_after(Phase::Uninitialized, events.take(j)) == (Phase::Running { window }),
    ensures
        exists|i: int|
            0 <= i < j && #[trigger] action_at(Phase::Uninitialized, events, i) == (
                Action::Initialize { window }
            ),
    decreases j,
{
    if j == 0 {
        assert(events.take(0).len() == 0);
    } else {
        lemma_phase_unfolds(Phase::Uninitialized, events, j - 1);
        let before = phase_after(Phase::Uninitialized, events.take(j - 1));
        if action_at(Phase::Uninitialized, events, j - 1) == (Action::Initialize { window }) {
        } else {
            assert(before == (Phase::Running { window }));
            lemma_running_was_initialized(events, j - 1, window);
        }
    }
}

/// No frame before initialization: in any run of a fresh program, an event
/// that is answered with `Render` comes after one that called for
/// initialization.
pub proof fn lemma_render_follows_initialize(events: Seq<Event>, j: int)
    requires
        0 <= j < events.len(),
        action_at(Phase::Uninitialized, events, j) == Action::Render,
    ensures
        exists|i: int|
            0 <= i < j && #[trigger] action_at(Phase::Uninitialized, events, i) is Initialize,
{
    let before = phase_after(Phase::Uninitialized, events.take(j));
    match before {
        Phase::Running { window } => {
            lemma_running_was_initialized(events, j, window);
        },
        _ => {},
    }
}

/// While the program runs, every redraw request of its window draws a frame
/// and every pause of the loop asks for the next one.
pub proof fn lemma_running_keeps_drawing(window: u64)
    ensures
        next(
            Phase::Running { window },
            Event::Window { window, event: WindowEvent::RedrawRequested },
        ) == (Phase::Running { window }, Action::Render),
        next(Phase::Running { window }, Event::AboutToWait) == (
            Phase::Running { window },
            Action::RequestRedraw,
        ),
{
}

} // verus!
