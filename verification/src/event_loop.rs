//! The window event loop as an explicit two-state machine.

use vstd::prelude::*;

verus! {

/// Pump state of the window event loop.
#[derive(Clone, Copy, Debug, PartialEq, Eq, Structural)]
pub enum LoopState {
    /// Events are being dispatched.
    Running,
    /// A close request was seen; no event changes the state any more.
    Terminated,
}

/// Kinds of event that concern one window.
#[derive(Clone, Copy, Debug, PartialEq, Eq, Structural)]
pub enum WindowEvent {
    Resized,
    Moved,
    CloseRequested,
    Destroyed,
    DroppedFile,
    HoveredFile,
    HoveredFileCancelled,
    ReceivedCharacter,
    Focused,
    KeyboardInput,
    ModifiersChanged,
    CursorMoved,
    CursorEntered,
    CursorLeft,
    MouseWheel,
    MouseInput,
    TouchpadPressure,
    AxisMotion,
    Touch,
    ScaleFactorChanged,
    ThemeChanged,
}

/// Kinds of event that the event source hands to the loop.
#[derive(Clone, Copy, Debug, PartialEq, Eq, Structural)]
pub enum Event {
    NewEvents,
    WindowEvent(WindowEvent),
    DeviceEvent,
    UserEvent,
    Suspended,
    Resumed,
    MainEventsCleared,
    RedrawRequested,
    RedrawEventsCleared,
    LoopDestroyed,
}

/// What the driver of the loop does after an event was handled.
#[derive(Clone, Copy, Debug, PartialEq, Eq, Structural)]
pub enum LoopAction {
    /// Keep pumping events.
    Continue,
    /// Stop the loop.
    Exit,
}

/// Whether `event` asks for the window to be closed.
pub open spec fn is_close_request(event: Event) -> bool {
    event == Event::WindowEvent(WindowEvent::CloseRequested)
}

/// The state after `event` was handled in `state`.
pub open spec fn next_state(state: LoopState, event: Event) -> LoopState {
    if state == LoopState::Running && !is_close_request(event) {
        LoopState::Running
    } else {
        LoopState::Terminated
    }
}

/// The state after every event of `events` was handled in order, starting in `state`.
pub open spec fn run_from(state: LoopState, events: Seq<Event>) -> LoopState
    decreases events.len(),
{
    if events.len() == 0 {
        state
    } else {
        next_state(run_from(state, events.drop_last()), events.last())
    }
}

/// Whether `i` is the position of the first close request in `events`.
pub open spec fn is_first_close(events: Seq<Event>, i: int) -> bool {
    &&& 0 <= i < events.len()
    &&& is_close_request(events[i])
    &&& forall|j: int| 0 <= j < i ==> !is_close_request(#[trigger] events[j])
}

/// Handles one event: a close request ends a running loop, every other event
/// leaves the state as it is, and a terminated loop stays terminated.
pub fn handle_event(state: LoopState, event: Event) -> (r: (LoopState, LoopAction))
    ensures
        r.0 == next_state(state, event),
        r.1 == LoopAction::Exit <==> r.0 == LoopState::Terminated,
        r.1 == LoopAction::Continue <==> r.0 == LoopState::Running,
{
    match state {
        LoopState::Terminated => (LoopState::Terminated, LoopAction::Exit),
        LoopState::Running => match event {
            Event::WindowEvent(WindowEvent::CloseRequested) => (
                LoopState::Terminated,
                LoopAction::Exit,
            ),
            _ => (LoopState::Running, LoopAction::Continue),
        },
    }
}

/// Handles `events` in order, starting in `state`, and gives the state that
/// the loop is left in.
pub fn dispatch_all(state: LoopState, events: &Vec<Event>) -> (r: LoopState)
    ensures
        r == run_from(state, events@),
{
    let mut current = state;
    let mut i: usize = 0;
    while i < events.len()
        invariant
            i <= events.len(),
            current == run_from(state, events@.take(i as int)),
        decreases events.len() - i,
    {
        assert(events@.take(i + 1).drop_last() == events@.take(i as int));
        let (next, _) = handle_event(current, events[i]);
        current = next;
        i += 1;
    }
    assert(events@.take(events@.len() as int) == events@);
    current
}

/// A loop that has terminated stays terminated, whatever events follow.
pub proof fn lemma_terminated_is_final(events: Seq<Event>)
    ensures
        run_from(LoopState::Terminated, events) == LoopState::Terminated,
    decreases events.len(),
{
    if events.len() > 0 {
        lemma_terminated_is_final(events.drop_last());
    }
}

/// A loop that starts running is still running after `events` exactly when none
/// of them is a close request.
pub proof fn lemma_running_until_close(events: Seq<Event>)
    ensures
        run_from(LoopState::Running, events) == LoopState::Running <==> forall|i: int|
            0 <= i < events.len() ==> !is_close_request(#[trigger] events[i]),
    decreases events.len(),
{
    if events.len() > 0 {
        let front = events.drop_last();
        lemma_running_until_close(front);
        if run_from(LoopState::Running, events) == LoopState::Running {
            assert forall|i: int| 0 <= i < events.len() implies !is_close_request(
                #[trigger] events[i],
            ) by {
                if i < front.len() {
                    assert(front[i] == events[i]);
                }
            }
        } else if run_from(LoopState::Running, front) == LoopState::Running {
            assert(is_close_request(events[events.len() - 1]));
        } else {
            let i = choose|i: int| 0 <= i < front.len() && is_close_request(#[trigger] front[i]);
            assert(is_close_request(events[i]));
        }
    }
}

/// The loop goes from running to terminated exactly once: with the first close
/// request. Up to that event it is running, from it on it is terminated.
pub proof fn lemma_terminates_exactly_once(events: Seq<Event>, first: int)
    requires
        is_first_close(events, first),
    ensures
        forall|k: int|
            0 <= k <= first ==> run_from(LoopState::Running, #[trigger] events.take(k))
                == LoopState::Running,
        forall|k: int|
            first < k <= events.len() ==> run_from(LoopState::Running, #[trigger] events.take(k))
                == LoopState::Terminated,
{
    assert forall|k: int| 0 <= k <= first implies run_from(
        LoopState::Running,
        #[trigger] events.take(k),
    ) == LoopState::Running by {
        lemma_running_until_close(events.take(k));
    }
    assert forall|k: int| first < k <= events.len() implies run_from(
        LoopState::Running,
        #[trigger] events.take(k),
    ) == LoopState::Terminated by {
        lemma_running_until_close(events.take(k));
        assert(events.take(k)[first] == events[first]);
    }
}

} // verus!
