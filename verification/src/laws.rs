//! What holds of the controller in every state and for every event.

use crate::lifecycle::{
    transition, Action, Event, MouseButton, Transition, TrayIconEvent, WindowLookup,
    WindowVisibilityState,
};
use crate::menu::{ids_are_distinct, TrayMenuItem};
use vstd::prelude::*;

verus! {

/// The visibility that an event asks for: visible for the show item and for
/// a left click on the tray icon, hidden for the hide item and for a close
/// request. Other events ask for none.
pub open spec fn requested_visibility(event: Event) -> Option<WindowVisibilityState> {
    match event {
        Event::TrayMenuSelect { item_id, .. } => match TrayMenuItem::of_id(item_id) {
            Some(TrayMenuItem::Show) => Some(WindowVisibilityState::Visible),
            Some(TrayMenuItem::Hide) => Some(WindowVisibilityState::Hidden),
            _ => None,
        },
        Event::TrayIcon { event, .. } => if event == (TrayIconEvent::Click {
            button: MouseButton::Left,
        }) {
            Some(WindowVisibilityState::Visible)
        } else {
            None
        },
        Event::WindowCloseRequested => Some(WindowVisibilityState::Hidden),
    }
}

/// Whether the main window was at hand when the event arrived.
pub open spec fn window_at_hand(event: Event) -> bool {
    match event {
        Event::TrayMenuSelect { window, .. } => window is Found,
        Event::TrayIcon { window, .. } => window is Found,
        Event::WindowCloseRequested => true,
    }
}

/// Whether the event is the selection of the quit item.
pub open spec fn is_quit(event: Event) -> bool {
    event matches Event::TrayMenuSelect { item_id, .. } && item_id == TrayMenuItem::Quit.id_text()
}

/// The visibility after the events of `events` have been handled in order,
/// starting from `start`.
pub open spec fn visibility_after(
    start: WindowVisibilityState,
    events: Seq<Event>,
) -> WindowVisibilityState
    decreases events.len(),
{
    if events.len() == 0 {
        start
    } else {
        transition(visibility_after(start, events.drop_last()), events.last()).state
    }
}

/// A show or hide request that finds the window decides the visibility alone:
/// the outcome is the same from every earlier state, and the same again when
/// the request is repeated.
pub proof fn request_decides_visibility(
    before: WindowVisibilityState,
    other: WindowVisibilityState,
    event: Event,
    target: WindowVisibilityState,
)
    requires
        requested_visibility(event) == Some(target),
        window_at_hand(event),
    ensures
        transition(before, event).state == target,
        transition(other, event) == transition(before, event),
        transition(transition(before, event).state, event) == transition(before, event),
{
}

/// After any run of events whose last one is a show or hide request that
/// finds the window, the visibility is the one that the last event asks for,
/// whatever the starting state and the events before it.
pub proof fn last_request_decides_visibility(
    start: WindowVisibilityState,
    events: Seq<Event>,
    target: WindowVisibilityState,
)
    requires
        events.len() > 0,
        requested_visibility(events.last()) == Some(target),
        window_at_hand(events.last()),
    ensures
        visibility_after(start, events) == target,
{
    request_decides_visibility(
        visibility_after(start, events.drop_last()),
        start,
        events.last(),
        target,
    );
}

/// Handling the same event a second time gives the same outcome as the first
/// time.
pub proof fn repeated_event_changes_nothing(state: WindowVisibilityState, event: Event)
    ensures
        transition(transition(state, event).state, event) == transition(state, event),
{
}

/// A close request never ends the process: in every state it is answered by
/// preventing the close and hiding the window.
pub proof fn close_request_keeps_running(state: WindowVisibilityState)
    ensures
        transition(state, Event::WindowCloseRequested).state == WindowVisibilityState::Hidden,
        transition(state, Event::WindowCloseRequested).action == Action::PreventCloseAndHide,
        !transition(state, Event::WindowCloseRequested).action.ends_process(),
{
}

/// Selecting the quit item ends the process with exit code 0, in every state
/// and whether or not the window was found.
pub proof fn quit_always_exits(state: WindowVisibilityState, event: Event)
    requires
        is_quit(event),
    ensures
        transition(state, event).action == (Action::Exit { code: 0 }),
        transition(state, event).action.ends_process(),
{
    ids_are_distinct();
}

/// The process ends on the selection of the quit item and on no other event.
pub proof fn only_quit_exits(state: WindowVisibilityState, event: Event)
    ensures
        transition(state, event).action.ends_process() <==> is_quit(event),
{
    ids_are_distinct();
}

/// A left click on the tray icon has the outcome of selecting the show item:
/// the same state and the same action. Where the window was found, that is
/// a visible window, shown and focused.
pub proof fn left_click_acts_as_show(state: WindowVisibilityState, window: WindowLookup)
    ensures
        transition(
            state,
            Event::TrayIcon { event: TrayIconEvent::Click { button: MouseButton::Left }, window },
        ) == transition(
            state,
            Event::TrayMenuSelect { item_id: TrayMenuItem::Show.id_text(), window },
        ),
        window is Found ==> transition(
            state,
            Event::TrayIcon { event: TrayIconEvent::Click { button: MouseButton::Left }, window },
        ) == (Transition {
            state: WindowVisibilityState::Visible,
            action: Action::ShowAndFocus,
        }),
{
}

/// An event that does not find the window, other than the selection of the
/// quit item, changes nothing and asks nothing of the host.
pub proof fn missing_window_changes_nothing(state: WindowVisibilityState, event: Event)
    requires
        !window_at_hand(event),
        !is_quit(event),
    ensures
        transition(state, event) == (Transition { state, action: Action::Ignore }),
{
    ids_are_distinct();
}

/// The state that the controller records is the state in which the action
/// leaves the window.
pub proof fn state_follows_action(state: WindowVisibilityState, event: Event)
    ensures
        transition(state, event).state == transition(state, event).action.applied_to(state),
{
}

} // verus!
