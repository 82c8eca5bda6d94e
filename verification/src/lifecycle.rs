//! The controller of the main window's visibility.
//!
//! Three kinds of event reach the controller: a selection in the tray menu, a
//! mouse event on the tray icon, and a request to close the main window. For
//! each the controller decides what the window's visibility becomes and which
//! [`Action`] the host has to carry out. The window is never closed: a close
//! request hides it, and only the tray menu's quit item ends the process.

use crate::menu::{ids_are_distinct, TrayMenuItem};
use vstd::prelude::*;

verus! {

/// Whether the main window is on screen.
#[derive(Clone, Copy, Debug, PartialEq, Eq, Structural)]
pub enum WindowVisibilityState {
    Visible,
    Hidden,
}

/// What the host found when it looked up the main window for an event.
#[derive(Clone, Copy, Debug, PartialEq, Eq, Structural)]
pub enum WindowLookup {
    /// The host holds a handle to the main window.
    Found,
    /// The main window does not exist, or no longer.
    Missing,
}

/// The mouse button of a tray icon event.
#[derive(Clone, Copy, Debug, PartialEq, Eq, Structural)]
pub enum MouseButton {
    Left,
    Right,
    Middle,
}

/// A mouse event on the tray icon, reduced to what the controller reads.
#[derive(Clone, Copy, Debug, PartialEq, Eq, Structural)]
pub enum TrayIconEvent {
    Click { button: MouseButton },
    DoubleClick { button: MouseButton },
    Enter,
    Move,
    Leave,
}

/// What the host has to do after an event.
#[derive(Clone, Copy, Debug, PartialEq, Eq, Structural)]
pub enum Action {
    /// Nothing.
    Ignore,
    /// Make the main window visible, then give it input focus.
    ShowAndFocus,
    /// Hide the main window; focus is left alone.
    Hide,
    /// Keep the window from being closed, then hide it.
    PreventCloseAndHide,
    /// End the process at once with this exit code.
    Exit { code: i32 },
}

/// The code with which the process ends when the user quits.
pub const QUIT_EXIT_CODE: i32 = 0;

/// The label under which the host knows the main window. The lookup whose
/// result the handlers take is the lookup of this label.
pub const MAIN_WINDOW_LABEL: &'static str = "main";

/// The outcome of one event: the visibility from then on, and the action.
pub struct Transition {
    pub state: WindowVisibilityState,
    pub action: Action,
}

/// An event together with the result of the window lookup made for it. A
/// close request comes from the window itself, so no lookup belongs to it.
/// Contracts and laws speak of events through this type.
pub enum Event {
    TrayMenuSelect { item_id: Seq<char>, window: WindowLookup },
    TrayIcon { event: TrayIconEvent, window: WindowLookup },
    WindowCloseRequested,
}

impl Action {
    /// Whether carrying out the action ends the process.
    pub open spec fn ends_process(self) -> bool {
        self is Exit
    }

    /// The visibility of a window in state `before` once the host has
    /// carried out the action.
    pub open spec fn applied_to(self, before: WindowVisibilityState) -> WindowVisibilityState {
        match self {
            Action::ShowAndFocus => WindowVisibilityState::Visible,
            Action::Hide | Action::PreventCloseAndHide => WindowVisibilityState::Hidden,
            Action::Ignore | Action::Exit { .. } => before,
        }
    }
}

/// A request to show the window: carried out if the window was found, and
/// without any effect otherwise.
pub open spec fn show_request(state: WindowVisibilityState, window: WindowLookup) -> Transition {
    match window {
        WindowLookup::Found => Transition {
            state: WindowVisibilityState::Visible,
            action: Action::ShowAndFocus,
        },
        WindowLookup::Missing => Transition { state, action: Action::Ignore },
    }
}

/// A request to hide the window: carried out if the window was found, and
/// without any effect otherwise.
pub open spec fn hide_request(state: WindowVisibilityState, window: WindowLookup) -> Transition {
    match window {
        WindowLookup::Found => Transition {
            state: WindowVisibilityState::Hidden,
            action: Action::Hide,
        },
        WindowLookup::Missing => Transition { state, action: Action::Ignore },
    }
}

/// The outcome of a selection in the tray menu. Quit ends the process
/// whatever the window's state; show and hide are requests on the window; an
/// identifier that names no item changes nothing.
pub open spec fn after_tray_menu_select(
    state: WindowVisibilityState,
    item_id: Seq<char>,
    window: WindowLookup,
) -> Transition {
    match TrayMenuItem::of_id(item_id) {
        Some(TrayMenuItem::Quit) => Transition {
            state,
            action: Action::Exit { code: QUIT_EXIT_CODE },
        },
        Some(TrayMenuItem::Show) => show_request(state, window),
        Some(TrayMenuItem::Hide) => hide_request(state, window),
        None => Transition { state, action: Action::Ignore },
    }
}

/// The outcome of a mouse event on the tray icon. A click with the left
/// button is a request to show the window; every other event changes nothing.
pub open spec fn after_tray_icon_event(
    state: WindowVisibilityState,
    event: TrayIconEvent,
    window: WindowLookup,
) -> Transition {
    if event == (TrayIconEvent::Click { button: MouseButton::Left }) {
        show_request(state, window)
    } else {
        Transition { state, action: Action::Ignore }
    }
}

/// The outcome of a request to close the main window: the close is
/// prevented and the window hidden.
pub open spec fn after_window_close_requested(state: WindowVisibilityState) -> Transition {
    Transition { state: WindowVisibilityState::Hidden, action: Action::PreventCloseAndHide }
}

/// The outcome of any event.
pub open spec fn transition(state: WindowVisibilityState, event: Event) -> Transition {
    match event {
        Event::TrayMenuSelect { item_id, window } => after_tray_menu_select(state, item_id, window),
        Event::TrayIcon { event, window } => after_tray_icon_event(state, event, window),
        Event::WindowCloseRequested => after_window_close_requested(state),
    }
}

/// Tracks the visibility of the main window across events.
#[derive(Debug)]
pub struct LifecycleController {
    state: WindowVisibilityState,
}

impl View for LifecycleController {
    type V = WindowVisibilityState;

    closed spec fn view(&self) -> WindowVisibilityState {
        self.state
    }
}

impl LifecycleController {
    /// A controller for a freshly started application: the window is visible.
    pub fn new() -> (controller: LifecycleController)
        ensures
            controller@ == WindowVisibilityState::Visible,
    {
        LifecycleController { state: WindowVisibilityState::Visible }
    }

    /// The visibility of the main window as of the last event.
    pub fn visibility(&self) -> (state: WindowVisibilityState)
        ensures
            state == self@,
    {
        self.state
    }

    /// Handles the selection of the tray menu item with identifier `item_id`.
    /// `window` is the result of looking up the main window. The quit item
    /// asks for an exit with code 0 whatever the state and the lookup; no
    /// other identifier asks for an exit.
    pub fn on_tray_menu_select(&mut self, item_id: &str, window: WindowLookup) -> (action: Action)
        ensures
            final(self)@ == after_tray_menu_select(old(self)@, item_id@, window).state,
            action == after_tray_menu_select(old(self)@, item_id@, window).action,
            item_id@ == TrayMenuItem::Quit.id_text() ==> action == (Action::Exit { code: 0 }),
            action.ends_process() <==> item_id@ == TrayMenuItem::Quit.id_text(),
    {
        proof {
            ids_are_distinct();
        }
        match TrayMenuItem::from_id(item_id) {
            Some(TrayMenuItem::Quit) => Action::Exit { code: QUIT_EXIT_CODE },
            Some(TrayMenuItem::Show) => self.request_show(window),
            Some(TrayMenuItem::Hide) => self.request_hide(window),
            None => Action::Ignore,
        }
    }

    /// Handles a mouse event on the tray icon. `window` is the result of
    /// looking up the main window. No tray icon event ends the process.
    pub fn on_tray_icon_event(
        &mut self,
        event: TrayIconEvent,
        window: WindowLookup,
    ) -> (action: Action)
        ensures
            final(self)@ == after_tray_icon_event(old(self)@, event, window).state,
            action == after_tray_icon_event(old(self)@, event, window).action,
            !action.ends_process(),
    {
        match event {
            TrayIconEvent::Click { button: MouseButton::Left } => self.request_show(window),
            _ => Action::Ignore,
        }
    }

    /// Handles a request to close the main window. The window is hidden and
    /// the process keeps running, whatever the state before.
    pub fn on_window_close_requested(&mut self) -> (action: Action)
        ensures
            final(self)@ == after_window_close_requested(old(self)@).state,
            action == after_window_close_requested(old(self)@).action,
            final(self)@ == WindowVisibilityState::Hidden,
            !action.ends_process(),
    {
        self.state = WindowVisibilityState::Hidden;
        Action::PreventCloseAndHide
    }

    fn request_show(&mut self, window: WindowLookup) -> (action: Action)
        ensures
            final(self)@ == show_request(old(self)@, window).state,
            action == show_request(old(self)@, window).action,
    {
        match window {
            WindowLookup::Found => {
                self.state = WindowVisibilityState::Visible;
                Action::ShowAndFocus
            },
            WindowLookup::Missing => Action::Ignore,
        }
    }

    fn request_hide(&mut self, window: WindowLookup) -> (action: Action)
        ensures
            final(self)@ == hide_request(old(self)@, window).state,
            action == hide_request(old(self)@, window).action,
    {
        match window {
            WindowLookup::Found => {
                self.state = WindowVisibilityState::Hidden;
                Action::Hide
            },
            WindowLookup::Missing => Action::Ignore,
        }
    }
}

} // verus!
