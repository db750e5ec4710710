//! The tray menu's decisions.

use vstd::prelude::*;

verus! {

/// What the background process does for an entry of the tray menu.
#[derive(Debug, Clone, Copy, PartialEq, Eq, Structural)]
pub enum AppEvent {
    /// Start the window as a process of its own.
    OpenGui,
    /// Leave.
    Quit,
}

/// The event for a menu entry, by the entry's id: Open, Quit, or none for
/// any other entry. Open wins where both entries have the same id.
pub open spec fn event_for(clicked: Seq<char>, open_id: Seq<char>, quit_id: Seq<char>) -> Option<
    AppEvent,
> {
    if clicked == open_id {
        Some(AppEvent::OpenGui)
    } else if clicked == quit_id {
        Some(AppEvent::Quit)
    } else {
        None
    }
}

/// The event for the menu entry that was clicked.
pub fn menu_event(clicked: &String, open_id: &String, quit_id: &String) -> (event: Option<AppEvent>)
    ensures
        event == event_for(clicked@, open_id@, quit_id@),
{
    if *clicked == *open_id {
        Some(AppEvent::OpenGui)
    } else if *clicked == *quit_id {
        Some(AppEvent::Quit)
    } else {
        None
    }
}

} // verus!
