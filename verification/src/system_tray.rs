use vstd::prelude::*;

verus! {

/// What the user asks for through the system tray.
#[derive(Clone, Copy, Debug, PartialEq, Eq, Structural)]
pub enum SystemTrayEvent {
    Quit,
}

/// The character's entry in the system tray.
#[derive(Clone, Copy, Debug, PartialEq, Eq, Structural)]
pub struct SystemTray;

impl SystemTray {
    pub fn new() -> (tray: SystemTray)
        ensures
            tray == SystemTray,
    {
        SystemTray
    }

    /// Takes the handler for the tray's events. The tray raises none, so the
    /// handler is dropped without a call.
    pub fn on<F>(&self, event_handler: F) where F: FnOnce(SystemTrayEvent) {
    }
}

} // verus!
