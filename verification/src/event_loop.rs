//! What the host's event loop hands to the program, and the rules by which it
//! is made from what the window system reports.

pub mod time;

use crate::stage::ViewportPoint;
use vstd::prelude::*;

pub use time::Time;

verus! {

/// What the event loop tells the program.
#[derive(Clone, Copy, Debug, PartialEq, Eq, Structural)]
pub enum Event {
    Initialization,
    MouseMove(ViewportPoint),
    MouseDown(ViewportPoint),
    Update { delta_t_ms: u32 },
    Resized { width: u32, height: u32 },
    Exit,
}

/// The mouse as one poll finds it: the pointer's place in whole pixels, and
/// for each button whether it is down. Buttons count from 1, so the first
/// entry stands for none.
#[derive(Debug)]
pub struct MouseReading {
    pub x: i32,
    pub y: i32,
    pub button_pressed: Vec<bool>,
}

/// What the window system reports to the event loop.
#[derive(Debug)]
pub enum HostEvent {
    /// A round of polling: whether the escape key is down, and the mouse.
    Poll { escape_pressed: bool, mouse: MouseReading },
    /// The program may set up its windows.
    Resumed,
    /// The window has a new size.
    Resized { width: u32, height: u32 },
    /// The window is to be drawn again, so long after the last time.
    RedrawRequested { delta_t_ms: u32 },
    /// The user asked for the window to close.
    CloseRequested,
    /// The user asked through the system tray to quit.
    TrayQuit,
    /// Anything else.
    Other,
}

/// What the event loop does about one report: the events for the program, in
/// order, and whether the loop is told to end.
#[derive(Debug)]
pub struct Dispatch {
    pub events: Vec<Event>,
    pub exit: bool,
}

/// What the event loop remembers from one report to the next.
#[derive(Debug)]
pub struct EventLoopState {
    prev_mouse_state: MouseReading,
    has_exited: bool,
}

/// Whether two readings of the mouse say the same.
pub open spec fn same_reading(a: MouseReading, b: MouseReading) -> bool {
    a.x == b.x && a.y == b.y && a.button_pressed@ == b.button_pressed@
}

/// Whether the left button is down: button 1, where there is one.
pub open spec fn left_button_down(mouse: MouseReading) -> bool {
    mouse.button_pressed@.len() > 1 && mouse.button_pressed@[1]
}

/// Where the pointer is.
pub open spec fn pointer(mouse: MouseReading) -> ViewportPoint {
    ViewportPoint::at_pixel(mouse.x, mouse.y)
}

/// Whether `event` asks for the loop to end.
pub open spec fn asks_to_exit(event: HostEvent) -> bool {
    match event {
        HostEvent::Poll { escape_pressed, .. } => escape_pressed,
        HostEvent::CloseRequested => true,
        HostEvent::TrayQuit => true,
        _ => false,
    }
}

/// The events by which the program hears of the end: `Exit`, once.
pub open spec fn exit_events(has_exited: bool) -> Seq<Event> {
    if has_exited {
        seq![]
    } else {
        seq![Event::Exit]
    }
}

/// The events by which the program hears of the mouse: none while the reading
/// stays the same; else that it moved and, with the left button down, that it
/// is down.
pub open spec fn mouse_events(prev: MouseReading, mouse: MouseReading) -> Seq<Event> {
    if same_reading(mouse, prev) {
        seq![]
    } else if left_button_down(mouse) {
        seq![Event::MouseMove(pointer(mouse)), Event::MouseDown(pointer(mouse))]
    } else {
        seq![Event::MouseMove(pointer(mouse))]
    }
}

/// Whether `a` and `b` hold the same.
fn same_buttons(a: &Vec<bool>, b: &Vec<bool>) -> (same: bool)
    ensures
        same == (a@ == b@),
{
    if a.len() != b.len() {
        return false;
    }
    let mut i: usize = 0;
    while i < a.len()
        invariant
            a@.len() == b@.len(),
            i <= a@.len(),
            forall|j: int| 0 <= j < i ==> a@[j] == b@[j],
        decreases a@.len() - i,
    {
        if a[i] != b[i] {
            return false;
        }
        i += 1;
    }
    assert(a@ =~= b@);
    true
}

impl EventLoopState {
    /// The mouse as the last poll found it.
    pub closed spec fn prev_mouse_state(&self) -> MouseReading {
        self.prev_mouse_state
    }

    /// Whether the program has been told of the end.
    pub closed spec fn spec_has_exited(&self) -> bool {
        self.has_exited
    }

    /// The events that `event` gives rise to, in order.
    pub open spec fn events_for(&self, event: HostEvent) -> Seq<Event> {
        match event {
            HostEvent::Poll { escape_pressed, mouse } => (if escape_pressed {
                exit_events(self.spec_has_exited())
            } else {
                seq![]
            }) + mouse_events(self.prev_mouse_state(), mouse),
            HostEvent::Resumed => seq![Event::Initialization],
            HostEvent::Resized { width, height } => if width != 0 && height != 0 {
                seq![Event::Resized { width, height }]
            } else {
                seq![]
            },
            HostEvent::RedrawRequested { delta_t_ms } => seq![Event::Update { delta_t_ms }],
            HostEvent::CloseRequested => exit_events(self.spec_has_exited()),
            HostEvent::TrayQuit => exit_events(self.spec_has_exited()),
            HostEvent::Other => seq![],
        }
    }

    /// The state in which nothing has happened yet: the pointer at the
    /// origin, no buttons, no end.
    pub fn new() -> (state: EventLoopState)
        ensures
            state.prev_mouse_state().x == 0,
            state.prev_mouse_state().y == 0,
            state.prev_mouse_state().button_pressed@ == Seq::<bool>::empty(),
            !state.spec_has_exited(),
    {
        EventLoopState {
            prev_mouse_state: MouseReading { x: 0, y: 0, button_pressed: Vec::new() },
            has_exited: false,
        }
    }

    /// Whether the program has been told of the end.
    #[verifier::when_used_as_spec(spec_has_exited)]
    pub fn has_exited(&self) -> (has_exited: bool)
        ensures
            has_exited == self.spec_has_exited(),
    {
        self.has_exited
    }

    /// Takes one report of the window system and says what to do about it.
    ///
    /// The program is told of the end once, however many reports ask for it;
    /// the loop is told to end at each of them. A poll reports the mouse where
    /// its reading differs from the last one. A window without width or
    /// height is not reported.
    pub fn handle(&mut self, event: HostEvent) -> (dispatch: Dispatch)
        ensures
            dispatch.events@ == old(self).events_for(event),
            dispatch.exit == asks_to_exit(event),
            final(self).spec_has_exited() == (old(self).spec_has_exited() || asks_to_exit(event)),
            final(self).prev_mouse_state() == match event {
                HostEvent::Poll { mouse, .. } if !same_reading(mouse, old(self).prev_mouse_state()) => mouse,
                _ => old(self).prev_mouse_state(),
            },
    {
        let mut events: Vec<Event> = Vec::new();
        let mut exit = false;
        match event {
            HostEvent::Poll { escape_pressed, mouse } => {
                if escape_pressed {
                    exit = true;
                    if !self.has_exited {
                        events.push(Event::Exit);
                        self.has_exited = true;
                    }
                }
                let changed = mouse.x != self.prev_mouse_state.x || mouse.y
                    != self.prev_mouse_state.y || !same_buttons(
                    &mouse.button_pressed,
                    &self.prev_mouse_state.button_pressed,
                );
                if changed {
                    let point = ViewportPoint::from_pixels(mouse.x, mouse.y);
                    events.push(Event::MouseMove(point));
                    let lmb = mouse.button_pressed.len() > 1 && mouse.button_pressed[1];
                    if lmb {
                        events.push(Event::MouseDown(point));
                    }
                    self.prev_mouse_state = mouse;
                }
            },
            HostEvent::Resumed => {
                events.push(Event::Initialization);
            },
            HostEvent::Resized { width, height } => {
                if width != 0 && height != 0 {
                    events.push(Event::Resized { width, height });
                }
            },
            HostEvent::RedrawRequested { delta_t_ms } => {
                events.push(Event::Update { delta_t_ms });
            },
            HostEvent::CloseRequested | HostEvent::TrayQuit => {
                exit = true;
                if !self.has_exited {
                    events.push(Event::Exit);
                    self.has_exited = true;
                }
            },
            HostEvent::Other => {},
        }
        Dispatch { events, exit }
    }
}

/// Once the program has been told of the end, it is not told again, whatever
/// is reported.
pub proof fn lemma_exit_is_told_once(state: EventLoopState, event: HostEvent)
    requires
        state.spec_has_exited(),
    ensures
        !state.events_for(event).contains(Event::Exit),
{
    let events = state.events_for(event);
    assert forall|i: int| 0 <= i < events.len() implies events[i] != Event::Exit by {}
}

} // verus!
