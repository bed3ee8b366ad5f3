//! Input events and the control-plane requests built from them.
//!
//! An `Event` is the unit the wrapper intercepts: keyboard and pointer input,
//! plus a screenshot marker. Each input payload carries `from_command`, the
//! origin flag: `true` means the event was injected by the replay mechanism
//! (synthetic) rather than produced by a real input device. `WidgetEvent`
//! pairs an event with the selector of the element it occurred on and the
//! window it occurred in; it is the unit recorded and transmitted.
//!
//! The free functions at the bottom build the control-plane request for each
//! client operation; the transport that carries a `ControlRequest` to the
//! store lives outside this crate.

use vstd::prelude::*;

use crate::element::Element;

verus! {

/// A keyboard input payload: key code, active modifiers, origin flag.
#[derive(Clone, Copy, Debug, PartialEq, Eq, Structural)]
pub struct KeyEvent {
    pub key: u32,
    pub mods: u32,
    pub from_command: bool,
}

/// A pointer input payload: position, button, wheel delta, origin flag.
#[derive(Clone, Copy, Debug, PartialEq, Eq, Structural)]
pub struct MouseEvent {
    pub pos: crate::element::Point,
    pub button: u8,
    pub wheel_delta: crate::element::Point,
    pub from_command: bool,
}

/// A request that the store capture a screenshot keyed to a selector's
/// current geometry; the store resolves the coordinates, not the harness.
#[derive(Debug, PartialEq)]
pub struct ScreenshotEvent {
    pub selector: String,
}

impl Clone for ScreenshotEvent {
    fn clone(&self) -> (r: ScreenshotEvent)
        ensures
            r == *self,
    {
        ScreenshotEvent { selector: self.selector.clone() }
    }
}

/// The tagged union of everything the harness can capture or replay.
#[derive(Debug, PartialEq)]
pub enum Event {
    KeyDown(KeyEvent),
    KeyUp(KeyEvent),
    Wheel(MouseEvent),
    MouseDown(MouseEvent),
    MouseUp(MouseEvent),
    MouseMove(MouseEvent),
    Screenshot(ScreenshotEvent),
}

impl Clone for Event {
    fn clone(&self) -> (r: Event)
        ensures
            r == *self,
    {
        match self {
            Event::KeyDown(k) => Event::KeyDown(*k),
            Event::KeyUp(k) => Event::KeyUp(*k),
            Event::Wheel(m) => Event::Wheel(*m),
            Event::MouseDown(m) => Event::MouseDown(*m),
            Event::MouseUp(m) => Event::MouseUp(*m),
            Event::MouseMove(m) => Event::MouseMove(*m),
            Event::Screenshot(s) => Event::Screenshot(s.clone()),
        }
    }
}

/// True of the six genuine input kinds; false of the screenshot marker, which
/// is produced by the store, never by an input device.
pub open spec fn is_input_event(e: Event) -> bool {
    match e {
        Event::KeyDown(_) => true,
        Event::KeyUp(_) => true,
        Event::Wheel(_) => true,
        Event::MouseDown(_) => true,
        Event::MouseUp(_) => true,
        Event::MouseMove(_) => true,
        Event::Screenshot(_) => false,
    }
}

/// The origin flag of an event: true when it was injected by replay.
pub open spec fn event_from_command(e: Event) -> bool {
    match e {
        Event::KeyDown(k) => k.from_command,
        Event::KeyUp(k) => k.from_command,
        Event::Wheel(m) => m.from_command,
        Event::MouseDown(m) => m.from_command,
        Event::MouseUp(m) => m.from_command,
        Event::MouseMove(m) => m.from_command,
        Event::Screenshot(_) => false,
    }
}

/// An event plus the selector of the element it occurred on and the window it
/// occurred in: the recorded and transmitted unit.
#[derive(Debug, PartialEq)]
pub struct WidgetEvent {
    pub event: Event,
    pub selector: String,
    pub window_id: u64,
}

impl Clone for WidgetEvent {
    fn clone(&self) -> (r: WidgetEvent)
        ensures
            r == *self,
    {
        WidgetEvent {
            event: self.event.clone(),
            selector: self.selector.clone(),
            window_id: self.window_id,
        }
    }
}

/// Copies a recorded sequence element by element.
pub fn clone_events(events: &Vec<WidgetEvent>) -> (r: Vec<WidgetEvent>)
    ensures
        r@ == events@,
{
    let mut r: Vec<WidgetEvent> = Vec::new();
    let mut i: usize = 0;
    while i < events.len()
        invariant
            i <= events@.len(),
            r@.len() == i as int,
            forall|j: int| 0 <= j < i as int ==> r@[j] == events@[j],
        decreases events@.len() - i as int,
    {
        r.push(events[i].clone());
        i += 1;
    }
    proof {
        assert(r@ =~= events@);
    }
    r
}

/// One message of the control-plane protocol, ready for a transport to carry
/// to the store.
#[derive(Debug, PartialEq)]
pub enum ControlRequest {
    StartRecord,
    StoreEvent(WidgetEvent),
    Execute { path: String },
    Export { path: String },
    Screenshot { selector: String },
    UpdateLayout(Element),
    ListPaths,
    DeletePath { path: String },
}

/// Builds the request that records one captured event under its selector and
/// window. Only genuine input kinds are ever recorded, so the screenshot
/// marker is left out by precondition.
pub fn store_event(selector: String, event: &Event, window_id: u64) -> (r: ControlRequest)
    requires
        is_input_event(*event),
    ensures
        (r == ControlRequest::StoreEvent(
            WidgetEvent { event: *event, selector: selector, window_id: window_id },
        )),
{
    ControlRequest::StoreEvent(WidgetEvent { event: event.clone(), selector, window_id })
}

/// Builds the request that tells the store a new recording session begins.
pub fn start_record() -> (r: ControlRequest)
    ensures
        r == ControlRequest::StartRecord,
{
    ControlRequest::StartRecord
}

/// Builds the request that persists the current session under `path`.
pub fn export(path: String) -> (r: ControlRequest)
    ensures
        (r == ControlRequest::Export { path: path }),
{
    ControlRequest::Export { path }
}

/// Builds the request that asks the store for a screenshot of the element
/// addressed by `selector`.
pub fn screenshot(selector: String) -> (r: ControlRequest)
    ensures
        (r == ControlRequest::Screenshot { selector: selector }),
{
    ControlRequest::Screenshot { selector }
}

} // verus!
