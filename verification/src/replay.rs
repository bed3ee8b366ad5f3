//! The replay scheduler: a stored sequence driven back into the application.
//!
//! Replay fetches a persisted sequence and delivers each event into the
//! application's command mailbox, in the original order, one delivery per
//! tick of a fixed cadence. Every delivered event is tagged synthetic first,
//! so the capture filter suppresses re-recording and replay cannot feed
//! itself. The scheduler here makes every decision: which event comes next
//! and how it is tagged. The caller owns the mailbox and the clock; it asks
//! for one delivery per tick and submits it, and a submission that fails —
//! its target window is gone — is simply dropped there. No submission
//! outcome flows back into the scheduler, so a dropped delivery can neither
//! reorder nor lose the rest of the sequence.

use vstd::prelude::*;

use crate::key_mouse::{Event, KeyEvent, MouseEvent, WidgetEvent};

verus! {

/// The fixed pause between two deliveries, in milliseconds: a thirtieth of a
/// second, approximating real-time pacing.
pub const REPLAY_INTERVAL_MS: u64 = 33;

/// An event as replay re-delivers it: the same payload, origin flagged
/// synthetic. The screenshot marker carries no origin flag and is unchanged.
pub open spec fn synthetic_event(e: Event) -> Event {
    match e {
        Event::KeyDown(k) => Event::KeyDown(KeyEvent { from_command: true, ..k }),
        Event::KeyUp(k) => Event::KeyUp(KeyEvent { from_command: true, ..k }),
        Event::Wheel(m) => Event::Wheel(MouseEvent { from_command: true, ..m }),
        Event::MouseDown(m) => Event::MouseDown(MouseEvent { from_command: true, ..m }),
        Event::MouseUp(m) => Event::MouseUp(MouseEvent { from_command: true, ..m }),
        Event::MouseMove(m) => Event::MouseMove(MouseEvent { from_command: true, ..m }),
        Event::Screenshot(s) => Event::Screenshot(s),
    }
}

/// A recorded unit as replay re-delivers it: same selector, same window, the
/// event tagged synthetic.
pub open spec fn synthetic_widget_event(w: WidgetEvent) -> WidgetEvent {
    WidgetEvent { event: synthetic_event(w.event), selector: w.selector, window_id: w.window_id }
}

/// What replay delivers for a stored sequence: the same sequence, in the
/// same order, each event tagged synthetic.
pub open spec fn delivery_seq(stored: Seq<WidgetEvent>) -> Seq<WidgetEvent> {
    stored.map_values(|w: WidgetEvent| synthetic_widget_event(w))
}

/// Tags one event synthetic.
pub fn mark_synthetic(event: &Event) -> (r: Event)
    ensures
        r == synthetic_event(*event),
{
    match event {
        Event::KeyDown(k) => Event::KeyDown(KeyEvent { from_command: true, ..*k }),
        Event::KeyUp(k) => Event::KeyUp(KeyEvent { from_command: true, ..*k }),
        Event::Wheel(m) => Event::Wheel(MouseEvent { from_command: true, ..*m }),
        Event::MouseDown(m) => Event::MouseDown(MouseEvent { from_command: true, ..*m }),
        Event::MouseUp(m) => Event::MouseUp(MouseEvent { from_command: true, ..*m }),
        Event::MouseMove(m) => Event::MouseMove(MouseEvent { from_command: true, ..*m }),
        Event::Screenshot(s) => Event::Screenshot(s.clone()),
    }
}

/// One replay of one fetched sequence: holds the sequence and the position
/// of the next delivery.
pub struct ReplayScheduler {
    events: Vec<WidgetEvent>,
    next: usize,
    interval_ms: u64,
}

impl ReplayScheduler {
    /// The stored sequence being replayed.
    pub closed spec fn stored(&self) -> Seq<WidgetEvent> {
        self.events@
    }

    /// How many deliveries have been handed out.
    pub closed spec fn position(&self) -> int {
        self.next as int
    }

    /// The pause the caller owes between two deliveries, in milliseconds.
    pub closed spec fn interval(&self) -> u64 {
        self.interval_ms
    }

    pub fn new(events: Vec<WidgetEvent>, interval_ms: u64) -> (r: Self)
        ensures
            r.stored() == events@,
            r.position() == 0,
            r.interval() == interval_ms,
    {
        ReplayScheduler { events, next: 0, interval_ms }
    }

    pub fn interval_ms(&self) -> (r: u64)
        ensures
            r == self.interval(),
    {
        self.interval_ms
    }

    /// The next event to submit to the mailbox, tagged synthetic, or nothing
    /// once the whole sequence has been handed out. The submission's outcome
    /// is no input here: delivery `k` is always the stored event `k`.
    pub fn next_delivery(&mut self) -> (r: Option<WidgetEvent>)
        ensures
            final(self).stored() == old(self).stored(),
            final(self).interval() == old(self).interval(),
            old(self).position() < old(self).stored().len() ==> {
                &&& r == Some(delivery_seq(old(self).stored())[old(self).position()])
                &&& final(self).position() == old(self).position() + 1
            },
            old(self).position() >= old(self).stored().len() ==> {
                &&& r is None
                &&& final(self).position() == old(self).position()
            },
    {
        if self.next < self.events.len() {
            let w = &self.events[self.next];
            let delivered = WidgetEvent {
                event: mark_synthetic(&w.event),
                selector: w.selector.clone(),
                window_id: w.window_id,
            };
            self.next = self.next + 1;
            Some(delivered)
        } else {
            None
        }
    }
}

/// Replay ordering: the deliveries for a stored sequence are exactly as many
/// as the stored events, and delivery `i` is stored event `i` tagged
/// synthetic — so deliveries come in the original order, whatever becomes of
/// the submissions in between.
pub proof fn lemma_replay_order(stored: Seq<WidgetEvent>, i: int)
    requires
        0 <= i < stored.len(),
    ensures
        delivery_seq(stored).len() == stored.len(),
        delivery_seq(stored)[i] == synthetic_widget_event(stored[i]),
{
}

} // verus!
