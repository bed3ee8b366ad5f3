//! The element wrapper: stable identity plus the capture filter.
//!
//! A `DebugContainer` decorates one element of the host UI tree. It forwards
//! every runtime call to the wrapped element unchanged, with a single
//! interception point: before forwarding an input event it inspects the
//! event's origin flag. A genuine event is turned into a recording request;
//! a synthetic one — injected by replay — is forwarded without being
//! recorded, which is what keeps replay from re-recording itself without
//! bound. The wrapper also surfaces the stable identity under which its
//! selector was registered.

use vstd::prelude::*;

use crate::key_mouse::{store_event, ControlRequest, Event, WidgetEvent};
use crate::key_mouse::{event_from_command, is_input_event};
use crate::registry::SelectorRegistry;
use crate::replay::synthetic_event;

verus! {

/// Whether the capture filter records an event: exactly the genuine input
/// events, never the synthetic ones and never the screenshot marker.
pub open spec fn captures(e: Event) -> bool {
    is_input_event(e) && !event_from_command(e)
}

/// What a wrapped element must support: deliver an event, run its lifecycle,
/// update, compute a layout within a bound, paint. Any concrete element kind
/// of the host runtime can stand behind this.
pub trait Widget {
    fn event(&mut self, event: &Event);

    fn lifecycle(&mut self);

    fn update(&mut self);

    fn layout(&mut self, max: crate::element::Size) -> crate::element::Size;

    fn paint(&mut self);
}

/// One wrapped element: the inner element, its selector, and the identity
/// the selector was registered under.
pub struct DebugContainer<W> {
    inner: W,
    selector: String,
    id: u64,
}

impl<W> DebugContainer<W> {
    /// The selector this wrapper was built with.
    pub closed spec fn spec_selector(&self) -> String {
        self.selector
    }

    /// The identity this wrapper was built with.
    pub closed spec fn spec_id(&self) -> u64 {
        self.id
    }

    /// The stable identity getter the runtime and the registry agree on.
    pub fn id(&self) -> (r: u64)
        ensures
            r == self.spec_id(),
    {
        self.id
    }

    pub fn selector(&self) -> (r: &String)
        ensures
            r == self.spec_selector(),
    {
        &self.selector
    }
}

impl<W: Widget> DebugContainer<W> {
    /// Delivers one event: a genuine input event yields the request that
    /// records it under this wrapper's selector, a synthetic or uninteresting
    /// one yields nothing; either way the event is forwarded to the wrapped
    /// element unchanged.
    pub fn event(&mut self, window_id: u64, event: &Event) -> (r: Option<ControlRequest>)
        ensures
            final(self).spec_selector() == old(self).spec_selector(),
            final(self).spec_id() == old(self).spec_id(),
            captures(*event) ==> r == Some(
                ControlRequest::StoreEvent(
                    WidgetEvent {
                        event: *event,
                        selector: old(self).spec_selector(),
                        window_id: window_id,
                    },
                ),
            ),
            !captures(*event) ==> r is None,
    {
        let r = match event {
            Event::MouseDown(mouse_event) => {
                if !mouse_event.from_command {
                    Some(store_event(self.selector.clone(), event, window_id))
                } else {
                    None
                }
            },
            Event::MouseUp(mouse_event) => {
                if !mouse_event.from_command {
                    Some(store_event(self.selector.clone(), event, window_id))
                } else {
                    None
                }
            },
            Event::MouseMove(mouse_event) => {
                if !mouse_event.from_command {
                    Some(store_event(self.selector.clone(), event, window_id))
                } else {
                    None
                }
            },
            Event::Wheel(mouse_event) => {
                if !mouse_event.from_command {
                    Some(store_event(self.selector.clone(), event, window_id))
                } else {
                    None
                }
            },
            Event::KeyDown(key_event) => {
                if !key_event.from_command {
                    Some(store_event(self.selector.clone(), event, window_id))
                } else {
                    None
                }
            },
            Event::KeyUp(key_event) => {
                if !key_event.from_command {
                    Some(store_event(self.selector.clone(), event, window_id))
                } else {
                    None
                }
            },
            Event::Screenshot(_) => None,
        };
        self.inner.event(event);
        r
    }

    pub fn lifecycle(&mut self)
        ensures
            final(self).spec_selector() == old(self).spec_selector(),
            final(self).spec_id() == old(self).spec_id(),
    {
        self.inner.lifecycle();
    }

    pub fn update(&mut self)
        ensures
            final(self).spec_selector() == old(self).spec_selector(),
            final(self).spec_id() == old(self).spec_id(),
    {
        self.inner.update();
    }

    pub fn layout(&mut self, max: crate::element::Size) -> (r: crate::element::Size)
        ensures
            final(self).spec_selector() == old(self).spec_selector(),
            final(self).spec_id() == old(self).spec_id(),
    {
        self.inner.layout(max)
    }

    pub fn paint(&mut self)
        ensures
            final(self).spec_selector() == old(self).spec_selector(),
            final(self).spec_id() == old(self).spec_id(),
    {
        self.inner.paint();
    }
}

/// Wrapping an element: registers a selector under a fresh identity and
/// decorates the element with both.
pub trait DebugExt: Sized {
    fn debug(self, selector: String, registry: &mut SelectorRegistry) -> (r: DebugContainer<Self>)
        requires
            old(registry).wf(),
            old(registry).spec_next() < u64::MAX,
        ensures
            final(registry).wf(),
            r.spec_selector() == selector,
            r.spec_id() == old(registry).spec_next(),
            !old(registry)@.contains_key(r.spec_id()),
            final(registry)@ == old(registry)@.insert(r.spec_id(), selector),
            final(registry).spec_next() == r.spec_id() + 1,
    ;

    fn debug_str(self, selector: &str, registry: &mut SelectorRegistry) -> (r: DebugContainer<
        Self,
    >)
        requires
            old(registry).wf(),
            old(registry).spec_next() < u64::MAX,
        ensures
            final(registry).wf(),
            r.spec_selector()@ == selector@,
            r.spec_id() == old(registry).spec_next(),
            !old(registry)@.contains_key(r.spec_id()),
            final(registry)@ == old(registry)@.insert(r.spec_id(), r.spec_selector()),
            final(registry).spec_next() == r.spec_id() + 1,
    ;
}

impl<W: Widget> DebugExt for W {
    fn debug(self, selector: String, registry: &mut SelectorRegistry) -> (r: DebugContainer<W>) {
        let id = registry.wrap(selector.clone());
        DebugContainer { inner: self, selector, id }
    }

    fn debug_str(self, selector: &str, registry: &mut SelectorRegistry) -> (r: DebugContainer<W>) {
        let owned = selector.to_owned();
        self.debug(owned, registry)
    }
}

/// Suppression: an event whose origin flag marks it synthetic never reaches
/// the recorder, and a genuine input event always does — the wrapper has no
/// further gate.
pub proof fn lemma_suppression(e: Event)
    ensures
        event_from_command(e) ==> !captures(e),
        is_input_event(e) && !event_from_command(e) ==> captures(e),
{
}

/// Replay cannot feed itself: whatever replay delivers, the capture filter
/// refuses it.
pub proof fn lemma_replay_suppressed(e: Event)
    ensures
        !captures(synthetic_event(e)),
{
}

} // verus!
