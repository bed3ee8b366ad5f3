//! The control-plane store, as a verified model.
//!
//! The store is the remote side of the recording protocol: it keeps the
//! event sequence of the current session and the sequences persisted under
//! recording names. `ControlStore::apply` is the whole protocol: one
//! transition per request, with the response it owes. `export_spec` and
//! `fetch_spec` state the persisting and fetching transitions at the
//! specification level, so that the round-trip and unknown-path laws below
//! can be proved once and read off by every caller.

use vstd::prelude::*;

use crate::key_mouse::{clone_events, ControlRequest, WidgetEvent};
use crate::strmap::StrMap;

verus! {

/// A fetch can fail in exactly one way: the recording name is unknown.
#[derive(Clone, Copy, Debug, PartialEq, Eq, Structural)]
pub enum RecorderError {
    UnknownPath,
}

/// What the store answers to one request.
#[derive(Debug, PartialEq)]
pub enum ControlResponse {
    /// The request was taken; nothing further is owed.
    Ack,
    /// The ordered sequence stored under the requested name.
    Events(Vec<WidgetEvent>),
    /// The recording names the store currently holds.
    Paths(Vec<String>),
    /// The requested recording name is unknown.
    UnknownPath,
}

/// Persisting the current session under a name: the stored table afterwards.
pub open spec fn export_spec(
    saved: Map<Seq<char>, Seq<WidgetEvent>>,
    session: Seq<WidgetEvent>,
    path: Seq<char>,
) -> Map<Seq<char>, Seq<WidgetEvent>> {
    saved.insert(path, session)
}

/// Fetching a recording by name: its ordered sequence, or nothing for a name
/// never exported.
pub open spec fn fetch_spec(
    saved: Map<Seq<char>, Seq<WidgetEvent>>,
    path: Seq<char>,
) -> Option<Seq<WidgetEvent>> {
    if saved.contains_key(path) {
        Some(saved[path])
    } else {
        None
    }
}

/// The store: the current session's events in arrival order, and the
/// persisted sequences by recording name.
pub struct ControlStore {
    session: Vec<WidgetEvent>,
    saved: StrMap<Vec<WidgetEvent>>,
}

impl ControlStore {
    /// The events of the current session, in the order they arrived.
    pub closed spec fn session_view(&self) -> Seq<WidgetEvent> {
        self.session@
    }

    /// The persisted sequences, by recording name.
    pub closed spec fn saved_view(&self) -> Map<Seq<char>, Seq<WidgetEvent>> {
        self.saved@.map_values(|events: Vec<WidgetEvent>| events@)
    }

    /// The recording names, in the order they were first exported.
    pub closed spec fn path_views(&self) -> Seq<Seq<char>> {
        self.saved.key_views()
    }

    pub closed spec fn wf(&self) -> bool {
        self.saved.wf()
    }

    pub fn new() -> (r: Self)
        ensures
            r.wf(),
            r.session_view() == Seq::<WidgetEvent>::empty(),
            r.saved_view() == Map::<Seq<char>, Seq<WidgetEvent>>::empty(),
            r.path_views() == Seq::<Seq<char>>::empty(),
    {
        let r = ControlStore { session: Vec::new(), saved: StrMap::new() };
        proof {
            assert(r.saved_view() =~= Map::<Seq<char>, Seq<WidgetEvent>>::empty());
        }
        r
    }

    /// The ordered sequence stored under `path`, or the unknown-path failure
    /// for a name never exported — never a defaulted empty sequence.
    pub fn execute(&self, path: &String) -> (r: Result<Vec<WidgetEvent>, RecorderError>)
        requires
            self.wf(),
        ensures
            (match fetch_spec(self.saved_view(), path@) {
                Some(events) => r matches Ok(v) && v@ == events,
                None => r == Err::<Vec<WidgetEvent>, RecorderError>(RecorderError::UnknownPath),
            }),
    {
        match self.saved.get(path) {
            Some(events) => {
                proof {
                    assert(self.saved_view()[path@] == self.saved@[path@]@);
                }
                Ok(clone_events(events))
            },
            None => {
                proof {
                    assert(!self.saved_view().contains_key(path@));
                }
                Err(RecorderError::UnknownPath)
            },
        }
    }

    /// The whole protocol, one request at a time: what each request does to
    /// the store and what it answers.
    pub fn apply(&mut self, request: ControlRequest) -> (r: ControlResponse)
        requires
            old(self).wf(),
        ensures
            final(self).wf(),
            (match request {
                ControlRequest::StartRecord => {
                    &&& final(self).session_view() == Seq::<WidgetEvent>::empty()
                    &&& final(self).saved_view() == old(self).saved_view()
                    &&& final(self).path_views() == old(self).path_views()
                    &&& r == ControlResponse::Ack
                },
                ControlRequest::StoreEvent(event) => {
                    &&& final(self).session_view() == old(self).session_view().push(event)
                    &&& final(self).saved_view() == old(self).saved_view()
                    &&& final(self).path_views() == old(self).path_views()
                    &&& r == ControlResponse::Ack
                },
                ControlRequest::Execute { path } => {
                    &&& *final(self) == *old(self)
                    &&& (match fetch_spec(old(self).saved_view(), path@) {
                        Some(events) => r matches ControlResponse::Events(v) && v@ == events,
                        None => r == ControlResponse::UnknownPath,
                    })
                },
                ControlRequest::Export { path } => {
                    &&& final(self).session_view() == old(self).session_view()
                    &&& final(self).saved_view() == export_spec(
                        old(self).saved_view(),
                        old(self).session_view(),
                        path@,
                    )
                    &&& (old(self).saved_view().contains_key(path@) ==> final(self).path_views()
                        == old(self).path_views())
                    &&& (!old(self).saved_view().contains_key(path@) ==> final(self).path_views()
                        == old(self).path_views().push(path@))
                    &&& r == ControlResponse::Ack
                },
                ControlRequest::Screenshot { selector } => {
                    &&& *final(self) == *old(self)
                    &&& r == ControlResponse::Ack
                },
                ControlRequest::UpdateLayout(element) => {
                    &&& *final(self) == *old(self)
                    &&& r == ControlResponse::Ack
                },
                ControlRequest::ListPaths => {
                    &&& *final(self) == *old(self)
                    &&& (r matches ControlResponse::Paths(names) && names@.len() == old(
                        self,
                    ).path_views().len() && (forall|i: int|
                        0 <= i < names@.len() ==> names@[i]@ == old(self).path_views()[i]))
                },
                ControlRequest::DeletePath { path } => {
                    &&& final(self).session_view() == old(self).session_view()
                    &&& final(self).saved_view() == old(self).saved_view().remove(path@)
                    &&& (!old(self).saved_view().contains_key(path@) ==> final(self).path_views()
                        == old(self).path_views())
                    &&& (old(self).saved_view().contains_key(path@) ==> (exists|i: int|
                        0 <= i < old(self).path_views().len() && old(self).path_views()[i] == path@
                            && final(self).path_views() == old(self).path_views().remove(i)))
                    &&& r == ControlResponse::Ack
                },
            }),
    {
        match request {
            ControlRequest::StartRecord => {
                self.session = Vec::new();
                ControlResponse::Ack
            },
            ControlRequest::StoreEvent(event) => {
                self.session.push(event);
                ControlResponse::Ack
            },
            ControlRequest::Execute { path } => {
                match self.execute(&path) {
                    Ok(events) => ControlResponse::Events(events),
                    Err(_) => ControlResponse::UnknownPath,
                }
            },
            ControlRequest::Export { path } => {
                let events = clone_events(&self.session);
                let ghost before = self.saved@;
                self.saved.insert(path, events);
                proof {
                    assert(self.saved_view() =~= before.map_values(
                        |events: Vec<WidgetEvent>| events@,
                    ).insert(path@, old(self).session_view()));
                    assert(old(self).saved_view().contains_key(path@) == before.contains_key(
                        path@,
                    ));
                }
                ControlResponse::Ack
            },
            ControlRequest::Screenshot { selector: _ } => ControlResponse::Ack,
            ControlRequest::UpdateLayout(_) => ControlResponse::Ack,
            ControlRequest::ListPaths => ControlResponse::Paths(self.saved.keys()),
            ControlRequest::DeletePath { path } => {
                let ghost before = self.saved@;
                let ghost names_before = self.saved.key_views();
                self.saved.remove(&path);
                proof {
                    assert(self.saved_view() =~= before.map_values(
                        |events: Vec<WidgetEvent>| events@,
                    ).remove(path@));
                    assert(old(self).saved_view().contains_key(path@) == before.contains_key(
                        path@,
                    ));
                    if before.contains_key(path@) {
                        let i: int = choose|i: int|
                            0 <= i < names_before.len() && names_before[i] == path@
                                && self.saved.key_views() == names_before.remove(i);
                        assert(old(self).path_views()[i] == path@);
                        assert(self.path_views() == old(self).path_views().remove(i));
                    }
                }
                ControlResponse::Ack
            },
        }
    }
}

/// Round trip: a session exported under a name and fetched back by that name
/// yields an equal ordered sequence of events.
pub proof fn lemma_export_fetch_round_trip(
    saved: Map<Seq<char>, Seq<WidgetEvent>>,
    session: Seq<WidgetEvent>,
    path: Seq<char>,
)
    ensures
        fetch_spec(export_spec(saved, session, path), path) == Some(session),
{
}

/// Unknown path: fetching a name that was never exported is the unknown-path
/// failure, not an empty sequence.
pub proof fn lemma_fetch_unknown_path(saved: Map<Seq<char>, Seq<WidgetEvent>>, path: Seq<char>)
    requires
        !saved.contains_key(path),
    ensures
        fetch_spec(saved, path) is None,
{
}

} // verus!
