use ui_harness::debug_container::{DebugExt, Widget};
use ui_harness::element::{Element, Layout, LayoutCache, Point, Size};
use ui_harness::key_mouse::{
    clone_events, export, screenshot, start_record, store_event, ControlRequest, Event, KeyEvent,
    MouseEvent, ScreenshotEvent, WidgetEvent,
};
use ui_harness::recorder::{ControlResponse, ControlStore, RecorderError};
use ui_harness::registry::SelectorRegistry;
use ui_harness::replay::{mark_synthetic, ReplayScheduler, REPLAY_INTERVAL_MS};
use ui_harness::strmap::StrMap;

struct Probe {
    seen: Vec<Event>,
}

impl Probe {
    fn new() -> Probe {
        Probe { seen: Vec::new() }
    }
}

impl Widget for Probe {
    fn event(&mut self, event: &Event) {
        self.seen.push(event.clone());
    }

    fn lifecycle(&mut self) {}

    fn update(&mut self) {}

    fn layout(&mut self, max: Size) -> Size {
        max
    }

    fn paint(&mut self) {}
}

fn mouse_at(x: i64, y: i64, from_command: bool) -> MouseEvent {
    MouseEvent {
        pos: Point { x, y },
        button: 1,
        wheel_delta: Point { x: 0, y: 0 },
        from_command,
    }
}

fn key(code: u32, from_command: bool) -> KeyEvent {
    KeyEvent { key: code, mods: 0, from_command }
}

fn widget_event(event: Event, selector: &str, window_id: u64) -> WidgetEvent {
    WidgetEvent { event, selector: selector.to_string(), window_id }
}

#[test]
fn register_same_pair_twice_is_idempotent() {
    let mut registry = SelectorRegistry::new();
    registry.register(5, "digit-7".to_string());
    let first = registry.lookup(5);
    registry.register(5, "digit-7".to_string());
    let second = registry.lookup(5);
    assert_eq!(first, Some("digit-7".to_string()));
    assert_eq!(second, first);
}

#[test]
fn register_overwrites_prior_selector() {
    let mut registry = SelectorRegistry::new();
    registry.register(3, "old".to_string());
    registry.register(3, "new".to_string());
    assert_eq!(registry.lookup(3), Some("new".to_string()));
}

#[test]
fn lookup_of_never_wrapped_element_is_none() {
    let registry = SelectorRegistry::new();
    assert_eq!(registry.lookup(42), None);
}

#[test]
fn wrap_hands_out_fresh_identities() {
    let mut registry = SelectorRegistry::new();
    let a = registry.wrap("a".to_string());
    let b = registry.wrap("b".to_string());
    assert_ne!(a, b);
    assert_eq!(registry.lookup(a), Some("a".to_string()));
    assert_eq!(registry.lookup(b), Some("b".to_string()));
}

#[test]
fn layout_cache_publishes_first_identical_and_changed_updates() {
    let mut registry = SelectorRegistry::new();
    let mut cache = LayoutCache::new();
    let id = registry.wrap("digit-7".to_string());
    let expected = Element {
        selector: "digit-7".to_string(),
        layout: Layout { origin: Point { x: 0, y: 0 }, size: Size { w: 40, h: 40 } },
    };

    let first = cache.update_layout(&registry, id, Point { x: 0, y: 0 }, Size { w: 40, h: 40 });
    assert_eq!(first, Some(ControlRequest::UpdateLayout(expected)));

    let repeat = cache.update_layout(&registry, id, Point { x: 0, y: 0 }, Size { w: 40, h: 40 });
    assert_eq!(repeat, None);

    let changed = cache.update_layout(&registry, id, Point { x: 0, y: 0 }, Size { w: 41, h: 40 });
    let expected_changed = Element {
        selector: "digit-7".to_string(),
        layout: Layout { origin: Point { x: 0, y: 0 }, size: Size { w: 41, h: 40 } },
    };
    assert_eq!(changed, Some(ControlRequest::UpdateLayout(expected_changed)));
}

#[test]
fn layout_cache_republishes_on_each_field() {
    let mut registry = SelectorRegistry::new();
    let mut cache = LayoutCache::new();
    let id = registry.wrap("box".to_string());
    assert!(cache.update_layout(&registry, id, Point { x: 1, y: 2 }, Size { w: 3, h: 4 }).is_some());
    assert!(cache.update_layout(&registry, id, Point { x: 9, y: 2 }, Size { w: 3, h: 4 }).is_some());
    assert!(cache.update_layout(&registry, id, Point { x: 9, y: 9 }, Size { w: 3, h: 4 }).is_some());
    assert!(cache.update_layout(&registry, id, Point { x: 9, y: 9 }, Size { w: 9, h: 4 }).is_some());
    assert!(cache.update_layout(&registry, id, Point { x: 9, y: 9 }, Size { w: 9, h: 9 }).is_some());
    assert!(cache.update_layout(&registry, id, Point { x: 9, y: 9 }, Size { w: 9, h: 9 }).is_none());
}

#[test]
fn layout_update_for_unwrapped_element_is_dropped() {
    let registry = SelectorRegistry::new();
    let mut cache = LayoutCache::new();
    let r = cache.update_layout(&registry, 99, Point { x: 0, y: 0 }, Size { w: 1, h: 1 });
    assert_eq!(r, None);
    assert_eq!(cache.get_layout(&"anything".to_string()), None);
}

#[test]
fn get_layout_returns_the_cached_geometry() {
    let mut registry = SelectorRegistry::new();
    let mut cache = LayoutCache::new();
    let id = registry.wrap("digit-7".to_string());
    cache.update_layout(&registry, id, Point { x: 5, y: 6 }, Size { w: 7, h: 8 });
    assert_eq!(
        cache.get_layout(&"digit-7".to_string()),
        Some(Layout { origin: Point { x: 5, y: 6 }, size: Size { w: 7, h: 8 } })
    );
}

#[test]
fn genuine_input_is_recorded_with_selector_and_window() {
    let mut registry = SelectorRegistry::new();
    let mut wrapped = Probe::new().debug("=".to_string(), &mut registry);
    let event = Event::MouseDown(mouse_at(10, 10, false));
    let r = wrapped.event(7, &event);
    assert_eq!(
        r,
        Some(ControlRequest::StoreEvent(widget_event(event.clone(), "=", 7)))
    );
}

#[test]
fn synthetic_input_is_forwarded_but_never_recorded() {
    let mut registry = SelectorRegistry::new();
    let mut wrapped = Probe::new().debug("=".to_string(), &mut registry);
    assert_eq!(wrapped.event(7, &Event::MouseDown(mouse_at(10, 10, true))), None);
    assert_eq!(wrapped.event(7, &Event::MouseUp(mouse_at(10, 10, true))), None);
    assert_eq!(wrapped.event(7, &Event::MouseMove(mouse_at(1, 1, true))), None);
    assert_eq!(wrapped.event(7, &Event::Wheel(mouse_at(1, 1, true))), None);
    assert_eq!(wrapped.event(7, &Event::KeyDown(key(13, true))), None);
    assert_eq!(wrapped.event(7, &Event::KeyUp(key(13, true))), None);
}

#[test]
fn every_genuine_input_kind_is_recorded() {
    let mut registry = SelectorRegistry::new();
    let mut wrapped = Probe::new().debug("k".to_string(), &mut registry);
    assert!(wrapped.event(1, &Event::MouseDown(mouse_at(0, 0, false))).is_some());
    assert!(wrapped.event(1, &Event::MouseUp(mouse_at(0, 0, false))).is_some());
    assert!(wrapped.event(1, &Event::MouseMove(mouse_at(0, 0, false))).is_some());
    assert!(wrapped.event(1, &Event::Wheel(mouse_at(0, 0, false))).is_some());
    assert!(wrapped.event(1, &Event::KeyDown(key(13, false))).is_some());
    assert!(wrapped.event(1, &Event::KeyUp(key(13, false))).is_some());
}

#[test]
fn screenshot_marker_is_not_an_input_and_not_recorded() {
    let mut registry = SelectorRegistry::new();
    let mut wrapped = Probe::new().debug("k".to_string(), &mut registry);
    let marker = Event::Screenshot(ScreenshotEvent { selector: "k".to_string() });
    assert_eq!(wrapped.event(1, &marker), None);
}

#[test]
fn wrapper_surfaces_its_identity_and_selector() {
    let mut registry = SelectorRegistry::new();
    let first = Probe::new().debug("a".to_string(), &mut registry);
    let second = Probe::new().debug_str("b", &mut registry);
    assert_eq!(first.id(), 0);
    assert_eq!(second.id(), 1);
    assert_eq!(first.selector(), &"a".to_string());
    assert_eq!(second.selector(), &"b".to_string());
    assert_eq!(registry.lookup(0), Some("a".to_string()));
    assert_eq!(registry.lookup(1), Some("b".to_string()));
}

#[test]
fn request_builders_produce_the_protocol_messages() {
    assert_eq!(start_record(), ControlRequest::StartRecord);
    assert_eq!(export("run".to_string()), ControlRequest::Export { path: "run".to_string() });
    assert_eq!(
        screenshot("=".to_string()),
        ControlRequest::Screenshot { selector: "=".to_string() }
    );
    let event = Event::KeyDown(key(13, false));
    assert_eq!(
        store_event("=".to_string(), &event, 3),
        ControlRequest::StoreEvent(widget_event(event.clone(), "=", 3))
    );
}

#[test]
fn exported_session_fetches_back_equal_and_ordered() {
    let mut store = ControlStore::new();
    let down = widget_event(Event::MouseDown(mouse_at(10, 10, false)), "=", 7);
    let up = widget_event(Event::MouseUp(mouse_at(10, 10, false)), "=", 7);
    store.apply(ControlRequest::StartRecord);
    store.apply(ControlRequest::StoreEvent(down.clone()));
    store.apply(ControlRequest::StoreEvent(up.clone()));
    store.apply(ControlRequest::Export { path: "run".to_string() });
    let fetched = store.execute(&"run".to_string()).unwrap();
    assert_eq!(fetched, vec![down, up]);
}

#[test]
fn fetch_of_unknown_path_fails_rather_than_defaulting() {
    let store = ControlStore::new();
    assert_eq!(store.execute(&"missing".to_string()), Err(RecorderError::UnknownPath));
}

#[test]
fn execute_request_answers_unknown_path() {
    let mut store = ControlStore::new();
    let r = store.apply(ControlRequest::Execute { path: "missing".to_string() });
    assert_eq!(r, ControlResponse::UnknownPath);
}

#[test]
fn start_record_begins_an_empty_session() {
    let mut store = ControlStore::new();
    store.apply(ControlRequest::StoreEvent(widget_event(
        Event::KeyDown(key(1, false)),
        "k",
        1,
    )));
    store.apply(ControlRequest::StartRecord);
    store.apply(ControlRequest::Export { path: "fresh".to_string() });
    assert_eq!(store.execute(&"fresh".to_string()), Ok(Vec::new()));
}

#[test]
fn list_paths_and_delete_path_manage_recordings() {
    let mut store = ControlStore::new();
    store.apply(ControlRequest::Export { path: "one".to_string() });
    store.apply(ControlRequest::Export { path: "two".to_string() });
    let r = store.apply(ControlRequest::ListPaths);
    assert_eq!(r, ControlResponse::Paths(vec!["one".to_string(), "two".to_string()]));
    store.apply(ControlRequest::DeletePath { path: "one".to_string() });
    assert_eq!(store.execute(&"one".to_string()), Err(RecorderError::UnknownPath));
    assert!(store.execute(&"two".to_string()).is_ok());
}

#[test]
fn screenshot_and_layout_requests_are_acknowledged() {
    let mut store = ControlStore::new();
    assert_eq!(
        store.apply(ControlRequest::Screenshot { selector: "=".to_string() }),
        ControlResponse::Ack
    );
    let element = Element {
        selector: "=".to_string(),
        layout: Layout { origin: Point { x: 0, y: 0 }, size: Size { w: 1, h: 1 } },
    };
    assert_eq!(store.apply(ControlRequest::UpdateLayout(element)), ControlResponse::Ack);
}

#[test]
fn replay_delivers_in_order_tagged_synthetic() {
    let down = widget_event(Event::MouseDown(mouse_at(10, 10, false)), "=", 7);
    let up = widget_event(Event::MouseUp(mouse_at(10, 10, false)), "=", 7);
    let mut sched = ReplayScheduler::new(vec![down, up], REPLAY_INTERVAL_MS);
    assert_eq!(sched.interval_ms(), REPLAY_INTERVAL_MS);

    let first = sched.next_delivery().unwrap();
    assert_eq!(first.event, Event::MouseDown(mouse_at(10, 10, true)));
    assert_eq!(first.selector, "=");
    assert_eq!(first.window_id, 7);

    let second = sched.next_delivery().unwrap();
    assert_eq!(second.event, Event::MouseUp(mouse_at(10, 10, true)));

    assert_eq!(sched.next_delivery(), None);
}

#[test]
fn record_export_replay_without_feedback() {
    // Record two genuine events through the wrapper, persist them, fetch them
    // back, replay them, and check the replayed events are suppressed.
    let mut registry = SelectorRegistry::new();
    let mut wrapped = Probe::new().debug("=".to_string(), &mut registry);
    let mut store = ControlStore::new();
    store.apply(ControlRequest::StartRecord);

    let down = Event::MouseDown(mouse_at(10, 10, false));
    let up = Event::MouseUp(mouse_at(10, 10, false));
    for event in [&down, &up] {
        if let Some(request) = wrapped.event(7, event) {
            store.apply(request);
        }
    }
    store.apply(ControlRequest::Export { path: "clicks".to_string() });

    let fetched = store.execute(&"clicks".to_string()).unwrap();
    assert_eq!(fetched.len(), 2);

    let mut sched = ReplayScheduler::new(fetched, REPLAY_INTERVAL_MS);
    let mut submissions = Vec::new();
    while let Some(delivery) = sched.next_delivery() {
        // The mailbox submission re-enters the wrapper as a synthetic event:
        // nothing may be recorded a second time.
        assert_eq!(wrapped.event(delivery.window_id, &delivery.event), None);
        submissions.push(delivery);
    }
    assert_eq!(submissions.len(), 2);
    assert_eq!(submissions[0].event, Event::MouseDown(mouse_at(10, 10, true)));
    assert_eq!(submissions[1].event, Event::MouseUp(mouse_at(10, 10, true)));
}

#[test]
fn replay_of_an_empty_sequence_delivers_nothing() {
    let mut sched = ReplayScheduler::new(Vec::new(), REPLAY_INTERVAL_MS);
    assert_eq!(sched.next_delivery(), None);
    assert_eq!(sched.next_delivery(), None);
}

#[test]
fn dropped_submission_does_not_reorder_or_lose_the_rest() {
    let e1 = widget_event(Event::KeyDown(key(1, false)), "a", 1);
    let e2 = widget_event(Event::KeyDown(key(2, false)), "b", 2);
    let e3 = widget_event(Event::KeyDown(key(3, false)), "c", 3);
    let mut sched = ReplayScheduler::new(vec![e1, e2, e3], REPLAY_INTERVAL_MS);
    let mut delivered = Vec::new();
    while let Some(delivery) = sched.next_delivery() {
        // The second submission fails (its window is gone) and is dropped;
        // the scheduler is told nothing and keeps going.
        let submitted = delivery.selector != "b";
        if submitted {
            delivered.push(delivery);
        }
    }
    assert_eq!(delivered.len(), 2);
    assert_eq!(delivered[0].event, Event::KeyDown(key(1, true)));
    assert_eq!(delivered[1].event, Event::KeyDown(key(3, true)));
}

#[test]
fn mark_synthetic_sets_the_origin_flag_on_every_input_kind() {
    assert_eq!(
        mark_synthetic(&Event::MouseDown(mouse_at(1, 2, false))),
        Event::MouseDown(mouse_at(1, 2, true))
    );
    assert_eq!(mark_synthetic(&Event::KeyUp(key(9, false))), Event::KeyUp(key(9, true)));
    let marker = Event::Screenshot(ScreenshotEvent { selector: "s".to_string() });
    assert_eq!(mark_synthetic(&marker), marker);
}

#[test]
fn clone_events_copies_a_sequence_exactly() {
    let events = vec![
        widget_event(Event::KeyDown(key(1, false)), "a", 1),
        widget_event(Event::Screenshot(ScreenshotEvent { selector: "a".to_string() }), "a", 1),
    ];
    assert_eq!(clone_events(&events), events);
}

#[test]
fn strmap_stores_overwrites_and_removes() {
    let mut map: StrMap<i64> = StrMap::new();
    assert!(!map.contains(&"k".to_string()));
    map.insert("k".to_string(), 1);
    map.insert("l".to_string(), 2);
    assert_eq!(map.get(&"k".to_string()), Some(&1));
    map.insert("k".to_string(), 3);
    assert_eq!(map.get(&"k".to_string()), Some(&3));
    assert_eq!(map.keys(), vec!["k".to_string(), "l".to_string()]);
    map.remove(&"k".to_string());
    assert_eq!(map.get(&"k".to_string()), None);
    assert_eq!(map.keys(), vec!["l".to_string()]);
}

#[test]
fn geometry_defaults_are_all_zero() {
    assert_eq!(Point::default(), Point { x: 0, y: 0 });
    assert_eq!(Size::default(), Size { w: 0, h: 0 });
    assert_eq!(
        Layout::default(),
        Layout { origin: Point { x: 0, y: 0 }, size: Size { w: 0, h: 0 } }
    );
    let element = Element::default();
    assert_eq!(element.selector, "");
    assert_eq!(element.layout, Layout::default());
}

#[test]
fn delegation_reaches_the_wrapped_element() {
    let mut registry = SelectorRegistry::new();
    let mut wrapped = Probe::new().debug("p".to_string(), &mut registry);
    wrapped.lifecycle();
    wrapped.update();
    wrapped.paint();
    let size = wrapped.layout(Size { w: 12, h: 34 });
    assert_eq!(size, Size { w: 12, h: 34 });
}
