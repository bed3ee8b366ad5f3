//! Geometry values and the layout cache.
//!
//! `Point`, `Size`, `Layout` and `Element` are plain value types compared by
//! structural equality. `LayoutCache` keeps the last geometry published for
//! each selector and decides, on every layout pass, whether a fresh geometry
//! must be published again: only an absent or changed entry is.

use vstd::prelude::*;

use crate::key_mouse::ControlRequest;
use crate::registry::SelectorRegistry;
use crate::strmap::StrMap;

verus! {

/// A position in the host window, in device units.
#[derive(Clone, Copy, Debug, PartialEq, Eq, Structural)]
pub struct Point {
    pub x: i64,
    pub y: i64,
}

/// An extent in the host window, in device units.
#[derive(Clone, Copy, Debug, PartialEq, Eq, Structural)]
pub struct Size {
    pub w: i64,
    pub h: i64,
}

/// The geometry of one element: where it sits and how large it is.
#[derive(Clone, Copy, Debug, PartialEq, Eq, Structural)]
pub struct Layout {
    pub origin: Point,
    pub size: Size,
}

/// The unit stored in the layout cache and transmitted on change: the latest
/// known geometry of the element addressed by `selector`.
#[derive(Debug, PartialEq)]
pub struct Element {
    pub selector: String,
    pub layout: Layout,
}

impl Clone for Element {
    fn clone(&self) -> (r: Element)
        ensures
            r == *self,
    {
        Element { selector: self.selector.clone(), layout: self.layout }
    }
}

impl Default for Point {
    fn default() -> (r: Point)
        ensures
            r == (Point { x: 0, y: 0 }),
    {
        Point { x: 0, y: 0 }
    }
}

impl Default for Size {
    fn default() -> (r: Size)
        ensures
            r == (Size { w: 0, h: 0 }),
    {
        Size { w: 0, h: 0 }
    }
}

impl Default for Layout {
    fn default() -> (r: Layout)
        ensures
            r == (Layout { origin: Point { x: 0, y: 0 }, size: Size { w: 0, h: 0 } }),
    {
        Layout { origin: Point { x: 0, y: 0 }, size: Size { w: 0, h: 0 } }
    }
}

impl Default for Element {
    fn default() -> (r: Element)
        ensures
            r.selector@ == Seq::<char>::empty(),
            r.layout == (Layout { origin: Point { x: 0, y: 0 }, size: Size { w: 0, h: 0 } }),
    {
        Element { selector: String::new(), layout: Layout::default() }
    }
}

/// Whether a fresh geometry for `selector` must be published against what the
/// cache holds: yes unless the cache already holds exactly this geometry.
pub open spec fn should_publish(
    cache: Map<Seq<char>, Layout>,
    selector: Seq<char>,
    layout: Layout,
) -> bool {
    !(cache.contains_key(selector) && cache[selector] == layout)
}

/// The last geometry published for each selector. Layout passes fire far more
/// often than geometry changes; diffing against this cache keeps the
/// control-plane link from being flooded with identical updates.
pub struct LayoutCache {
    entries: StrMap<Layout>,
}

impl View for LayoutCache {
    type V = Map<Seq<char>, Layout>;

    closed spec fn view(&self) -> Map<Seq<char>, Layout> {
        self.entries@
    }
}

impl LayoutCache {
    pub closed spec fn wf(&self) -> bool {
        self.entries.wf()
    }

    pub fn new() -> (r: Self)
        ensures
            r.wf(),
            r@ == Map::<Seq<char>, Layout>::empty(),
    {
        LayoutCache { entries: StrMap::new() }
    }

    /// Takes one element's fresh geometry from a layout pass. An identity
    /// that was never wrapped is silently dropped. Otherwise the geometry is
    /// diffed against the cached entry for its selector: if absent or
    /// different, the cache is overwritten and the publishing request is
    /// returned; if identical, nothing is published.
    pub fn update_layout(
        &mut self,
        registry: &SelectorRegistry,
        id: u64,
        origin: Point,
        size: Size,
    ) -> (r: Option<ControlRequest>)
        requires
            old(self).wf(),
        ensures
            final(self).wf(),
            !registry@.contains_key(id) ==> r is None && final(self)@ == old(self)@,
            registry@.contains_key(id) ==> ({
                let selector = registry@[id];
                let layout = (Layout { origin, size });
                &&& final(self)@ == old(self)@.insert(selector@, layout)
                &&& (should_publish(old(self)@, selector@, layout) ==> r == Some(
                    ControlRequest::UpdateLayout(Element { selector, layout }),
                ))
                &&& (!should_publish(old(self)@, selector@, layout) ==> r is None)
            }),
    {
        match registry.lookup(id) {
            None => None,
            Some(selector) => {
                let layout = Layout { origin, size };
                let publish = match self.entries.get(&selector) {
                    Some(prev) => *prev != layout,
                    None => true,
                };
                let r = if publish {
                    Some(ControlRequest::UpdateLayout(Element { selector: selector.clone(), layout }))
                } else {
                    None
                };
                self.entries.insert(selector, layout);
                r
            },
        }
    }

    /// The cached geometry for `selector`, or nothing if no layout pass has
    /// reported that selector yet.
    pub fn get_layout(&self, selector: &String) -> (r: Option<Layout>)
        requires
            self.wf(),
        ensures
            self@.contains_key(selector@) ==> r == Some(self@[selector@]),
            !self@.contains_key(selector@) ==> r is None,
    {
        match self.entries.get(selector) {
            Some(layout) => Some(*layout),
            None => None,
        }
    }
}

/// A selector no layout pass has reported yet is always published.
pub proof fn lemma_first_update_publishes(
    cache: Map<Seq<char>, Layout>,
    selector: Seq<char>,
    layout: Layout,
)
    requires
        !cache.contains_key(selector),
    ensures
        should_publish(cache, selector, layout),
{
}

/// Diff correctness, unchanged case: once a geometry is cached, the same
/// geometry is never published again, however often layout passes repeat it.
pub proof fn lemma_no_republish(cache: Map<Seq<char>, Layout>, selector: Seq<char>, layout: Layout)
    ensures
        !should_publish(cache.insert(selector, layout), selector, layout),
{
}

/// Diff correctness, changed case: a geometry differing from the cached one
/// in any field is published.
pub proof fn lemma_changed_publishes(
    cache: Map<Seq<char>, Layout>,
    selector: Seq<char>,
    cached: Layout,
    fresh: Layout,
)
    requires
        fresh != cached,
    ensures
        should_publish(cache.insert(selector, cached), selector, fresh),
{
}

} // verus!
