//! The space: where each mapped window is on screen, and which window is
//! drawn above which.

use vstd::prelude::*;
use crate::geometry::{Point, Rect};
use crate::ids::WindowId;

verus! {

/// A window's place in the space.
#[derive(Debug, Clone, Copy, PartialEq, Eq, Hash, Structural)]
pub struct SpaceElement {
    pub window: WindowId,
    pub geometry: Rect,
}

/// The mapped windows with their geometry, bottom-most first.
#[derive(Debug)]
pub struct Space {
    pub elements: Vec<SpaceElement>,
}

/// The space as a mathematical value.
#[verifier::ext_equal]
pub struct SpaceView {
    pub elements: Seq<SpaceElement>,
}

impl View for Space {
    type V = SpaceView;

    open spec fn view(&self) -> SpaceView {
        SpaceView { elements: self.elements@ }
    }
}

impl SpaceView {
    /// The space with nothing in it.
    pub open spec fn empty() -> SpaceView {
        SpaceView { elements: Seq::empty() }
    }

    /// The entries of `window`, bottom-most first.
    pub open spec fn entries(self, window: WindowId) -> Seq<SpaceElement> {
        self.elements.filter(|e: SpaceElement| e.window == window)
    }

    /// Whether `window` is mapped.
    pub open spec fn contains(self, window: WindowId) -> bool {
        self.entries(window).len() > 0
    }

    /// The geometry recorded for `window`.
    pub open spec fn element_geometry(self, window: WindowId) -> Option<Rect> {
        if self.contains(window) {
            Some(self.entries(window)[0].geometry)
        } else {
            None
        }
    }

    /// The location recorded for `window`.
    pub open spec fn element_location(self, window: WindowId) -> Option<Point> {
        match self.element_geometry(window) {
            Some(geometry) => Some(geometry.loc),
            None => None,
        }
    }

    /// The space without `window`.
    pub open spec fn unmapped(self, window: WindowId) -> SpaceView {
        SpaceView { elements: self.elements.filter(|e: SpaceElement| e.window != window) }
    }

    /// The space with `window` at `geometry`, on top of all others.
    pub open spec fn mapped(self, window: WindowId, geometry: Rect) -> SpaceView {
        SpaceView { elements: self.unmapped(window).elements.push(SpaceElement { window, geometry }) }
    }

    /// The space with `window`, if it is mapped, on top of all others.
    pub open spec fn raised(self, window: WindowId) -> SpaceView {
        match self.element_geometry(window) {
            Some(geometry) => self.mapped(window, geometry),
            None => self,
        }
    }

    /// The space with `window`, if it is mapped, moved to `loc` and on top
    /// of all others.
    pub open spec fn moved(self, window: WindowId, loc: Point) -> SpaceView {
        match self.element_geometry(window) {
            Some(geometry) => self.mapped(window, Rect { loc, size: geometry.size }),
            None => self,
        }
    }

    /// The mapped windows, bottom-most first.
    pub open spec fn windows(self) -> Seq<WindowId> {
        self.elements.map_values(|e: SpaceElement| e.window)
    }
}

impl Space {
    /// A space with nothing in it.
    pub fn new() -> (space: Space)
        ensures
            space@ == SpaceView::empty(),
    {
        Space { elements: Vec::new() }
    }

    /// The geometry recorded for `window`.
    pub fn element_geometry(&self, window: WindowId) -> (geometry: Option<Rect>)
        ensures
            geometry == self@.element_geometry(window),
    {
        let ghost pred = |e: SpaceElement| e.window == window;
        let mut i: usize = 0;
        while i < self.elements.len()
            invariant
                i <= self.elements.len(),
                pred == |e: SpaceElement| e.window == window,
                self.elements@.subrange(0, i as int).filter(pred).len() == 0,
            decreases self.elements.len() - i,
        {
            proof {
                let next = self.elements@.subrange(0, i + 1);
                assert(next.drop_last() == self.elements@.subrange(0, i as int));
                reveal(Seq::filter);
            }
            if self.elements[i].window == window {
                proof {
                    let head = self.elements@.subrange(0, i + 1);
                    let tail = self.elements@.subrange(i + 1, self.elements@.len() as int);
                    assert(self.elements@ == head + tail);
                    Seq::filter_distributes_over_add(head, tail, pred);
                    assert(head.filter(pred) == seq![self.elements@[i as int]]);
                }
                return Some(self.elements[i].geometry);
            }
            i = i + 1;
        }
        assert(self.elements@.subrange(0, i as int) == self.elements@);
        None
    }

    /// The location recorded for `window`.
    pub fn element_location(&self, window: WindowId) -> (loc: Option<Point>)
        ensures
            loc == self@.element_location(window),
    {
        match self.element_geometry(window) {
            Some(geometry) => Some(geometry.loc),
            None => None,
        }
    }

    /// Takes `window` out of the space.
    pub fn unmap_elem(&mut self, window: WindowId)
        ensures
            final(self)@ == old(self)@.unmapped(window),
    {
        let ghost pred = |e: SpaceElement| e.window != window;
        let mut kept: Vec<SpaceElement> = Vec::new();
        let mut i: usize = 0;
        while i < self.elements.len()
            invariant
                i <= self.elements.len(),
                self.elements@ == old(self).elements@,
                pred == |e: SpaceElement| e.window != window,
                kept@ == self.elements@.subrange(0, i as int).filter(pred),
            decreases self.elements.len() - i,
        {
            proof {
                let next = self.elements@.subrange(0, i + 1);
                assert(next.drop_last() == self.elements@.subrange(0, i as int));
                reveal(Seq::filter);
            }
            if self.elements[i].window != window {
                kept.push(self.elements[i]);
            }
            i = i + 1;
        }
        assert(self.elements@.subrange(0, i as int) == self.elements@);
        self.elements = kept;
    }

    /// Puts `window` at `geometry`, on top of all others.
    pub fn map_element(&mut self, window: WindowId, geometry: Rect)
        ensures
            final(self)@ == old(self)@.mapped(window, geometry),
    {
        self.unmap_elem(window);
        self.elements.push(SpaceElement { window, geometry });
    }

    /// Puts `window`, if it is mapped, on top of all others.
    pub fn raise_element(&mut self, window: WindowId)
        ensures
            final(self)@ == old(self)@.raised(window),
    {
        match self.element_geometry(window) {
            Some(geometry) => self.map_element(window, geometry),
            None => {},
        }
    }

    /// Moves `window`, if it is mapped, to `loc` and puts it on top of all
    /// others.
    pub fn move_element(&mut self, window: WindowId, loc: Point)
        ensures
            final(self)@ == old(self)@.moved(window, loc),
    {
        match self.element_geometry(window) {
            Some(geometry) => self.map_element(window, Rect { loc, size: geometry.size }),
            None => {},
        }
    }
}

/// A window that was just mapped is recorded once, at the geometry it was
/// mapped at, and is on top; every other window keeps its geometry.
pub proof fn mapping_records_geometry(space: SpaceView, window: WindowId, geometry: Rect, other: WindowId)
    ensures
        space.mapped(window, geometry).element_geometry(window) == Some(geometry),
        space.mapped(window, geometry).entries(window).len() == 1,
        space.mapped(window, geometry).elements.last().window == window,
        other != window ==> space.mapped(window, geometry).element_geometry(other) == space.element_geometry(
            other,
        ),
{
    let is_window = |e: SpaceElement| e.window == window;
    let not_window = |e: SpaceElement| e.window != window;
    let is_other = |e: SpaceElement| e.window == other;
    let rest = space.elements.filter(not_window);
    let entry = SpaceElement { window, geometry };
    assert(rest.push(entry).drop_last() == rest);
    reveal(Seq::filter);
    unmapped_has_no_entry(space.elements, window);
    assert(rest.push(entry).filter(is_window) == rest.filter(is_window).push(entry));
    if other != window {
        unmapping_keeps_others(space.elements, window, other);
        assert(rest.push(entry).filter(is_other) == rest.filter(is_other));
    }
}

/// A list from which a window was taken holds no entry of it.
pub proof fn unmapped_has_no_entry(elements: Seq<SpaceElement>, window: WindowId)
    ensures
        elements.filter(|e: SpaceElement| e.window != window).filter(
            |e: SpaceElement| e.window == window,
        ).len() == 0,
    decreases elements.len(),
{
    let not_window = |e: SpaceElement| e.window != window;
    let is_window = |e: SpaceElement| e.window == window;
    reveal(Seq::filter);
    if elements.len() > 0 {
        unmapped_has_no_entry(elements.drop_last(), window);
        let rest = elements.drop_last().filter(not_window);
        if not_window(elements.last()) {
            assert(rest.push(elements.last()).drop_last() == rest);
        }
    }
}

/// Taking one window out of a list leaves the entries of another untouched.
pub proof fn unmapping_keeps_others(elements: Seq<SpaceElement>, window: WindowId, other: WindowId)
    requires
        other != window,
    ensures
        elements.filter(|e: SpaceElement| e.window != window).filter(|e: SpaceElement| e.window == other)
            == elements.filter(|e: SpaceElement| e.window == other),
    decreases elements.len(),
{
    let not_window = |e: SpaceElement| e.window != window;
    let is_other = |e: SpaceElement| e.window == other;
    reveal(Seq::filter);
    if elements.len() > 0 {
        unmapping_keeps_others(elements.drop_last(), window, other);
        let rest = elements.drop_last().filter(not_window);
        if not_window(elements.last()) {
            assert(rest.push(elements.last()).drop_last() == rest);
        }
    }
}

} // verus!
