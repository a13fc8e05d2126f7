//! Interactive moves and resizes: what a grab is, and which edges a resize
//! takes hold of.

use vstd::prelude::*;
use crate::consistency::is_consistent;
use crate::effect::Effect;
use crate::geometry::{saturate, saturated, Point, Rect, Size};
use crate::ids::{contains_id, WindowId};
use crate::layout::views;
use crate::lookup::{first_index, first_is_unique, none_is_first};
use crate::space::SpaceElement;
use crate::state::{find_window, output_views, window_index, State, StateView, Step};
use crate::window::{FloatingOrTiled, WindowResizeState, WindowView};

verus! {

/// The edges of a window that a resize takes hold of.
#[derive(Debug, Clone, Copy, PartialEq, Eq, Hash, Structural)]
pub enum ResizeEdge {
    /// No edge: the pointer is not over the window.
    NoEdge,
    TopLeft,
    TopRight,
    BottomLeft,
    BottomRight,
}

impl ResizeEdge {
    /// Whether the left edge is among the edges.
    pub open spec fn spec_has_left(self) -> bool {
        self is TopLeft || self is BottomLeft
    }

    /// Whether the left edge is among the edges.
    #[verifier::when_used_as_spec(spec_has_left)]
    pub fn has_left(self) -> (b: bool)
        ensures
            b == self.spec_has_left(),
    {
        match self {
            ResizeEdge::TopLeft => true,
            ResizeEdge::BottomLeft => true,
            _ => false,
        }
    }

    /// Whether the right edge is among the edges.
    pub open spec fn spec_has_right(self) -> bool {
        self is TopRight || self is BottomRight
    }

    /// Whether the right edge is among the edges.
    #[verifier::when_used_as_spec(spec_has_right)]
    pub fn has_right(self) -> (b: bool)
        ensures
            b == self.spec_has_right(),
    {
        match self {
            ResizeEdge::TopRight => true,
            ResizeEdge::BottomRight => true,
            _ => false,
        }
    }

    /// Whether the top edge is among the edges.
    pub open spec fn spec_has_top(self) -> bool {
        self is TopLeft || self is TopRight
    }

    /// Whether the top edge is among the edges.
    #[verifier::when_used_as_spec(spec_has_top)]
    pub fn has_top(self) -> (b: bool)
        ensures
            b == self.spec_has_top(),
    {
        match self {
            ResizeEdge::TopLeft => true,
            ResizeEdge::TopRight => true,
            _ => false,
        }
    }

    /// Whether the bottom edge is among the edges.
    pub open spec fn spec_has_bottom(self) -> bool {
        self is BottomLeft || self is BottomRight
    }

    /// Whether the bottom edge is among the edges.
    #[verifier::when_used_as_spec(spec_has_bottom)]
    pub fn has_bottom(self) -> (b: bool)
        ensures
            b == self.spec_has_bottom(),
    {
        match self {
            ResizeEdge::BottomLeft => true,
            ResizeEdge::BottomRight => true,
            _ => false,
        }
    }
}

/// Whether `at` lies between `from` and `from + extent / 2`, both included.
/// The comparison is made on doubled numbers, so that the middle of an odd
/// extent is met exactly.
pub open spec fn in_first_half(at: int, from: int, extent: int) -> bool {
    2 * from <= 2 * at <= 2 * from + extent
}

/// Whether `at` lies between `from + extent / 2` and `from + extent`, both
/// included.
pub open spec fn in_second_half(at: int, from: int, extent: int) -> bool {
    2 * from + extent <= 2 * at <= 2 * from + 2 * extent
}

/// The corner of `window` that a resize started with the pointer at
/// `pointer` takes hold of.
///
/// The window is cut into four quadrants by the vertical and the horizontal
/// line through its middle. Each quadrant includes its border, and a pointer
/// on a border that two quadrants share belongs to the one listed first:
/// top-left, top-right, bottom-left, bottom-right. A pointer outside the
/// window takes hold of nothing.
pub open spec fn resize_edge_at(pointer: Point, window: Rect) -> ResizeEdge {
    let left = in_first_half(pointer.x as int, window.loc.x as int, window.size.w as int);
    let right = in_second_half(pointer.x as int, window.loc.x as int, window.size.w as int);
    let top = in_first_half(pointer.y as int, window.loc.y as int, window.size.h as int);
    let bottom = in_second_half(pointer.y as int, window.loc.y as int, window.size.h as int);
    if left && top {
        ResizeEdge::TopLeft
    } else if right && top {
        ResizeEdge::TopRight
    } else if left && bottom {
        ResizeEdge::BottomLeft
    } else if right && bottom {
        ResizeEdge::BottomRight
    } else {
        ResizeEdge::NoEdge
    }
}

/// Computes [`resize_edge_at`].
pub fn resize_edge(pointer: Point, window: Rect) -> (edge: ResizeEdge)
    ensures
        edge == resize_edge_at(pointer, window),
{
    let px: i64 = 2 * (pointer.x as i64);
    let py: i64 = 2 * (pointer.y as i64);
    let x: i64 = 2 * (window.loc.x as i64);
    let y: i64 = 2 * (window.loc.y as i64);
    let w: i64 = window.size.w as i64;
    let h: i64 = window.size.h as i64;
    let left = x <= px && px <= x + w;
    let right = x + w <= px && px <= x + 2 * w;
    let top = y <= py && py <= y + h;
    let bottom = y + h <= py && py <= y + 2 * h;
    if left && top {
        ResizeEdge::TopLeft
    } else if right && top {
        ResizeEdge::TopRight
    } else if left && bottom {
        ResizeEdge::BottomLeft
    } else if right && bottom {
        ResizeEdge::BottomRight
    } else {
        ResizeEdge::NoEdge
    }
}

/// What a grab does with the pointer's motion.
#[derive(Debug, Clone, Copy, PartialEq, Eq, Hash, Structural)]
pub enum GrabKind {
    /// The window follows the pointer. `initial_loc` is where the window
    /// was when the grab began.
    Move { initial_loc: Point },
    /// The edges of the window follow the pointer. `initial_rect` is the
    /// window's geometry when the grab began.
    Resize { edges: ResizeEdge, initial_rect: Rect },
}

/// An interactive move or resize in progress.
#[derive(Debug, Clone, Copy, PartialEq, Eq, Hash, Structural)]
pub struct Grab {
    /// The window that is moved or resized.
    pub window: WindowId,
    /// The button that began the grab, and whose release ends it.
    pub button: u32,
    /// Where the pointer was when the grab began.
    pub pointer_start: Point,
    pub kind: GrabKind,
}

/// A pointer in the exact middle of a window takes hold of the top-left
/// corner, and so does a pointer on the window's top-left corner. The
/// middle is a pixel where both extents are even.
pub proof fn middle_resolves_to_top_left(window: Rect, middle: Point)
    requires
        window.size.w >= 0,
        window.size.h >= 0,
        2 * middle.x == 2 * window.loc.x + window.size.w,
        2 * middle.y == 2 * window.loc.y + window.size.h,
    ensures
        resize_edge_at(middle, window) == ResizeEdge::TopLeft,
        resize_edge_at(window.loc, window) == ResizeEdge::TopLeft,
{
}

/// A pointer outside a window, on any side, takes hold of no edge; a pointer
/// within the window, borders included, takes hold of a corner.
pub proof fn outside_resolves_to_no_edge(pointer: Point, window: Rect)
    requires
        window.size.w >= 0,
        window.size.h >= 0,
    ensures
        resize_edge_at(pointer, window) is NoEdge <==> (pointer.x < window.loc.x || pointer.x > window.loc.x
            + window.size.w || pointer.y < window.loc.y || pointer.y > window.loc.y + window.size.h),
{
}

/// The button that a client is taken to hold when it asks for a move or a
/// resize itself.
pub const BUTTON_LEFT: u32 = 0x110;

/// A width or height brought into the range from 1 to the largest `i32`.
pub open spec fn clamp_extent(v: int) -> i32 {
    if v < 1 {
        1
    } else if v > i32::MAX {
        i32::MAX
    } else {
        v as i32
    }
}

/// The geometry of a window that is being resized by `edges`, began the
/// grab at `initial`, and whose pointer has since moved by `delta`.
///
/// An edge that is held follows the pointer, the opposite edge stays where
/// it was, and neither extent shrinks below 1.
pub open spec fn resized_rect(initial: Rect, edges: ResizeEdge, delta: Point) -> Rect {
    let w = clamp_extent(
        if edges.spec_has_left() {
            initial.size.w - delta.x
        } else if edges.spec_has_right() {
            initial.size.w + delta.x
        } else {
            initial.size.w as int
        },
    );
    let h = clamp_extent(
        if edges.spec_has_top() {
            initial.size.h - delta.y
        } else if edges.spec_has_bottom() {
            initial.size.h + delta.y
        } else {
            initial.size.h as int
        },
    );
    Rect {
        loc: Point {
            x: if edges.spec_has_left() {
                saturate(initial.loc.x + initial.size.w - w)
            } else {
                initial.loc.x
            },
            y: if edges.spec_has_top() {
                saturate(initial.loc.y + initial.size.h - h)
            } else {
                initial.loc.y
            },
        },
        size: Size { w, h },
    }
}

/// Brings a width or height into the range from 1 to the largest `i32`.
fn clamp(v: i64) -> (clamped: i32)
    ensures
        clamped == clamp_extent(v as int),
{
    if v < 1 {
        1
    } else if v > i32::MAX as i64 {
        i32::MAX
    } else {
        v as i32
    }
}

/// Computes [`resized_rect`].
pub fn resize_rect(initial: Rect, edges: ResizeEdge, delta: Point) -> (rect: Rect)
    ensures
        rect == resized_rect(initial, edges, delta),
{
    let w = clamp(
        if edges.has_left() {
            initial.size.w as i64 - delta.x as i64
        } else if edges.has_right() {
            initial.size.w as i64 + delta.x as i64
        } else {
            initial.size.w as i64
        },
    );
    let h = clamp(
        if edges.has_top() {
            initial.size.h as i64 - delta.y as i64
        } else if edges.has_bottom() {
            initial.size.h as i64 + delta.y as i64
        } else {
            initial.size.h as i64
        },
    );
    Rect {
        loc: Point {
            x: if edges.has_left() {
                saturated(initial.loc.x as i64 + initial.size.w as i64 - w as i64)
            } else {
                initial.loc.x
            },
            y: if edges.has_top() {
                saturated(initial.loc.y as i64 + initial.size.h as i64 - h as i64)
            } else {
                initial.loc.y
            },
        },
        size: Size { w, h },
    }
}

impl StateView {
    /// The topmost entry of the space that `point` lies in.
    pub open spec fn element_under(self, point: Point) -> Option<SpaceElement> {
        match first_index(self.space.elements.reverse(), |e: SpaceElement| e.geometry.spec_contains(point)) {
            Some(i) => Some(self.space.elements.reverse()[i]),
            None => None,
        }
    }

    /// The state in which a grab on the window `id` has begun with
    /// `button`, if the seat has a pointer and the window is mapped. The
    /// grab resizes by `resize` if that names edges, and moves otherwise.
    pub open spec fn with_grab_on(self, id: WindowId, button: u32, resize: Option<ResizeEdge>) -> StateView {
        match (self.pointer, self.space.element_geometry(id), window_index(self.windows, id)) {
            (Some(pointer), Some(geometry), Some(_)) => StateView {
                grab: Some(
                    Grab {
                        window: id,
                        button,
                        pointer_start: pointer,
                        kind: match resize {
                            Some(edges) => GrabKind::Resize { edges, initial_rect: geometry },
                            None => GrabKind::Move { initial_loc: geometry.loc },
                        },
                    },
                ),
                ..self
            },
            _ => self,
        }
    }

    /// Whether a layer surface hides what is at `point` from the pointer.
    pub open spec fn layer_covers(self, point: Point) -> bool {
        exists|i: int| 0 <= i < self.outputs.len() && (#[trigger] self.outputs[i]).layer_covers(point)
    }

    /// The window under the pointer at `point` that a grab can take, with
    /// the geometry it has in the space.
    ///
    /// There is none if a layer surface above the windows is under the
    /// pointer, if no window is, or if the topmost window there cannot be
    /// moved or resized: an override-redirect surface places itself.
    pub open spec fn grabbable_under(self, point: Point) -> Option<SpaceElement> {
        if self.layer_covers(point) {
            None
        } else {
            match self.element_under(point) {
                Some(under) => match window_index(self.windows, under.window) {
                    Some(index) => if self.windows[index].is_x11_override_redirect() {
                        None
                    } else {
                        Some(under)
                    },
                    None => None,
                },
                None => None,
            }
        }
    }

    /// The state after a move was asked for with `button` held: the window
    /// under the pointer is grabbed. No grab begins if the seat has no
    /// pointer, if no window is under the pointer, or if the window there
    /// cannot be moved.
    pub open spec fn with_move_grab(self, button: u32) -> StateView {
        match self.pointer {
            Some(pointer) => match self.grabbable_under(pointer) {
                Some(under) => StateView {
                    grab: Some(
                        Grab {
                            window: under.window,
                            button,
                            pointer_start: pointer,
                            kind: GrabKind::Move { initial_loc: under.geometry.loc },
                        },
                    ),
                    ..self
                },
                None => self,
            },
            None => self,
        }
    }

    /// The state after a resize was asked for with `button` held: the window
    /// under the pointer is grabbed by the corner of the quadrant that the
    /// pointer is in. No grab begins if the seat has no pointer, if no
    /// window is under the pointer, or if the window there cannot be
    /// resized.
    pub open spec fn with_resize_grab(self, button: u32) -> StateView {
        match self.pointer {
            Some(pointer) => match self.grabbable_under(pointer) {
                Some(under) => StateView {
                    grab: Some(
                        Grab {
                            window: under.window,
                            button,
                            pointer_start: pointer,
                            kind: GrabKind::Resize {
                                edges: resize_edge_at(pointer, under.geometry),
                                initial_rect: under.geometry,
                            },
                        },
                    ),
                    ..self
                },
                None => self,
            },
            None => self,
        }
    }

    /// The state after the button `button` was released: a grab that began
    /// with it ends, and the window stays where the last motion put it.
    pub open spec fn with_button_released(self, button: u32) -> StateView {
        match self.grab {
            Some(grab) => if grab.button == button {
                StateView { grab: None, ..self }
            } else {
                self
            },
            None => self,
        }
    }

    /// The state after the grabbed window at `index` was moved to `loc`.
    ///
    /// The space has the window there, on top; but a window that has a
    /// request open, or that is blocked, stays where it is, and goes there
    /// with the commit that finds it free. A floating window floats there
    /// from now on.
    pub open spec fn moved_by_grab(self, index: int, loc: Point) -> StateView {
        let window = self.windows[index];
        let floated = match window.floating_or_tiled {
            FloatingOrTiled::Floating(rect) => window.with_rect(Rect { loc, size: rect.size }),
            _ => window,
        };
        if window.resize_state is Requested || self.batch.blocked.contains(window.id) {
            self.with_window(index, WindowView { target_loc: Some(loc), ..floated })
        } else {
            StateView { space: self.space.moved(window.id, loc), ..self.with_window(index, floated) }
        }
    }

    /// The step in which the grabbed window at `index` is resized to `rect`:
    /// it is asked to take the rectangle, and a floating window floats there
    /// from now on.
    pub open spec fn resized_by_grab(self, index: int, rect: Rect) -> Step {
        let window = self.windows[index];
        self.with_window(
            index,
            if window.floating_or_tiled.spec_is_floating() {
                window.with_rect(rect)
            } else {
                window
            },
        ).requested(index, rect)
    }

    /// The step taken when the pointer moves to `location`.
    ///
    /// Without a grab only the pointer moves. A window grabbed for a move
    /// goes where it was at the start plus what the pointer has moved since,
    /// at once or, if it has a request open or is blocked, with the commit
    /// that finds it free.
    /// A window grabbed for a resize is asked to take the geometry that
    /// follows from the pointer's movement. A grab on a window that is gone
    /// moves nothing.
    pub open spec fn pointer_moved(self, location: Point) -> Step {
        match self.pointer {
            Some(_) => {
                let here = StateView { pointer: Some(location), ..self };
                match self.grab {
                    Some(grab) => match window_index(self.windows, grab.window) {
                        Some(index) => {
                            let delta = location.spec_minus(grab.pointer_start);
                            match grab.kind {
                                GrabKind::Move { initial_loc } => here.moved_by_grab(
                                    index,
                                    initial_loc.spec_plus(delta),
                                ).unchanged(),
                                GrabKind::Resize { edges, initial_rect } => here.resized_by_grab(
                                    index,
                                    resized_rect(initial_rect, edges, delta),
                                ),
                            }
                        },
                        None => here.unchanged(),
                    },
                    None => here.unchanged(),
                }
            },
            None => self.unchanged(),
        }
    }
}

impl State {
    /// The topmost entry of the space that `point` lies in.
    pub fn element_under(&self, point: Point) -> (under: Option<SpaceElement>)
        ensures
            under == self@.element_under(point),
    {
        let ghost pred = |e: SpaceElement| e.geometry.spec_contains(point);
        let ghost reversed = self.space.elements@.reverse();
        let len = self.space.elements.len();
        let mut i: usize = len;
        while i > 0
            invariant
                i <= len,
                len == self.space.elements.len(),
                reversed == self.space.elements@.reverse(),
                pred == |e: SpaceElement| e.geometry.spec_contains(point),
                forall|k: int| 0 <= k < len - i ==> !pred(#[trigger] reversed[k]),
            decreases i,
        {
            i = i - 1;
            let element = self.space.elements[i];
            assert(reversed[len - 1 - i] == element);
            if element.geometry.contains(point) {
                proof {
                    first_is_unique(reversed, pred, len - 1 - i);
                }
                return Some(element);
            }
        }
        proof {
            none_is_first(reversed, pred);
        }
        None
    }

    /// Whether a layer surface hides what is at `point` from the pointer.
    pub fn layer_covers(&self, point: Point) -> (covered: bool)
        ensures
            covered == self@.layer_covers(point),
    {
        let mut i: usize = 0;
        while i < self.outputs.len()
            invariant
                i <= self.outputs.len(),
                forall|k: int| 0 <= k < i ==> !(#[trigger] self@.outputs[k]).layer_covers(point),
            decreases self.outputs.len() - i,
        {
            assert(output_views(self.outputs@)[i as int] == self.outputs@[i as int]@);
            if self.outputs[i].layer_covers(point) {
                assert(self@.outputs[i as int].layer_covers(point));
                return true;
            }
            i = i + 1;
        }
        false
    }

    /// The window under the pointer at `point` that a grab can take.
    pub fn grabbable_under(&self, point: Point) -> (under: Option<SpaceElement>)
        ensures
            under == self@.grabbable_under(point),
    {
        if self.layer_covers(point) {
            return None;
        }
        match self.element_under(point) {
            Some(under) => match find_window(&self.windows, under.window) {
                Some(index) => {
                    assert(views(self.windows@)[index as int] == self.windows@[index as int]@);
                    if self.windows[index].is_x11_override_redirect() {
                        None
                    } else {
                        Some(under)
                    }
                },
                None => None,
            },
            None => None,
        }
    }

    /// Begins a move of the window under the pointer, with `button` held.
    pub fn move_grab(&mut self, button: u32)
        ensures
            final(self)@ == old(self)@.with_move_grab(button),
            is_consistent(old(self)@) ==> is_consistent(final(self)@),
    {
        match self.pointer {
            Some(pointer) => match self.grabbable_under(pointer) {
                Some(under) => {
                    self.grab = Some(
                        Grab {
                            window: under.window,
                            button,
                            pointer_start: pointer,
                            kind: GrabKind::Move { initial_loc: under.geometry.loc },
                        },
                    );
                },
                None => {},
            },
            None => {},
        }
    }

    /// Begins a resize of the window under the pointer, with `button` held.
    pub fn resize_grab(&mut self, button: u32)
        ensures
            final(self)@ == old(self)@.with_resize_grab(button),
            is_consistent(old(self)@) ==> is_consistent(final(self)@),
    {
        match self.pointer {
            Some(pointer) => match self.grabbable_under(pointer) {
                Some(under) => {
                    self.grab = Some(
                        Grab {
                            window: under.window,
                            button,
                            pointer_start: pointer,
                            kind: GrabKind::Resize {
                                edges: resize_edge(pointer, under.geometry),
                                initial_rect: under.geometry,
                            },
                        },
                    );
                },
                None => {},
            },
            None => {},
        }
    }

    /// Begins the move that the client of the window `id` asked for. The
    /// client is taken to hold the left button.
    pub fn move_request(&mut self, id: WindowId)
        ensures
            final(self)@ == old(self)@.with_grab_on(id, BUTTON_LEFT, None),
            is_consistent(old(self)@) ==> is_consistent(final(self)@),
    {
        match (self.pointer, self.space.element_geometry(id), find_window(&self.windows, id)) {
            (Some(pointer), Some(geometry), Some(_)) => {
                self.grab = Some(
                    Grab {
                        window: id,
                        button: BUTTON_LEFT,
                        pointer_start: pointer,
                        kind: GrabKind::Move { initial_loc: geometry.loc },
                    },
                );
            },
            _ => {},
        }
    }

    /// Begins the resize by `edges` that the client of the window `id` asked
    /// for. The client is taken to hold the left button.
    pub fn resize_request(&mut self, id: WindowId, edges: ResizeEdge)
        ensures
            final(self)@ == old(self)@.with_grab_on(id, BUTTON_LEFT, Some(edges)),
            is_consistent(old(self)@) ==> is_consistent(final(self)@),
    {
        match (self.pointer, self.space.element_geometry(id), find_window(&self.windows, id)) {
            (Some(pointer), Some(geometry), Some(_)) => {
                self.grab = Some(
                    Grab {
                        window: id,
                        button: BUTTON_LEFT,
                        pointer_start: pointer,
                        kind: GrabKind::Resize { edges, initial_rect: geometry },
                    },
                );
            },
            _ => {},
        }
    }

    /// Takes note that the button `button` was released.
    pub fn button_released(&mut self, button: u32)
        ensures
            final(self)@ == old(self)@.with_button_released(button),
            is_consistent(old(self)@) ==> is_consistent(final(self)@),
    {
        match self.grab {
            Some(grab) => {
                if grab.button == button {
                    self.grab = None;
                }
            },
            None => {},
        }
    }

    /// Moves the grabbed window at `index` to `loc`.
    pub(crate) fn move_grabbed(&mut self, index: usize, loc: Point)
        requires
            index < old(self).windows.len(),
        ensures
            final(self)@ == old(self)@.moved_by_grab(index as int, loc),
    {
        assert(views(self.windows@)[index as int] == self.windows@[index as int]@);
        let id = self.windows[index].id;
        let requested = match self.windows[index].resize_state {
            WindowResizeState::Requested(_, _) => true,
            _ => false,
        };
        if requested || contains_id(&self.batch.blocked, id) {
            self.windows[index].target_loc = Some(loc);
        } else {
            self.space.move_element(id, loc);
        }
        match self.windows[index].floating_or_tiled {
            FloatingOrTiled::Floating(rect) => {
                self.windows[index].floating_or_tiled = FloatingOrTiled::Floating(
                    Rect { loc, size: rect.size },
                );
            },
            _ => {},
        }
        assert(self@ =~= old(self)@.moved_by_grab(index as int, loc));
    }

    /// Resizes the grabbed window at `index` to `rect`.
    pub(crate) fn resize_grabbed(&mut self, index: usize, rect: Rect) -> (effect: Effect)
        requires
            index < old(self).windows.len(),
        ensures
            final(self)@ == old(self)@.resized_by_grab(index as int, rect).state,
            seq![effect] == old(self)@.resized_by_grab(index as int, rect).effects,
    {
        assert(views(self.windows@)[index as int] == self.windows@[index as int]@);
        if self.windows[index].floating_or_tiled.is_floating() {
            self.windows[index].floating_or_tiled = FloatingOrTiled::Floating(rect);
        }
        assert(self@ =~= old(self)@.with_window(
            index as int,
            if old(self)@.windows[index as int].floating_or_tiled.spec_is_floating() {
                old(self)@.windows[index as int].with_rect(rect)
            } else {
                old(self)@.windows[index as int]
            },
        ));
        self.request_resize_at(index, rect)
    }

    /// Takes note that the pointer moved to `location`, and lets the grab,
    /// if there is one, follow.
    pub fn pointer_motion(&mut self, location: Point) -> (effects: Vec<Effect>)
        ensures
            final(self)@ == old(self)@.pointer_moved(location).state,
            effects@ == old(self)@.pointer_moved(location).effects,
            is_consistent(old(self)@) ==> is_consistent(final(self)@),
    {
        proof {
            if is_consistent(old(self)@) {
                crate::consistency::motion_keeps_consistency(old(self)@, location);
            }
        }
        let mut effects: Vec<Effect> = Vec::new();
        if self.pointer.is_none() {
            return effects;
        }
        self.pointer = Some(location);
        let grab = match self.grab {
            Some(grab) => grab,
            None => {
                return effects;
            },
        };
        let index = match find_window(&self.windows, grab.window) {
            Some(index) => index,
            None => {
                return effects;
            },
        };
        let delta = location.minus(grab.pointer_start);
        match grab.kind {
            GrabKind::Move { initial_loc } => {
                self.move_grabbed(index, initial_loc.plus(delta));
            },
            GrabKind::Resize { edges, initial_rect } => {
                let effect = self.resize_grabbed(index, resize_rect(initial_rect, edges, delta));
                effects.push(effect);
            },
        }
        effects
    }
}

} // verus!
