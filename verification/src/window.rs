//! The window entity: one record per managed window, whatever kind of
//! surface stands behind it.

use vstd::prelude::*;
use crate::geometry::{Point, Rect, Size};
use crate::ids::{TagId, WindowId};
use crate::serial::Serial;

verus! {

/// The kind of surface behind a window.
#[derive(Debug, Clone, Copy, PartialEq, Eq, Hash, Structural)]
pub enum WindowSurface {
    /// A toplevel of the native protocol.
    Wayland,
    /// A surface of the compatibility layer. One that is override-redirect
    /// manages itself: it is neither closed nor focused from here.
    X11 { override_redirect: bool },
}

/// Whether a window floats or is tiled, with the rectangle that goes with it.
#[derive(Debug, Clone, Copy, PartialEq, Eq, Hash, Structural)]
pub enum FloatingOrTiled {
    /// The window floats at this rectangle.
    Floating(Rect),
    /// The window is tiled; the rectangle, if any, is the one to float at
    /// when the window floats next.
    Tiled(Option<Rect>),
}

impl FloatingOrTiled {
    /// Whether the window floats.
    pub open spec fn spec_is_floating(self) -> bool {
        self is Floating
    }

    /// Whether the window floats.
    #[verifier::when_used_as_spec(spec_is_floating)]
    pub fn is_floating(self) -> (b: bool)
        ensures
            b == (self is Floating),
    {
        match self {
            FloatingOrTiled::Floating(_) => true,
            FloatingOrTiled::Tiled(_) => false,
        }
    }

    /// The other mode. A floating window becomes tiled and remembers its
    /// rectangle; a tiled window floats at the rectangle it remembers, or at
    /// `current` if it remembers none.
    pub open spec fn spec_toggled(self, current: Rect) -> FloatingOrTiled {
        match self {
            FloatingOrTiled::Floating(rect) => FloatingOrTiled::Tiled(Some(rect)),
            FloatingOrTiled::Tiled(Some(rect)) => FloatingOrTiled::Floating(rect),
            FloatingOrTiled::Tiled(None) => FloatingOrTiled::Floating(current),
        }
    }

    /// The other mode. A floating window becomes tiled and remembers its
    /// rectangle; a tiled window floats at the rectangle it remembers, or at
    /// `current` if it remembers none.
    #[verifier::when_used_as_spec(spec_toggled)]
    pub fn toggled(self, current: Rect) -> (other: FloatingOrTiled)
        ensures
            other == self.spec_toggled(current),
    {
        match self {
            FloatingOrTiled::Floating(rect) => FloatingOrTiled::Tiled(Some(rect)),
            FloatingOrTiled::Tiled(Some(rect)) => FloatingOrTiled::Floating(rect),
            FloatingOrTiled::Tiled(None) => FloatingOrTiled::Floating(current),
        }
    }

    /// The same mode with `rect` as its rectangle.
    pub open spec fn spec_with_rect(self, rect: Rect) -> FloatingOrTiled {
        match self {
            FloatingOrTiled::Floating(_) => FloatingOrTiled::Floating(rect),
            FloatingOrTiled::Tiled(_) => FloatingOrTiled::Tiled(Some(rect)),
        }
    }

    /// The same mode with `rect` as its rectangle.
    #[verifier::when_used_as_spec(spec_with_rect)]
    pub fn with_rect(self, rect: Rect) -> (same: FloatingOrTiled)
        ensures
            same == self.spec_with_rect(rect),
    {
        match self {
            FloatingOrTiled::Floating(_) => FloatingOrTiled::Floating(rect),
            FloatingOrTiled::Tiled(_) => FloatingOrTiled::Tiled(Some(rect)),
        }
    }
}

/// Whether a window is fullscreen, maximized, or neither.
#[derive(Debug, Clone, Copy, PartialEq, Eq, Hash, Structural)]
pub enum FullscreenOrMaximized {
    Neither,
    Fullscreen,
    Maximized,
}

impl FullscreenOrMaximized {
    /// Whether the window is fullscreen.
    pub open spec fn spec_is_fullscreen(self) -> bool {
        self is Fullscreen
    }

    /// Whether the window is fullscreen.
    #[verifier::when_used_as_spec(spec_is_fullscreen)]
    pub fn is_fullscreen(self) -> (b: bool)
        ensures
            b == (self is Fullscreen),
    {
        match self {
            FullscreenOrMaximized::Fullscreen => true,
            _ => false,
        }
    }

    /// Whether the window is maximized.
    pub open spec fn spec_is_maximized(self) -> bool {
        self is Maximized
    }

    /// Whether the window is maximized.
    #[verifier::when_used_as_spec(spec_is_maximized)]
    pub fn is_maximized(self) -> (b: bool)
        ensures
            b == (self is Maximized),
    {
        match self {
            FullscreenOrMaximized::Maximized => true,
            _ => false,
        }
    }

    /// Fullscreen switched: off if it was on, on otherwise.
    pub open spec fn spec_toggled_fullscreen(self) -> FullscreenOrMaximized {
        if self is Fullscreen {
            FullscreenOrMaximized::Neither
        } else {
            FullscreenOrMaximized::Fullscreen
        }
    }

    /// Fullscreen switched: off if it was on, on otherwise.
    #[verifier::when_used_as_spec(spec_toggled_fullscreen)]
    pub fn toggled_fullscreen(self) -> (other: FullscreenOrMaximized)
        ensures
            other == self.spec_toggled_fullscreen(),
    {
        match self {
            FullscreenOrMaximized::Fullscreen => FullscreenOrMaximized::Neither,
            _ => FullscreenOrMaximized::Fullscreen,
        }
    }

    /// The maximized state switched: off if it was on, on otherwise.
    pub open spec fn spec_toggled_maximized(self) -> FullscreenOrMaximized {
        if self is Maximized {
            FullscreenOrMaximized::Neither
        } else {
            FullscreenOrMaximized::Maximized
        }
    }

    /// The maximized state switched: off if it was on, on otherwise.
    #[verifier::when_used_as_spec(spec_toggled_maximized)]
    pub fn toggled_maximized(self) -> (other: FullscreenOrMaximized)
        ensures
            other == self.spec_toggled_maximized(),
    {
        match self {
            FullscreenOrMaximized::Maximized => FullscreenOrMaximized::Neither,
            _ => FullscreenOrMaximized::Maximized,
        }
    }
}

/// Where a window stands in the negotiation of a new geometry.
#[derive(Debug, Clone, Copy, PartialEq, Eq, Hash, Structural)]
pub enum WindowResizeState {
    /// Nothing is being negotiated.
    Idle,
    /// The client was asked, in the configure with this serial, to take this
    /// geometry, and has not acknowledged it.
    Requested(Serial, Rect),
    /// The client has acknowledged the request for this geometry; the
    /// geometry takes effect with the client's next commit.
    Acknowledged(Rect),
}

impl WindowResizeState {
    /// The state after the client acknowledged the configure with `serial`.
    /// Only a request that is no newer than the acknowledged configure is
    /// settled by it.
    pub open spec fn spec_acked(self, serial: Serial) -> WindowResizeState {
        match self {
            WindowResizeState::Requested(requested, rect) => if serial.spec_is_no_older_than(
                requested,
            ) {
                WindowResizeState::Acknowledged(rect)
            } else {
                self
            },
            _ => self,
        }
    }

    /// The state after the client acknowledged the configure with `serial`.
    #[verifier::when_used_as_spec(spec_acked)]
    pub fn acked(self, serial: Serial) -> (next: WindowResizeState)
        ensures
            next == self.spec_acked(serial),
    {
        match self {
            WindowResizeState::Requested(requested, rect) => if serial.is_no_older_than(requested) {
                WindowResizeState::Acknowledged(rect)
            } else {
                self
            },
            _ => self,
        }
    }

    /// The geometry that the negotiation is heading for, if one is under way.
    pub open spec fn spec_target(self) -> Option<Rect> {
        match self {
            WindowResizeState::Idle => None,
            WindowResizeState::Requested(_, rect) => Some(rect),
            WindowResizeState::Acknowledged(rect) => Some(rect),
        }
    }

    /// The geometry that the negotiation is heading for, if one is under way.
    #[verifier::when_used_as_spec(spec_target)]
    pub fn target(self) -> (target: Option<Rect>)
        ensures
            target == self.spec_target(),
    {
        match self {
            WindowResizeState::Idle => None,
            WindowResizeState::Requested(_, rect) => Some(rect),
            WindowResizeState::Acknowledged(rect) => Some(rect),
        }
    }
}

/// A rectangle of which any part may be left open.
#[derive(Debug, Clone, Copy, PartialEq, Eq, Hash, Structural)]
pub struct Geometry {
    pub x: Option<i32>,
    pub y: Option<i32>,
    pub width: Option<i32>,
    pub height: Option<i32>,
}

impl Geometry {
    /// `rect` with every part that this geometry gives put in its place.
    pub open spec fn spec_merged_into(self, rect: Rect) -> Rect {
        Rect {
            loc: Point {
                x: if let Some(x) = self.x { x } else { rect.loc.x },
                y: if let Some(y) = self.y { y } else { rect.loc.y },
            },
            size: Size {
                w: if let Some(w) = self.width { w } else { rect.size.w },
                h: if let Some(h) = self.height { h } else { rect.size.h },
            },
        }
    }

    /// `rect` with every part that this geometry gives put in its place.
    #[verifier::when_used_as_spec(spec_merged_into)]
    pub fn merged_into(self, rect: Rect) -> (merged: Rect)
        ensures
            merged == self.spec_merged_into(rect),
    {
        Rect {
            loc: Point {
                x: match self.x {
                    Some(x) => x,
                    None => rect.loc.x,
                },
                y: match self.y {
                    Some(y) => y,
                    None => rect.loc.y,
                },
            },
            size: Size {
                w: match self.width {
                    Some(w) => w,
                    None => rect.size.w,
                },
                h: match self.height {
                    Some(h) => h,
                    None => rect.size.h,
                },
            },
        }
    }
}

/// A managed window.
#[derive(Debug)]
pub struct WindowElement {
    pub id: WindowId,
    pub surface: WindowSurface,
    pub class: Option<String>,
    pub title: Option<String>,
    pub floating_or_tiled: FloatingOrTiled,
    pub fullscreen_or_maximized: FullscreenOrMaximized,
    /// The tags the window is on. No tag occurs twice.
    pub tags: Vec<TagId>,
    pub resize_state: WindowResizeState,
    /// A location that takes effect with the client's next commit.
    pub target_loc: Option<Point>,
    /// Whether the window is drawn as the active one.
    pub activated: bool,
    /// Whether the client has been sent its first configure.
    pub initial_configure_sent: bool,
}

/// A window as a mathematical value.
#[verifier::ext_equal]
pub struct WindowView {
    pub id: WindowId,
    pub surface: WindowSurface,
    pub class: Option<Seq<char>>,
    pub title: Option<Seq<char>>,
    pub floating_or_tiled: FloatingOrTiled,
    pub fullscreen_or_maximized: FullscreenOrMaximized,
    pub tags: Seq<TagId>,
    pub resize_state: WindowResizeState,
    pub target_loc: Option<Point>,
    pub activated: bool,
    pub initial_configure_sent: bool,
}

/// The characters of a string that may be absent.
pub open spec fn text_view(text: Option<String>) -> Option<Seq<char>> {
    match text {
        Some(s) => Some(s@),
        None => None,
    }
}

impl View for WindowElement {
    type V = WindowView;

    open spec fn view(&self) -> WindowView {
        WindowView {
            id: self.id,
            surface: self.surface,
            class: text_view(self.class),
            title: text_view(self.title),
            floating_or_tiled: self.floating_or_tiled,
            fullscreen_or_maximized: self.fullscreen_or_maximized,
            tags: self.tags@,
            resize_state: self.resize_state,
            target_loc: self.target_loc,
            activated: self.activated,
            initial_configure_sent: self.initial_configure_sent,
        }
    }
}

impl WindowView {
    /// A window as it is created: tiled, on no tag, with nothing negotiated
    /// and nothing sent.
    pub open spec fn created(id: WindowId, surface: WindowSurface) -> WindowView {
        WindowView {
            id,
            surface,
            class: None,
            title: None,
            floating_or_tiled: FloatingOrTiled::Tiled(None),
            fullscreen_or_maximized: FullscreenOrMaximized::Neither,
            tags: Seq::empty(),
            resize_state: WindowResizeState::Idle,
            target_loc: None,
            activated: false,
            initial_configure_sent: false,
        }
    }

    /// Whether the window is an override-redirect surface of the
    /// compatibility layer.
    pub open spec fn is_x11_override_redirect(self) -> bool {
        self.surface matches WindowSurface::X11 { override_redirect } && override_redirect
    }

    /// The window switched between floating and tiled; `current` is the
    /// window's geometry at the time.
    pub open spec fn toggled_floating(self, current: Rect) -> WindowView {
        WindowView { floating_or_tiled: self.floating_or_tiled.spec_toggled(current), ..self }
    }

    /// The window with fullscreen switched.
    pub open spec fn toggled_fullscreen(self) -> WindowView {
        WindowView {
            fullscreen_or_maximized: self.fullscreen_or_maximized.spec_toggled_fullscreen(),
            ..self
        }
    }

    /// The window with the maximized state switched.
    pub open spec fn toggled_maximized(self) -> WindowView {
        WindowView {
            fullscreen_or_maximized: self.fullscreen_or_maximized.spec_toggled_maximized(),
            ..self
        }
    }

    /// The window with `rect` as the rectangle of its mode.
    pub open spec fn with_rect(self, rect: Rect) -> WindowView {
        WindowView { floating_or_tiled: self.floating_or_tiled.spec_with_rect(rect), ..self }
    }

    /// Whether the window is on at least one of `tags`.
    pub open spec fn on_any_of(self, tags: Seq<TagId>) -> bool {
        exists|i: int| 0 <= i < self.tags.len() && tags.contains(#[trigger] self.tags[i])
    }
}

impl WindowElement {
    /// A new window: tiled, on no tag, with nothing negotiated and nothing
    /// sent.
    pub fn new(id: WindowId, surface: WindowSurface) -> (window: WindowElement)
        ensures
            window@ == WindowView::created(id, surface),
    {
        WindowElement {
            id,
            surface,
            class: None,
            title: None,
            floating_or_tiled: FloatingOrTiled::Tiled(None),
            fullscreen_or_maximized: FullscreenOrMaximized::Neither,
            tags: Vec::new(),
            resize_state: WindowResizeState::Idle,
            target_loc: None,
            activated: false,
            initial_configure_sent: false,
        }
    }

    /// Whether the window is an override-redirect surface of the
    /// compatibility layer.
    pub fn is_x11_override_redirect(&self) -> (b: bool)
        ensures
            b == self@.is_x11_override_redirect(),
    {
        match self.surface {
            WindowSurface::X11 { override_redirect } => override_redirect,
            WindowSurface::Wayland => false,
        }
    }

    /// Switches the window between floating and tiled. `current` is the
    /// window's geometry now: a window that was never floating floats there.
    pub fn toggle_floating(&mut self, current: Rect)
        ensures
            final(self)@ == old(self)@.toggled_floating(current),
    {
        self.floating_or_tiled = self.floating_or_tiled.toggled(current);
    }

    /// Switches fullscreen on or off.
    pub fn toggle_fullscreen(&mut self)
        ensures
            final(self)@ == old(self)@.toggled_fullscreen(),
    {
        self.fullscreen_or_maximized = self.fullscreen_or_maximized.toggled_fullscreen();
    }

    /// Switches the maximized state on or off.
    pub fn toggle_maximized(&mut self)
        ensures
            final(self)@ == old(self)@.toggled_maximized(),
    {
        self.fullscreen_or_maximized = self.fullscreen_or_maximized.toggled_maximized();
    }

    /// Whether the window is on at least one of `tags`.
    pub fn on_any_of(&self, tags: &Vec<TagId>) -> (b: bool)
        ensures
            b == self@.on_any_of(tags@),
    {
        let mut i: usize = 0;
        while i < self.tags.len()
            invariant
                i <= self.tags.len(),
                forall|k: int| 0 <= k < i ==> !tags@.contains(#[trigger] self.tags@[k]),
            decreases self.tags.len() - i,
        {
            let tag = self.tags[i];
            let mut j: usize = 0;
            while j < tags.len()
                invariant
                    j <= tags.len(),
                    i < self.tags.len(),
                    tag == self.tags@[i as int],
                    forall|k: int| 0 <= k < j ==> tags@[k] != tag,
                decreases tags.len() - j,
            {
                if tags[j] == tag {
                    assert(tags@.contains(self@.tags[i as int]));
                    return true;
                }
                j = j + 1;
            }
            i = i + 1;
        }
        false
    }
}

/// Switching a floating window to tiled and back restores the rectangle it
/// floated at, whatever geometry the window had in between; and so does
/// switching a tiled window that remembers a rectangle to floating, to tiled
/// and to floating again.
pub proof fn floating_rect_survives_round_trip(window: WindowView, first: Rect, second: Rect, third: Rect)
    ensures
        window.floating_or_tiled matches FloatingOrTiled::Floating(rect) ==> window.toggled_floating(
            first,
        ).toggled_floating(second).floating_or_tiled == FloatingOrTiled::Floating(rect),
        window.toggled_floating(first).floating_or_tiled matches FloatingOrTiled::Floating(rect)
            ==> window.toggled_floating(first).toggled_floating(second).toggled_floating(
            third,
        ).floating_or_tiled == FloatingOrTiled::Floating(rect),
        window.toggled_floating(first).toggled_floating(second) == (WindowView {
            floating_or_tiled: window.toggled_floating(first).toggled_floating(second).floating_or_tiled,
            ..window
        }),
{
}

} // verus!
