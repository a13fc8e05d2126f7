//! The requests and responses of the remote window service, as they come
//! off the wire: any field may be absent, and an enumeration is a number
//! that may name none of its values.

use vstd::prelude::*;
use crate::window::{text_view, Geometry};

verus! {

/// The number that stands for "set" in a set-or-toggle field.
pub const SET_OR_TOGGLE_SET: i32 = 1;

/// The number that stands for "unset" in a set-or-toggle field.
pub const SET_OR_TOGGLE_UNSET: i32 = 2;

/// The number that stands for "toggle" in a set-or-toggle field.
pub const SET_OR_TOGGLE_TOGGLE: i32 = 3;

/// The number that stands for "neither" in a fullscreen-or-maximized field.
pub const FULLSCREEN_OR_MAXIMIZED_NEITHER: i32 = 1;

/// The number that stands for "fullscreen" in a fullscreen-or-maximized
/// field.
pub const FULLSCREEN_OR_MAXIMIZED_FULLSCREEN: i32 = 2;

/// The number that stands for "maximized" in a fullscreen-or-maximized
/// field.
pub const FULLSCREEN_OR_MAXIMIZED_MAXIMIZED: i32 = 3;

/// Asks for a window to be closed.
#[derive(Debug, Clone, Copy, PartialEq, Eq, Structural)]
pub struct CloseRequest {
    pub window_id: Option<u32>,
}

/// Asks for the geometry of a window to be set, as far as it is given.
#[derive(Debug, Clone, Copy, PartialEq, Eq, Structural)]
pub struct SetGeometryRequest {
    pub window_id: Option<u32>,
    pub geometry: Option<Geometry>,
}

/// Asks for fullscreen to be set, unset or flipped for a window.
#[derive(Debug, Clone, Copy, PartialEq, Eq, Structural)]
pub struct SetFullscreenRequest {
    pub window_id: Option<u32>,
    pub set_or_toggle: Option<i32>,
}

/// Asks for the maximized state to be set, unset or flipped for a window.
#[derive(Debug, Clone, Copy, PartialEq, Eq, Structural)]
pub struct SetMaximizedRequest {
    pub window_id: Option<u32>,
    pub set_or_toggle: Option<i32>,
}

/// Asks for floating to be set, unset or flipped for a window.
#[derive(Debug, Clone, Copy, PartialEq, Eq, Structural)]
pub struct SetFloatingRequest {
    pub window_id: Option<u32>,
    pub set_or_toggle: Option<i32>,
}

/// Asks for the focus to be set on, taken from, or flipped for a window.
#[derive(Debug, Clone, Copy, PartialEq, Eq, Structural)]
pub struct SetFocusedRequest {
    pub window_id: Option<u32>,
    pub set_or_toggle: Option<i32>,
}

/// Asks for a window to be moved to a tag, off every other tag.
#[derive(Debug, Clone, Copy, PartialEq, Eq, Structural)]
pub struct MoveToTagRequest {
    pub window_id: Option<u32>,
    pub tag_id: Option<u32>,
}

/// Asks for a window to be put on a tag, taken off it, or flipped.
#[derive(Debug, Clone, Copy, PartialEq, Eq, Structural)]
pub struct SetTagRequest {
    pub window_id: Option<u32>,
    pub tag_id: Option<u32>,
    pub set_or_toggle: Option<i32>,
}

/// Asks for a window to be put on top of all others.
#[derive(Debug, Clone, Copy, PartialEq, Eq, Structural)]
pub struct RaiseRequest {
    pub window_id: Option<u32>,
}

/// Asks for a move of the window under the pointer to begin.
#[derive(Debug, Clone, Copy, PartialEq, Eq, Structural)]
pub struct MoveGrabRequest {
    pub button: Option<u32>,
}

/// Asks for a resize of the window under the pointer to begin.
#[derive(Debug, Clone, Copy, PartialEq, Eq, Structural)]
pub struct ResizeGrabRequest {
    pub button: Option<u32>,
}

/// Asks for the identities of all mapped windows.
#[derive(Debug, Clone, Copy, PartialEq, Eq, Structural)]
pub struct GetRequest {}

/// Asks for what is known of a window.
#[derive(Debug, Clone, Copy, PartialEq, Eq, Structural)]
pub struct GetPropertiesRequest {
    pub window_id: Option<u32>,
}

/// The identities of all mapped windows.
#[derive(Debug, Clone, PartialEq, Eq)]
pub struct GetResponse {
    pub window_ids: Vec<u32>,
}

/// What is known of one window. Of a window that is gone nothing is known.
#[derive(Debug, Clone, PartialEq, Eq)]
pub struct GetPropertiesResponse {
    pub geometry: Option<Geometry>,
    pub class: Option<String>,
    pub title: Option<String>,
    pub focused: Option<bool>,
    pub floating: Option<bool>,
    pub fullscreen_or_maximized: Option<i32>,
    pub tag_ids: Vec<u32>,
}

/// What is known of one window, as a mathematical value.
pub struct PropertiesView {
    pub geometry: Option<Geometry>,
    pub class: Option<Seq<char>>,
    pub title: Option<Seq<char>>,
    pub focused: Option<bool>,
    pub floating: Option<bool>,
    pub fullscreen_or_maximized: Option<i32>,
    pub tag_ids: Seq<u32>,
}

impl View for GetPropertiesResponse {
    type V = PropertiesView;

    open spec fn view(&self) -> PropertiesView {
        PropertiesView {
            geometry: self.geometry,
            class: text_view(self.class),
            title: text_view(self.title),
            focused: self.focused,
            floating: self.floating,
            fullscreen_or_maximized: self.fullscreen_or_maximized,
            tag_ids: self.tag_ids@,
        }
    }
}

/// A condition on a window. A list that is empty asks for nothing.
#[derive(Debug, PartialEq, Eq)]
pub struct WindowRuleCondition {
    pub any: Vec<WindowRuleCondition>,
    pub all: Vec<WindowRuleCondition>,
    pub classes: Vec<String>,
    pub titles: Vec<String>,
    pub tags: Vec<u32>,
}

/// What a rule sets on a window that meets its condition.
#[derive(Debug, Clone, PartialEq, Eq)]
pub struct WindowRule {
    pub output: Option<String>,
    pub tags: Vec<u32>,
    pub floating: Option<bool>,
    pub fullscreen_or_maximized: Option<i32>,
    pub x: Option<i32>,
    pub y: Option<i32>,
    pub width: Option<i32>,
    pub height: Option<i32>,
}

/// Asks for a window rule to be added.
#[derive(Debug, PartialEq, Eq)]
pub struct AddWindowRuleRequest {
    pub cond: Option<WindowRuleCondition>,
    pub rule: Option<WindowRule>,
}

} // verus!
