//! The messages exchanged between a configuration process and the compositor.

use vstd::prelude::*;
use crate::ids::WindowId;
use crate::window::FullscreenOrMaximized;

verus! {

/// The index of a callback in the configuration process's callback table.
#[derive(Debug, Clone, Copy, PartialEq, Eq, Hash, Structural)]
pub struct CallbackId(pub u32);

/// A keyboard modifier.
#[derive(Debug, Clone, Copy, PartialEq, Eq, Hash, Structural)]
pub enum Modifier {
    Shift,
    Ctrl,
    Alt,
    Super,
}

/// Which edge of a button event triggers a mouse binding.
#[derive(Debug, Clone, Copy, PartialEq, Eq, Hash, Structural)]
pub enum MouseEdge {
    Press,
    Release,
}

/// A key, given either by its numeric keysym or by its name.
#[derive(Debug, Clone, PartialEq, Eq)]
pub enum KeyIntOrString {
    Int(u32),
    String(String),
}

/// A one-way message to the compositor.
#[derive(Debug, Clone, PartialEq, Eq)]
pub enum Msg {
    SetKeybind { key: KeyIntOrString, modifiers: Vec<Modifier>, callback_id: CallbackId },
    SetMousebind { modifiers: Vec<Modifier>, button: u32, edge: MouseEdge, callback_id: CallbackId },
    CloseWindow { window_id: WindowId },
    ToggleFloating { window_id: WindowId },
    ToggleFullscreen { window_id: WindowId },
    ToggleMaximized { window_id: WindowId },
    SetWindowSize { window_id: WindowId, width: Option<i32>, height: Option<i32> },
}

/// A question to the compositor that is answered by a [`RequestResponse`].
#[derive(Debug, Clone, Copy, PartialEq, Eq, Structural)]
pub enum Request {
    GetWindows,
    GetWindowProps { window_id: WindowId },
}

/// The compositor's answer to a [`Request`].
#[derive(Debug, Clone, PartialEq, Eq)]
pub enum RequestResponse {
    Windows { window_ids: Vec<WindowId> },
    WindowProps {
        size: Option<(i32, i32)>,
        loc: Option<(i32, i32)>,
        class: Option<String>,
        title: Option<String>,
        focused: Option<bool>,
        floating: Option<bool>,
        fullscreen_or_maximized: Option<FullscreenOrMaximized>,
    },
}

} // verus!
