//! What the compositor core asks of the world around it.
//!
//! The core never talks to a client or a backend. Every operation returns
//! the effects that the event loop has to carry out, in order.

use vstd::prelude::*;
use crate::geometry::{Rect, Size};
use crate::ids::{LayerId, OutputId, PopupId, WindowId};
use crate::serial::Serial;

verus! {

/// What can hold the keyboard focus.
#[derive(Debug, Clone, Copy, PartialEq, Eq, Hash, Structural)]
pub enum KeyboardFocusTarget {
    Window(WindowId),
    LayerSurface(LayerId),
}

/// Something for the event loop to carry out.
#[derive(Debug, Clone, Copy, PartialEq, Eq, Hash, Structural)]
pub enum Effect {
    /// Send the window's client a configure event numbered `serial`. With a
    /// size the client is asked to take that size; without one it keeps, or
    /// chooses, its own.
    Configure { window: WindowId, serial: Serial, size: Option<Size> },
    /// Tell a window of the compatibility layer to take `rect`. Such a
    /// window acknowledges nothing.
    ConfigureX11 { window: WindowId, rect: Rect },
    /// Send the layer surface's client a configure event numbered `serial`.
    ConfigureLayer { layer: LayerId, serial: Serial },
    /// Send the popup's client a configure event numbered `serial`.
    ConfigurePopup { popup: PopupId, serial: Serial },
    /// Ask the window's client to close the window. The client may decline.
    Close { window: WindowId },
    /// Tell the window's client that a frame was shown on `output`.
    SendFrame { window: WindowId, output: OutputId },
    /// Have the backend draw `output` anew.
    ScheduleRender { output: OutputId },
    /// Move the seat's keyboard focus, in a focus event numbered `serial`.
    SetKeyboardFocus { target: Option<KeyboardFocusTarget>, serial: Serial },
    /// Hold back the commits of the window's client.
    Block { window: WindowId },
    /// Let the commits of the window's client through again.
    Unblock { window: WindowId },
}

/// Something the core has put off until the event loop's next idle point.
#[derive(Debug, Clone, Copy, PartialEq, Eq, Hash, Structural)]
pub enum PendingAction {
    /// Give the keyboard focus to a window.
    FocusWindow(WindowId),
    /// Lay out an output.
    RequestLayout(OutputId),
}

/// A broken assumption that ends the operation that met it.
#[derive(Debug, Clone, Copy, PartialEq, Eq, Hash, Structural)]
pub enum Fault {
    /// The keyboard focus was to be assigned, and the seat has no keyboard.
    NoKeyboard,
}

/// What came of an operation that goes as far as it can.
#[derive(Debug)]
pub struct Outcome {
    /// What is to be carried out, in order.
    pub effects: Vec<Effect>,
    /// The fault that ended the operation, if one did.
    pub fault: Option<Fault>,
}

} // verus!
