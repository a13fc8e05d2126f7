//! Everything that can happen to the compositor, as one type, and what the
//! compositor makes of it.

use vstd::prelude::*;
use crate::consistency::is_consistent;
use crate::effect::{Effect, Fault};
use crate::geometry::{Point, Rect, Size};
use crate::grab::{ResizeEdge, BUTTON_LEFT};
use crate::ids::{LayerId, OutputId, PopupId, WindowId};
use crate::output::{LayerKind, Tag};
use crate::serial::Serial;
use crate::service::{Response, StateFn};
use crate::state::{State, StateView, Step};
use crate::window::WindowSurface;

verus! {

/// Something that happens to the compositor.
#[derive(Debug)]
pub enum Event {
    /// An output was connected.
    OutputConnected { id: OutputId, name: String, geometry: Rect, tags: Vec<Tag> },
    /// An output was disconnected.
    OutputDisconnected { id: OutputId },
    /// A client asked for a new window.
    NewToplevel { surface: WindowSurface },
    /// A window was destroyed.
    ToplevelDestroyed { window: WindowId },
    /// The client of a window committed; `buffer` is the size of the buffer
    /// that the surface holds, if it holds one.
    Commit { window: WindowId, buffer: Option<Size> },
    /// The client of a window acknowledged a configure.
    AckConfigure { window: WindowId, serial: Serial },
    /// The client of a window asked for the window to be moved.
    MoveRequest { window: WindowId },
    /// The client of a window asked for the window to be resized.
    ResizeRequest { window: WindowId, edges: ResizeEdge },
    /// The pointer moved.
    PointerMotion { location: Point },
    /// A button was released.
    ButtonReleased { button: u32 },
    /// A client created a layer surface.
    NewLayerSurface { layer: LayerId, output: Option<OutputId>, kind: LayerKind },
    /// A layer surface was destroyed.
    LayerDestroyed { layer: LayerId },
    /// The client of a layer surface committed.
    LayerCommit { layer: LayerId, arranged: Option<Rect> },
    /// The client of a popup committed.
    PopupCommit { popup: PopupId, initial_configure_sent: bool, geometry: Rect },
    /// The control surface asked for something.
    Request(StateFn),
    /// The event loop has come to the point where it runs what was put off.
    Idle,
}

/// What came of an event.
#[derive(Debug)]
pub struct Handled {
    /// What is to be carried out, in order.
    pub effects: Vec<Effect>,
    /// The window that was created.
    pub created: Option<WindowId>,
    /// The answer to the control surface.
    pub response: Option<Response>,
    /// The fault that ended what the event called for.
    pub fault: Option<Fault>,
}

impl StateView {
    /// The step that the compositor takes when `event` happens.
    pub open spec fn after(self, event: Event) -> Step {
        match event {
            Event::OutputConnected { id, name, geometry, tags } => self.with_output_connected(
                id,
                name@,
                geometry,
                tags@,
            ).unchanged(),
            Event::OutputDisconnected { id } => self.without_output(id).unchanged(),
            Event::NewToplevel { surface } => self.with_new_toplevel(surface).unchanged(),
            Event::ToplevelDestroyed { window } => self.destroyed(window),
            Event::Commit { window, buffer } => self.committed(window, buffer),
            Event::AckConfigure { window, serial } => self.acked(window, serial),
            Event::MoveRequest { window } => self.with_grab_on(window, BUTTON_LEFT, None).unchanged(),
            Event::ResizeRequest { window, edges } => self.with_grab_on(
                window,
                BUTTON_LEFT,
                Some(edges),
            ).unchanged(),
            Event::PointerMotion { location } => self.pointer_moved(location),
            Event::ButtonReleased { button } => self.with_button_released(button).unchanged(),
            Event::NewLayerSurface { layer, output, kind } => self.with_layer(layer, output, kind).unchanged(),
            Event::LayerDestroyed { layer } => self.without_layer(layer).unchanged(),
            Event::LayerCommit { layer, arranged } => self.layer_committed(layer, arranged),
            Event::PopupCommit { popup, initial_configure_sent, geometry } => self.popup_committed(
                popup,
                initial_configure_sent,
                geometry,
            ),
            Event::Request(f) => self.ran(f),
            Event::Idle => Step {
                state: self.with_pending_run().state,
                effects: match self.with_pending_run().result {
                    Some(Ok(effects)) => effects,
                    _ => Seq::empty(),
                },
            },
        }
    }
}

impl StateView {
    /// The fault in which what `event` calls for ends, if it ends in one:
    /// the keyboard focus is to be assigned, by a request, at a window's
    /// destruction or by what was put off, and the seat has no keyboard.
    pub open spec fn fault_at(self, event: Event) -> Option<Fault> {
        match event {
            Event::ToplevelDestroyed { .. } => self.keyboard_fault(),
            Event::Request(f) => self.run_fault(f),
            Event::Idle => match self.with_pending_run().result {
                Some(Err(fault)) => Some(fault),
                _ => None,
            },
            _ => None,
        }
    }
}

impl State {
    /// Handles `event`: the state takes the step that the event calls for,
    /// and what came of it is returned.
    ///
    /// The effects are those of the step. A new window is told by its
    /// identity, and a request of the control surface is answered unless it
    /// ended in a fault. A fault that ended what the event called for is
    /// reported.
    pub fn handle(&mut self, event: Event) -> (handled: Handled)
        ensures
            final(self)@ == old(self)@.after(event).state,
            handled.effects@ == old(self)@.after(event).effects,
            handled.created == match event {
                Event::NewToplevel { .. } => Some(WindowId(old(self).next_window_id)),
                _ => None,
            },
            match event {
                Event::Request(StateFn::Get) => handled.response matches Some(Response::Get(response))
                    && response.window_ids@ == old(self)@.window_ids(),
                Event::Request(StateFn::GetProperties { window_id }) => handled.response matches Some(
                    Response::GetProperties(response),
                ) && response@ == old(self)@.properties_of(window_id),
                Event::Request(f) => if old(self)@.run_fault(f) is None {
                    handled.response matches Some(Response::Done)
                } else {
                    handled.response is None
                },
                _ => handled.response is None,
            },
            handled.fault == old(self)@.fault_at(event),
            is_consistent(old(self)@) && !(event is NewToplevel && old(self).next_window_id == u32::MAX)
                ==> is_consistent(final(self)@),
    {
        let mut handled = Handled { effects: Vec::new(), created: None, response: None, fault: None };
        match event {
            Event::OutputConnected { id, name, geometry, tags } => {
                self.add_output(id, name, geometry, tags);
            },
            Event::OutputDisconnected { id } => {
                self.remove_output(id);
            },
            Event::NewToplevel { surface } => {
                handled.created = Some(self.new_toplevel(surface));
            },
            Event::ToplevelDestroyed { window } => {
                let outcome = self.toplevel_destroyed(window);
                handled.effects = outcome.effects;
                handled.fault = outcome.fault;
            },
            Event::Commit { window, buffer } => {
                handled.effects = self.commit(window, buffer);
            },
            Event::AckConfigure { window, serial } => {
                handled.effects = self.ack_configure(window, serial);
            },
            Event::MoveRequest { window } => {
                self.move_request(window);
            },
            Event::ResizeRequest { window, edges } => {
                self.resize_request(window, edges);
            },
            Event::PointerMotion { location } => {
                handled.effects = self.pointer_motion(location);
            },
            Event::ButtonReleased { button } => {
                self.button_released(button);
            },
            Event::NewLayerSurface { layer, output, kind } => {
                self.new_layer_surface(layer, output, kind);
            },
            Event::LayerDestroyed { layer } => {
                self.layer_destroyed(layer);
            },
            Event::LayerCommit { layer, arranged } => {
                handled.effects = self.commit_layer(layer, arranged);
            },
            Event::PopupCommit { popup, initial_configure_sent, geometry } => {
                handled.effects = self.commit_popup(popup, initial_configure_sent, geometry);
            },
            Event::Request(f) => {
                match self.run(f) {
                    Ok((effects, response)) => {
                        handled.effects = effects;
                        handled.response = Some(response);
                    },
                    Err(fault) => {
                        handled.fault = Some(fault);
                    },
                }
            },
            Event::Idle => {
                match self.run_pending() {
                    Some(Ok(effects)) => {
                        handled.effects = effects;
                    },
                    Some(Err(fault)) => {
                        handled.fault = Some(fault);
                    },
                    None => {},
                }
            },
        }
        handled
    }
}

/// Whatever happens, a consistent state stays consistent, as long as the
/// numbers for new windows have not run out.
pub proof fn every_event_keeps_consistency(state: StateView, event: Event)
    requires
        is_consistent(state),
        event is NewToplevel ==> state.next_window_id < u32::MAX,
    ensures
        is_consistent(state.after(event).state),
{
    match event {
        Event::OutputConnected { id, name, geometry, tags } => {
            crate::consistency::same_activation_same_consistency(
                state.with_output_connected(id, name@, geometry, tags@),
                state,
            );
        },
        Event::OutputDisconnected { id } => {
            crate::consistency::same_activation_same_consistency(state.without_output(id), state);
        },
        Event::NewToplevel { surface } => {
            crate::consistency::creation_keeps_consistency(state, surface);
        },
        Event::ToplevelDestroyed { window } => {
            crate::consistency::destruction_keeps_consistency(state, window);
        },
        Event::Commit { window, buffer } => {
            crate::consistency::commit_keeps_consistency(state, window, buffer);
        },
        Event::AckConfigure { window, serial } => {
            crate::consistency::ack_keeps_consistency(state, window, serial);
        },
        Event::MoveRequest { window } => {
            crate::consistency::same_activation_same_consistency(
                state.with_grab_on(window, BUTTON_LEFT, None),
                state,
            );
        },
        Event::ResizeRequest { window, edges } => {
            crate::consistency::same_activation_same_consistency(
                state.with_grab_on(window, BUTTON_LEFT, Some(edges)),
                state,
            );
        },
        Event::PointerMotion { location } => {
            crate::consistency::motion_keeps_consistency(state, location);
        },
        Event::ButtonReleased { button } => {
            crate::consistency::same_activation_same_consistency(state.with_button_released(button), state);
        },
        Event::NewLayerSurface { layer, output, kind } => {
            crate::consistency::same_activation_same_consistency(state.with_layer(layer, output, kind), state);
        },
        Event::LayerDestroyed { layer } => {
            crate::consistency::same_activation_same_consistency(state.without_layer(layer), state);
        },
        Event::LayerCommit { layer, arranged } => {
            crate::consistency::same_activation_same_consistency(
                state.layer_committed(layer, arranged).state,
                state,
            );
        },
        Event::PopupCommit { popup, initial_configure_sent, geometry } => {
            crate::consistency::same_activation_same_consistency(
                state.popup_committed(popup, initial_configure_sent, geometry).state,
                state,
            );
        },
        Event::Request(f) => {
            crate::consistency::control_keeps_consistency(state, f);
        },
        Event::Idle => {
            crate::consistency::pending_keeps_consistency(state);
        },
    }
}

} // verus!
