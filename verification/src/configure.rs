//! The negotiation of geometry with the clients.
//!
//! A window never jumps to a geometry that its client has not agreed to.
//! The compositor asks for a geometry in a configure event, the client
//! acknowledges the event, and with the client's next commit the geometry
//! takes effect.

use vstd::prelude::*;
use crate::consistency::is_consistent;
use crate::effect::Effect;
use crate::geometry::Rect;
use crate::ids::WindowId;
use crate::layout::{fixed, fixed_placements, layout, layout_of, Placement};
use crate::lookup::{first_index, first_is_unique, is_first, none_is_first};
use crate::serial::Serial;
use crate::ids::OutputId;
use crate::state::{
    find_output, find_window, output_index, output_views, window_index, State, StateView, Step,
};
use crate::window::{WindowResizeState, WindowSurface, WindowView};

verus! {

impl StateView {
    /// The step that changes nothing and asks for nothing.
    pub open spec fn unchanged(self) -> Step {
        Step { state: self, effects: Seq::empty() }
    }

    /// The step in which the window at `index` is asked to take `rect`.
    ///
    /// A native window is sent a configure with the next serial and is from
    /// then on in negotiation. A window of the compatibility layer is told
    /// its geometry and counts as having acknowledged it.
    pub open spec fn requested(self, index: int, rect: Rect) -> Step {
        let window = self.windows[index];
        match window.surface {
            WindowSurface::Wayland => {
                let serial = Serial(self.serials.upcoming());
                Step {
                    state: StateView {
                        serials: self.serials.advanced(),
                        ..self.with_window(
                            index,
                            WindowView { resize_state: WindowResizeState::Requested(serial, rect), ..window },
                        )
                    },
                    effects: seq![Effect::Configure { window: window.id, serial, size: Some(rect.size) }],
                }
            },
            WindowSurface::X11 { .. } => Step {
                state: self.with_window(
                    index,
                    WindowView { resize_state: WindowResizeState::Acknowledged(rect), ..window },
                ),
                effects: seq![Effect::ConfigureX11 { window: window.id, rect }],
            },
        }
    }

    /// The geometry that the window at `index` is heading for: the one under
    /// negotiation, or else the one the space records.
    pub open spec fn heading_for(self, index: int) -> Option<Rect> {
        match self.windows[index].resize_state.spec_target() {
            Some(rect) => Some(rect),
            None => self.space.element_geometry(self.windows[index].id),
        }
    }

    /// The step that brings one placement about: the window is asked to take
    /// the rectangle, unless it is heading there already or is gone.
    pub open spec fn placed(self, placement: Placement) -> Step {
        match window_index(self.windows, placement.window) {
            Some(index) => if self.heading_for(index) == Some(placement.rect) {
                self.unchanged()
            } else {
                self.requested(index, placement.rect)
            },
            None => self.unchanged(),
        }
    }

    /// The step that brings `placements` about, one after the other.
    pub open spec fn placed_all(self, placements: Seq<Placement>) -> Step
        decreases placements.len(),
    {
        if placements.len() == 0 {
            self.unchanged()
        } else {
            let before = self.placed_all(placements.drop_last());
            let last = before.state.placed(placements.last());
            Step { state: last.state, effects: before.effects + last.effects }
        }
    }

    /// The rectangle that each window shown on the output at `output` is to
    /// have: first the tiled windows, as the layout of the output's first
    /// active tag places them, then the windows with a rectangle of their
    /// own. With no active tag nothing is placed.
    pub open spec fn arrangement(self, output: int) -> Seq<Placement> {
        let o = self.outputs[output];
        match o.layout() {
            Some(strategy) => layout_of(self.windows, o.focused_tags(), o.geometry, strategy)
                + fixed_placements(self.windows, o.focused_tags(), o.geometry),
            None => Seq::empty(),
        }
    }

    /// The step that lays out the output at `output`.
    pub open spec fn laid_out(self, output: int) -> Step {
        self.placed_all(self.arrangement(output))
    }

    /// The step that lays out the output `id`. Nothing happens if the output
    /// is gone.
    pub open spec fn layout_requested(self, id: OutputId) -> Step {
        match output_index(self.outputs, id) {
            Some(output) => self.laid_out(output),
            None => self.unchanged(),
        }
    }

    /// The step in which the window `id` is asked to take `rect`. Nothing
    /// happens if the window is not mapped.
    pub open spec fn resize_requested(self, id: WindowId, rect: Rect) -> Step {
        match window_index(self.windows, id) {
            Some(index) => self.requested(index, rect),
            None => self.unchanged(),
        }
    }

    /// The step taken when the client of the window `id` acknowledges the
    /// configure numbered `serial`.
    ///
    /// A request that is no newer than the acknowledged configure becomes
    /// acknowledged, and the client is sent a frame so that it commits.
    /// Anything else is left as it is.
    pub open spec fn acked(self, id: WindowId, serial: Serial) -> Step {
        match window_index(self.windows, id) {
            Some(index) => {
                let window = self.windows[index];
                let next = window.resize_state.spec_acked(serial);
                if next != window.resize_state {
                    Step {
                        state: self.with_window(index, WindowView { resize_state: next, ..window }),
                        effects: match self.focused_output() {
                            Some(output) => seq![
                                Effect::SendFrame { window: id, output: self.outputs[output].id },
                            ],
                            None => Seq::empty(),
                        },
                    }
                } else {
                    self.unchanged()
                }
            },
            None => self.unchanged(),
        }
    }
}

impl State {
    /// Asks the mapped window at `index` to take `rect`.
    pub(crate) fn request_resize_at(&mut self, index: usize, rect: Rect) -> (effect: Effect)
        requires
            index < old(self).windows.len(),
        ensures
            final(self)@ == old(self)@.requested(index as int, rect).state,
            seq![effect] == old(self)@.requested(index as int, rect).effects,
            final(self).windows.len() == old(self).windows.len(),
            final(self).outputs.len() == old(self).outputs.len(),
    {
        let id = self.windows[index].id;
        let effect = match self.windows[index].surface {
            WindowSurface::Wayland => {
                let serial = self.serials.next_serial();
                self.windows[index].resize_state = WindowResizeState::Requested(serial, rect);
                Effect::Configure { window: id, serial, size: Some(rect.size) }
            },
            WindowSurface::X11 { .. } => {
                self.windows[index].resize_state = WindowResizeState::Acknowledged(rect);
                Effect::ConfigureX11 { window: id, rect }
            },
        };
        assert(self@ =~= old(self)@.requested(index as int, rect).state);
        effect
    }

    /// The geometry that the window at `index` is heading for.
    pub(crate) fn heading_for(&self, index: usize) -> (rect: Option<Rect>)
        requires
            index < self.windows.len(),
        ensures
            rect == self@.heading_for(index as int),
    {
        match self.windows[index].resize_state.target() {
            Some(rect) => Some(rect),
            None => self.space.element_geometry(self.windows[index].id),
        }
    }

    /// Brings `placements` about, one after the other.
    pub fn place_all(&mut self, placements: &Vec<Placement>) -> (effects: Vec<Effect>)
        ensures
            final(self)@ == old(self)@.placed_all(placements@).state,
            effects@ == old(self)@.placed_all(placements@).effects,
            final(self).windows.len() == old(self).windows.len(),
            final(self).outputs.len() == old(self).outputs.len(),
    {
        let mut effects: Vec<Effect> = Vec::new();
        let mut i: usize = 0;
        while i < placements.len()
            invariant
                i <= placements.len(),
                self@ == old(self)@.placed_all(placements@.subrange(0, i as int)).state,
                effects@ == old(self)@.placed_all(placements@.subrange(0, i as int)).effects,
                self.windows.len() == old(self).windows.len(),
                self.outputs.len() == old(self).outputs.len(),
            decreases placements.len() - i,
        {
            let placement = placements[i];
            proof {
                let next = placements@.subrange(0, i + 1);
                assert(next.drop_last() == placements@.subrange(0, i as int));
                assert(next.last() == placement);
            }
            let ghost before = self@;
            match find_window(&self.windows, placement.window) {
                Some(index) => {
                    let heading = self.heading_for(index);
                    let there = match heading {
                        Some(rect) => rect == placement.rect,
                        None => false,
                    };
                    if !there {
                        let effect = self.request_resize_at(index, placement.rect);
                        effects.push(effect);
                        assert(effects@ == old(self)@.placed_all(placements@.subrange(0, i as int)).effects
                            + seq![effect]);
                    } else {
                        assert(effects@ == effects@ + Seq::<Effect>::empty());
                    }
                },
                None => {
                    assert(effects@ == effects@ + Seq::<Effect>::empty());
                },
            }
            i = i + 1;
        }
        assert(placements@.subrange(0, i as int) == placements@);
        effects
    }

    /// Lays out the output at `output`: every window shown on it is asked to
    /// take the rectangle that is its due, unless it is heading there
    /// already.
    pub(crate) fn layout_at(&mut self, output: usize) -> (effects: Vec<Effect>)
        requires
            output < old(self).outputs.len(),
        ensures
            final(self)@ == old(self)@.laid_out(output as int).state,
            effects@ == old(self)@.laid_out(output as int).effects,
            final(self).windows.len() == old(self).windows.len(),
            final(self).outputs.len() == old(self).outputs.len(),
    {
        let strategy = self.outputs[output].layout();
        match strategy {
            Some(strategy) => {
                let tags = self.outputs[output].focused_tags();
                let area = self.outputs[output].geometry;
                let mut placements = layout(&self.windows, &tags, area, strategy);
                let mut others = fixed(&self.windows, &tags, area);
                placements.append(&mut others);
                assert(output_views(self.outputs@)[output as int] == self.outputs@[output as int]@);
                self.place_all(&placements)
            },
            None => {
                assert(output_views(self.outputs@)[output as int] == self.outputs@[output as int]@);
                Vec::new()
            },
        }
    }

    /// Lays out the output `id`: every window shown on it is asked to take
    /// the rectangle that is its due, unless it is heading there already.
    pub fn request_layout(&mut self, id: OutputId) -> (effects: Vec<Effect>)
        ensures
            final(self)@ == old(self)@.layout_requested(id).state,
            effects@ == old(self)@.layout_requested(id).effects,
            is_consistent(old(self)@) ==> is_consistent(final(self)@),
    {
        proof {
            if is_consistent(old(self)@) {
                crate::consistency::layout_request_keeps_consistency(old(self)@, id);
            }
        }
        match find_output(&self.outputs, id) {
            Some(output) => self.layout_at(output),
            None => Vec::new(),
        }
    }

    /// Asks the window `id` to take `rect`. The geometry takes effect once
    /// the window's client has acknowledged the request and committed.
    pub fn request_resize(&mut self, id: WindowId, rect: Rect) -> (effects: Vec<Effect>)
        ensures
            final(self)@ == old(self)@.resize_requested(id, rect).state,
            effects@ == old(self)@.resize_requested(id, rect).effects,
            is_consistent(old(self)@) ==> is_consistent(final(self)@),
    {
        proof {
            if is_consistent(old(self)@) {
                crate::consistency::resize_request_keeps_consistency(old(self)@, id, rect);
            }
        }
        let mut effects: Vec<Effect> = Vec::new();
        match find_window(&self.windows, id) {
            Some(index) => {
                let effect = self.request_resize_at(index, rect);
                effects.push(effect);
            },
            None => {},
        }
        effects
    }

    /// Takes note that the client of the window `id` has acknowledged the
    /// configure numbered `serial`.
    pub fn ack_configure(&mut self, id: WindowId, serial: Serial) -> (effects: Vec<Effect>)
        ensures
            final(self)@ == old(self)@.acked(id, serial).state,
            effects@ == old(self)@.acked(id, serial).effects,
            final(self).windows.len() == old(self).windows.len(),
            final(self).outputs.len() == old(self).outputs.len(),
            is_consistent(old(self)@) ==> is_consistent(final(self)@),
    {
        proof {
            if is_consistent(old(self)@) {
                crate::consistency::ack_keeps_consistency(old(self)@, id, serial);
            }
        }
        let mut effects: Vec<Effect> = Vec::new();
        match find_window(&self.windows, id) {
            Some(index) => {
                let before = self.windows[index].resize_state;
                let next = before.acked(serial);
                if next != before {
                    match self.focused_output() {
                        Some(output) => {
                            assert(output_views(self.outputs@)[output as int] == self.outputs@[output as int]@);
                            effects.push(Effect::SendFrame { window: id, output: self.outputs[output].id });
                        },
                        None => {},
                    }
                    self.windows[index].resize_state = next;
                    assert(self@ =~= old(self)@.acked(id, serial).state);
                    assert(effects@ =~= old(self)@.acked(id, serial).effects);
                }
            },
            None => {},
        }
        effects
    }
}

/// A configure that was sent to a window: the number that the event carries
/// on the wire, and the serial by which the core knows the request.
#[derive(Debug, Clone, Copy, PartialEq, Eq, Structural)]
pub struct SentConfigure {
    pub window: WindowId,
    pub on_the_wire: Serial,
    pub serial: Serial,
}

/// Whether an acknowledgement of the number `acked` by the client of
/// `window` covers the configure `sent`: it went to that window, and the
/// acknowledged number is no older than its own.
pub open spec fn is_covered(sent: SentConfigure, window: WindowId, acked: Serial) -> bool {
    sent.window == window && acked.spec_is_no_older_than(sent.on_the_wire)
}

/// The serial that an acknowledgement of the number `acked` by the client of
/// `window` stands for: that of the newest configure it covers, where
/// `sent` lists the configures in the order they were sent.
pub open spec fn acknowledged_serial(sent: Seq<SentConfigure>, window: WindowId, acked: Serial) -> Option<
    Serial,
> {
    match first_index(sent.reverse(), |c: SentConfigure| is_covered(c, window, acked)) {
        Some(i) => Some(sent.reverse()[i].serial),
        None => None,
    }
}

/// The serial that an acknowledgement of the number `acked` by the client of
/// `window` stands for, if it covers any configure that was sent.
pub fn acknowledged(sent: &Vec<SentConfigure>, window: WindowId, acked: Serial) -> (serial: Option<Serial>)
    ensures
        serial == acknowledged_serial(sent@, window, acked),
{
    let ghost covered = |c: SentConfigure| is_covered(c, window, acked);
    let ghost newest_first = sent@.reverse();
    let mut i: usize = sent.len();
    while i > 0
        invariant
            i <= sent.len(),
            newest_first == sent@.reverse(),
            covered == (|c: SentConfigure| is_covered(c, window, acked)),
            forall|j: int| 0 <= j < sent.len() - i ==> !covered(#[trigger] newest_first[j]),
        decreases i,
    {
        i = i - 1;
        if sent[i].window == window && acked.is_no_older_than(sent[i].on_the_wire) {
            proof {
                assert(newest_first[sent.len() - 1 - i] == sent@[i as int]);
                assert(is_first(newest_first, covered, sent.len() - 1 - i));
                first_is_unique(newest_first, covered, sent.len() - 1 - i);
            }
            return Some(sent[i].serial);
        }
        assert(newest_first[sent.len() - 1 - i] == sent@[i as int]);
    }
    proof {
        none_is_first(newest_first, covered);
    }
    None
}

} // verus!
