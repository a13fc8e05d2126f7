//! Layer surfaces and popups: surfaces that are shown without being managed
//! as windows.

use vstd::prelude::*;
use crate::consistency::is_consistent;
use crate::effect::{Effect, PendingAction};
use crate::geometry::Rect;
use crate::ids::{LayerId, OutputId, PopupId};
use crate::lifecycle::render_of;
use crate::output::{LayerKind, LayerSurface, OutputView};
use crate::popup::{find_layer_output, layer_index, layer_output_index};
use crate::serial::Serial;
use crate::state::{find_output, output_index, output_views, State, StateView, Step};

verus! {

impl StateView {
    /// The index of the output that a new layer surface goes on: the one
    /// that was asked for, if it is there, and the first output otherwise.
    pub open spec fn output_for_layer(self, wanted: Option<OutputId>) -> Option<int> {
        let wanted_index = match wanted {
            Some(id) => output_index(self.outputs, id),
            None => None,
        };
        if wanted_index is Some {
            wanted_index
        } else if self.outputs.len() > 0 {
            Some(0int)
        } else {
            None
        }
    }

    /// The state after a client created the layer surface `id` of the kind
    /// `kind` and asked for it to go on `wanted`.
    ///
    /// The layer goes on its output unless some output holds it already,
    /// and laying out the output is put off until the next idle point.
    /// Nothing happens if there is no output.
    pub open spec fn with_layer(self, id: LayerId, wanted: Option<OutputId>, kind: LayerKind) -> StateView {
        match self.output_for_layer(wanted) {
            Some(output) => StateView {
                outputs: if layer_output_index(self.outputs, id) is None {
                    self.outputs.update(
                        output,
                        OutputView {
                            layers: self.outputs[output].layers.push(
                                LayerSurface { id, kind, geometry: None, initial_configure_sent: false },
                            ),
                            ..self.outputs[output]
                        },
                    )
                } else {
                    self.outputs
                },
                pending: self.pending.push(PendingAction::RequestLayout(self.outputs[output].id)),
                ..self
            },
            None => self,
        }
    }

    /// The state after the layer surface `id` was destroyed: the first
    /// output that holds it holds it no more, and laying out that output is
    /// put off until the next idle point.
    pub open spec fn without_layer(self, id: LayerId) -> StateView {
        match layer_output_index(self.outputs, id) {
            Some(output) => StateView {
                outputs: self.outputs.update(
                    output,
                    OutputView {
                        layers: self.outputs[output].layers.remove(
                            layer_index(self.outputs[output].layers, id)->0,
                        ),
                        ..self.outputs[output]
                    },
                ),
                pending: self.pending.push(PendingAction::RequestLayout(self.outputs[output].id)),
                ..self
            },
            None => self,
        }
    }

    /// The step taken when the client of the layer surface `id` commits;
    /// `arranged` is where the layer now sits on its output.
    ///
    /// The layer's place is recorded, the client is sent its first
    /// configure if it had none, and the layer's output is drawn anew.
    /// Nothing happens if no output holds the layer.
    pub open spec fn layer_committed(self, id: LayerId, arranged: Option<Rect>) -> Step {
        match layer_output_index(self.outputs, id) {
            Some(output) => {
                let index = layer_index(self.outputs[output].layers, id)->0;
                let layer = self.outputs[output].layers[index];
                Step {
                    state: StateView {
                        outputs: self.outputs.update(
                            output,
                            OutputView {
                                layers: self.outputs[output].layers.update(
                                    index,
                                    LayerSurface { id, kind: layer.kind, geometry: arranged, initial_configure_sent: true },
                                ),
                                ..self.outputs[output]
                            },
                        ),
                        serials: if layer.initial_configure_sent {
                            self.serials
                        } else {
                            self.serials.advanced()
                        },
                        ..self
                    },
                    effects: (if layer.initial_configure_sent {
                        Seq::empty()
                    } else {
                        seq![Effect::ConfigureLayer { layer: id, serial: Serial(self.serials.upcoming()) }]
                    }) + seq![render_of(self.outputs[output])],
                }
            },
            None => self.unchanged(),
        }
    }

    /// The step taken when the client of the popup `popup` commits; the
    /// popup is at `geometry`, and `initial_configure_sent` tells whether
    /// its client has had its first configure.
    ///
    /// The client is sent its first configure if it had none, and every
    /// output that the popup reaches or touches is drawn anew.
    pub open spec fn popup_committed(self, popup: PopupId, initial_configure_sent: bool, geometry: Rect) -> Step {
        if initial_configure_sent {
            Step { state: self, effects: self.popup_renders(geometry) }
        } else {
            Step {
                state: StateView { serials: self.serials.advanced(), ..self },
                effects: seq![Effect::ConfigurePopup { popup, serial: Serial(self.serials.upcoming()) }]
                    + self.popup_renders(geometry),
            }
        }
    }
}

impl State {
    /// The index of the output that a new layer surface goes on.
    pub fn output_for_layer(&self, wanted: Option<OutputId>) -> (index: Option<usize>)
        ensures
            match index {
                Some(i) => self@.output_for_layer(wanted) == Some(i as int) && i < self.outputs.len(),
                None => self@.output_for_layer(wanted) is None,
            },
    {
        let wanted_index = match wanted {
            Some(id) => find_output(&self.outputs, id),
            None => None,
        };
        if wanted_index.is_some() {
            wanted_index
        } else if self.outputs.len() > 0 {
            Some(0)
        } else {
            None
        }
    }

    /// Takes in the layer surface `id` of the kind `kind`, which its client
    /// asked to go on `wanted`.
    pub fn new_layer_surface(&mut self, id: LayerId, wanted: Option<OutputId>, kind: LayerKind)
        ensures
            final(self)@ == old(self)@.with_layer(id, wanted, kind),
            is_consistent(old(self)@) ==> is_consistent(final(self)@),
    {
        match self.output_for_layer(wanted) {
            Some(output) => {
                assert(output_views(self.outputs@)[output as int] == self.outputs@[output as int]@);
                if find_layer_output(&self.outputs, id).is_none() {
                    self.outputs[output].layers.push(
                        LayerSurface { id, kind, geometry: None, initial_configure_sent: false },
                    );
                }
                self.pending.push(PendingAction::RequestLayout(self.outputs[output].id));
                assert(self@ =~= old(self)@.with_layer(id, wanted, kind));
            },
            None => {},
        }
    }

    /// Handles the destruction of the layer surface `id`.
    pub fn layer_destroyed(&mut self, id: LayerId)
        ensures
            final(self)@ == old(self)@.without_layer(id),
            is_consistent(old(self)@) ==> is_consistent(final(self)@),
    {
        match find_layer_output(&self.outputs, id) {
            Some((output, layer)) => {
                assert(output_views(self.outputs@)[output as int] == self.outputs@[output as int]@);
                self.outputs[output].layers.remove(layer);
                self.pending.push(PendingAction::RequestLayout(self.outputs[output].id));
                assert(self@ =~= old(self)@.without_layer(id));
            },
            None => {},
        }
    }

    /// Handles a commit of the client of the layer surface `id`, which now
    /// sits at `arranged` on its output.
    pub fn commit_layer(&mut self, id: LayerId, arranged: Option<Rect>) -> (effects: Vec<Effect>)
        ensures
            final(self)@ == old(self)@.layer_committed(id, arranged).state,
            effects@ == old(self)@.layer_committed(id, arranged).effects,
            is_consistent(old(self)@) ==> is_consistent(final(self)@),
    {
        let mut effects: Vec<Effect> = Vec::new();
        match find_layer_output(&self.outputs, id) {
            Some((output, layer)) => {
                assert(output_views(self.outputs@)[output as int] == self.outputs@[output as int]@);
                if !self.outputs[output].layers[layer].initial_configure_sent {
                    let serial = self.serials.next_serial();
                    effects.push(Effect::ConfigureLayer { layer: id, serial });
                }
                let kind = self.outputs[output].layers[layer].kind;
                self.outputs[output].layers[layer] = LayerSurface {
                    id,
                    kind,
                    geometry: arranged,
                    initial_configure_sent: true,
                };
                effects.push(Effect::ScheduleRender { output: self.outputs[output].id });
                assert(self@ =~= old(self)@.layer_committed(id, arranged).state);
                assert(effects@ =~= old(self)@.layer_committed(id, arranged).effects);
            },
            None => {},
        }
        effects
    }

    /// Handles a commit of the client of the popup `popup`, which is at
    /// `geometry`; `initial_configure_sent` tells whether its client has had
    /// its first configure.
    pub fn commit_popup(&mut self, popup: PopupId, initial_configure_sent: bool, geometry: Rect) -> (effects:
        Vec<Effect>)
        ensures
            final(self)@ == old(self)@.popup_committed(popup, initial_configure_sent, geometry).state,
            effects@ == old(self)@.popup_committed(popup, initial_configure_sent, geometry).effects,
            is_consistent(old(self)@) ==> is_consistent(final(self)@),
    {
        let mut effects: Vec<Effect> = Vec::new();
        let mut renders = self.popup_renders(geometry);
        if !initial_configure_sent {
            let serial = self.serials.next_serial();
            effects.push(Effect::ConfigurePopup { popup, serial });
        }
        let ghost first = effects@;
        let ghost added = renders@;
        effects.append(&mut renders);
        assert(effects@ == first + added);
        effects
    }
}

} // verus!
