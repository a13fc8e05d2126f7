//! Where a popup goes.
//!
//! A popup hangs off its parent: a window, a layer surface, or another
//! popup. The compositor decides against which bounds the popup is fitted;
//! turning the decision into a rectangle is the positioner's business.

use vstd::prelude::*;
use crate::effect::{Effect, KeyboardFocusTarget};
use crate::geometry::{Point, Rect};
use crate::ids::{LayerId, WindowId};

use crate::lookup::{first_index, first_is_unique, none_is_first};
use crate::output::{LayerSurface, Output, OutputView};
use crate::positioner::{ConstraintAdjustment, Positioner};
use crate::state::{find_window, output_views, window_index, State, StateView};

verus! {

/// A surface above a popup in the chain of parents.
#[derive(Debug, Clone, Copy, PartialEq, Eq, Hash, Structural)]
pub enum Ancestor {
    /// Another popup, at `loc` relative to its own parent.
    Popup { loc: Point },
    /// A window: the top of the chain.
    Window(WindowId),
    /// A layer surface: the top of the chain.
    Layer(LayerId),
}

/// How a popup's geometry is to be had from its positioner.
#[derive(Debug, Clone, Copy, PartialEq, Eq, Structural)]
pub enum PopupPlacement {
    /// Fit the popup into `target`, which is given relative to the popup's
    /// parent, by the adjustments that `positioner` allows.
    Unconstrained { positioner: Positioner, target: Rect },
    /// Take the geometry that `positioner` asks for, fitting nothing.
    Default { positioner: Positioner },
}

/// The index of the first ancestor that is no popup: the root of the chain.
pub open spec fn root_index(ancestors: Seq<Ancestor>) -> Option<int> {
    first_index(ancestors, |a: Ancestor| !(a is Popup))
}

/// The sum of the locations of the first `count` ancestors, added up from
/// the nearest, each sum saturating.
pub open spec fn offset_of(ancestors: Seq<Ancestor>, count: int) -> Point
    decreases count,
{
    if count <= 0 {
        Point { x: 0, y: 0 }
    } else {
        match ancestors[count - 1] {
            Ancestor::Popup { loc } => offset_of(ancestors, count - 1).spec_plus(loc),
            _ => offset_of(ancestors, count - 1),
        }
    }
}

/// `positioner` without leave to flip the popup horizontally.
pub open spec fn without_flip_x(positioner: Positioner) -> Positioner {
    Positioner {
        constraint_adjustment: ConstraintAdjustment { flip_x: false, ..positioner.constraint_adjustment },
        ..positioner
    }
}

/// The index of the first layer in `layers` with the identity `id`.
pub open spec fn layer_index(layers: Seq<LayerSurface>, id: LayerId) -> Option<int> {
    first_index(layers, |l: LayerSurface| l.id == id)
}

/// The index of the first output in `outputs` that holds the layer `id`.
pub open spec fn layer_output_index(outputs: Seq<OutputView>, id: LayerId) -> Option<int> {
    first_index(outputs, |o: OutputView| layer_index(o.layers, id) is Some)
}

impl StateView {
    /// Where the root of a popup's chain is in the global space, and the
    /// index of the output whose bounds the popup is fitted into.
    ///
    /// A window is where the space has it, and its popups are fitted into
    /// the focused output. A layer surface is where it was arranged on its
    /// output, and its popups are fitted into that output. Where one of
    /// these is not to be had, there is no answer.
    pub open spec fn root_placement(self, root: Ancestor) -> Option<(Point, int)> {
        match root {
            Ancestor::Window(id) => match (
                window_index(self.windows, id),
                self.space.element_geometry(id),
                self.focused_output(),
            ) {
                (Some(_), Some(geometry), Some(output)) => Some((geometry.loc, output)),
                _ => None,
            },
            Ancestor::Layer(id) => match layer_output_index(self.outputs, id) {
                Some(output) => match self.outputs[output].layers[layer_index(
                    self.outputs[output].layers,
                    id,
                )->0].geometry {
                    Some(geometry) => Some((geometry.loc.spec_plus(self.outputs[output].geometry.loc), output)),
                    None => None,
                },
                None => None,
            },
            Ancestor::Popup { .. } => None,
        }
    }

    /// How the geometry of a popup with the given chain of parents, nearest
    /// first, and the given positioner is to be had.
    ///
    /// A popup whose parent is the root of its chain is not flipped
    /// horizontally: it slides instead. The popup is fitted into the bounds
    /// of its output, taken relative to the popup's parent. Where the root,
    /// its place or the output is not to be had, the popup takes the
    /// geometry its positioner asks for.
    pub open spec fn popup_placement(self, ancestors: Seq<Ancestor>, positioner: Positioner) -> PopupPlacement {
        match root_index(ancestors) {
            Some(root) => {
                let adjusted = if root == 0 {
                    without_flip_x(positioner)
                } else {
                    positioner
                };
                match self.root_placement(ancestors[root]) {
                    Some((root_loc, output)) => {
                        let parent_loc = if root == 0 {
                            root_loc
                        } else {
                            root_loc.spec_plus(offset_of(ancestors, root))
                        };
                        PopupPlacement::Unconstrained {
                            positioner: adjusted,
                            target: Rect {
                                loc: self.outputs[output].geometry.loc.spec_minus(parent_loc),
                                size: self.outputs[output].geometry.size,
                            },
                        }
                    },
                    None => PopupPlacement::Default { positioner: adjusted },
                }
            },
            None => PopupPlacement::Default { positioner },
        }
    }

    /// What takes the keyboard focus back when a grabbing popup with the
    /// root `root` is dismissed: the root, if it is a mapped window or a
    /// layer surface that some output holds.
    pub open spec fn popup_grab_root(self, root: Ancestor) -> Option<KeyboardFocusTarget> {
        match root {
            Ancestor::Window(id) => if window_index(self.windows, id) is Some {
                Some(KeyboardFocusTarget::Window(id))
            } else {
                None
            },
            Ancestor::Layer(id) => if layer_output_index(self.outputs, id) is Some {
                Some(KeyboardFocusTarget::LayerSurface(id))
            } else {
                None
            },
            Ancestor::Popup { .. } => None,
        }
    }

    /// The requests to draw anew every output that a popup at `geometry`
    /// reaches or touches.
    pub open spec fn popup_renders(self, geometry: Rect) -> Seq<Effect> {
        self.outputs.filter(|o: OutputView| o.geometry.spec_overlaps_or_touches(geometry)).map_values(
            |o: OutputView| crate::lifecycle::render_of(o),
        )
    }
}

/// Finds the first layer in `layers` with the identity `id`.
pub fn find_layer(layers: &Vec<LayerSurface>, id: LayerId) -> (index: Option<usize>)
    ensures
        match index {
            Some(i) => layer_index(layers@, id) == Some(i as int) && i < layers.len(),
            None => layer_index(layers@, id) is None,
        },
{
    let ghost pred = |l: LayerSurface| l.id == id;
    let mut i: usize = 0;
    while i < layers.len()
        invariant
            i <= layers.len(),
            pred == |l: LayerSurface| l.id == id,
            forall|j: int| 0 <= j < i ==> !pred(#[trigger] layers@[j]),
        decreases layers.len() - i,
    {
        if layers[i].id == id {
            proof {
                first_is_unique(layers@, pred, i as int);
            }
            return Some(i);
        }
        i = i + 1;
    }
    proof {
        none_is_first(layers@, pred);
    }
    None
}

/// Finds the first output in `outputs` that holds the layer `id`, and the
/// layer's index on it.
pub fn find_layer_output(outputs: &Vec<Output>, id: LayerId) -> (found: Option<(usize, usize)>)
    ensures
        match found {
            Some((output, layer)) => layer_output_index(output_views(outputs@), id) == Some(output as int)
                && output < outputs.len() && layer_index(outputs[output as int]@.layers, id) == Some(
                layer as int,
            ) && layer < outputs[output as int].layers.len(),
            None => layer_output_index(output_views(outputs@), id) is None,
        },
{
    let ghost pred = |o: OutputView| layer_index(o.layers, id) is Some;
    let mut i: usize = 0;
    while i < outputs.len()
        invariant
            i <= outputs.len(),
            pred == |o: OutputView| layer_index(o.layers, id) is Some,
            forall|j: int| 0 <= j < i ==> !pred(#[trigger] output_views(outputs@)[j]),
        decreases outputs.len() - i,
    {
        match find_layer(&outputs[i].layers, id) {
            Some(layer) => {
                proof {
                    assert(pred(output_views(outputs@)[i as int]));
                    first_is_unique(output_views(outputs@), pred, i as int);
                }
                return Some((i, layer));
            },
            None => {},
        }
        i = i + 1;
    }
    proof {
        none_is_first(output_views(outputs@), pred);
    }
    None
}

/// Finds the root of a chain of parents, and the sum of the locations of
/// the popups below it.
pub fn find_root(ancestors: &Vec<Ancestor>) -> (found: Option<(usize, Point)>)
    ensures
        match found {
            Some((root, offset)) => root_index(ancestors@) == Some(root as int) && root < ancestors.len()
                && offset == offset_of(ancestors@, root as int),
            None => root_index(ancestors@) is None,
        },
{
    let ghost pred = |a: Ancestor| !(a is Popup);
    let mut offset = Point { x: 0, y: 0 };
    let mut i: usize = 0;
    while i < ancestors.len()
        invariant
            i <= ancestors.len(),
            pred == |a: Ancestor| !(a is Popup),
            forall|j: int| 0 <= j < i ==> !pred(#[trigger] ancestors@[j]),
            offset == offset_of(ancestors@, i as int),
        decreases ancestors.len() - i,
    {
        match ancestors[i] {
            Ancestor::Popup { loc } => {
                offset = offset.plus(loc);
            },
            _ => {
                proof {
                    first_is_unique(ancestors@, pred, i as int);
                }
                return Some((i, offset));
            },
        }
        i = i + 1;
    }
    proof {
        none_is_first(ancestors@, pred);
    }
    None
}

/// Whether a popup's grab is to be given up because the device is held by
/// another grab: the device is grabbed, and neither by the grab numbered
/// with the popup's serial nor by the one before it.
pub fn grab_is_taken(is_grabbed: bool, has_grab: bool, has_previous_grab: bool) -> (taken: bool)
    ensures
        taken == (is_grabbed && !(has_grab || has_previous_grab)),
{
    is_grabbed && !(has_grab || has_previous_grab)
}

impl State {
    /// What takes the keyboard focus back when a grabbing popup with the
    /// root `root` is dismissed.
    pub fn popup_grab_root(&self, root: Ancestor) -> (target: Option<KeyboardFocusTarget>)
        ensures
            target == self@.popup_grab_root(root),
    {
        match root {
            Ancestor::Window(id) => match find_window(&self.windows, id) {
                Some(_) => Some(KeyboardFocusTarget::Window(id)),
                None => None,
            },
            Ancestor::Layer(id) => match find_layer_output(&self.outputs, id) {
                Some(_) => Some(KeyboardFocusTarget::LayerSurface(id)),
                None => None,
            },
            Ancestor::Popup { .. } => None,
        }
    }

    /// Where the root of a popup's chain is in the global space, and the
    /// index of the output whose bounds the popup is fitted into.
    pub fn root_placement(&self, root: Ancestor) -> (placement: Option<(Point, usize)>)
        ensures
            match placement {
                Some((loc, output)) => self@.root_placement(root) == Some((loc, output as int)) && output
                    < self.outputs.len(),
                None => self@.root_placement(root) is None,
            },
    {
        match root {
            Ancestor::Window(id) => match (
                find_window(&self.windows, id),
                self.space.element_geometry(id),
                self.focused_output(),
            ) {
                (Some(_), Some(geometry), Some(output)) => Some((geometry.loc, output)),
                _ => None,
            },
            Ancestor::Layer(id) => match find_layer_output(&self.outputs, id) {
                Some((output, layer)) => {
                    assert(output_views(self.outputs@)[output as int] == self.outputs@[output as int]@);
                    match self.outputs[output].layers[layer].geometry {
                        Some(geometry) => Some((geometry.loc.plus(self.outputs[output].geometry.loc), output)),
                        None => None,
                    }
                },
                None => None,
            },
            Ancestor::Popup { .. } => None,
        }
    }

    /// Decides how the geometry of a popup with the given chain of parents,
    /// nearest first, and the given positioner is to be had.
    pub fn position_popup(&self, ancestors: &Vec<Ancestor>, positioner: Positioner) -> (placement:
        PopupPlacement)
        ensures
            placement == self@.popup_placement(ancestors@, positioner),
    {
        match find_root(ancestors) {
            Some((root, offset)) => {
                let adjusted = if root == 0 {
                    Positioner {
                        constraint_adjustment: ConstraintAdjustment {
                            flip_x: false,
                            ..positioner.constraint_adjustment
                        },
                        ..positioner
                    }
                } else {
                    positioner
                };
                match self.root_placement(ancestors[root]) {
                    Some((root_loc, output)) => {
                        assert(output_views(self.outputs@)[output as int] == self.outputs@[output as int]@);
                        let parent_loc = if root == 0 {
                            root_loc
                        } else {
                            root_loc.plus(offset)
                        };
                        PopupPlacement::Unconstrained {
                            positioner: adjusted,
                            target: Rect {
                                loc: self.outputs[output].geometry.loc.minus(parent_loc),
                                size: self.outputs[output].geometry.size,
                            },
                        }
                    },
                    None => PopupPlacement::Default { positioner: adjusted },
                }
            },
            None => PopupPlacement::Default { positioner },
        }
    }

    /// Decides how the geometry of a popup is to be had when its client
    /// asks for it to be placed anew by `positioner`: as the positioner asks
    /// for it, fitting nothing.
    pub fn reposition_request(&self, positioner: Positioner) -> (placement: PopupPlacement)
        ensures
            placement == (PopupPlacement::Default { positioner }),
    {
        PopupPlacement::Default { positioner }
    }

    /// The requests to draw anew every output that a popup at `geometry`
    /// reaches or touches. This is what a commit of the popup asks for.
    pub fn popup_renders(&self, geometry: Rect) -> (effects: Vec<Effect>)
        ensures
            effects@ == self@.popup_renders(geometry),
    {
        let ghost pred = |o: OutputView| o.geometry.spec_overlaps_or_touches(geometry);
        let ghost render = |o: OutputView| crate::lifecycle::render_of(o);
        let mut effects: Vec<Effect> = Vec::new();
        let mut i: usize = 0;
        while i < self.outputs.len()
            invariant
                i <= self.outputs.len(),
                pred == |o: OutputView| o.geometry.spec_overlaps_or_touches(geometry),
                render == |o: OutputView| crate::lifecycle::render_of(o),
                effects@ == output_views(self.outputs@.subrange(0, i as int)).filter(pred).map_values(render),
            decreases self.outputs.len() - i,
        {
            proof {
                let prefix = output_views(self.outputs@.subrange(0, i as int));
                let next = output_views(self.outputs@.subrange(0, i + 1));
                assert(next.drop_last() == prefix);
                assert(next.last() == self.outputs@[i as int]@);
                reveal(Seq::filter);
            }
            if self.outputs[i].geometry.overlaps_or_touches(geometry) {
                effects.push(Effect::ScheduleRender { output: self.outputs[i].id });
            }
            i = i + 1;
        }
        assert(self.outputs@.subrange(0, i as int) == self.outputs@);
        effects
    }
}

} // verus!
