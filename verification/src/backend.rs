//! What the core makes of the backend's answers.

use vstd::prelude::*;
use crate::ids::{OutputId, WindowId};
use crate::state::{output_views, State, StateView};

verus! {

/// The size of an output's gamma ramp, as it is reported to a client.
/// `supported` tells whether the backend can set gamma at all, and `size` is
/// what the backend answered, if it answered.
///
/// Gamma control is reported as unsupported, not as an error: where the
/// backend cannot set gamma, did not answer, or answered with a ramp of
/// size zero, there is no size to report.
pub fn gamma_size(supported: bool, size: Option<u32>) -> (reported: Option<u32>)
    ensures
        reported == match size {
            Some(size) => if supported && size != 0 {
                Some(size)
            } else {
                None
            },
            None => None,
        },
{
    match size {
        Some(size) => if supported && size != 0 {
            Some(size)
        } else {
            None
        },
        None => None,
    }
}

/// Whether gamma was set, as it is reported to a client: it was if the
/// backend can set gamma and did so.
pub fn gamma_was_set(supported: bool, succeeded: bool) -> (set: bool)
    ensures
        set == (supported && succeeded),
{
    supported && succeeded
}

impl StateView {
    /// The first output that the window `window` reaches into.
    pub open spec fn first_output_showing(self, window: Option<WindowId>) -> Option<OutputId> {
        match window {
            Some(id) => if self.outputs_showing(id).len() > 0 {
                Some(self.outputs[self.outputs_showing(id)[0]].id)
            } else {
                None
            },
            None => None,
        }
    }

    /// The output whose scale a surface is told to prefer.
    ///
    /// It is the output that the surface was last shown on; failing that,
    /// for a subsurface, the one its root was last shown on; failing that,
    /// the first output that the root's window reaches into; and failing
    /// that, the first output there is.
    pub open spec fn scale_output(
        self,
        primary: Option<OutputId>,
        is_root: bool,
        root_primary: Option<OutputId>,
        root_window: Option<WindowId>,
    ) -> Option<OutputId> {
        if primary is Some {
            primary
        } else if !is_root && root_primary is Some {
            root_primary
        } else if self.first_output_showing(root_window) is Some {
            self.first_output_showing(root_window)
        } else if self.outputs.len() > 0 {
            Some(self.outputs[0].id)
        } else {
            None
        }
    }
}

impl State {
    /// The first output that the window `window` reaches into.
    pub fn first_output_showing(&self, window: Option<WindowId>) -> (output: Option<OutputId>)
        ensures
            output == self@.first_output_showing(window),
    {
        match window {
            Some(id) => {
                let showing = self.outputs_showing(id);
                if showing.len() > 0 {
                    assert(showing@.map_values(|i: usize| i as int)[0] == showing@[0] as int);
                    assert(output_views(self.outputs@)[showing@[0] as int] == self.outputs@[showing@[0] as int]@);
                    Some(self.outputs[showing[0]].id)
                } else {
                    assert(showing@.map_values(|i: usize| i as int).len() == 0);
                    None
                }
            },
            None => None,
        }
    }

    /// The output whose scale a surface is told to prefer. `primary` is the
    /// output that the surface was last shown on, `is_root` tells whether
    /// the surface is the root of its tree, `root_primary` is the output
    /// that the root was last shown on, and `root_window` is the window of
    /// the root.
    pub fn scale_output(
        &self,
        primary: Option<OutputId>,
        is_root: bool,
        root_primary: Option<OutputId>,
        root_window: Option<WindowId>,
    ) -> (output: Option<OutputId>)
        ensures
            output == self@.scale_output(primary, is_root, root_primary, root_window),
    {
        if primary.is_some() {
            return primary;
        }
        if !is_root && root_primary.is_some() {
            return root_primary;
        }
        let showing = self.first_output_showing(root_window);
        if showing.is_some() {
            return showing;
        }
        if self.outputs.len() > 0 {
            assert(output_views(self.outputs@)[0] == self.outputs@[0]@);
            Some(self.outputs[0].id)
        } else {
            None
        }
    }
}

} // verus!
