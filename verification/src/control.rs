//! What the control surface can ask of the windows: focus, stacking,
//! geometry, modes and tags.
//!
//! Every operation names its window, tag or output by identifier. An
//! identifier that names nothing makes the operation a no-op, for the thing
//! may have gone since the request was made.

use vstd::prelude::*;
use crate::consistency::is_consistent;
use crate::effect::{Effect, Fault, KeyboardFocusTarget};

use crate::ids::{contains_id, remove_id, without, OutputId, TagId, WindowId};
use crate::layout::views;
use crate::lifecycle::{deactivate_all, deactivated, render_of};

use crate::output::{OutputView, Tag};
use crate::serial::Serial;
use crate::state::{
    find_output, find_tag_output, find_window, output_index, output_views, tag_output_index, window_index,
    State, StateView, Step,
};
use crate::window::{Geometry, WindowSurface, WindowView};

verus! {

/// Whether a request turns a property on, turns it off, or flips it.
#[derive(Debug, Clone, Copy, PartialEq, Eq, Hash, Structural)]
pub enum SetOrToggle {
    SetOn,
    Unset,
    Toggle,
}

impl SetOrToggle {
    /// Whether the request changes a property that is on if `is_set`, and
    /// off otherwise.
    pub open spec fn spec_changes(self, is_set: bool) -> bool {
        match self {
            SetOrToggle::SetOn => !is_set,
            SetOrToggle::Unset => is_set,
            SetOrToggle::Toggle => true,
        }
    }

    /// Whether the request changes a property that is on if `is_set`, and
    /// off otherwise.
    #[verifier::when_used_as_spec(spec_changes)]
    pub fn changes(self, is_set: bool) -> (b: bool)
        ensures
            b == self.spec_changes(is_set),
    {
        match self {
            SetOrToggle::SetOn => !is_set,
            SetOrToggle::Unset => is_set,
            SetOrToggle::Toggle => true,
        }
    }
}

/// What a request about a window's focus asks for, once the window and its
/// output were looked up.
pub ghost enum FocusChange {
    /// The window at `window`, on the output at `output`, is to have the
    /// focus.
    Give { window: int, output: int },
    /// The output at `output` is to have no focused window.
    Take { output: int },
    /// Nothing is to change.
    Nothing,
}

/// `tags` with every tag of the identity `tag` shown, hidden, or flipped.
pub open spec fn tags_with_active(tags: Seq<Tag>, tag: TagId, set_or_toggle: SetOrToggle) -> Seq<Tag> {
    tags.map_values(
        |t: Tag| if t.id == tag && set_or_toggle.spec_changes(t.active) {
            Tag { active: !t.active, ..t }
        } else {
            t
        },
    )
}

/// `tags` after the request `set_or_toggle` for `tag`: with the tag as the
/// last one, or without it.
pub open spec fn tags_after(tags: Seq<TagId>, tag: TagId, set_or_toggle: SetOrToggle) -> Seq<TagId> {
    match set_or_toggle {
        SetOrToggle::SetOn => without(tags, tag).push(tag),
        SetOrToggle::Unset => without(tags, tag),
        SetOrToggle::Toggle => if tags.contains(tag) {
            without(tags, tag)
        } else {
            tags.push(tag)
        },
    }
}

impl StateView {
    /// The step that sends the window `id` a configure, if it is a mapped
    /// native window.
    pub open spec fn configured(self, id: WindowId) -> Step {
        match window_index(self.windows, id) {
            Some(index) => if self.windows[index].surface is Wayland {
                Step {
                    state: StateView { serials: self.serials.advanced(), ..self },
                    effects: seq![
                        Effect::Configure { window: id, serial: Serial(self.serials.upcoming()), size: None },
                    ],
                }
            } else {
                self.unchanged()
            },
            None => self.unchanged(),
        }
    }

    /// The step that sends each of `ids` a configure, one after the other.
    pub open spec fn configured_each(self, ids: Seq<WindowId>) -> Step
        decreases ids.len(),
    {
        if ids.len() == 0 {
            self.unchanged()
        } else {
            let before = self.configured_each(ids.drop_last());
            let last = before.state.configured(ids.last());
            Step { state: last.state, effects: before.effects + last.effects }
        }
    }

    /// The step that tells every native window in the space its state anew,
    /// from the bottom-most window up.
    pub open spec fn configured_all(self) -> Step {
        self.configured_each(self.space.windows())
    }

    /// The state in which the window at `window`, which lives on the output
    /// at `output`, is the one window drawn as active, on top of its
    /// output's focus stack, with its output on top of the stack of outputs.
    pub open spec fn with_focus_given(self, window: int, output: int) -> StateView {
        StateView {
            windows: deactivated(self.windows).update(
                window,
                WindowView { activated: true, ..self.windows[window] },
            ),
            new_windows: deactivated(self.new_windows),
            outputs: self.outputs.update(
                output,
                OutputView {
                    focus_stack: self.outputs[output].focus_stack.with_focus(self.windows[window].id),
                    ..self.outputs[output]
                },
            ),
            output_focus_stack: self.output_focus_stack.with_focus(self.outputs[output].id),
            ..self
        }
    }

    /// The state in which no window is drawn as active and the output at
    /// `output` has no focused window; its focus stack keeps its history.
    pub open spec fn with_focus_taken(self, output: int) -> StateView {
        StateView {
            windows: deactivated(self.windows),
            new_windows: deactivated(self.new_windows),
            outputs: self.outputs.update(
                output,
                OutputView {
                    focus_stack: self.outputs[output].focus_stack.without_focus(),
                    ..self.outputs[output]
                },
            ),
            ..self
        }
    }

    /// The step that gives the focus to the window at `window`, which lives
    /// on the output at `output`.
    ///
    /// Every window ceases to be drawn as active, then this one is. It goes
    /// on top of its output's focus stack, and its output on top of the
    /// stack of outputs. The keyboard focus follows. Every window is told
    /// its state anew, and the output is drawn.
    pub open spec fn focused_on(self, window: int, output: int) -> Step {
        let focused = self.with_focus_given(window, output).keyboard_focused(
            Some(KeyboardFocusTarget::Window(self.windows[window].id)),
        );
        let told = focused.state.configured_all();
        Step {
            state: told.state,
            effects: focused.effects + told.effects + seq![render_of(self.outputs[output])],
        }
    }

    /// The step that takes the focus from the output at `output`, on which
    /// a window had it.
    ///
    /// Every window ceases to be drawn as active. The output's focus stack
    /// keeps its history, and the keyboard focus goes to nothing. Every
    /// window is told its state anew, and the output is drawn.
    pub open spec fn unfocused_on(self, output: int) -> Step {
        let focused = self.with_focus_taken(output).keyboard_focused(None);
        let told = focused.state.configured_all();
        Step {
            state: told.state,
            effects: focused.effects + told.effects + seq![render_of(self.outputs[output])],
        }
    }

    /// What is asked for when focus is to be set on, taken from, or flipped
    /// for the window `id`.
    ///
    /// Nothing is asked for if the window is gone, if it is an
    /// override-redirect surface, or if it is on no tag of any output. To
    /// flip is to take the focus if the window has it on its output, and to
    /// give it otherwise. To take the focus from a window that does not
    /// have it is to ask for nothing.
    pub open spec fn focus_change(self, id: WindowId, set_or_toggle: SetOrToggle) -> FocusChange {
        match window_index(self.windows, id) {
            Some(window) => if self.windows[window].is_x11_override_redirect() {
                FocusChange::Nothing
            } else {
                match self.output_of_window(window) {
                    Some(output) => {
                        let has_focus = self.outputs[output].focus_stack.current_focus() == Some(id);
                        if set_or_toggle is SetOn || (set_or_toggle is Toggle && !has_focus) {
                            FocusChange::Give { window, output }
                        } else if has_focus {
                            FocusChange::Take { output }
                        } else {
                            FocusChange::Nothing
                        }
                    },
                    None => FocusChange::Nothing,
                }
            },
            None => FocusChange::Nothing,
        }
    }

    /// The fault in which setting, taking or flipping the focus of the
    /// window `id` ends: focus is to be given or taken, and the seat has no
    /// keyboard.
    pub open spec fn focus_fault(self, id: WindowId, set_or_toggle: SetOrToggle) -> Option<Fault> {
        if !self.has_keyboard && !(self.focus_change(id, set_or_toggle) is Nothing) {
            Some(Fault::NoKeyboard)
        } else {
            None
        }
    }

    /// The step taken when focus is set on, taken from, or flipped for the
    /// window `id`. Where that ends in a fault, nothing changes.
    pub open spec fn focus_set(self, id: WindowId, set_or_toggle: SetOrToggle) -> Step {
        if self.has_keyboard {
            match self.focus_change(id, set_or_toggle) {
                FocusChange::Give { window, output } => self.focused_on(window, output),
                FocusChange::Take { output } => self.unfocused_on(output),
                FocusChange::Nothing => self.unchanged(),
            }
        } else {
            self.unchanged()
        }
    }

    /// The window that has the focus: the one that has it on the focused
    /// output.
    pub open spec fn focused_window(self) -> Option<WindowId> {
        match self.focused_output() {
            Some(output) => self.outputs[output].focus_stack.current_focus(),
            None => None,
        }
    }

    /// The step taken when the keyboard focus is set on the window `target`,
    /// or taken from the window that has it.
    ///
    /// To set the focus on a window is to make it the one active window, on
    /// top of the focus stack of its output, with its output the focused
    /// one, and to move the seat's keyboard focus to it. To take the focus
    /// is to leave no window active and the seat's keyboard focus on
    /// nothing; the focus stacks keep their history.
    pub open spec fn keyboard_focus_set(self, target: Option<WindowId>) -> Step {
        match target {
            Some(id) => self.focus_set(id, SetOrToggle::SetOn),
            None => match self.focused_window() {
                Some(id) => self.focus_set(id, SetOrToggle::Unset),
                None => self.unchanged(),
            },
        }
    }

    /// The fault in which setting the keyboard focus on `target` ends: focus
    /// is to be given or taken, and the seat has no keyboard.
    pub open spec fn keyboard_focus_fault(self, target: Option<WindowId>) -> Option<Fault> {
        match target {
            Some(id) => self.focus_fault(id, SetOrToggle::SetOn),
            None => match self.focused_window() {
                Some(id) => self.focus_fault(id, SetOrToggle::Unset),
                None => None,
            },
        }
    }

    /// The step that puts the window `id` on top of all others, if it is a
    /// mapped window. The focus stays where it is.
    pub open spec fn raised(self, id: WindowId) -> StateView {
        match window_index(self.windows, id) {
            Some(_) => StateView { space: self.space.raised(id), ..self },
            None => self,
        }
    }

    /// The effects of asking the client of the window `id` to close it. An
    /// override-redirect surface is not asked.
    pub open spec fn close_effects(self, id: WindowId) -> Seq<Effect> {
        match window_index(self.windows, id) {
            Some(window) => if self.windows[window].is_x11_override_redirect() {
                Seq::empty()
            } else {
                seq![Effect::Close { window: id }]
            },
            None => Seq::empty(),
        }
    }

    /// The step that lays out the output at `output` and has it drawn.
    pub open spec fn relaid(self, output: int) -> Step {
        Step {
            state: self.laid_out(output).state,
            effects: self.laid_out(output).effects + seq![render_of(self.outputs[output])],
        }
    }

    /// The step that lays out, and has drawn, the output that owns the first
    /// tag of the window at `window`.
    pub open spec fn relaid_for(self, window: int) -> Step {
        match self.output_of_window(window) {
            Some(output) => self.relaid(output),
            None => self.unchanged(),
        }
    }

    /// The step that lays out, and has drawn, each of the outputs at
    /// `outputs`, one after the other.
    pub open spec fn relaid_each(self, outputs: Seq<int>) -> Step
        decreases outputs.len(),
    {
        if outputs.len() == 0 {
            self.unchanged()
        } else {
            let before = self.relaid_each(outputs.drop_last());
            let last = before.state.relaid(outputs.last());
            Step { state: last.state, effects: before.effects + last.effects }
        }
    }

    /// The indices of the outputs that the window `id` reaches into, in the
    /// outputs' order. A window that is not mapped reaches into none.
    pub open spec fn outputs_showing(self, id: WindowId) -> Seq<int> {
        match self.space.element_geometry(id) {
            Some(rect) => Seq::new(self.outputs.len(), |i: int| i).filter(
                |i: int| self.outputs[i].geometry.spec_overlaps(rect),
            ),
            None => Seq::empty(),
        }
    }

    /// The step taken when the geometry of the window `id` is set.
    ///
    /// The parts that `geometry` gives replace those of the window's
    /// geometry, and the result becomes the rectangle of the window's mode.
    /// Every output that the window reaches into is laid out and drawn.
    pub open spec fn geometry_set(self, id: WindowId, geometry: Geometry) -> Step {
        match window_index(self.windows, id) {
            Some(window) => self.with_window(
                window,
                self.windows[window].with_rect(geometry.spec_merged_into(self.geometry_of(id))),
            ).relaid_each(self.outputs_showing(id)),
            None => self.unchanged(),
        }
    }

    /// The step taken when fullscreen is set, unset or flipped for the
    /// window `id`.
    pub open spec fn fullscreen_set(self, id: WindowId, set_or_toggle: SetOrToggle) -> Step {
        match window_index(self.windows, id) {
            Some(window) => {
                let w = self.windows[window];
                self.with_window(
                    window,
                    if set_or_toggle.spec_changes(w.fullscreen_or_maximized.spec_is_fullscreen()) {
                        w.toggled_fullscreen()
                    } else {
                        w
                    },
                ).relaid_for(window)
            },
            None => self.unchanged(),
        }
    }

    /// The step taken when the maximized state is set, unset or flipped for
    /// the window `id`.
    pub open spec fn maximized_set(self, id: WindowId, set_or_toggle: SetOrToggle) -> Step {
        match window_index(self.windows, id) {
            Some(window) => {
                let w = self.windows[window];
                self.with_window(
                    window,
                    if set_or_toggle.spec_changes(w.fullscreen_or_maximized.spec_is_maximized()) {
                        w.toggled_maximized()
                    } else {
                        w
                    },
                ).relaid_for(window)
            },
            None => self.unchanged(),
        }
    }

    /// The step taken when floating is set, unset or flipped for the window
    /// `id`. A window that floats for the first time floats where it is.
    pub open spec fn floating_set(self, id: WindowId, set_or_toggle: SetOrToggle) -> Step {
        match window_index(self.windows, id) {
            Some(window) => {
                let w = self.windows[window];
                self.with_window(
                    window,
                    if set_or_toggle.spec_changes(w.floating_or_tiled.spec_is_floating()) {
                        w.toggled_floating(self.geometry_of(id))
                    } else {
                        w
                    },
                ).relaid_for(window)
            },
            None => self.unchanged(),
        }
    }

    /// The step that shows the tag `tag`, hides it, or flips it, and lays
    /// out the tag's output. Nothing happens if no output owns the tag.
    pub open spec fn tag_active_set(self, tag: TagId, set_or_toggle: SetOrToggle) -> Step {
        match tag_output_index(self.outputs, tag) {
            Some(output) => self.with_output(
                output,
                OutputView {
                    tags: tags_with_active(self.outputs[output].tags, tag, set_or_toggle),
                    ..self.outputs[output]
                },
            ).relaid(output),
            None => self.unchanged(),
        }
    }

    /// The state after the output `id` was disconnected.
    ///
    /// The output is gone, with its tags and its focus stack, and is
    /// forgotten as a holder of focus. The windows stay as they are: a
    /// window that was on a tag of the output is still on that tag, which
    /// now belongs to no output, and is shown nowhere until it is put on
    /// another tag.
    pub open spec fn without_output(self, id: OutputId) -> StateView {
        match output_index(self.outputs, id) {
            Some(output) => StateView {
                outputs: self.outputs.remove(output),
                output_focus_stack: self.output_focus_stack.forgetting(id),
                ..self
            },
            None => self,
        }
    }

    /// The step that moves the window `id` to the tag `tag`, off every other
    /// tag, and lays out the tag's output. Nothing happens if the window or
    /// the tag is gone.
    pub open spec fn moved_to_tag(self, id: WindowId, tag: TagId) -> Step {
        match window_index(self.windows, id) {
            Some(window) => match tag_output_index(self.outputs, tag) {
                Some(output) => self.with_window(
                    window,
                    WindowView { tags: seq![tag], ..self.windows[window] },
                ).relaid(output),
                None => self.unchanged(),
            },
            None => self.unchanged(),
        }
    }

    /// The step that puts the window `id` on the tag `tag`, takes it off, or
    /// flips its membership, and lays out the tag's output. Nothing happens
    /// if the window or the tag is gone.
    pub open spec fn tag_set(self, id: WindowId, tag: TagId, set_or_toggle: SetOrToggle) -> Step {
        match window_index(self.windows, id) {
            Some(window) => match tag_output_index(self.outputs, tag) {
                Some(output) => self.with_window(
                    window,
                    WindowView {
                        tags: tags_after(self.windows[window].tags, tag, set_or_toggle),
                        ..self.windows[window]
                    },
                ).relaid(output),
                None => self.unchanged(),
            },
            None => self.unchanged(),
        }
    }
}

impl State {
    /// Tells every native window in the space its state anew, from the
    /// bottom-most window up.
    pub(crate) fn configure_all(&mut self) -> (effects: Vec<Effect>)
        ensures
            final(self)@ == old(self)@.configured_all().state,
            effects@ == old(self)@.configured_all().effects,
            final(self).windows.len() == old(self).windows.len(),
            final(self).outputs.len() == old(self).outputs.len(),
    {
        let mut effects: Vec<Effect> = Vec::new();
        let ghost ids = self@.space.windows();
        let mut i: usize = 0;
        while i < self.space.elements.len()
            invariant
                i <= self.space.elements.len(),
                self.space == old(self).space,
                ids == self@.space.windows(),
                self.windows.len() == old(self).windows.len(),
                self.outputs.len() == old(self).outputs.len(),
                self@ == old(self)@.configured_each(ids.subrange(0, i as int)).state,
                effects@ == old(self)@.configured_each(ids.subrange(0, i as int)).effects,
            decreases self.space.elements.len() - i,
        {
            let id = self.space.elements[i].window;
            proof {
                let next = ids.subrange(0, i + 1);
                assert(next.drop_last() == ids.subrange(0, i as int));
                assert(next.last() == id);
            }
            let ghost so_far = effects@;
            match find_window(&self.windows, id) {
                Some(index) => {
                    let is_wayland = match self.windows[index].surface {
                        WindowSurface::Wayland => true,
                        _ => false,
                    };
                    if is_wayland {
                        let serial = self.serials.next_serial();
                        effects.push(Effect::Configure { window: id, serial, size: None });
                        assert(effects@ == so_far + seq![
                            Effect::Configure { window: id, serial, size: None },
                        ]);
                    } else {
                        assert(effects@ == so_far + Seq::<Effect>::empty());
                    }
                },
                None => {
                    assert(effects@ == so_far + Seq::<Effect>::empty());
                },
            }
            i = i + 1;
        }
        assert(ids.subrange(0, i as int) == ids);
        effects
    }

    /// Gives the focus to the window at `window`, which lives on the output
    /// at `output`.
    pub(crate) fn focus_on(&mut self, window: usize, output: usize) -> (effects: Vec<Effect>)
        requires
            window < old(self).windows.len(),
            output < old(self).outputs.len(),
        ensures
            final(self)@ == old(self)@.focused_on(window as int, output as int).state,
            effects@ == old(self)@.focused_on(window as int, output as int).effects,
    {
        assert(views(self.windows@)[window as int] == self.windows@[window as int]@);
        assert(output_views(self.outputs@)[output as int] == self.outputs@[output as int]@);
        let id = self.windows[window].id;
        let output_id = self.outputs[output].id;
        deactivate_all(&mut self.windows);
        deactivate_all(&mut self.new_windows);
        let ghost quiet = self.windows@;
        assert(views(quiet)[window as int] == quiet[window as int]@);
        self.windows[window].activated = true;
        assert(views(self.windows@) =~= views(quiet).update(
            window as int,
            WindowView { activated: true, ..old(self)@.windows[window as int] },
        ));
        self.outputs[output].focus_stack.set_focus(id);
        self.output_focus_stack.set_focus(output_id);
        assert(self@.windows =~= old(self)@.with_focus_given(window as int, output as int).windows);
        assert(self@.outputs =~= old(self)@.with_focus_given(window as int, output as int).outputs);
        assert(self@ == old(self)@.with_focus_given(window as int, output as int));
        let mut effects = self.move_keyboard_focus(Some(KeyboardFocusTarget::Window(id)));
        let ghost focus_effects = effects@;
        let mut told = self.configure_all();
        let ghost told_effects = told@;
        effects.append(&mut told);
        effects.push(Effect::ScheduleRender { output: output_id });
        assert(effects@ == focus_effects + told_effects + seq![render_of(old(self)@.outputs[output as int])]);
        effects
    }

    /// Takes the focus from the output at `output`.
    pub(crate) fn unfocus_on(&mut self, output: usize) -> (effects: Vec<Effect>)
        requires
            output < old(self).outputs.len(),
        ensures
            final(self)@ == old(self)@.unfocused_on(output as int).state,
            effects@ == old(self)@.unfocused_on(output as int).effects,
    {
        assert(output_views(self.outputs@)[output as int] == self.outputs@[output as int]@);
        let output_id = self.outputs[output].id;
        deactivate_all(&mut self.windows);
        deactivate_all(&mut self.new_windows);
        self.outputs[output].focus_stack.unset_focus();
        assert(self@.outputs =~= old(self)@.with_focus_taken(output as int).outputs);
        assert(self@ == old(self)@.with_focus_taken(output as int));
        let mut effects = self.move_keyboard_focus(None);
        let ghost focus_effects = effects@;
        let mut told = self.configure_all();
        let ghost told_effects = told@;
        effects.append(&mut told);
        effects.push(Effect::ScheduleRender { output: output_id });
        assert(effects@ == focus_effects + told_effects + seq![render_of(old(self)@.outputs[output as int])]);
        effects
    }

    /// Sets focus on, takes it from, or flips it for the window `id`.
    ///
    /// Where focus is to be given or taken and the seat has no keyboard, the
    /// operation ends in a fault, and nothing has changed.
    pub fn set_focused(&mut self, id: WindowId, set_or_toggle: SetOrToggle) -> (result: Result<
        Vec<Effect>,
        Fault,
    >)
        ensures
            match result {
                Ok(effects) => {
                    &&& old(self)@.focus_fault(id, set_or_toggle) is None
                    &&& final(self)@ == old(self)@.focus_set(id, set_or_toggle).state
                    &&& effects@ == old(self)@.focus_set(id, set_or_toggle).effects
                },
                Err(fault) => {
                    &&& old(self)@.focus_fault(id, set_or_toggle) == Some(fault)
                    &&& final(self)@ == old(self)@
                },
            },
            is_consistent(old(self)@) ==> is_consistent(final(self)@),
    {
        proof {
            if is_consistent(old(self)@) {
                crate::consistency::focus_keeps_consistency(old(self)@, id, set_or_toggle);
            }
        }
        let window = match find_window(&self.windows, id) {
            Some(window) => window,
            None => {
                return Ok(Vec::new());
            },
        };
        assert(views(self.windows@)[window as int] == self.windows@[window as int]@);
        if self.windows[window].is_x11_override_redirect() {
            return Ok(Vec::new());
        }
        let output = match self.output_of_window(window) {
            Some(output) => output,
            None => {
                return Ok(Vec::new());
            },
        };
        assert(output_views(self.outputs@)[output as int] == self.outputs@[output as int]@);
        let has_focus = match self.outputs[output].focus_stack.current_focus() {
            Some(focused) => focused == id,
            None => false,
        };
        let give = match set_or_toggle {
            SetOrToggle::SetOn => true,
            SetOrToggle::Unset => false,
            SetOrToggle::Toggle => !has_focus,
        };
        if !give && !has_focus {
            Ok(Vec::new())
        } else if !self.has_keyboard {
            Err(Fault::NoKeyboard)
        } else if give {
            Ok(self.focus_on(window, output))
        } else {
            Ok(self.unfocus_on(output))
        }
    }

    /// The window that has the focus.
    pub fn focused_window(&self) -> (window: Option<WindowId>)
        ensures
            window == self@.focused_window(),
    {
        match self.focused_output() {
            Some(output) => {
                assert(output_views(self.outputs@)[output as int] == self.outputs@[output as int]@);
                self.outputs[output].focus_stack.current_focus()
            },
            None => None,
        }
    }

    /// Sets the keyboard focus on the window `target`, or takes it from the
    /// window that has it.
    ///
    /// Where focus is to be given or taken and the seat has no keyboard, the
    /// operation ends in a fault, and nothing has changed.
    pub fn set_keyboard_focus(&mut self, target: Option<WindowId>) -> (result: Result<Vec<Effect>, Fault>)
        ensures
            match result {
                Ok(effects) => {
                    &&& old(self)@.keyboard_focus_fault(target) is None
                    &&& final(self)@ == old(self)@.keyboard_focus_set(target).state
                    &&& effects@ == old(self)@.keyboard_focus_set(target).effects
                },
                Err(fault) => {
                    &&& old(self)@.keyboard_focus_fault(target) == Some(fault)
                    &&& final(self)@ == old(self)@
                },
            },
            is_consistent(old(self)@) ==> is_consistent(final(self)@),
    {
        match target {
            Some(id) => self.set_focused(id, SetOrToggle::SetOn),
            None => match self.focused_window() {
                Some(id) => self.set_focused(id, SetOrToggle::Unset),
                None => Ok(Vec::new()),
            },
        }
    }

    /// Puts the window `id` on top of all others, if it is a mapped window.
    pub fn raise(&mut self, id: WindowId)
        ensures
            final(self)@ == old(self)@.raised(id),
            is_consistent(old(self)@) ==> is_consistent(final(self)@),
    {
        match find_window(&self.windows, id) {
            Some(_) => {
                self.space.raise_element(id);
            },
            None => {},
        }
    }

    /// Asks the client of the window `id` to close it.
    pub fn close(&self, id: WindowId) -> (effects: Vec<Effect>)
        ensures
            effects@ == self@.close_effects(id),
    {
        let mut effects: Vec<Effect> = Vec::new();
        match find_window(&self.windows, id) {
            Some(window) => {
                assert(views(self.windows@)[window as int] == self.windows@[window as int]@);
                if !self.windows[window].is_x11_override_redirect() {
                    effects.push(Effect::Close { window: id });
                }
            },
            None => {},
        }
        effects
    }

    /// Lays out the output at `output` and has it drawn.
    pub(crate) fn relayout(&mut self, output: usize) -> (effects: Vec<Effect>)
        requires
            output < old(self).outputs.len(),
        ensures
            final(self)@ == old(self)@.relaid(output as int).state,
            effects@ == old(self)@.relaid(output as int).effects,
            final(self).windows.len() == old(self).windows.len(),
            final(self).outputs.len() == old(self).outputs.len(),
    {
        assert(output_views(self.outputs@)[output as int] == self.outputs@[output as int]@);
        let output_id = self.outputs[output].id;
        let mut effects = self.layout_at(output);
        effects.push(Effect::ScheduleRender { output: output_id });
        effects
    }

    /// Lays out, and has drawn, the output that owns the first tag of the
    /// window at `window`.
    pub(crate) fn relayout_for(&mut self, window: usize) -> (effects: Vec<Effect>)
        requires
            window < old(self).windows.len(),
        ensures
            final(self)@ == old(self)@.relaid_for(window as int).state,
            effects@ == old(self)@.relaid_for(window as int).effects,
    {
        match self.output_of_window(window) {
            Some(output) => self.relayout(output),
            None => Vec::new(),
        }
    }

    /// The indices of the outputs that the window `id` reaches into.
    pub fn outputs_showing(&self, id: WindowId) -> (outputs: Vec<usize>)
        ensures
            outputs@.map_values(|i: usize| i as int) == self@.outputs_showing(id),
            forall|k: int| 0 <= k < outputs.len() ==> outputs[k] < self.outputs.len(),
    {
        let mut outputs: Vec<usize> = Vec::new();
        match self.space.element_geometry(id) {
            Some(rect) => {
                let ghost all = Seq::new(self@.outputs.len(), |i: int| i);
                let ghost pred = |i: int| self@.outputs[i].geometry.spec_overlaps(rect);
                let mut i: usize = 0;
                while i < self.outputs.len()
                    invariant
                        i <= self.outputs.len(),
                        all == Seq::new(self@.outputs.len(), |i: int| i),
                        pred == |i: int| self@.outputs[i].geometry.spec_overlaps(rect),
                        outputs@.map_values(|i: usize| i as int) == all.subrange(0, i as int).filter(pred),
                        forall|k: int| 0 <= k < outputs.len() ==> outputs[k] < self.outputs.len(),
                    decreases self.outputs.len() - i,
                {
                    proof {
                        let next = all.subrange(0, i + 1);
                        assert(next.drop_last() == all.subrange(0, i as int));
                        assert(next.last() == i as int);
                        reveal(Seq::filter);
                        assert(output_views(self.outputs@)[i as int] == self.outputs@[i as int]@);
                    }
                    let ghost before = outputs@.map_values(|i: usize| i as int);
                    if self.outputs[i].geometry.overlaps(rect) {
                        outputs.push(i);
                        assert(outputs@.map_values(|i: usize| i as int) == before.push(i as int));
                    }
                    i = i + 1;
                }
                assert(all.subrange(0, i as int) == all);
            },
            None => {
                assert(outputs@.map_values(|i: usize| i as int) == Seq::<int>::empty());
            },
        }
        outputs
    }

    /// Lays out, and has drawn, each of the outputs at `outputs`.
    pub(crate) fn relayout_each(&mut self, outputs: &Vec<usize>) -> (effects: Vec<Effect>)
        requires
            forall|k: int| 0 <= k < outputs.len() ==> outputs[k] < old(self).outputs.len(),
        ensures
            final(self)@ == old(self)@.relaid_each(outputs@.map_values(|i: usize| i as int)).state,
            effects@ == old(self)@.relaid_each(outputs@.map_values(|i: usize| i as int)).effects,
    {
        let ghost indices = outputs@.map_values(|i: usize| i as int);
        let mut effects: Vec<Effect> = Vec::new();
        let mut k: usize = 0;
        while k < outputs.len()
            invariant
                k <= outputs.len(),
                indices == outputs@.map_values(|i: usize| i as int),
                self.outputs.len() == old(self).outputs.len(),
                forall|j: int| 0 <= j < outputs.len() ==> outputs[j] < self.outputs.len(),
                self@ == old(self)@.relaid_each(indices.subrange(0, k as int)).state,
                effects@ == old(self)@.relaid_each(indices.subrange(0, k as int)).effects,
            decreases outputs.len() - k,
        {
            proof {
                let next = indices.subrange(0, k + 1);
                assert(next.drop_last() == indices.subrange(0, k as int));
                assert(next.last() == outputs[k as int] as int);
            }
            let ghost so_far = effects@;
            let mut more = self.relayout(outputs[k]);
            let ghost added = more@;
            effects.append(&mut more);
            assert(effects@ == so_far + added);
            k = k + 1;
        }
        assert(indices.subrange(0, k as int) == indices);
        effects
    }

    /// Sets the geometry of the window `id`; only the parts that `geometry`
    /// gives are changed.
    pub fn set_geometry(&mut self, id: WindowId, geometry: Geometry) -> (effects: Vec<Effect>)
        ensures
            final(self)@ == old(self)@.geometry_set(id, geometry).state,
            effects@ == old(self)@.geometry_set(id, geometry).effects,
            is_consistent(old(self)@) ==> is_consistent(final(self)@),
    {
        proof {
            if is_consistent(old(self)@) {
                crate::consistency::geometry_keeps_consistency(old(self)@, id, geometry);
            }
        }
        match find_window(&self.windows, id) {
            Some(window) => {
                assert(views(self.windows@)[window as int] == self.windows@[window as int]@);
                let rect = geometry.merged_into(self.geometry_of(id));
                let outputs = self.outputs_showing(id);
                self.windows[window].floating_or_tiled = self.windows[window].floating_or_tiled.with_rect(
                    rect,
                );
                assert(self@ =~= old(self)@.with_window(
                    window as int,
                    old(self)@.windows[window as int].with_rect(rect),
                ));
                self.relayout_each(&outputs)
            },
            None => Vec::new(),
        }
    }

    /// Sets, unsets or flips fullscreen for the window `id`.
    pub fn set_fullscreen(&mut self, id: WindowId, set_or_toggle: SetOrToggle) -> (effects: Vec<Effect>)
        ensures
            final(self)@ == old(self)@.fullscreen_set(id, set_or_toggle).state,
            effects@ == old(self)@.fullscreen_set(id, set_or_toggle).effects,
            is_consistent(old(self)@) ==> is_consistent(final(self)@),
    {
        proof {
            if is_consistent(old(self)@) {
                crate::consistency::fullscreen_keeps_consistency(old(self)@, id, set_or_toggle);
            }
        }
        match find_window(&self.windows, id) {
            Some(window) => {
                assert(views(self.windows@)[window as int] == self.windows@[window as int]@);
                if set_or_toggle.changes(self.windows[window].fullscreen_or_maximized.is_fullscreen()) {
                    self.windows[window].toggle_fullscreen();
                }
                assert(self@ =~= old(self)@.with_window(window as int, self@.windows[window as int]));
                self.relayout_for(window)
            },
            None => Vec::new(),
        }
    }

    /// Sets, unsets or flips the maximized state for the window `id`.
    pub fn set_maximized(&mut self, id: WindowId, set_or_toggle: SetOrToggle) -> (effects: Vec<Effect>)
        ensures
            final(self)@ == old(self)@.maximized_set(id, set_or_toggle).state,
            effects@ == old(self)@.maximized_set(id, set_or_toggle).effects,
            is_consistent(old(self)@) ==> is_consistent(final(self)@),
    {
        proof {
            if is_consistent(old(self)@) {
                crate::consistency::maximized_keeps_consistency(old(self)@, id, set_or_toggle);
            }
        }
        match find_window(&self.windows, id) {
            Some(window) => {
                assert(views(self.windows@)[window as int] == self.windows@[window as int]@);
                if set_or_toggle.changes(self.windows[window].fullscreen_or_maximized.is_maximized()) {
                    self.windows[window].toggle_maximized();
                }
                assert(self@ =~= old(self)@.with_window(window as int, self@.windows[window as int]));
                self.relayout_for(window)
            },
            None => Vec::new(),
        }
    }

    /// Sets, unsets or flips floating for the window `id`.
    pub fn set_floating(&mut self, id: WindowId, set_or_toggle: SetOrToggle) -> (effects: Vec<Effect>)
        ensures
            final(self)@ == old(self)@.floating_set(id, set_or_toggle).state,
            effects@ == old(self)@.floating_set(id, set_or_toggle).effects,
            is_consistent(old(self)@) ==> is_consistent(final(self)@),
    {
        proof {
            if is_consistent(old(self)@) {
                crate::consistency::floating_keeps_consistency(old(self)@, id, set_or_toggle);
            }
        }
        match find_window(&self.windows, id) {
            Some(window) => {
                assert(views(self.windows@)[window as int] == self.windows@[window as int]@);
                if set_or_toggle.changes(self.windows[window].floating_or_tiled.is_floating()) {
                    let current = self.geometry_of(id);
                    self.windows[window].toggle_floating(current);
                }
                assert(self@ =~= old(self)@.with_window(window as int, self@.windows[window as int]));
                self.relayout_for(window)
            },
            None => Vec::new(),
        }
    }

    /// Shows the tag `tag`, hides it, or flips it.
    pub fn set_tag_active(&mut self, tag: TagId, set_or_toggle: SetOrToggle) -> (effects: Vec<Effect>)
        ensures
            final(self)@ == old(self)@.tag_active_set(tag, set_or_toggle).state,
            effects@ == old(self)@.tag_active_set(tag, set_or_toggle).effects,
            is_consistent(old(self)@) ==> is_consistent(final(self)@),
    {
        proof {
            if is_consistent(old(self)@) {
                crate::consistency::tag_active_keeps_consistency(old(self)@, tag, set_or_toggle);
            }
        }
        match find_tag_output(&self.outputs, tag) {
            Some(output) => {
                assert(output_views(self.outputs@)[output as int] == self.outputs@[output as int]@);
                let ghost before = self.outputs@[output as int]@.tags;
                let mut tags: Vec<Tag> = Vec::new();
                let mut i: usize = 0;
                while i < self.outputs[output].tags.len()
                    invariant
                        output < self.outputs.len(),
                        *self == *old(self),
                        before == self.outputs@[output as int]@.tags,
                        i <= before.len(),
                        tags.len() == i,
                        forall|k: int| 0 <= k < i ==> tags@[k] == tags_with_active(before, tag, set_or_toggle)[k],
                    decreases before.len() - i,
                {
                    let t = self.outputs[output].tags[i];
                    if t.id == tag && set_or_toggle.changes(t.active) {
                        tags.push(Tag { active: !t.active, ..t });
                    } else {
                        tags.push(t);
                    }
                    i = i + 1;
                }
                assert(tags@ =~= tags_with_active(before, tag, set_or_toggle));
                self.outputs[output].tags = tags;
                assert(self@ =~= old(self)@.with_output(
                    output as int,
                    OutputView {
                        tags: tags_with_active(before, tag, set_or_toggle),
                        ..old(self)@.outputs[output as int]
                    },
                ));
                self.relayout(output)
            },
            None => Vec::new(),
        }
    }

    /// Handles the disconnection of the output `id`. What was on the
    /// output's tags stays on them.
    pub fn remove_output(&mut self, id: OutputId)
        ensures
            final(self)@ == old(self)@.without_output(id),
            is_consistent(old(self)@) ==> is_consistent(final(self)@),
    {
        match find_output(&self.outputs, id) {
            Some(output) => {
                self.outputs.remove(output);
                self.output_focus_stack.forget(id);
                assert(self@ =~= old(self)@.without_output(id));
            },
            None => {},
        }
    }

    /// Moves the window `id` to the tag `tag`, off every other tag.
    pub fn move_to_tag(&mut self, id: WindowId, tag: TagId) -> (effects: Vec<Effect>)
        ensures
            final(self)@ == old(self)@.moved_to_tag(id, tag).state,
            effects@ == old(self)@.moved_to_tag(id, tag).effects,
            is_consistent(old(self)@) ==> is_consistent(final(self)@),
    {
        proof {
            if is_consistent(old(self)@) {
                crate::consistency::move_to_tag_keeps_consistency(old(self)@, id, tag);
            }
        }
        match find_window(&self.windows, id) {
            Some(window) => match find_tag_output(&self.outputs, tag) {
                Some(output) => {
                    assert(views(self.windows@)[window as int] == self.windows@[window as int]@);
                    let mut tags: Vec<TagId> = Vec::new();
                    tags.push(tag);
                    self.windows[window].tags = tags;
                    assert(self@ =~= old(self)@.with_window(
                        window as int,
                        WindowView { tags: seq![tag], ..old(self)@.windows[window as int] },
                    ));
                    self.relayout(output)
                },
                None => Vec::new(),
            },
            None => Vec::new(),
        }
    }

    /// Puts the window `id` on the tag `tag`, takes it off, or flips its
    /// membership.
    pub fn set_tag(&mut self, id: WindowId, tag: TagId, set_or_toggle: SetOrToggle) -> (effects: Vec<Effect>)
        ensures
            final(self)@ == old(self)@.tag_set(id, tag, set_or_toggle).state,
            effects@ == old(self)@.tag_set(id, tag, set_or_toggle).effects,
            is_consistent(old(self)@) ==> is_consistent(final(self)@),
    {
        proof {
            if is_consistent(old(self)@) {
                crate::consistency::tag_keeps_consistency(old(self)@, id, tag, set_or_toggle);
            }
        }
        match find_window(&self.windows, id) {
            Some(window) => match find_tag_output(&self.outputs, tag) {
                Some(output) => {
                    assert(views(self.windows@)[window as int] == self.windows@[window as int]@);
                    match set_or_toggle {
                        SetOrToggle::SetOn => {
                            remove_id(&mut self.windows[window].tags, tag);
                            self.windows[window].tags.push(tag);
                        },
                        SetOrToggle::Unset => {
                            remove_id(&mut self.windows[window].tags, tag);
                        },
                        SetOrToggle::Toggle => {
                            if !contains_id(&self.windows[window].tags, tag) {
                                self.windows[window].tags.push(tag);
                            } else {
                                remove_id(&mut self.windows[window].tags, tag);
                            }
                        },
                    }
                    assert(self@ =~= old(self)@.with_window(
                        window as int,
                        WindowView {
                            tags: tags_after(old(self)@.windows[window as int].tags, tag, set_or_toggle),
                            ..old(self)@.windows[window as int]
                        },
                    ));
                    self.relayout(output)
                },
                None => Vec::new(),
            },
            None => Vec::new(),
        }
    }
}

} // verus!
