//! The compositor's state: every window, output and tag, who has focus, and
//! what is in progress.

use vstd::prelude::*;
use crate::consistency::is_consistent;
use crate::effect::{Effect, KeyboardFocusTarget, PendingAction};
use crate::focus::{FocusStack, FocusStackView};
use crate::geometry::{Point, Rect, Size};
use crate::grab::Grab;
use crate::ids::{OutputId, TagId, WindowId};
use crate::layout::views;
use crate::lookup::{first_index, first_is_unique, none_is_first};
use crate::output::{Output, OutputView, Tag};
use crate::rules::{WindowRule, WindowRuleCondition};
use crate::serial::SerialCounter;
use crate::space::{Space, SpaceView};
use crate::window::{WindowElement, WindowView};

verus! {

/// The windows whose commits are held back so that a change of layout shows
/// all at once.
///
/// When a window is mapped and the layout moves the windows already on
/// screen, those are blocked: their commits are held until the new window
/// has committed at the geometry the layout gave it and each of them has
/// committed too. Then all are let through together, and what they
/// committed takes effect at once.
#[derive(Debug)]
pub struct Batch {
    /// The new windows whose commit is awaited.
    pub waiting: Vec<WindowId>,
    /// The windows whose commits are held back.
    pub blocked: Vec<WindowId>,
    /// The blocked windows that have committed since they were blocked.
    pub held: Vec<WindowId>,
}

/// A batch as a mathematical value.
#[verifier::ext_equal]
pub struct BatchView {
    pub waiting: Seq<WindowId>,
    pub blocked: Seq<WindowId>,
    pub held: Seq<WindowId>,
}

impl View for Batch {
    type V = BatchView;

    open spec fn view(&self) -> BatchView {
        BatchView { waiting: self.waiting@, blocked: self.blocked@, held: self.held@ }
    }
}

impl BatchView {
    /// The batch in which nothing is awaited and nothing held back.
    pub open spec fn empty() -> BatchView {
        BatchView { waiting: Seq::empty(), blocked: Seq::empty(), held: Seq::empty() }
    }
}

/// The whole state of the compositor core.
#[derive(Debug)]
pub struct State {
    /// The mapped windows, in the order they were mapped.
    pub windows: Vec<WindowElement>,
    /// The windows that have not committed a buffer yet.
    pub new_windows: Vec<WindowElement>,
    pub outputs: Vec<Output>,
    pub space: Space,
    /// The outputs that have had focus.
    pub output_focus_stack: FocusStack<OutputId>,
    /// Whether the seat has a keyboard.
    pub has_keyboard: bool,
    /// What the keyboard focus is on.
    pub keyboard_focus: Option<KeyboardFocusTarget>,
    /// Where the pointer is, if the seat has one.
    pub pointer: Option<Point>,
    pub serials: SerialCounter,
    /// The number of the next window.
    pub next_window_id: u32,
    /// The interactive move or resize in progress.
    pub grab: Option<Grab>,
    pub batch: Batch,
    /// What has been put off until the event loop's next idle point, oldest
    /// first.
    pub pending: Vec<PendingAction>,
    /// The window rules, in the order they were added.
    pub window_rules: Vec<(WindowRuleCondition, WindowRule)>,
}

/// The state as a mathematical value.
#[verifier::ext_equal]
pub struct StateView {
    pub windows: Seq<WindowView>,
    pub new_windows: Seq<WindowView>,
    pub outputs: Seq<OutputView>,
    pub space: SpaceView,
    pub output_focus_stack: FocusStackView<OutputId>,
    pub has_keyboard: bool,
    pub keyboard_focus: Option<KeyboardFocusTarget>,
    pub pointer: Option<Point>,
    pub serials: SerialCounter,
    pub next_window_id: u32,
    pub grab: Option<Grab>,
    pub batch: BatchView,
    pub pending: Seq<PendingAction>,
    pub window_rules: Seq<(WindowRuleCondition, WindowRule)>,
}

/// The outputs of `outputs` as mathematical values.
pub open spec fn output_views(outputs: Seq<Output>) -> Seq<OutputView> {
    outputs.map_values(|o: Output| o@)
}

impl View for State {
    type V = StateView;

    open spec fn view(&self) -> StateView {
        StateView {
            windows: views(self.windows@),
            new_windows: views(self.new_windows@),
            outputs: output_views(self.outputs@),
            space: self.space@,
            output_focus_stack: self.output_focus_stack@,
            has_keyboard: self.has_keyboard,
            keyboard_focus: self.keyboard_focus,
            pointer: self.pointer,
            serials: self.serials,
            next_window_id: self.next_window_id,
            grab: self.grab,
            batch: self.batch@,
            pending: self.pending@,
            window_rules: self.window_rules@,
        }
    }
}

/// A state together with the effects that led to it.
#[verifier::ext_equal]
pub struct Step {
    pub state: StateView,
    pub effects: Seq<Effect>,
}

/// The index of the first window in `windows` with the identity `id`.
pub open spec fn window_index(windows: Seq<WindowView>, id: WindowId) -> Option<int> {
    first_index(windows, |w: WindowView| w.id == id)
}

/// The index of the first output in `outputs` with the identity `id`.
pub open spec fn output_index(outputs: Seq<OutputView>, id: OutputId) -> Option<int> {
    first_index(outputs, |o: OutputView| o.id == id)
}

/// The index of the first output in `outputs` that owns the tag `tag`.
pub open spec fn tag_output_index(outputs: Seq<OutputView>, tag: TagId) -> Option<int> {
    first_index(outputs, |o: OutputView| o.has_tag(tag))
}

/// Finds the first window in `windows` with the identity `id`.
pub fn find_window(windows: &Vec<WindowElement>, id: WindowId) -> (index: Option<usize>)
    ensures
        match index {
            Some(i) => window_index(views(windows@), id) == Some(i as int) && i < windows.len(),
            None => window_index(views(windows@), id) is None,
        },
{
    let ghost pred = |w: WindowView| w.id == id;
    let mut i: usize = 0;
    while i < windows.len()
        invariant
            i <= windows.len(),
            pred == |w: WindowView| w.id == id,
            forall|j: int| 0 <= j < i ==> !pred(#[trigger] views(windows@)[j]),
        decreases windows.len() - i,
    {
        if windows[i].id == id {
            proof {
                assert(pred(views(windows@)[i as int]));
                first_is_unique(views(windows@), pred, i as int);
            }
            return Some(i);
        }
        i = i + 1;
    }
    proof {
        none_is_first(views(windows@), pred);
    }
    None
}

/// Finds the first output in `outputs` with the identity `id`.
pub fn find_output(outputs: &Vec<Output>, id: OutputId) -> (index: Option<usize>)
    ensures
        match index {
            Some(i) => output_index(output_views(outputs@), id) == Some(i as int) && i < outputs.len(),
            None => output_index(output_views(outputs@), id) is None,
        },
{
    let ghost pred = |o: OutputView| o.id == id;
    let mut i: usize = 0;
    while i < outputs.len()
        invariant
            i <= outputs.len(),
            pred == |o: OutputView| o.id == id,
            forall|j: int| 0 <= j < i ==> !pred(#[trigger] output_views(outputs@)[j]),
        decreases outputs.len() - i,
    {
        if outputs[i].id == id {
            proof {
                assert(pred(output_views(outputs@)[i as int]));
                first_is_unique(output_views(outputs@), pred, i as int);
            }
            return Some(i);
        }
        i = i + 1;
    }
    proof {
        none_is_first(output_views(outputs@), pred);
    }
    None
}

/// Finds the first output in `outputs` that owns the tag `tag`.
pub fn find_tag_output(outputs: &Vec<Output>, tag: TagId) -> (index: Option<usize>)
    ensures
        match index {
            Some(i) => tag_output_index(output_views(outputs@), tag) == Some(i as int) && i < outputs.len(),
            None => tag_output_index(output_views(outputs@), tag) is None,
        },
{
    let ghost pred = |o: OutputView| o.has_tag(tag);
    let mut i: usize = 0;
    while i < outputs.len()
        invariant
            i <= outputs.len(),
            pred == |o: OutputView| o.has_tag(tag),
            forall|j: int| 0 <= j < i ==> !pred(#[trigger] output_views(outputs@)[j]),
        decreases outputs.len() - i,
    {
        if outputs[i].has_tag(tag) {
            proof {
                assert(pred(output_views(outputs@)[i as int]));
                first_is_unique(output_views(outputs@), pred, i as int);
            }
            return Some(i);
        }
        i = i + 1;
    }
    proof {
        none_is_first(output_views(outputs@), pred);
    }
    None
}

impl StateView {
    /// The state of a compositor that has just started: no window, no
    /// output, a seat with the given devices, and the pointer, if any, at
    /// the origin.
    pub open spec fn initial(has_keyboard: bool, has_pointer: bool) -> StateView {
        StateView {
            windows: Seq::empty(),
            new_windows: Seq::empty(),
            outputs: Seq::empty(),
            space: SpaceView::empty(),
            output_focus_stack: FocusStackView::empty(),
            has_keyboard,
            keyboard_focus: None,
            pointer: if has_pointer {
                Some(Point { x: 0, y: 0 })
            } else {
                None
            },
            serials: SerialCounter { next: 1 },
            next_window_id: 0,
            grab: None,
            batch: BatchView::empty(),
            pending: Seq::empty(),
            window_rules: Seq::empty(),
        }
    }

    /// The state after an output named `name` that shows `geometry` and
    /// owns `tags` was connected. The first output to be connected takes
    /// the focus.
    pub open spec fn with_output_connected(
        self,
        id: OutputId,
        name: Seq<char>,
        geometry: Rect,
        tags: Seq<Tag>,
    ) -> StateView {
        StateView {
            outputs: self.outputs.push(
                OutputView { id, name, geometry, tags, focus_stack: FocusStackView::empty(), layers: Seq::empty() },
            ),
            output_focus_stack: if self.outputs.len() == 0 {
                self.output_focus_stack.with_focus(id)
            } else {
                self.output_focus_stack
            },
            ..self
        }
    }

    /// The index of the output that has focus.
    pub open spec fn focused_output(self) -> Option<int> {
        match self.output_focus_stack.current_focus() {
            Some(id) => output_index(self.outputs, id),
            None => None,
        }
    }

    /// The index of the output that owns the first tag of the window at
    /// `window`.
    pub open spec fn output_of_window(self, window: int) -> Option<int> {
        if self.windows[window].tags.len() > 0 {
            tag_output_index(self.outputs, self.windows[window].tags[0])
        } else {
            None
        }
    }

    /// The geometry of the window with identity `id`: what the space records
    /// for it, or the empty rectangle at the origin if it is not mapped.
    pub open spec fn geometry_of(self, id: WindowId) -> Rect {
        match self.space.element_geometry(id) {
            Some(geometry) => geometry,
            None => Rect { loc: Point { x: 0, y: 0 }, size: Size { w: 0, h: 0 } },
        }
    }

    /// The state with `window` in place of the window at `index`.
    pub open spec fn with_window(self, index: int, window: WindowView) -> StateView {
        StateView { windows: self.windows.update(index, window), ..self }
    }

    /// The state with `output` in place of the output at `index`.
    pub open spec fn with_output(self, index: int, output: OutputView) -> StateView {
        StateView { outputs: self.outputs.update(index, output), ..self }
    }

    /// Every window has an identity of its own, and all identities are below
    /// the number of the next window.
    pub open spec fn ids_are_fresh(self) -> bool {
        let all = self.windows + self.new_windows;
        &&& forall|i: int| 0 <= i < all.len() ==> (#[trigger] all[i]).id.0 < self.next_window_id
        &&& forall|i: int, j: int|
            0 <= i < all.len() && 0 <= j < all.len() && i != j ==> (#[trigger] all[i]).id != (
            #[trigger] all[j]).id
    }
}

impl State {
    /// The state of a compositor that has just started.
    pub fn new(has_keyboard: bool, has_pointer: bool) -> (state: State)
        ensures
            state@ == StateView::initial(has_keyboard, has_pointer),
            is_consistent(state@),
    {
        let state = State {
            windows: Vec::new(),
            new_windows: Vec::new(),
            outputs: Vec::new(),
            space: Space::new(),
            output_focus_stack: FocusStack::new(),
            has_keyboard,
            keyboard_focus: None,
            pointer: if has_pointer {
                Some(Point { x: 0, y: 0 })
            } else {
                None
            },
            serials: SerialCounter::new(),
            next_window_id: 0,
            grab: None,
            batch: Batch { waiting: Vec::new(), blocked: Vec::new(), held: Vec::new() },
            pending: Vec::new(),
            window_rules: Vec::new(),
        };
        assert(state@.windows =~= Seq::empty());
        assert(state@.new_windows =~= Seq::empty());
        assert(state@.outputs =~= Seq::empty());
        proof {
            crate::consistency::initially_consistent(has_keyboard, has_pointer);
        }
        state
    }

    /// Connects an output named `name` that shows `geometry` and owns
    /// `tags`. The first output to be connected takes the focus.
    pub fn add_output(&mut self, id: OutputId, name: String, geometry: Rect, tags: Vec<Tag>)
        ensures
            final(self)@ == old(self)@.with_output_connected(id, name@, geometry, tags@),
            is_consistent(old(self)@) ==> is_consistent(final(self)@),
    {
        let mut output = Output::new(id, name, geometry);
        output.tags = tags;
        if self.outputs.len() == 0 {
            self.output_focus_stack.set_focus(id);
        }
        self.outputs.push(output);
        assert(self@.outputs =~= old(self)@.outputs.push(output@));
    }

    /// The index of the output that has focus.
    pub fn focused_output(&self) -> (index: Option<usize>)
        ensures
            match index {
                Some(i) => self@.focused_output() == Some(i as int) && i < self.outputs.len(),
                None => self@.focused_output() is None,
            },
    {
        match self.output_focus_stack.current_focus() {
            Some(id) => find_output(&self.outputs, id),
            None => None,
        }
    }

    /// The index of the output that owns the first tag of the window at
    /// `window`.
    pub(crate) fn output_of_window(&self, window: usize) -> (index: Option<usize>)
        requires
            window < self.windows.len(),
        ensures
            match index {
                Some(i) => self@.output_of_window(window as int) == Some(i as int) && i < self.outputs.len(),
                None => self@.output_of_window(window as int) is None,
            },
    {
        if self.windows[window].tags.len() > 0 {
            find_tag_output(&self.outputs, self.windows[window].tags[0])
        } else {
            None
        }
    }

    /// The geometry of the window with identity `id`.
    pub fn geometry_of(&self, id: WindowId) -> (geometry: Rect)
        ensures
            geometry == self@.geometry_of(id),
    {
        match self.space.element_geometry(id) {
            Some(geometry) => geometry,
            None => Rect { loc: Point { x: 0, y: 0 }, size: Size { w: 0, h: 0 } },
        }
    }
}

} // verus!
