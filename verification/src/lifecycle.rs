//! The life of a window: created, mapped with its first buffer, committed
//! to again and again, destroyed.

use vstd::prelude::*;
use crate::consistency::is_consistent;
use crate::effect::{Effect, Fault, KeyboardFocusTarget, Outcome, PendingAction};
use crate::geometry::{saturate, saturated, Point, Rect, Size};
use crate::grab::{GrabKind, ResizeEdge};
use crate::ids::{contains_id, remove_id, without, OutputId, TagId, WindowId};
use crate::layout::views;
use crate::output::OutputView;
use crate::serial::Serial;
use crate::state::{find_window, output_views, window_index, BatchView, State, StateView, Step};
use crate::window::{WindowElement, WindowResizeState, WindowSurface, WindowView};

verus! {

/// How far to the right a window is put at the least when it is mapped, so
/// that it is not seen before the layout has found its place.
pub const STAGING_X: i32 = 1000000;

/// The x coordinate that no output of `outputs` reaches beyond, and that is
/// no less than [`STAGING_X`].
pub open spec fn staging_x(outputs: Seq<OutputView>) -> i32
    decreases outputs.len(),
{
    if outputs.len() == 0 {
        STAGING_X
    } else if outputs.last().geometry.right() > staging_x(outputs.drop_last()) {
        outputs.last().geometry.right()
    } else {
        staging_x(outputs.drop_last())
    }
}

/// The staging location of a newly mapped window: to the right of every
/// output.
pub open spec fn staging(outputs: Seq<OutputView>) -> Point {
    Point { x: staging_x(outputs), y: 0 }
}

/// No output reaches beyond the staging location.
pub proof fn staging_is_beyond(outputs: Seq<OutputView>, i: int)
    requires
        0 <= i < outputs.len(),
    ensures
        outputs[i].geometry.right() <= staging_x(outputs),
        STAGING_X <= staging_x(outputs),
    decreases outputs.len(),
{
    if i < outputs.len() - 1 {
        staging_is_beyond(outputs.drop_last(), i);
    } else if outputs.len() > 1 {
        staging_is_beyond(outputs.drop_last(), 0);
    }
}

/// A window at the staging location is seen on no output, whatever its
/// size.
pub proof fn staged_is_unseen(outputs: Seq<OutputView>, size: Size, i: int)
    requires
        0 <= i < outputs.len(),
    ensures
        !outputs[i].geometry.spec_overlaps(Rect { loc: staging(outputs), size }),
        !(Rect { loc: staging(outputs), size }).spec_overlaps(outputs[i].geometry),
{
    staging_is_beyond(outputs, i);
}

/// `geometry` brought to the size `size`. Where `edges` hold the left or the
/// top edge, the rectangle is moved so that its right or bottom edge stays
/// where it was; else its top-left corner stays.
pub open spec fn anchored(geometry: Rect, size: Size, edges: Option<ResizeEdge>) -> Rect {
    Rect {
        loc: Point {
            x: if edges matches Some(e) && e.spec_has_left() {
                saturate(geometry.loc.x + geometry.size.w - size.w)
            } else {
                geometry.loc.x
            },
            y: if edges matches Some(e) && e.spec_has_top() {
                saturate(geometry.loc.y + geometry.size.h - size.h)
            } else {
                geometry.loc.y
            },
        },
        size,
    }
}

/// Computes [`anchored`].
pub fn anchor(geometry: Rect, size: Size, edges: Option<ResizeEdge>) -> (rect: Rect)
    ensures
        rect == anchored(geometry, size, edges),
{
    let (left, top) = match edges {
        Some(e) => (e.has_left(), e.has_top()),
        None => (false, false),
    };
    Rect {
        loc: Point {
            x: if left {
                saturated(geometry.loc.x as i64 + geometry.size.w as i64 - size.w as i64)
            } else {
                geometry.loc.x
            },
            y: if top {
                saturated(geometry.loc.y as i64 + geometry.size.h as i64 - size.h as i64)
            } else {
                geometry.loc.y
            },
        },
        size,
    }
}

/// `windows` with none of them drawn as active.
pub open spec fn deactivated(windows: Seq<WindowView>) -> Seq<WindowView> {
    windows.map_values(|w: WindowView| WindowView { activated: false, ..w })
}

/// The request to draw `output` anew.
pub open spec fn render_of(output: OutputView) -> Effect {
    Effect::ScheduleRender { output: output.id }
}

/// The effect that lets the commits of `window` through again.
pub open spec fn unblock_of(window: WindowId) -> Effect {
    Effect::Unblock { window }
}

/// The effect that holds back the commits of `window`.
pub open spec fn block_of(window: WindowId) -> Effect {
    Effect::Block { window }
}

/// The requests to draw anew every output of `outputs` that `geometry`
/// reaches into, in the outputs' order.
pub open spec fn renders_for(outputs: Seq<OutputView>, geometry: Option<Rect>) -> Seq<Effect> {
    match geometry {
        Some(rect) => outputs.filter(|o: OutputView| o.geometry.spec_overlaps(rect)).map_values(
            |o: OutputView| render_of(o),
        ),
        None => Seq::empty(),
    }
}

impl StateView {
    /// The step that moves the keyboard focus to `target`. Without a
    /// keyboard there is no focus to move, and the operations that call for
    /// this step end in a fault.
    pub open spec fn keyboard_focused(self, target: Option<KeyboardFocusTarget>) -> Step {
        if self.has_keyboard {
            Step {
                state: StateView { keyboard_focus: target, serials: self.serials.advanced(), ..self },
                effects: seq![Effect::SetKeyboardFocus { target, serial: Serial(self.serials.upcoming()) }],
            }
        } else {
            self.unchanged()
        }
    }

    /// The step that sends the mapped window at `index` its first configure,
    /// if it is a native window that has not had one.
    pub open spec fn initially_configured(self, index: int) -> Step {
        let window = self.windows[index];
        if window.surface is Wayland && !window.initial_configure_sent {
            Step {
                state: StateView {
                    serials: self.serials.advanced(),
                    ..self.with_window(index, WindowView { initial_configure_sent: true, ..window })
                },
                effects: seq![
                    Effect::Configure { window: window.id, serial: Serial(self.serials.upcoming()), size: None },
                ],
            }
        } else {
            self.unchanged()
        }
    }

    /// The step that sends the unmapped window at `index` its first
    /// configure, if it is a native window that has not had one.
    pub open spec fn new_initially_configured(self, index: int) -> Step {
        let window = self.new_windows[index];
        if window.surface is Wayland && !window.initial_configure_sent {
            Step {
                state: StateView {
                    serials: self.serials.advanced(),
                    new_windows: self.new_windows.update(
                        index,
                        WindowView { initial_configure_sent: true, ..window },
                    ),
                    ..self
                },
                effects: seq![
                    Effect::Configure { window: window.id, serial: Serial(self.serials.upcoming()), size: None },
                ],
            }
        } else {
            self.unchanged()
        }
    }

    /// The state after what the window at `index` has pending took effect:
    /// first a pending location, then an acknowledged geometry, which ends
    /// the negotiation.
    ///
    /// While a geometry is requested and not acknowledged, nothing takes
    /// effect: the window stays where it is, and what is pending stays
    /// pending.
    pub open spec fn settled(self, index: int) -> StateView {
        let window = self.windows[index];
        let moved = match window.target_loc {
            Some(loc) => self.space.mapped(window.id, Rect { loc, size: self.geometry_of(window.id).size }),
            None => self.space,
        };
        match window.resize_state {
            WindowResizeState::Requested(_, _) => self,
            WindowResizeState::Acknowledged(rect) => StateView {
                space: moved.mapped(window.id, rect),
                ..self.with_window(
                    index,
                    WindowView { target_loc: None, resize_state: WindowResizeState::Idle, ..window },
                )
            },
            WindowResizeState::Idle => StateView {
                space: moved,
                ..self.with_window(index, WindowView { target_loc: None, ..window })
            },
        }
    }

    /// The edges that a resize in progress holds the window `id` by.
    pub open spec fn edges_held(self, id: WindowId) -> Option<ResizeEdge> {
        match self.grab {
            Some(grab) => match grab.kind {
                GrabKind::Resize { edges, .. } => if grab.window == id {
                    Some(edges)
                } else {
                    None
                },
                GrabKind::Move { .. } => None,
            },
            None => None,
        }
    }

    /// The state after the client of the window at `index` committed a
    /// buffer of the size `buffer` of its own accord, with no geometry asked
    /// of it.
    ///
    /// If the size is not the one on record, the window has resized itself.
    /// It takes the new size, and where a resize in progress holds it by its
    /// left or top edge, it is moved so that the opposite edge stays where
    /// it was.
    pub open spec fn self_resized(self, index: int, buffer: Option<Size>) -> StateView {
        let id = self.windows[index].id;
        match (buffer, self.space.element_geometry(id)) {
            (Some(size), Some(geometry)) => if geometry.size != size {
                StateView {
                    space: self.space.mapped(id, anchored(geometry, size, self.edges_held(id))),
                    ..self
                }
            } else {
                self
            },
            _ => self,
        }
    }

    /// The requests to draw anew what the window at `index` is seen on: the
    /// outputs its geometry reaches into, then the output of its first tag.
    pub open spec fn renders(self, index: int) -> Seq<Effect> {
        renders_for(self.outputs, self.space.element_geometry(self.windows[index].id)) + (
        match self.output_of_window(index) {
            Some(output) => seq![Effect::ScheduleRender { output: self.outputs[output].id }],
            None => Seq::empty(),
        })
    }

    /// The step in which the commit of the window `id`, held back until
    /// now, takes effect.
    pub open spec fn settled_late(self, id: WindowId) -> Step {
        match window_index(self.windows, id) {
            Some(index) => Step { state: self.settled(index), effects: self.settled(index).renders(index) },
            None => self.unchanged(),
        }
    }

    /// The step in which the held commits of `held` take effect, one after
    /// the other.
    pub open spec fn settled_all(self, held: Seq<WindowId>) -> Step
        decreases held.len(),
    {
        if held.len() == 0 {
            self.unchanged()
        } else {
            let before = self.settled_all(held.drop_last());
            let last = before.state.settled_late(held.last());
            Step { state: last.state, effects: before.effects + last.effects }
        }
    }

    /// The state in which the batch has ended: nothing is waited for, and
    /// no window is blocked.
    pub open spec fn with_batch_ended(self) -> StateView {
        StateView { batch: BatchView::empty(), ..self }
    }

    /// The state in which the batch has taken note that the window `id`
    /// has committed while it was blocked.
    pub open spec fn with_commit_held(self, id: WindowId) -> StateView {
        StateView {
            batch: BatchView {
                held: if self.batch.held.contains(id) {
                    self.batch.held
                } else {
                    self.batch.held.push(id)
                },
                ..self.batch
            },
            ..self
        }
    }

    /// The state in which the batch waits for the window `id` no more.
    pub open spec fn no_longer_awaited(self, id: WindowId) -> StateView {
        StateView { batch: BatchView { waiting: without(self.batch.waiting, id), ..self.batch }, ..self }
    }

    /// The step that ends the batch: every blocked window is let through,
    /// and the commits that were held back take effect in the order they
    /// came.
    pub open spec fn released(self) -> Step {
        let open = self.with_batch_ended();
        let late = open.settled_all(self.batch.held);
        Step {
            state: late.state,
            effects: self.batch.blocked.map_values(|w: WindowId| unblock_of(w)) + late.effects,
        }
    }

    /// Whether the batch has all it waited for: every new window has
    /// committed at the geometry it was given, and every blocked window has
    /// committed since it was blocked.
    pub open spec fn batch_is_complete(self) -> bool {
        &&& self.batch.waiting.len() == 0
        &&& forall|i: int|
            0 <= i < self.batch.blocked.len() ==> self.batch.held.contains(#[trigger] self.batch.blocked[i])
    }

    /// The step that ends the batch if it has all it waited for.
    pub open spec fn batch_settled(self) -> Step {
        if self.batch_is_complete() {
            self.released()
        } else {
            self.unchanged()
        }
    }

    /// The step taken for the batch once the mapped window at `index` has
    /// committed. If the batch waits for the window, and the window is no
    /// longer in a negotiation that it has not acknowledged, the batch waits
    /// for it no more, and ends if it now has all it waited for.
    pub open spec fn batch_checked(self, index: int) -> Step {
        let window = self.windows[index];
        if self.batch.waiting.contains(window.id) && !(window.resize_state is Requested) {
            self.no_longer_awaited(window.id).batch_settled()
        } else {
            self.unchanged()
        }
    }

    /// The step in which the commit of the blocked window `id` is held back.
    /// The batch ends if it now has all it waited for.
    pub open spec fn held_back(self, id: WindowId) -> Step {
        self.with_commit_held(id).batch_settled()
    }

    /// The step taken when the mapped window at `index` commits and is not
    /// blocked; `buffer` is the size of the buffer that its surface holds.
    ///
    /// What the window has pending takes effect. If nothing was being
    /// negotiated, a buffer of another size than the one on record means
    /// that the window has resized itself. The window is sent its first
    /// configure if it had none, the batch is looked after, and what the
    /// window is seen on is drawn anew.
    pub open spec fn committed_mapped(self, index: int, buffer: Option<Size>) -> Step {
        let settled = if self.windows[index].resize_state is Idle {
            self.settled(index).self_resized(index, buffer)
        } else {
            self.settled(index)
        };
        let configured = settled.initially_configured(index);
        let checked = configured.state.batch_checked(index);
        Step {
            state: checked.state,
            effects: configured.effects + checked.effects + checked.state.renders(index),
        }
    }
}

impl State {
    /// Moves the keyboard focus to `target`, if the seat has a keyboard.
    pub(crate) fn move_keyboard_focus(&mut self, target: Option<KeyboardFocusTarget>) -> (effects: Vec<Effect>)
        ensures
            final(self)@ == old(self)@.keyboard_focused(target).state,
            effects@ == old(self)@.keyboard_focused(target).effects,
    {
        let mut effects: Vec<Effect> = Vec::new();
        if self.has_keyboard {
            let serial = self.serials.next_serial();
            self.keyboard_focus = target;
            effects.push(Effect::SetKeyboardFocus { target, serial });
            assert(effects@ =~= old(self)@.keyboard_focused(target).effects);
        }
        effects
    }

    /// Sends the mapped window at `index` its first configure, if it is a
    /// native window that has not had one.
    pub(crate) fn ensure_initial_configure(&mut self, index: usize) -> (effects: Vec<Effect>)
        requires
            index < old(self).windows.len(),
        ensures
            final(self)@ == old(self)@.initially_configured(index as int).state,
            effects@ == old(self)@.initially_configured(index as int).effects,
            final(self).windows.len() == old(self).windows.len(),
    {
        let mut effects: Vec<Effect> = Vec::new();
        let is_wayland = match self.windows[index].surface {
            WindowSurface::Wayland => true,
            _ => false,
        };
        if is_wayland && !self.windows[index].initial_configure_sent {
            let serial = self.serials.next_serial();
            self.windows[index].initial_configure_sent = true;
            effects.push(Effect::Configure { window: self.windows[index].id, serial, size: None });
            assert(self@ =~= old(self)@.initially_configured(index as int).state);
            assert(effects@ =~= old(self)@.initially_configured(index as int).effects);
        }
        effects
    }

    /// Sends the unmapped window at `index` its first configure, if it is a
    /// native window that has not had one.
    pub(crate) fn ensure_new_initial_configure(&mut self, index: usize) -> (effects: Vec<Effect>)
        requires
            index < old(self).new_windows.len(),
        ensures
            final(self)@ == old(self)@.new_initially_configured(index as int).state,
            effects@ == old(self)@.new_initially_configured(index as int).effects,
    {
        let mut effects: Vec<Effect> = Vec::new();
        let is_wayland = match self.new_windows[index].surface {
            WindowSurface::Wayland => true,
            _ => false,
        };
        if is_wayland && !self.new_windows[index].initial_configure_sent {
            let serial = self.serials.next_serial();
            self.new_windows[index].initial_configure_sent = true;
            effects.push(Effect::Configure { window: self.new_windows[index].id, serial, size: None });
            assert(self@ =~= old(self)@.new_initially_configured(index as int).state);
            assert(effects@ =~= old(self)@.new_initially_configured(index as int).effects);
        }
        effects
    }

    /// Lets what the window at `index` has pending take effect.
    pub(crate) fn settle(&mut self, index: usize)
        requires
            index < old(self).windows.len(),
        ensures
            final(self)@ == old(self)@.settled(index as int),
            final(self).windows.len() == old(self).windows.len(),
    {
        assert(views(self.windows@)[index as int] == self.windows@[index as int]@);
        let id = self.windows[index].id;
        match self.windows[index].resize_state {
            WindowResizeState::Requested(_, _) => {
                return ;
            },
            _ => {},
        }
        match self.windows[index].target_loc {
            Some(loc) => {
                let size = self.geometry_of(id).size;
                self.space.map_element(id, Rect { loc, size });
                self.windows[index].target_loc = None;
            },
            None => {},
        }
        match self.windows[index].resize_state {
            WindowResizeState::Acknowledged(rect) => {
                self.space.map_element(id, rect);
                self.windows[index].resize_state = WindowResizeState::Idle;
            },
            _ => {},
        }
        assert(self@ =~= old(self)@.settled(index as int));
    }

    /// The edges that a resize in progress holds the window `id` by.
    pub fn edges_held(&self, id: WindowId) -> (edges: Option<ResizeEdge>)
        ensures
            edges == self@.edges_held(id),
    {
        match self.grab {
            Some(grab) => match grab.kind {
                GrabKind::Resize { edges, .. } => if grab.window == id {
                    Some(edges)
                } else {
                    None
                },
                GrabKind::Move { .. } => None,
            },
            None => None,
        }
    }

    /// Takes note that the client of the window at `index` committed a
    /// buffer of the size `buffer` of its own accord.
    pub(crate) fn resize_itself(&mut self, index: usize, buffer: Option<Size>)
        requires
            index < old(self).windows.len(),
        ensures
            final(self)@ == old(self)@.self_resized(index as int, buffer),
            final(self).windows.len() == old(self).windows.len(),
    {
        assert(views(self.windows@)[index as int] == self.windows@[index as int]@);
        let id = self.windows[index].id;
        match (buffer, self.space.element_geometry(id)) {
            (Some(size), Some(geometry)) => {
                if geometry.size != size {
                    let rect = anchor(geometry, size, self.edges_held(id));
                    self.space.map_element(id, rect);
                }
            },
            _ => {},
        }
    }

    /// The requests to draw anew what the window at `index` is seen on.
    pub(crate) fn renders(&self, index: usize) -> (effects: Vec<Effect>)
        requires
            index < self.windows.len(),
        ensures
            effects@ == self@.renders(index as int),
    {
        let mut effects: Vec<Effect> = Vec::new();
        let ghost geometry = self@.space.element_geometry(self.windows[index as int].id);
        match self.space.element_geometry(self.windows[index].id) {
            Some(rect) => {
                let ghost pred = |o: OutputView| o.geometry.spec_overlaps(rect);
                let ghost render = |o: OutputView| render_of(o);
                let mut i: usize = 0;
                while i < self.outputs.len()
                    invariant
                        i <= self.outputs.len(),
                        pred == |o: OutputView| o.geometry.spec_overlaps(rect),
                        render == |o: OutputView| render_of(o),
                        effects@ == output_views(self.outputs@.subrange(0, i as int)).filter(pred).map_values(
                            render,
                        ),
                    decreases self.outputs.len() - i,
                {
                    proof {
                        let prefix = output_views(self.outputs@.subrange(0, i as int));
                        let next = output_views(self.outputs@.subrange(0, i + 1));
                        assert(next.drop_last() == prefix);
                        assert(next.last() == self.outputs@[i as int]@);
                        reveal(Seq::filter);
                    }
                    if self.outputs[i].geometry.overlaps(rect) {
                        effects.push(Effect::ScheduleRender { output: self.outputs[i].id });
                    }
                    i = i + 1;
                }
                assert(self.outputs@.subrange(0, i as int) == self.outputs@);
            },
            None => {},
        }
        assert(effects@ == renders_for(self@.outputs, geometry));
        match self.output_of_window(index) {
            Some(output) => {
                assert(output_views(self.outputs@)[output as int] == self.outputs@[output as int]@);
                effects.push(Effect::ScheduleRender { output: self.outputs[output].id });
            },
            None => {
                assert(effects@ == effects@ + Seq::<Effect>::empty());
            },
        }
        effects
    }

    /// Ends the batch.
    pub(crate) fn release_batch(&mut self) -> (effects: Vec<Effect>)
        ensures
            final(self)@ == old(self)@.released().state,
            effects@ == old(self)@.released().effects,
            final(self).windows.len() == old(self).windows.len(),
    {
        let mut effects: Vec<Effect> = Vec::new();
        let ghost unblock = |w: WindowId| unblock_of(w);
        let mut i: usize = 0;
        while i < self.batch.blocked.len()
            invariant
                i <= self.batch.blocked.len(),
                *self == *old(self),
                unblock == |w: WindowId| unblock_of(w),
                effects@ == self.batch.blocked@.subrange(0, i as int).map_values(unblock),
            decreases self.batch.blocked.len() - i,
        {
            effects.push(Effect::Unblock { window: self.batch.blocked[i] });
            assert(self.batch.blocked@.subrange(0, i + 1).drop_last() == self.batch.blocked@.subrange(
                0,
                i as int,
            ));
            i = i + 1;
        }
        assert(self.batch.blocked@.subrange(0, i as int) == self.batch.blocked@);
        let mut held: Vec<WindowId> = Vec::new();
        std::mem::swap(&mut self.batch.held, &mut held);
        self.batch.waiting = Vec::new();
        self.batch.blocked = Vec::new();
        let ghost open = self@;
        assert(open =~= old(self)@.with_batch_ended());
        let ghost unblocked = effects@;
        let mut j: usize = 0;
        while j < held.len()
            invariant
                j <= held.len(),
                self@ == open.settled_all(held@.subrange(0, j as int)).state,
                effects@ == unblocked + open.settled_all(held@.subrange(0, j as int)).effects,
                self.windows.len() == old(self).windows.len(),
            decreases held.len() - j,
        {
            proof {
                let next = held@.subrange(0, j + 1);
                assert(next.drop_last() == held@.subrange(0, j as int));
                assert(next.last() == held@[j as int]);
            }
            match find_window(&self.windows, held[j]) {
                Some(index) => {
                    self.settle(index);
                    let mut renders = self.renders(index);
                    let ghost added = renders@;
                    let ghost so_far = effects@;
                    effects.append(&mut renders);
                    assert(effects@ == so_far + added);
                    assert(effects@ == unblocked + (open.settled_all(held@.subrange(0, j as int)).effects
                        + added));
                },
                None => {
                    assert(effects@ == unblocked + (open.settled_all(held@.subrange(0, j as int)).effects
                        + Seq::<Effect>::empty()));
                },
            }
            j = j + 1;
        }
        assert(held@.subrange(0, j as int) == held@);
        effects
    }

    /// Looks after the batch once the mapped window at `index` has
    /// committed.
    pub(crate) fn check_batch(&mut self, index: usize) -> (effects: Vec<Effect>)
        requires
            index < old(self).windows.len(),
        ensures
            final(self)@ == old(self)@.batch_checked(index as int).state,
            effects@ == old(self)@.batch_checked(index as int).effects,
            final(self).windows.len() == old(self).windows.len(),
    {
        let id = self.windows[index].id;
        let requested = match self.windows[index].resize_state {
            WindowResizeState::Requested(_, _) => true,
            _ => false,
        };
        if contains_id(&self.batch.waiting, id) && !requested {
            remove_id(&mut self.batch.waiting, id);
            self.settle_batch()
        } else {
            Vec::new()
        }
    }

    /// Whether the batch has all it waited for.
    pub fn batch_is_complete(&self) -> (complete: bool)
        ensures
            complete == self@.batch_is_complete(),
    {
        if self.batch.waiting.len() != 0 {
            return false;
        }
        let mut i: usize = 0;
        while i < self.batch.blocked.len()
            invariant
                i <= self.batch.blocked.len(),
                forall|k: int| 0 <= k < i ==> self.batch.held@.contains(#[trigger] self.batch.blocked@[k]),
            decreases self.batch.blocked.len() - i,
        {
            if !contains_id(&self.batch.held, self.batch.blocked[i]) {
                assert(!self@.batch.held.contains(self@.batch.blocked[i as int]));
                return false;
            }
            i = i + 1;
        }
        true
    }

    /// Ends the batch if it has all it waited for.
    pub(crate) fn settle_batch(&mut self) -> (effects: Vec<Effect>)
        ensures
            final(self)@ == old(self)@.batch_settled().state,
            effects@ == old(self)@.batch_settled().effects,
            final(self).windows.len() == old(self).windows.len(),
    {
        if self.batch_is_complete() {
            self.release_batch()
        } else {
            Vec::new()
        }
    }

    /// Holds back the commit of the blocked window `id`.
    pub(crate) fn hold_back(&mut self, id: WindowId) -> (effects: Vec<Effect>)
        ensures
            final(self)@ == old(self)@.held_back(id).state,
            effects@ == old(self)@.held_back(id).effects,
    {
        if !contains_id(&self.batch.held, id) {
            self.batch.held.push(id);
        }
        self.settle_batch()
    }

    /// Handles the commit of the mapped window at `index`, which is not
    /// blocked.
    pub(crate) fn commit_mapped(&mut self, index: usize, buffer: Option<Size>) -> (effects: Vec<Effect>)
        requires
            index < old(self).windows.len(),
        ensures
            final(self)@ == old(self)@.committed_mapped(index as int, buffer).state,
            effects@ == old(self)@.committed_mapped(index as int, buffer).effects,
    {
        assert(views(self.windows@)[index as int] == self.windows@[index as int]@);
        let idle = match self.windows[index].resize_state {
            WindowResizeState::Idle => true,
            _ => false,
        };
        self.settle(index);
        if idle {
            self.resize_itself(index, buffer);
        }
        let mut effects = self.ensure_initial_configure(index);
        let ghost configured = effects@;
        let mut checked = self.check_batch(index);
        let ghost batch_effects = checked@;
        effects.append(&mut checked);
        let mut renders = self.renders(index);
        let ghost render_effects = renders@;
        effects.append(&mut renders);
        assert(effects@ == configured + batch_effects + render_effects);
        effects
    }
}

/// What came of the oldest of the actions that were put off.
pub struct PendingOutcome {
    pub state: StateView,
    /// Nothing if nothing was put off; else the effects of the action, or
    /// the fault that ended it.
    pub result: Option<Result<Seq<Effect>, Fault>>,
}

impl StateView {
    /// Whether the batch is to block the window `window` when a new window
    /// is mapped on `active_tags`: it is shown there, a change of its
    /// geometry is under way, and the batch neither blocks it already nor
    /// waits for it.
    pub open spec fn is_moving_sibling(self, window: WindowView, active_tags: Seq<TagId>) -> bool {
        &&& window.on_any_of(active_tags)
        &&& !(window.resize_state is Idle)
        &&& !self.batch.blocked.contains(window.id)
        &&& !self.batch.waiting.contains(window.id)
    }

    /// The windows that the batch is to block when the last of the mapped
    /// windows has just been mapped on `active_tags`.
    pub open spec fn siblings_to_block(self, active_tags: Seq<TagId>) -> Seq<WindowId> {
        self.windows.drop_last().filter(|w: WindowView| self.is_moving_sibling(w, active_tags)).map_values(
            |w: WindowView| w.id,
        )
    }

    /// The step that begins, or extends, the batch after the last of the
    /// mapped windows was mapped on the output at `output` and the output
    /// was laid out. If the new window and some of its siblings have a
    /// change of geometry under way, the siblings are blocked and the batch
    /// waits for the new window.
    pub open spec fn batch_begun(self, output: int) -> Step {
        let siblings = self.siblings_to_block(self.outputs[output].focused_tags());
        if self.windows.len() == 0 || self.windows.last().resize_state is Idle || siblings.len() == 0 {
            self.unchanged()
        } else {
            Step {
                state: StateView {
                    batch: BatchView {
                        waiting: self.batch.waiting.push(self.windows.last().id),
                        blocked: self.batch.blocked + siblings,
                        held: self.batch.held,
                    },
                    ..self
                },
                effects: siblings.map_values(|w: WindowId| block_of(w)),
            }
        }
    }

    /// The state after a client asked for a new window on a surface of the
    /// kind `surface`: the window exists, unmapped, under the next identity.
    pub open spec fn with_new_toplevel(self, surface: WindowSurface) -> StateView {
        StateView {
            new_windows: self.new_windows.push(
                WindowView::created(WindowId(self.next_window_id), surface),
            ),
            next_window_id: if self.next_window_id == u32::MAX {
                0
            } else {
                (self.next_window_id + 1) as u32
            },
            ..self
        }
    }

    /// The state in which the unmapped window at `index` has joined the
    /// mapped windows with its first buffer, of the size `size`.
    ///
    /// It is the one window drawn as active, on the tags that a new window
    /// gets on the focused output, and on top of that output's focus stack.
    /// It is in the space at the staging location, and giving it the
    /// keyboard focus is put off until the next idle point.
    pub open spec fn taken_in(self, index: int, size: Size) -> StateView {
        let window = self.new_windows[index];
        let focused = self.focused_output();
        StateView {
            new_windows: deactivated(self.new_windows.remove(index)),
            windows: deactivated(self.windows).push(
                WindowView {
                    tags: match focused {
                        Some(output) => self.outputs[output].tags_for_new_window(),
                        None => window.tags,
                    },
                    activated: true,
                    ..window
                },
            ),
            outputs: match focused {
                Some(output) => self.outputs.update(
                    output,
                    OutputView {
                        focus_stack: self.outputs[output].focus_stack.with_focus(window.id),
                        ..self.outputs[output]
                    },
                ),
                None => self.outputs,
            },
            space: self.space.mapped(window.id, Rect { loc: staging(self.outputs), size }),
            pending: self.pending.push(PendingAction::FocusWindow(window.id)),
            ..self
        }
    }

    /// The step in which the unmapped window at `index` is mapped, having
    /// committed a first buffer of size `size`.
    ///
    /// The window joins the mapped windows, on the tags that the focused
    /// output gives a new window, and on top of that output's focus stack.
    /// It is put at the staging location, where no output shows it, on top
    /// of all windows, and is the one window drawn as active, mapped or not. The window rules that it
    /// meets are
    /// applied to it. Then the focused output is laid out, the window is
    /// sent a frame, and the batch is begun. Giving the window the keyboard
    /// focus is put off until the next idle point.
    pub open spec fn mapped_new(self, index: int, size: Size) -> Step {
        let window = self.new_windows[index];
        let focused = self.focused_output();
        let placed = self.taken_in(index, size).rules_applied(self.windows.len() as int, self.window_rules);
        match focused {
            Some(output) => {
                let laid_out = placed.laid_out(output);
                let begun = laid_out.state.batch_begun(output);
                Step {
                    state: begun.state,
                    effects: laid_out.effects + seq![
                        Effect::SendFrame { window: window.id, output: self.outputs[output].id },
                    ] + begun.effects,
                }
            },
            None => placed.unchanged(),
        }
    }

    /// The step taken when the client of the window `id` commits; `buffer`
    /// is the size of the buffer that the surface holds, if it holds one.
    ///
    /// An unmapped window is mapped by its first buffer, and is sent its
    /// first configure as long as it has none. A mapped window that is
    /// blocked has its commit held back; any other mapped window has what
    /// is pending for it take effect, or is found to have resized itself.
    pub open spec fn committed(self, id: WindowId, buffer: Option<Size>) -> Step {
        match window_index(self.new_windows, id) {
            Some(index) => match buffer {
                Some(size) => self.mapped_new(index, size),
                None => self.new_initially_configured(index),
            },
            None => match window_index(self.windows, id) {
                Some(index) => if self.batch.blocked.contains(id) {
                    self.held_back(id)
                } else {
                    self.committed_mapped(index, buffer)
                },
                None => self.unchanged(),
            },
        }
    }

    /// The state from which the window `id` is gone: it has left the mapped
    /// and the unmapped windows, the space, every focus stack and the batch,
    /// and a grab on it is dropped.
    pub open spec fn without_window(self, id: WindowId) -> StateView {
        StateView {
            windows: self.windows.filter(|w: WindowView| w.id != id),
            new_windows: self.new_windows.filter(|w: WindowView| w.id != id),
            outputs: self.outputs.map_values(
                |o: OutputView| OutputView { focus_stack: o.focus_stack.forgetting(id), ..o },
            ),
            space: self.space.unmapped(id),
            grab: match self.grab {
                Some(grab) => if grab.window == id {
                    None
                } else {
                    self.grab
                },
                None => None,
            },
            batch: BatchView {
                waiting: without(self.batch.waiting, id),
                blocked: without(self.batch.blocked, id),
                held: without(self.batch.held, id),
            },
            ..self
        }
    }

    /// The fault in which an operation ends that has to assign the keyboard
    /// focus: the seat has no keyboard.
    pub open spec fn keyboard_fault(self) -> Option<Fault> {
        if self.has_keyboard {
            None
        } else {
            Some(Fault::NoKeyboard)
        }
    }

    /// The step taken when the window `id` is destroyed.
    ///
    /// The window is gone from the state. The batch ends if it now has all
    /// it waited for. Then the focused output is laid out, and the keyboard
    /// focus goes to the window that has focus on it now. Without a
    /// keyboard the step ends before that, in the fault that
    /// [`StateView::keyboard_fault`] gives, and the keyboard focus is as it
    /// was.
    pub open spec fn destroyed(self, id: WindowId) -> Step {
        let released = self.without_window(id).batch_settled();
        let laid_out = match released.state.focused_output() {
            Some(output) => released.state.laid_out(output),
            None => released.state.unchanged(),
        };
        let focused = laid_out.state.keyboard_focused(
            match laid_out.state.focused_output() {
                Some(output) => match laid_out.state.outputs[output].focus_stack.current_focus() {
                    Some(window) => Some(KeyboardFocusTarget::Window(window)),
                    None => None,
                },
                None => None,
            },
        );
        Step { state: focused.state, effects: released.effects + laid_out.effects + focused.effects }
    }

    /// What comes of the oldest of the actions that were put off.
    ///
    /// Giving a window the keyboard focus needs a keyboard: without one the
    /// action ends in a fault and changes nothing. Laying out an output that
    /// is gone does nothing.
    pub open spec fn with_pending_run(self) -> PendingOutcome {
        if self.pending.len() == 0 {
            PendingOutcome { state: self, result: None }
        } else {
            let rest = StateView { pending: self.pending.drop_first(), ..self };
            match self.pending[0] {
                PendingAction::FocusWindow(window) => if rest.has_keyboard {
                    let step = rest.keyboard_focused(Some(KeyboardFocusTarget::Window(window)));
                    PendingOutcome { state: step.state, result: Some(Ok(step.effects)) }
                } else {
                    PendingOutcome { state: rest, result: Some(Err(Fault::NoKeyboard)) }
                },
                PendingAction::RequestLayout(id) => PendingOutcome {
                    state: rest.layout_requested(id).state,
                    result: Some(Ok(rest.layout_requested(id).effects)),
                },
            }
        }
    }
}

/// Draws none of `windows` as active.
pub fn deactivate_all(windows: &mut Vec<WindowElement>)
    ensures
        views(final(windows)@) == deactivated(views(old(windows)@)),
        final(windows).len() == old(windows).len(),
{
    let mut i: usize = 0;
    while i < windows.len()
        invariant
            i <= windows.len(),
            windows.len() == old(windows).len(),
            forall|j: int|
                0 <= j < i ==> windows[j]@ == (WindowView { activated: false, ..old(windows)[j]@ }),
            forall|j: int| i <= j < windows.len() ==> windows[j] == old(windows)[j],
        decreases windows.len() - i,
    {
        windows[i].activated = false;
        i = i + 1;
    }
    assert(views(windows@) =~= deactivated(views(old(windows)@)));
}

/// Takes every window with the identity `id` out of `windows`.
pub fn remove_window(windows: &mut Vec<WindowElement>, id: WindowId)
    ensures
        views(final(windows)@) == views(old(windows)@).filter(|w: WindowView| w.id != id),
{
    let ghost pred = |w: WindowView| w.id != id;
    let mut kept: Vec<WindowElement> = Vec::new();
    let ghost mut taken: int = 0;
    while windows.len() > 0
        invariant
            pred == |w: WindowView| w.id != id,
            0 <= taken <= old(windows).len(),
            windows@ == old(windows)@.subrange(taken, old(windows).len() as int),
            views(kept@) == views(old(windows)@.subrange(0, taken)).filter(pred),
        decreases windows.len(),
    {
        let window = windows.remove(0);
        proof {
            let prefix = views(old(windows)@.subrange(0, taken));
            let next = views(old(windows)@.subrange(0, taken + 1));
            assert(next.drop_last() == prefix);
            assert(next.last() == window@);
            reveal(Seq::filter);
            taken = taken + 1;
        }
        if window.id != id {
            kept.push(window);
            assert(views(kept@) == views(old(windows)@.subrange(0, taken)).filter(pred));
        }
    }
    assert(old(windows)@.subrange(0, taken) == old(windows)@);
    *windows = kept;
}

impl State {
    /// Creates a window for a client that asked for one on a surface of the
    /// kind `surface`. The window is unmapped until its client commits a
    /// buffer.
    pub fn new_toplevel(&mut self, surface: WindowSurface) -> (id: WindowId)
        ensures
            id == WindowId(old(self).next_window_id),
            final(self)@ == old(self)@.with_new_toplevel(surface),
            is_consistent(old(self)@) && old(self).next_window_id < u32::MAX
                ==> is_consistent(final(self)@),
    {
        proof {
            if is_consistent(old(self)@) && old(self).next_window_id < u32::MAX {
                crate::consistency::creation_keeps_consistency(old(self)@, surface);
            }
        }
        let id = WindowId(self.next_window_id);
        self.next_window_id = self.next_window_id.wrapping_add(1);
        let window = WindowElement::new(id, surface);
        self.new_windows.push(window);
        assert(self@ =~= old(self)@.with_new_toplevel(surface));
        id
    }

    /// Begins, or extends, the batch after the last of the mapped windows
    /// was mapped on the output at `output`.
    pub(crate) fn begin_batch(&mut self, output: usize) -> (effects: Vec<Effect>)
        requires
            output < old(self).outputs.len(),
        ensures
            final(self)@ == old(self)@.batch_begun(output as int).state,
            effects@ == old(self)@.batch_begun(output as int).effects,
    {
        let mut effects: Vec<Effect> = Vec::new();
        if self.windows.len() == 0 {
            return effects;
        }
        let last = self.windows.len() - 1;
        assert(views(self.windows@)[last as int] == self.windows@[last as int]@);
        assert(output_views(self.outputs@)[output as int] == self.outputs@[output as int]@);
        let idle = match self.windows[last].resize_state {
            WindowResizeState::Idle => true,
            _ => false,
        };
        if idle {
            return effects;
        }
        let tags = self.outputs[output].focused_tags();
        let ghost pred = |w: WindowView| self@.is_moving_sibling(w, tags@);
        let ghost id_of = |w: WindowView| w.id;
        let mut siblings: Vec<WindowId> = Vec::new();
        let mut i: usize = 0;
        while i < last
            invariant
                i <= last,
                last == self.windows.len() - 1,
                *self == *old(self),
                pred == |w: WindowView| self@.is_moving_sibling(w, tags@),
                id_of == |w: WindowView| w.id,
                siblings@ == views(self.windows@.subrange(0, i as int)).filter(pred).map_values(id_of),
            decreases last - i,
        {
            let window = &self.windows[i];
            let idle = match window.resize_state {
                WindowResizeState::Idle => true,
                _ => false,
            };
            let moving = window.on_any_of(&tags) && !idle && !contains_id(&self.batch.blocked, window.id)
                && !contains_id(&self.batch.waiting, window.id);
            proof {
                let prefix = views(self.windows@.subrange(0, i as int));
                let next = views(self.windows@.subrange(0, i + 1));
                assert(next.drop_last() == prefix);
                assert(next.last() == self.windows@[i as int]@);
                reveal(Seq::filter);
                assert(moving == pred(next.last()));
            }
            if moving {
                siblings.push(window.id);
            }
            i = i + 1;
        }
        assert(views(self.windows@.subrange(0, last as int)) == views(self.windows@).drop_last());
        assert(siblings@ == self@.siblings_to_block(tags@));
        if siblings.len() == 0 {
            return effects;
        }
        let ghost block = |w: WindowId| block_of(w);
        let mut j: usize = 0;
        while j < siblings.len()
            invariant
                j <= siblings.len(),
                block == |w: WindowId| block_of(w),
                effects@ == siblings@.subrange(0, j as int).map_values(block),
            decreases siblings.len() - j,
        {
            effects.push(Effect::Block { window: siblings[j] });
            assert(siblings@.subrange(0, j + 1).drop_last() == siblings@.subrange(0, j as int));
            j = j + 1;
        }
        assert(siblings@.subrange(0, j as int) == siblings@);
        let new_id = self.windows[last].id;
        self.batch.waiting.push(new_id);
        self.batch.blocked.append(&mut siblings);
        assert(self@ =~= old(self)@.batch_begun(output as int).state);
        effects
    }

    /// The staging location of a newly mapped window.
    pub fn staging(&self) -> (loc: Point)
        ensures
            loc == staging(self@.outputs),
    {
        let mut x: i32 = STAGING_X;
        let mut i: usize = 0;
        while i < self.outputs.len()
            invariant
                i <= self.outputs.len(),
                x == staging_x(output_views(self.outputs@.subrange(0, i as int))),
            decreases self.outputs.len() - i,
        {
            proof {
                let next = output_views(self.outputs@.subrange(0, i + 1));
                assert(next.drop_last() == output_views(self.outputs@.subrange(0, i as int)));
                assert(next.last() == self.outputs@[i as int]@);
            }
            let geometry = self.outputs[i].geometry;
            let right = crate::geometry::saturating_add(geometry.loc.x, geometry.size.w);
            if right > x {
                x = right;
            }
            i = i + 1;
        }
        assert(self.outputs@.subrange(0, i as int) == self.outputs@);
        Point { x, y: 0 }
    }

    /// Maps the unmapped window at `index`, which has committed a first
    /// buffer of size `size`.
    pub(crate) fn map_new_window(&mut self, index: usize, size: Size) -> (effects: Vec<Effect>)
        requires
            index < old(self).new_windows.len(),
        ensures
            final(self)@ == old(self)@.mapped_new(index as int, size).state,
            effects@ == old(self)@.mapped_new(index as int, size).effects,
    {
        assert(views(self.new_windows@)[index as int] == self.new_windows@[index as int]@);
        let staged = self.staging();
        let mut window = self.new_windows.remove(index);
        let id = window.id;
        let focused = self.focused_output();
        let mut frame_output = OutputId(0);
        match focused {
            Some(output) => {
                assert(output_views(self.outputs@)[output as int] == self.outputs@[output as int]@);
                frame_output = self.outputs[output].id;
                window.tags = self.outputs[output].tags_for_new_window();
                self.outputs[output].focus_stack.set_focus(id);
            },
            None => {},
        }
        window.activated = true;
        deactivate_all(&mut self.windows);
        deactivate_all(&mut self.new_windows);
        self.windows.push(window);
        self.space.map_element(id, Rect { loc: staged, size });
        self.pending.push(PendingAction::FocusWindow(id));
        let ghost placed = self@;
        assert(placed.windows =~= deactivated(old(self)@.windows).push(window@));
        assert(placed.new_windows =~= deactivated(old(self)@.new_windows.remove(index as int)));
        assert(focused is Some ==> placed.outputs =~= old(self)@.outputs.update(
            focused->0 as int,
            OutputView {
                focus_stack: old(self)@.outputs[focused->0 as int].focus_stack.with_focus(id),
                ..old(self)@.outputs[focused->0 as int]
            },
        ));
        assert(focused is None ==> placed.outputs =~= old(self)@.outputs);
        let last = self.windows.len() - 1;
        self.apply_window_rules_at(last);
        match focused {
            Some(output) => {
                let mut effects = self.layout_at(output);
                let ghost layout_effects = effects@;
                effects.push(Effect::SendFrame { window: id, output: frame_output });
                let ghost with_frame = effects@;
                let mut blocks = self.begin_batch(output);
                let ghost block_effects = blocks@;
                effects.append(&mut blocks);
                assert(effects@ == with_frame + block_effects);
                effects
            },
            None => Vec::new(),
        }
    }

    /// Handles a commit of the client of the window `id`; `buffer` is the
    /// size of the buffer that the surface holds, if it holds one.
    pub fn commit(&mut self, id: WindowId, buffer: Option<Size>) -> (effects: Vec<Effect>)
        ensures
            final(self)@ == old(self)@.committed(id, buffer).state,
            effects@ == old(self)@.committed(id, buffer).effects,
            is_consistent(old(self)@) ==> is_consistent(final(self)@),
    {
        proof {
            if is_consistent(old(self)@) {
                crate::consistency::commit_keeps_consistency(old(self)@, id, buffer);
            }
        }
        match find_window(&self.new_windows, id) {
            Some(index) => match buffer {
                Some(size) => self.map_new_window(index, size),
                None => self.ensure_new_initial_configure(index),
            },
            None => match find_window(&self.windows, id) {
                Some(index) => {
                    if contains_id(&self.batch.blocked, id) {
                        self.hold_back(id)
                    } else {
                        self.commit_mapped(index, buffer)
                    }
                },
                None => Vec::new(),
            },
        }
    }

    /// Runs the oldest of the actions that were put off. Nothing comes back
    /// if nothing was put off; else the effects of the action, or the fault
    /// that ended it.
    pub fn run_pending(&mut self) -> (result: Option<Result<Vec<Effect>, Fault>>)
        ensures
            final(self)@ == old(self)@.with_pending_run().state,
            match result {
                Some(Ok(effects)) => old(self)@.with_pending_run().result == Some(
                    Ok::<Seq<Effect>, Fault>(effects@),
                ),
                Some(Err(fault)) => old(self)@.with_pending_run().result == Some(
                    Err::<Seq<Effect>, Fault>(fault),
                ),
                None => old(self)@.with_pending_run().result is None,
            },
            is_consistent(old(self)@) ==> is_consistent(final(self)@),
    {
        proof {
            if is_consistent(old(self)@) {
                crate::consistency::pending_keeps_consistency(old(self)@);
            }
        }
        if self.pending.len() == 0 {
            return None;
        }
        let action = self.pending.remove(0);
        assert(self.pending@ == old(self).pending@.drop_first());
        match action {
            PendingAction::FocusWindow(window) => {
                if self.has_keyboard {
                    Some(Ok(self.move_keyboard_focus(Some(KeyboardFocusTarget::Window(window)))))
                } else {
                    Some(Err(Fault::NoKeyboard))
                }
            },
            PendingAction::RequestLayout(id) => Some(Ok(self.request_layout(id))),
        }
    }

    /// Forgets the window `id` on the focus stack of every output.
    pub(crate) fn forget_focus(&mut self, id: WindowId)
        ensures
            final(self)@ == (StateView {
                outputs: old(self)@.outputs.map_values(
                    |o: OutputView| OutputView { focus_stack: o.focus_stack.forgetting(id), ..o },
                ),
                ..old(self)@
            }),
    {
        let mut i: usize = 0;
        while i < self.outputs.len()
            invariant
                i <= self.outputs.len(),
                self.outputs.len() == old(self).outputs.len(),
                self@ == (StateView { outputs: self@.outputs, ..old(self)@ }),
                forall|j: int|
                    0 <= j < i ==> self.outputs[j]@ == (OutputView {
                        focus_stack: old(self).outputs[j]@.focus_stack.forgetting(id),
                        ..old(self).outputs[j]@
                    }),
                forall|j: int| i <= j < self.outputs.len() ==> self.outputs[j] == old(self).outputs[j],
            decreases self.outputs.len() - i,
        {
            self.outputs[i].focus_stack.forget(id);
            i = i + 1;
        }
        assert(self@.outputs =~= old(self)@.outputs.map_values(
            |o: OutputView| OutputView { focus_stack: o.focus_stack.forgetting(id), ..o },
        ));
    }

    /// Handles the destruction of the window `id`.
    ///
    /// The operation ends by assigning the keyboard focus. Without a
    /// keyboard it ends in a fault instead: all that comes before has been
    /// done and is to be carried out, and the keyboard focus is as it was.
    pub fn toplevel_destroyed(&mut self, id: WindowId) -> (outcome: Outcome)
        ensures
            final(self)@ == old(self)@.destroyed(id).state,
            outcome.effects@ == old(self)@.destroyed(id).effects,
            outcome.fault == old(self)@.keyboard_fault(),
            is_consistent(old(self)@) ==> is_consistent(final(self)@),
    {
        proof {
            if is_consistent(old(self)@) {
                crate::consistency::destruction_keeps_consistency(old(self)@, id);
            }
        }
        let has_keyboard = self.has_keyboard;
        remove_window(&mut self.windows, id);
        remove_window(&mut self.new_windows, id);
        self.forget_focus(id);
        self.space.unmap_elem(id);
        match self.grab {
            Some(grab) => {
                if grab.window == id {
                    self.grab = None;
                }
            },
            None => {},
        }
        remove_id(&mut self.batch.waiting, id);
        remove_id(&mut self.batch.blocked, id);
        remove_id(&mut self.batch.held, id);
        let mut effects = self.settle_batch();
        let ghost release_effects = effects@;
        let mut layout_effects = match self.focused_output() {
            Some(output) => self.layout_at(output),
            None => Vec::new(),
        };
        let ghost laid_out = layout_effects@;
        effects.append(&mut layout_effects);
        let target = match self.focused_output() {
            Some(output) => {
                assert(output_views(self.outputs@)[output as int] == self.outputs@[output as int]@);
                match self.outputs[output].focus_stack.current_focus() {
                    Some(window) => Some(KeyboardFocusTarget::Window(window)),
                    None => None,
                }
            },
            None => None,
        };
        let mut focus_effects = self.move_keyboard_focus(target);
        let ghost focused = focus_effects@;
        effects.append(&mut focus_effects);
        assert(effects@ == release_effects + laid_out + focused);
        let fault = if has_keyboard {
            None
        } else {
            Some(Fault::NoKeyboard)
        };
        Outcome { effects, fault }
    }
}

} // verus!
