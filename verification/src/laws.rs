//! What holds of the compositor whatever happens: statements about every
//! state and every event, each with its proof.

use vstd::prelude::*;
use crate::control::SetOrToggle;
use crate::effect::{Effect, KeyboardFocusTarget};
use crate::geometry::{Point, Rect, Size};
use crate::ids::{without, TagId, WindowId};
use crate::layout::{fixed_placements, is_fixed, is_placed, layout_of, own_rect, Placement};
use crate::lookup::{first_index_is_first, first_is_unique, is_first};
use crate::serial::Serial;
use crate::space::mapping_records_geometry;
use crate::state::{window_index, BatchView, StateView};
use crate::window::{WindowResizeState, WindowView};

verus! {

/// Whether two states differ at most in the serials handed out.
pub open spec fn same_but_serials(a: StateView, b: StateView) -> bool {
    a == (StateView { serials: a.serials, ..b })
}

/// Whether two states differ at most in the serials handed out and in how
/// far the windows' negotiations have come.
pub open spec fn same_but_negotiations(a: StateView, b: StateView) -> bool {
    &&& a == (StateView { serials: a.serials, windows: a.windows, ..b })
    &&& a.windows.len() == b.windows.len()
    &&& forall|i: int|
        0 <= i < a.windows.len() ==> #[trigger] a.windows[i] == (WindowView {
            resize_state: a.windows[i].resize_state,
            ..b.windows[i]
        })
}

/// Telling windows their state anew changes nothing but the serials handed
/// out.
pub proof fn configuring_keeps_state(state: StateView, ids: Seq<WindowId>)
    ensures
        same_but_serials(state.configured_each(ids).state, state),
    decreases ids.len(),
{
    if ids.len() > 0 {
        configuring_keeps_state(state, ids.drop_last());
    }
}

/// Asking a window to take a geometry changes that window's negotiation,
/// and nothing else but the serials handed out.
pub proof fn requesting_keeps_state(state: StateView, index: int, rect: Rect)
    requires
        0 <= index < state.windows.len(),
    ensures
        same_but_negotiations(state.requested(index, rect).state, state),
{
}

/// Bringing placements about changes the windows' negotiations, and nothing
/// else but the serials handed out. In particular it moves no window.
pub proof fn placing_keeps_state(state: StateView, placements: Seq<Placement>)
    ensures
        same_but_negotiations(state.placed_all(placements).state, state),
    decreases placements.len(),
{
    if placements.len() > 0 {
        placing_keeps_state(state, placements.drop_last());
        let before = state.placed_all(placements.drop_last()).state;
        let last = placements.last();
        first_index_is_first(before.windows, |w: WindowView| w.id == last.window);
        match window_index(before.windows, last.window) {
            Some(index) => {
                requesting_keeps_state(before, index, last.rect);
                let after = before.placed(last).state;
                assert forall|i: int| 0 <= i < after.windows.len() implies #[trigger] after.windows[i] == (
                WindowView { resize_state: after.windows[i].resize_state, ..state.windows[i] }) by {
                    assert(before.windows[i] == (WindowView {
                        resize_state: before.windows[i].resize_state,
                        ..state.windows[i]
                    }));
                }
            },
            None => {},
        }
    }
}

/// Laying out an output moves no window: it changes the windows'
/// negotiations, and nothing else but the serials handed out.
pub proof fn layout_moves_nothing(state: StateView, output: int)
    ensures
        same_but_negotiations(state.laid_out(output).state, state),
        state.laid_out(output).state.space == state.space,
{
    placing_keeps_state(state, state.arrangement(output));
}

/// A window that is focused is the one window drawn as active.
///
/// After the keyboard focus was set on a mapped window that can take it, on
/// a seat with a keyboard, that window is drawn as active and no other
/// window is, mapped or not; it has the focus on its output, its output is
/// the focused one, and the seat's keyboard focus is on it.
pub proof fn focus_is_exclusive(state: StateView, id: WindowId)
    requires
        state.has_keyboard,
        window_index(state.windows, id) is Some,
        !state.windows[window_index(state.windows, id)->0].is_x11_override_redirect(),
        state.output_of_window(window_index(state.windows, id)->0) is Some,
    ensures
        state.keyboard_focus_fault(Some(id)) is None,
        ({
            let window = window_index(state.windows, id)->0;
            let output = state.output_of_window(window)->0;
            let after = state.keyboard_focus_set(Some(id)).state;
            &&& after.windows.len() == state.windows.len()
            &&& forall|i: int| 0 <= i < after.windows.len() ==> ((#[trigger] after.windows[i]).activated <==> i == window)
            &&& forall|i: int| 0 <= i < after.new_windows.len() ==> !(#[trigger] after.new_windows[i]).activated
            &&& after.windows[window].id == id
            &&& after.outputs[output].focus_stack.current_focus() == Some(id)
            &&& after.output_focus_stack.current_focus() == Some(state.outputs[output].id)
            &&& after.keyboard_focus == Some(KeyboardFocusTarget::Window(id))
        }),
{
    let window = window_index(state.windows, id)->0;
    let output = state.output_of_window(window)->0;
    first_index_is_first(state.windows, |w: WindowView| w.id == id);
    first_index_is_first(state.outputs, |o: crate::output::OutputView| o.has_tag(state.windows[window].tags[0]));
    let step = state.focused_on(window, output);
    assert(state.focus_set(id, SetOrToggle::SetOn) == step);
    let focused = state.with_focus_given(window, output).keyboard_focused(
        Some(KeyboardFocusTarget::Window(id)),
    );
    configuring_keeps_state(focused.state, focused.state.space.windows());
    crate::focus::set_focus_puts_on_top(state.outputs[output].focus_stack, id);
    crate::focus::set_focus_puts_on_top(state.output_focus_stack, state.outputs[output].id);
}

/// Without a keyboard, no request changes which window has the focus: each
/// request that would give or take the focus ends in a fault, and the state
/// is as it was.
pub proof fn no_keyboard_no_focus_change(state: StateView, id: WindowId, set_or_toggle: SetOrToggle)
    requires
        !state.has_keyboard,
    ensures
        state.focus_set(id, set_or_toggle).state == state,
        state.focus_set(id, set_or_toggle).effects == Seq::<Effect>::empty(),
        state.focus_fault(id, set_or_toggle) is Some <==> !(state.focus_change(id, set_or_toggle) is Nothing),
{
}

/// Whether the window `id` is the mapped window at `index` and has nothing
/// that a commit would let take effect: it has a request open, or it has
/// neither a pending location nor an acknowledged geometry.
pub open spec fn at_rest(state: StateView, id: WindowId, index: int) -> bool {
    &&& window_index(state.windows, id) == Some(index)
    &&& 0 <= index < state.windows.len()
    &&& !(state.windows[index].resize_state is Acknowledged)
    &&& state.windows[index].resize_state is Idle ==> state.windows[index].target_loc is None
}

/// Replacing a window by one with the same identity leaves every window
/// where it is found.
pub proof fn lookup_survives_update(windows: Seq<WindowView>, at: int, window: WindowView, id: WindowId)
    requires
        0 <= at < windows.len(),
        window.id == windows[at].id,
    ensures
        window_index(windows.update(at, window), id) == window_index(windows, id),
{
    let pred = |w: WindowView| w.id == id;
    let updated = windows.update(at, window);
    first_index_is_first(windows, pred);
    match window_index(windows, id) {
        Some(i) => {
            assert(is_first(updated, pred, i)) by {
                assert forall|j: int| 0 <= j < i implies !pred(#[trigger] updated[j]) by {
                    assert(!pred(windows[j]));
                }
            }
            first_is_unique(updated, pred, i);
        },
        None => {
            assert forall|j: int| 0 <= j < updated.len() implies !pred(#[trigger] updated[j]) by {
                assert(!pred(windows[j]));
            }
            crate::lookup::none_is_first(updated, pred);
        },
    }
}

/// Letting the held commit of one window take effect leaves a window at
/// rest as it is and where it is.
pub proof fn late_commit_keeps_others(state: StateView, held: WindowId, id: WindowId, index: int)
    requires
        at_rest(state, id, index),
    ensures
        at_rest(state.settled_late(held).state, id, index),
        state.settled_late(held).state.windows[index] == state.windows[index],
        state.settled_late(held).state.space.element_geometry(id) == state.space.element_geometry(id),
        state.settled_late(held).state.batch == state.batch,
        state.settled_late(held).state.windows.len() == state.windows.len(),
{
    first_index_is_first(state.windows, |w: WindowView| w.id == held);
    first_index_is_first(state.windows, |w: WindowView| w.id == id);
    match window_index(state.windows, held) {
        Some(j) => {
            let window = state.windows[j];
            let after = state.settled(j);
            lookup_survives_update(state.windows, j, after.windows[j], id);
            if j == index {
                assert(after.space == state.space);
            } else {
                assert(window.id != id);
                let moved = match window.target_loc {
                    Some(loc) => state.space.mapped(
                        window.id,
                        Rect { loc, size: state.geometry_of(window.id).size },
                    ),
                    None => state.space,
                };
                if window.target_loc is Some {
                    mapping_records_geometry(
                        state.space,
                        window.id,
                        Rect { loc: window.target_loc->0, size: state.geometry_of(window.id).size },
                        id,
                    );
                }
                match window.resize_state {
                    WindowResizeState::Acknowledged(rect) => {
                        mapping_records_geometry(moved, window.id, rect, id);
                    },
                    _ => {},
                }
            }
        },
        None => {},
    }
}

/// Letting held commits take effect, one after the other, leaves a window
/// at rest as it is and where it is.
pub proof fn late_commits_keep_others(state: StateView, held: Seq<WindowId>, id: WindowId, index: int)
    requires
        at_rest(state, id, index),
    ensures
        at_rest(state.settled_all(held).state, id, index),
        state.settled_all(held).state.windows[index] == state.windows[index],
        state.settled_all(held).state.space.element_geometry(id) == state.space.element_geometry(id),
        state.settled_all(held).state.batch == state.batch,
        state.settled_all(held).state.windows.len() == state.windows.len(),
    decreases held.len(),
{
    if held.len() > 0 {
        late_commits_keep_others(state, held.drop_last(), id, index);
        late_commit_keeps_others(state.settled_all(held.drop_last()).state, held.last(), id, index);
    }
}

/// A geometry that was asked for takes effect only once the client has
/// acknowledged it and then committed.
///
/// Take a mapped window that was asked, in the configure numbered `serial`,
/// to take `rect`. Then
///
/// - a commit leaves the window where it is, and the request stays open;
/// - an acknowledgement moves nothing;
/// - an acknowledgement of a configure older than `serial` changes nothing
///   at all;
/// - an acknowledgement of a configure no older than `serial`, followed by a
///   commit that is not held back, puts the window at `rect` and ends the
///   negotiation, whatever the size of the buffer.
pub proof fn geometry_waits_for_ack_and_commit(
    state: StateView,
    id: WindowId,
    serial: Serial,
    rect: Rect,
    ack: Serial,
    buffer: Option<Size>,
)
    requires
        window_index(state.windows, id) is Some,
        window_index(state.new_windows, id) is None,
        state.windows[window_index(state.windows, id)->0].resize_state == WindowResizeState::Requested(
            serial,
            rect,
        ),
    ensures
        state.committed(id, buffer).state.space.element_geometry(id) == state.space.element_geometry(id),
        state.committed(id, buffer).state.windows.len() == state.windows.len(),
        state.committed(id, buffer).state.windows[window_index(state.windows, id)->0].resize_state
            == WindowResizeState::Requested(serial, rect),
        state.acked(id, ack).state.space == state.space,
        !ack.spec_is_no_older_than(serial) ==> state.acked(id, ack).state == state,
        ack.spec_is_no_older_than(serial) ==> state.acked(id, ack).state.windows[window_index(
            state.windows,
            id,
        )->0].resize_state == WindowResizeState::Acknowledged(rect),
        ack.spec_is_no_older_than(serial) && !state.batch.blocked.contains(id) ==> ({
            let after = state.acked(id, ack).state.committed(id, buffer).state;
            &&& after.space.element_geometry(id) == Some(rect)
            &&& after.windows[window_index(state.windows, id)->0].resize_state == WindowResizeState::Idle
        }),
{
    let index = window_index(state.windows, id)->0;
    first_index_is_first(state.windows, |w: WindowView| w.id == id);
    let window = state.windows[index];
    // A commit while the request is open.
    if !state.batch.blocked.contains(id) {
        let settled = state.settled(index);
        assert(settled.windows =~= state.windows);
        assert(settled == state);
        let configured = settled.initially_configured(index).state;
        assert(configured.batch_checked(index).state == configured);
    } else {
        let held = state.with_commit_held(id);
        let open = held.with_batch_ended();
        assert(at_rest(open, id, index));
        late_commits_keep_others(open, held.batch.held, id, index);
    }
    // An acknowledgement, and the commit after it.
    let acked = state.acked(id, ack).state;
    if ack.spec_is_no_older_than(serial) {
        let next = WindowView { resize_state: WindowResizeState::Acknowledged(rect), ..window };
        assert(acked == state.with_window(index, next));
        lookup_survives_update(state.windows, index, next, id);
        if !state.batch.blocked.contains(id) {
            let settled = acked.settled(index);
            let moved = match window.target_loc {
                Some(loc) => acked.space.mapped(id, Rect { loc, size: acked.geometry_of(id).size }),
                None => acked.space,
            };
            mapping_records_geometry(moved, id, rect, id);
            lookup_survives_update(acked.windows, index, settled.windows[index], id);
            let configured = settled.initially_configured(index).state;
            lookup_survives_update(settled.windows, index, configured.windows[index], id);
            assert(at_rest(configured, id, index));
            assert(configured.space.element_geometry(id) == Some(rect));
            if configured.batch.waiting.contains(id) {
                let waiting = without(configured.batch.waiting, id);
                let rest = StateView { batch: BatchView { waiting, ..configured.batch }, ..configured };
                let open = rest.with_batch_ended();
                assert(at_rest(open, id, index));
                late_commits_keep_others(open, rest.batch.held, id, index);
                assert(rest.batch_settled().state.space.element_geometry(id) == Some(rect));
            }
        }
    } else {
        assert(window.resize_state.spec_acked(ack) == window.resize_state);
    }
}

/// While the batch waits for a new window, the commits of the windows it
/// blocks are held back: such a commit moves nothing, changes no window, and
/// asks for nothing, so that no frame shows a blocked window at its new
/// place before the new window has committed at its own. And a window that
/// the batch waits for does not end the wait by committing before it has
/// acknowledged the geometry it was asked to take.
pub proof fn blocked_commits_are_held(state: StateView, id: WindowId, buffer: Option<Size>)
    requires
        window_index(state.windows, id) is Some,
        window_index(state.new_windows, id) is None,
    ensures
        state.batch.blocked.contains(id) && state.batch.waiting.len() > 0 ==> {
            &&& state.committed(id, buffer).effects == Seq::<Effect>::empty()
            &&& state.committed(id, buffer).state == (StateView {
                batch: state.committed(id, buffer).state.batch,
                ..state
            })
            &&& state.committed(id, buffer).state.batch.blocked == state.batch.blocked
            &&& state.committed(id, buffer).state.batch.waiting == state.batch.waiting
            &&& state.committed(id, buffer).state.batch.held.contains(id)
        },
        !state.batch.blocked.contains(id) && state.windows[window_index(
            state.windows,
            id,
        )->0].resize_state is Requested ==> state.committed(id, buffer).state.batch == state.batch,
{
    let index = window_index(state.windows, id)->0;
    first_index_is_first(state.windows, |w: WindowView| w.id == id);
    if state.batch.blocked.contains(id) {
        if state.batch.waiting.len() > 0 {
            let held = state.committed(id, buffer).state.batch.held;
            if !state.batch.held.contains(id) {
                assert(held.last() == id);
            }
        }
    } else if state.windows[index].resize_state is Requested {
        let settled = state.settled(index);
        let configured = settled.initially_configured(index).state;
        assert(configured.batch_checked(index).state == configured);
    }
}

/// Destroying the window of a grab ends the grab, and the pointer's motion
/// moves nothing from then on: no geometry comes of the grab beyond what
/// the last motion before the destruction brought about.
pub proof fn destruction_cancels_grab(state: StateView, id: WindowId, location: Point)
    requires
        state.grab matches Some(grab) && grab.window == id,
    ensures
        state.destroyed(id).state.grab is None,
        state.destroyed(id).state.pointer_moved(location).effects == Seq::<Effect>::empty(),
        state.destroyed(id).state.pointer_moved(location).state.space == state.destroyed(id).state.space,
        state.destroyed(id).state.pointer_moved(location).state.windows == state.destroyed(
            id,
        ).state.windows,
{
    let gone = state.without_window(id);
    let released = gone.batch_settled();
    late_commits_keep_grab(gone.with_batch_ended(), gone.batch.held);
    assert(released.state.grab is None);
    let laid_out = match released.state.focused_output() {
        Some(output) => released.state.laid_out(output),
        None => released.state.unchanged(),
    };
    if released.state.focused_output() is Some {
        layout_moves_nothing(released.state, released.state.focused_output()->0);
    }
    assert(laid_out.state.grab is None);
}

/// Letting held commits take effect begins no grab and ends none.
pub proof fn late_commits_keep_grab(state: StateView, held: Seq<WindowId>)
    ensures
        state.settled_all(held).state.grab == state.grab,
    decreases held.len(),
{
    if held.len() > 0 {
        late_commits_keep_grab(state, held.drop_last());
    }
}

/// Whether no two of `placements` are for the same window.
pub open spec fn distinct_targets(placements: Seq<Placement>) -> bool {
    forall|i: int, j: int|
        0 <= i < placements.len() && 0 <= j < placements.len() && i != j ==> (#[trigger] placements[i]).window
            != (#[trigger] placements[j]).window
}

/// Whether the window that `placement` is for is heading for the rectangle
/// that the placement gives it, or is gone.
pub open spec fn reached(state: StateView, placement: Placement) -> bool {
    match window_index(state.windows, placement.window) {
        Some(index) => state.heading_for(index) == Some(placement.rect),
        None => true,
    }
}

/// Bringing a placement about leaves the window of another placement
/// heading where it was heading.
pub proof fn placing_keeps_others_reached(state: StateView, placement: Placement, other: Placement)
    requires
        reached(state, other),
        other.window != placement.window,
    ensures
        reached(state.placed(placement).state, other),
{
    first_index_is_first(state.windows, |w: WindowView| w.id == placement.window);
    first_index_is_first(state.windows, |w: WindowView| w.id == other.window);
    match window_index(state.windows, placement.window) {
        Some(index) => {
            let after = state.placed(placement).state;
            lookup_survives_update(state.windows, index, after.windows[index], other.window);
            assert(after.windows =~= state.windows.update(index, after.windows[index]));
        },
        None => {},
    }
}

/// Bringing a placement about leaves its window heading for the rectangle
/// of the placement.
pub proof fn placing_reaches(state: StateView, placement: Placement)
    ensures
        reached(state.placed(placement).state, placement),
{
    first_index_is_first(state.windows, |w: WindowView| w.id == placement.window);
    match window_index(state.windows, placement.window) {
        Some(index) => {
            let after = state.placed(placement).state;
            lookup_survives_update(state.windows, index, after.windows[index], placement.window);
            assert(after.windows =~= state.windows.update(index, after.windows[index]));
        },
        None => {},
    }
}

/// Bringing placements for distinct windows about leaves every one of the
/// windows heading for its rectangle.
pub proof fn placing_reaches_all(state: StateView, placements: Seq<Placement>)
    requires
        distinct_targets(placements),
    ensures
        forall|k: int|
            0 <= k < placements.len() ==> reached(state.placed_all(placements).state, #[trigger] placements[k]),
    decreases placements.len(),
{
    if placements.len() > 0 {
        let front = placements.drop_last();
        let last = placements.last();
        assert forall|i: int, j: int| 0 <= i < front.len() && 0 <= j < front.len() && i != j implies (
        #[trigger] front[i]).window != (#[trigger] front[j]).window by {
            assert(placements[i].window != placements[j].window);
        }
        placing_reaches_all(state, front);
        let before = state.placed_all(front).state;
        placing_reaches(before, last);
        assert forall|k: int| 0 <= k < placements.len() implies reached(
            state.placed_all(placements).state,
            #[trigger] placements[k],
        ) by {
            if k < front.len() {
                assert(reached(before, front[k]));
                assert(placements[k].window != placements[placements.len() - 1].window);
                placing_keeps_others_reached(before, last, placements[k]);
            }
        }
    }
}

/// Bringing about placements whose windows are all heading for their
/// rectangles changes nothing and asks for nothing.
pub proof fn placing_the_reached_is_idle(state: StateView, placements: Seq<Placement>)
    requires
        forall|k: int| 0 <= k < placements.len() ==> reached(state, #[trigger] placements[k]),
    ensures
        state.placed_all(placements) == state.unchanged(),
    decreases placements.len(),
{
    if placements.len() > 0 {
        let front = placements.drop_last();
        assert forall|k: int| 0 <= k < front.len() implies reached(state, #[trigger] front[k]) by {
            assert(reached(state, placements[k]));
        }
        placing_the_reached_is_idle(state, front);
        assert(reached(state, placements[placements.len() - 1]));
        assert(state.unchanged().effects + state.unchanged().effects =~= state.unchanged().effects);
    }
}

/// Windows that differ in nothing but how far their negotiation has come
/// have the same rectangles of their own.
pub proof fn same_fixed_placements(
    first: Seq<WindowView>,
    second: Seq<WindowView>,
    active_tags: Seq<TagId>,
    area: Rect,
)
    requires
        first.len() == second.len(),
        forall|i: int|
            0 <= i < first.len() ==> #[trigger] first[i] == (WindowView {
                resize_state: first[i].resize_state,
                ..second[i]
            }),
    ensures
        fixed_placements(first, active_tags, area) == fixed_placements(second, active_tags, area),
    decreases first.len(),
{
    reveal(Seq::filter);
    let pred = |w: WindowView| is_fixed(w, active_tags);
    let place = |w: WindowView| Placement { window: w.id, rect: own_rect(w, area) };
    if first.len() > 0 {
        assert forall|i: int| 0 <= i < first.drop_last().len() implies #[trigger] first.drop_last()[i] == (
        WindowView { resize_state: first.drop_last()[i].resize_state, ..second.drop_last()[i] }) by {
            assert(first[i] == (WindowView { resize_state: first[i].resize_state, ..second[i] }));
        }
        same_fixed_placements(first.drop_last(), second.drop_last(), active_tags, area);
        let a = first.last();
        let b = second.last();
        assert(a == (WindowView { resize_state: a.resize_state, ..b })) by {
            assert(first[first.len() - 1] == (WindowView {
                resize_state: first[first.len() - 1].resize_state,
                ..second[first.len() - 1]
            }));
        }
        assert(a.on_any_of(active_tags) == b.on_any_of(active_tags)) by {
            if a.on_any_of(active_tags) {
                let i = choose|i: int| 0 <= i < a.tags.len() && active_tags.contains(#[trigger] a.tags[i]);
                assert(active_tags.contains(b.tags[i]));
            }
            if b.on_any_of(active_tags) {
                let i = choose|i: int| 0 <= i < b.tags.len() && active_tags.contains(#[trigger] b.tags[i]);
                assert(active_tags.contains(a.tags[i]));
            }
        }
        assert(pred(a) == pred(b));
        let fa = first.drop_last().filter(pred);
        let fb = second.drop_last().filter(pred);
        if pred(a) {
            assert(first.filter(pred) == fa.push(a));
            assert(second.filter(pred) == fb.push(b));
            assert(fa.push(a).map_values(place) =~= fa.map_values(place).push(place(a)));
            assert(fb.push(b).map_values(place) =~= fb.map_values(place).push(place(b)));
        } else {
            assert(first.filter(pred) == fa);
            assert(second.filter(pred) == fb);
        }
    } else {
        assert(fixed_placements(first, active_tags, area) =~= fixed_placements(second, active_tags, area));
    }
}

/// Where every mapped window has an identity of its own, the arrangement of
/// an output has each window once.
pub proof fn arrangement_has_each_window_once(state: StateView, output: int)
    requires
        forall|i: int, j: int|
            0 <= i < state.windows.len() && 0 <= j < state.windows.len() && i != j ==> (
            #[trigger] state.windows[i]).id != (#[trigger] state.windows[j]).id,
    ensures
        distinct_targets(state.arrangement(output)),
{
    let o = state.outputs[output];
    if o.layout() is Some {
        let tags = o.focused_tags();
        let area = o.geometry;
        let placed_pred = |w: WindowView| is_placed(w, tags);
        let fixed_pred = |w: WindowView| is_fixed(w, tags);
        let tiled = state.windows.filter(placed_pred);
        let fixed = state.windows.filter(fixed_pred);
        let first = layout_of(state.windows, tags, area, o.layout()->0);
        let second = fixed_placements(state.windows, tags, area);
        let all = state.arrangement(output);
        assert(all == first + second);
        filtered_ids_are_apart(state.windows, placed_pred);
        filtered_ids_are_apart(state.windows, fixed_pred);
        assert forall|i: int, j: int| 0 <= i < all.len() && 0 <= j < all.len() && i != j implies (
        #[trigger] all[i]).window != (#[trigger] all[j]).window by {
            if i < first.len() && j < first.len() {
                assert(tiled[i].id != tiled[j].id);
            } else if i >= first.len() && j >= first.len() {
                assert(fixed[i - first.len()].id != fixed[j - first.len()].id);
            } else {
                let (t, f) = if i < first.len() {
                    (i, j - first.len())
                } else {
                    (j, i - first.len())
                };
                state.windows.lemma_filter_pred(placed_pred, t);
                state.windows.lemma_filter_pred(fixed_pred, f);
                assert(tiled.contains(tiled[t]));
                assert(fixed.contains(fixed[f]));
                state.windows.lemma_filter_contains_rev(placed_pred, tiled[t]);
                state.windows.lemma_filter_contains_rev(fixed_pred, fixed[f]);
                let a = choose|a: int| 0 <= a < state.windows.len() && state.windows[a] == tiled[t];
                let b = choose|b: int| 0 <= b < state.windows.len() && state.windows[b] == fixed[f];
                assert(a != b);
                assert(state.windows[a].id != state.windows[b].id);
            }
        }
    }
}

/// Windows that are left when some are taken out of a list have identities
/// of their own if those of the list had.
pub proof fn filtered_ids_are_apart(windows: Seq<WindowView>, pred: spec_fn(WindowView) -> bool)
    requires
        forall|i: int, j: int|
            0 <= i < windows.len() && 0 <= j < windows.len() && i != j ==> (#[trigger] windows[i]).id != (
            #[trigger] windows[j]).id,
    ensures
        forall|i: int, j: int|
            0 <= i < windows.filter(pred).len() && 0 <= j < windows.filter(pred).len() && i != j ==> (
            #[trigger] windows.filter(pred)[i]).id != (#[trigger] windows.filter(pred)[j]).id,
    decreases windows.len(),
{
    reveal(Seq::filter);
    if windows.len() > 0 {
        let rest = windows.drop_last();
        assert forall|i: int, j: int| 0 <= i < rest.len() && 0 <= j < rest.len() && i != j implies (
        #[trigger] rest[i]).id != (#[trigger] rest[j]).id by {
            assert(windows[i].id != windows[j].id);
        }
        filtered_ids_are_apart(rest, pred);
        let kept = rest.filter(pred);
        let last = windows.last();
        if pred(last) {
            let all = windows.filter(pred);
            assert(all == kept.push(last));
            assert forall|i: int| 0 <= i < kept.len() implies (#[trigger] kept[i]).id != last.id by {
                assert(kept.contains(kept[i]));
                rest.lemma_filter_contains_rev(pred, kept[i]);
                let k = choose|k: int| 0 <= k < rest.len() && rest[k] == kept[i];
                assert(windows[k].id != windows[windows.len() - 1].id);
            }
            assert forall|i: int, j: int| 0 <= i < all.len() && 0 <= j < all.len() && i != j implies (
            #[trigger] all[i]).id != (#[trigger] all[j]).id by {
                if i < kept.len() && j < kept.len() {
                    assert(kept[i].id != kept[j].id);
                } else if i < kept.len() {
                    assert(kept[i].id != last.id);
                } else {
                    assert(kept[j].id != last.id);
                }
            }
        }
    }
}

/// Laying out an output twice is laying it out once: where every mapped
/// window has an identity of its own, an output that was just laid out is
/// laid out again without a change and without an effect.
pub proof fn layout_settles(state: StateView, output: int)
    requires
        forall|i: int, j: int|
            0 <= i < state.windows.len() && 0 <= j < state.windows.len() && i != j ==> (
            #[trigger] state.windows[i]).id != (#[trigger] state.windows[j]).id,
    ensures
        state.laid_out(output).state.laid_out(output) == state.laid_out(output).state.unchanged(),
{
    let placements = state.arrangement(output);
    let after = state.laid_out(output).state;
    placing_keeps_state(state, placements);
    arrangement_has_each_window_once(state, output);
    placing_reaches_all(state, placements);
    // The arrangement is the same for the state that was laid out.
    let o = state.outputs[output];
    assert(after.outputs == state.outputs);
    if o.layout() is Some {
        assert forall|i: int| 0 <= i < after.windows.len() implies crate::layout::same_for_layout(
            #[trigger] after.windows[i],
            state.windows[i],
        ) by {
            assert(after.windows[i] == (WindowView {
                resize_state: after.windows[i].resize_state,
                ..state.windows[i]
            }));
        }
        crate::layout::layout_is_idempotent(
            after.windows,
            state.windows,
            o.focused_tags(),
            o.geometry,
            o.layout()->0,
        );
        same_fixed_placements(after.windows, state.windows, o.focused_tags(), o.geometry);
    }
    assert(after.arrangement(output) == placements);
    placing_the_reached_is_idle(after, placements);
}

/// Asking for an output to be laid out twice in a row is asking once: in a
/// state whose windows have identities of their own, the second request
/// changes nothing and has no effect.
pub proof fn relayout_is_idle(state: StateView, id: crate::ids::OutputId)
    requires
        state.ids_are_fresh(),
    ensures
        state.layout_requested(id).state.layout_requested(id) == state.layout_requested(
            id,
        ).state.unchanged(),
{
    let all = state.windows + state.new_windows;
    assert forall|i: int, j: int|
        0 <= i < state.windows.len() && 0 <= j < state.windows.len() && i != j implies (
    #[trigger] state.windows[i]).id != (#[trigger] state.windows[j]).id by {
        assert(all[i].id != all[j].id);
    }
    match crate::state::output_index(state.outputs, id) {
        Some(output) => {
            layout_settles(state, output);
            layout_moves_nothing(state, output);
        },
        None => {},
    }
}

/// Whether the state holds nothing of the window `id`: no window has that
/// identity, mapped or not, and neither the space, a focus stack, the grab
/// nor the batch names it.
pub open spec fn is_unknown(state: StateView, id: WindowId) -> bool {
    &&& forall|i: int| 0 <= i < state.windows.len() ==> (#[trigger] state.windows[i]).id != id
    &&& forall|i: int| 0 <= i < state.new_windows.len() ==> (#[trigger] state.new_windows[i]).id != id
    &&& forall|i: int| 0 <= i < state.space.elements.len() ==> (#[trigger] state.space.elements[i]).window != id
    &&& forall|o: int, i: int|
        0 <= o < state.outputs.len() && 0 <= i < state.outputs[o].focus_stack.stack.len() ==> (
        #[trigger] state.outputs[o].focus_stack.stack[i]) != id
    &&& state.grab matches Some(grab) ==> grab.window != id
    &&& !state.batch.waiting.contains(id)
    &&& !state.batch.blocked.contains(id)
    &&& !state.batch.held.contains(id)
}

/// Filtering takes nothing from a list whose entries all pass.
pub proof fn filtering_takes_nothing<T>(s: Seq<T>, pred: spec_fn(T) -> bool)
    requires
        forall|i: int| 0 <= i < s.len() ==> pred(#[trigger] s[i]),
    ensures
        s.filter(pred) == s,
    decreases s.len(),
{
    reveal(Seq::filter);
    if s.len() > 0 {
        filtering_takes_nothing(s.drop_last(), pred);
        assert(s.drop_last().push(s.last()) == s);
    }
}

/// Taking out what does not occur takes nothing from a list.
pub proof fn without_takes_nothing<T>(s: Seq<T>, x: T)
    requires
        !s.contains(x),
    ensures
        without(s, x) == s,
{
    filtering_takes_nothing(s, |t: T| t != x);
}

/// To take a window out of a state that holds nothing of it changes
/// nothing.
pub proof fn unknown_window_takes_nothing(state: StateView, id: WindowId)
    requires
        is_unknown(state, id),
    ensures
        state.without_window(id) == state,
{
    let gone = state.without_window(id);
    filtering_takes_nothing(state.windows, |w: WindowView| w.id != id);
    filtering_takes_nothing(state.new_windows, |w: WindowView| w.id != id);
    filtering_takes_nothing(state.space.elements, |e: crate::space::SpaceElement| e.window != id);
    without_takes_nothing(state.batch.waiting, id);
    without_takes_nothing(state.batch.blocked, id);
    without_takes_nothing(state.batch.held, id);
    assert(gone.outputs =~= state.outputs) by {
        assert forall|o: int| 0 <= o < state.outputs.len() implies gone.outputs[o] == state.outputs[o] by {
            let stack = state.outputs[o].focus_stack.stack;
            assert(!stack.contains(id)) by {
                if stack.contains(id) {
                    let i = stack.index_of(id);
                    assert(state.outputs[o].focus_stack.stack[i] != id);
                }
            }
            without_takes_nothing(stack, id);
            assert(state.outputs[o].focus_stack.forgetting(id) == state.outputs[o].focus_stack);
        }
    }
    assert(gone.space == state.space);
    assert(gone.batch == state.batch);
}

/// The destruction of a window that is not there, right after a layout,
/// moves nothing and asks nothing of any window.
///
/// Take a state whose focused output was just laid out and that holds
/// nothing of the window `id`, with no held commit waiting for the batch to
/// end. After the destruction of `id` every window is as it was and where
/// it was: the layout that the destruction runs finds every window at its
/// place, or on its way there.
pub proof fn destroying_nothing_after_layout_is_idle(prior: StateView, output: int, id: WindowId)
    requires
        prior.ids_are_fresh(),
        prior.focused_output() == Some(output),
        is_unknown(prior.laid_out(output).state, id),
        prior.laid_out(output).state.batch.held.len() == 0 || !prior.laid_out(output).state.batch_is_complete(),
    ensures
        ({
            let state = prior.laid_out(output).state;
            &&& state.destroyed(id).state.windows == state.windows
            &&& state.destroyed(id).state.new_windows == state.new_windows
            &&& state.destroyed(id).state.space == state.space
            &&& state.destroyed(id).state.outputs == state.outputs
            &&& state.destroyed(id).effects == state.keyboard_focused(
                match state.outputs[output].focus_stack.current_focus() {
                    Some(window) => Some(KeyboardFocusTarget::Window(window)),
                    None => None,
                },
            ).effects
        }),
{
    let state = prior.laid_out(output).state;
    let all = prior.windows + prior.new_windows;
    assert forall|i: int, j: int|
        0 <= i < prior.windows.len() && 0 <= j < prior.windows.len() && i != j implies (
    #[trigger] prior.windows[i]).id != (#[trigger] prior.windows[j]).id by {
        assert(all[i].id != all[j].id);
    }
    layout_moves_nothing(prior, output);
    layout_settles(prior, output);
    unknown_window_takes_nothing(state, id);
    if state.batch_is_complete() {
        assert(state.batch.blocked.len() == 0) by {
            if state.batch.blocked.len() > 0 {
                assert(state.batch.held.contains(state.batch.blocked[0]));
            }
        }
        assert(state.batch.waiting =~= Seq::<WindowId>::empty());
        assert(state.batch.blocked =~= Seq::<WindowId>::empty());
        assert(state.batch.held =~= Seq::<WindowId>::empty());
        assert(state.batch == BatchView::empty());
        assert(state.released().state == state);
        assert(state.released().effects =~= Seq::<Effect>::empty());
    }
    assert(state.batch_settled().state == state);
    assert(state.batch_settled().effects =~= Seq::<Effect>::empty());
    assert(state.focused_output() == Some(output));
}

} // verus!
