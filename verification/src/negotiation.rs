//! A window with a request open stays where it is, whatever happens, and so
//! does a window that is blocked.
//!
//! Between the moment a window is asked to take a geometry and the moment
//! its client has acknowledged the request, no event moves or resizes the
//! window: not a commit, not a layout, not the pointer, not another
//! window's coming or going. And while a window is blocked for the sake of
//! a new window, nothing moves or resizes it either: what its client commits
//! and what the pointer asks for wait for the batch to end. What a window
//! has acknowledged takes effect with its next commit: at once if the
//! window is not blocked, and when the batch ends if it is.

use vstd::prelude::*;
use crate::consistency::{is_consistent, rules_keep_activation};
use crate::control::SetOrToggle;
use crate::effect::KeyboardFocusTarget;
use crate::event::Event;
use crate::geometry::{Point, Rect, Size};
use crate::grab::GrabKind;
use crate::ids::{without, WindowId};
use crate::laws::{
    at_rest, configuring_keeps_state, late_commits_keep_others, layout_moves_nothing, lookup_survives_update,
    same_but_negotiations,
};
use crate::lookup::{first_index_is_first, first_is_unique, is_first};
use crate::service::StateFn;
use crate::space::{mapping_records_geometry, unmapping_keeps_others};
use crate::state::{output_index, tag_output_index, window_index, BatchView, StateView};
use crate::window::{WindowResizeState, WindowView};

verus! {

/// Whether the window `id` is the mapped window at `index` and has a request
/// open.
pub open spec fn has_open_request(state: StateView, id: WindowId, index: int) -> bool {
    &&& window_index(state.windows, id) == Some(index)
    &&& 0 <= index < state.windows.len()
    &&& state.windows[index].resize_state is Requested
}

/// Whether `after` has the window `id` where `before` had it.
pub open spec fn same_place(after: StateView, before: StateView, id: WindowId) -> bool {
    after.space.element_geometry(id) == before.space.element_geometry(id)
}

/// Laying out outputs, one after the other, moves nothing.
pub proof fn relayout_moves_nothing(state: StateView, outputs: Seq<int>)
    ensures
        same_but_negotiations(state.relaid_each(outputs).state, state),
    decreases outputs.len(),
{
    if outputs.len() > 0 {
        relayout_moves_nothing(state, outputs.drop_last());
        let before = state.relaid_each(outputs.drop_last()).state;
        layout_moves_nothing(before, outputs.last());
        let after = state.relaid_each(outputs).state;
        assert forall|i: int| 0 <= i < after.windows.len() implies #[trigger] after.windows[i] == (
        WindowView { resize_state: after.windows[i].resize_state, ..state.windows[i] }) by {
            assert(before.windows[i] == (WindowView {
                resize_state: before.windows[i].resize_state,
                ..state.windows[i]
            }));
        }
    }
}

/// Taking windows with another identity out of a list leaves a window that
/// is found in the list found, and the same.
pub proof fn filtering_keeps_found(windows: Seq<WindowView>, gone: WindowId, id: WindowId, index: int)
    requires
        gone != id,
        window_index(windows, id) == Some(index),
    ensures
        window_index(windows.filter(|w: WindowView| w.id != gone), id) is Some,
        windows.filter(|w: WindowView| w.id != gone)[window_index(
            windows.filter(|w: WindowView| w.id != gone),
            id,
        )->0] == windows[index],
    decreases windows.len(),
{
    let pred = |w: WindowView| w.id != gone;
    let found = |w: WindowView| w.id == id;
    reveal(Seq::filter);
    first_index_is_first(windows, found);
    let kept = windows.filter(pred);
    let rest = windows.drop_last();
    let last = windows.len() - 1;
    if index < last {
        assert(is_first(rest, found, index)) by {
            assert forall|j: int| 0 <= j < index implies !found(#[trigger] rest[j]) by {
                assert(!found(windows[j]));
            }
        }
        first_is_unique(rest, found, index);
        filtering_keeps_found(rest, gone, id, index);
        let k = window_index(rest.filter(pred), id)->0;
        first_index_is_first(rest.filter(pred), found);
        assert(is_first(kept, found, k)) by {
            assert forall|j: int| 0 <= j < k implies !found(#[trigger] kept[j]) by {
                assert(!found(rest.filter(pred)[j]));
            }
        }
        first_is_unique(kept, found, k);
    } else {
        // The window is the last of the list: nothing before it has its identity.
        let front = rest.filter(pred);
        assert(kept == front.push(windows[last]));
        assert forall|j: int| 0 <= j < front.len() implies !found(#[trigger] front[j]) by {
            assert(front.contains(front[j]));
            rest.lemma_filter_contains_rev(pred, front[j]);
            let a = choose|a: int| 0 <= a < rest.len() && rest[a] == front[j];
            assert(!found(windows[a]));
        }
        assert(is_first(kept, found, front.len() as int)) by {
            assert forall|j: int| 0 <= j < front.len() implies !found(#[trigger] kept[j]) by {
                assert(!found(front[j]));
            }
        }
        first_is_unique(kept, found, front.len() as int);
    }
}

/// In a consistent state no unmapped window has the identity of a mapped
/// one.
pub proof fn mapped_is_not_unmapped(state: StateView, mapped: int, unmapped: int)
    requires
        state.ids_are_fresh(),
        0 <= mapped < state.windows.len(),
        0 <= unmapped < state.new_windows.len(),
    ensures
        state.windows[mapped].id != state.new_windows[unmapped].id,
{
    let all = state.windows + state.new_windows;
    assert(all[mapped].id != all[state.windows.len() + unmapped].id);
}

/// The mapping of a window leaves every mapped window where it is.
pub proof fn mapping_keeps_place(state: StateView, unmapped: int, size: Size, id: WindowId, index: int)
    requires
        is_consistent(state),
        window_index(state.windows, id) == Some(index),
        0 <= unmapped < state.new_windows.len(),
    ensures
        same_place(state.mapped_new(unmapped, size).state, state, id),
{
    let window = state.new_windows[unmapped];
    mapped_is_not_unmapped(state, index, unmapped);
    first_index_is_first(state.windows, |w: WindowView| w.id == id);
    let focused = state.focused_output();
    let before_rules = state.taken_in(unmapped, size);
    mapping_records_geometry(
        state.space,
        window.id,
        Rect { loc: crate::lifecycle::staging(state.outputs), size },
        id,
    );
    rules_keep_activation(before_rules, state.windows.len() as int, state.window_rules);
    let placed = before_rules.rules_applied(state.windows.len() as int, state.window_rules);
    match focused {
        Some(output) => {
            layout_moves_nothing(placed, output);
        },
        None => {},
    }
}

/// A commit leaves a window with a request open where it is, whether it is
/// a commit of that window or of another.
pub proof fn commit_keeps_place(
    state: StateView,
    committing: WindowId,
    buffer: Option<Size>,
    id: WindowId,
    index: int,
)
    requires
        is_consistent(state),
        has_open_request(state, id, index),
    ensures
        same_place(state.committed(committing, buffer).state, state, id),
{
    first_index_is_first(state.new_windows, |w: WindowView| w.id == committing);
    first_index_is_first(state.windows, |w: WindowView| w.id == committing);
    first_index_is_first(state.windows, |w: WindowView| w.id == id);
    match window_index(state.new_windows, committing) {
        Some(unmapped) => match buffer {
            Some(size) => {
                mapping_keeps_place(state, unmapped, size, id, index);
            },
            None => {},
        },
        None => match window_index(state.windows, committing) {
            Some(j) => {
                if state.batch.blocked.contains(committing) {
                    let held = state.with_commit_held(committing);
                    let open = held.with_batch_ended();
                    assert(at_rest(open, id, index));
                    late_commits_keep_others(open, held.batch.held, id, index);
                } else {
                    crate::laws::late_commit_keeps_others(state, committing, id, index);
                    let settled = state.settled(j);
                    assert(at_rest(settled, id, index));
                    let resized = if state.windows[j].resize_state is Idle {
                        settled.self_resized(j, buffer)
                    } else {
                        settled
                    };
                    if j != index {
                        match (buffer, settled.space.element_geometry(committing)) {
                            (Some(size), Some(geometry)) => {
                                mapping_records_geometry(
                                    settled.space,
                                    committing,
                                    crate::lifecycle::anchored(geometry, size, settled.edges_held(committing)),
                                    id,
                                );
                            },
                            _ => {},
                        }
                    }
                    assert(same_place(resized, state, id));
                    assert(at_rest(resized, id, index));
                    let configured = resized.initially_configured(j).state;
                    lookup_survives_update(resized.windows, j, configured.windows[j], id);
                    assert(at_rest(configured, id, index));
                    if configured.batch.waiting.contains(committing) && !(configured.windows[j].resize_state
                        is Requested) {
                        let rest = configured.no_longer_awaited(committing);
                        let open = rest.with_batch_ended();
                        assert(at_rest(open, id, index));
                        late_commits_keep_others(open, rest.batch.held, id, index);
                    }
                }
            },
            None => {},
        },
    }
}

/// The destruction of another window leaves a window with a request open
/// where it is.
pub proof fn destruction_keeps_place(state: StateView, gone: WindowId, id: WindowId, index: int)
    requires
        has_open_request(state, id, index),
        gone != id,
    ensures
        same_place(state.destroyed(gone).state, state, id),
{
    let left = state.without_window(gone);
    unmapping_keeps_others(state.space.elements, gone, id);
    assert(same_place(left, state, id));
    filtering_keeps_found(state.windows, gone, id, index);
    let k = window_index(left.windows, id)->0;
    first_index_is_first(left.windows, |w: WindowView| w.id == id);
    let open = left.with_batch_ended();
    assert(at_rest(open, id, k));
    late_commits_keep_others(open, left.batch.held, id, k);
    let released = left.batch_settled().state;
    assert(same_place(released, state, id));
    match released.focused_output() {
        Some(output) => {
            layout_moves_nothing(released, output);
        },
        None => {},
    }
}

/// The pointer's motion leaves a window with a request open where it is.
pub proof fn motion_keeps_place(state: StateView, location: Point, id: WindowId, index: int)
    requires
        has_open_request(state, id, index),
    ensures
        same_place(state.pointer_moved(location).state, state, id),
{
    first_index_is_first(state.windows, |w: WindowView| w.id == id);
    match (state.pointer, state.grab) {
        (Some(_), Some(grab)) => {
            first_index_is_first(state.windows, |w: WindowView| w.id == grab.window);
            match window_index(state.windows, grab.window) {
                Some(j) => {
                    let delta = location.spec_minus(grab.pointer_start);
                    match grab.kind {
                        GrabKind::Move { initial_loc } => {
                            if j != index {
                                let loc = initial_loc.spec_plus(delta);
                                match state.space.element_geometry(grab.window) {
                                    Some(geometry) => {
                                        mapping_records_geometry(
                                            state.space,
                                            grab.window,
                                            Rect { loc, size: geometry.size },
                                            id,
                                        );
                                    },
                                    None => {},
                                }
                            }
                        },
                        GrabKind::Resize { .. } => {},
                    }
                },
                None => {},
            }
        },
        _ => {},
    }
}

/// Setting, taking or flipping the focus moves nothing.
pub proof fn focus_keeps_place(state: StateView, focused: WindowId, set_or_toggle: SetOrToggle, id: WindowId)
    ensures
        same_place(state.focus_set(focused, set_or_toggle).state, state, id),
{
    first_index_is_first(state.windows, |w: WindowView| w.id == focused);
    match window_index(state.windows, focused) {
        Some(window) => {
            match state.output_of_window(window) {
                Some(output) => {
                    let given = state.with_focus_given(window, output);
                    let with_keyboard = given.keyboard_focused(Some(KeyboardFocusTarget::Window(focused))).state;
                    configuring_keeps_state(with_keyboard, with_keyboard.space.windows());
                    let taken = state.with_focus_taken(output);
                    let without_keyboard = taken.keyboard_focused(None).state;
                    configuring_keeps_state(without_keyboard, without_keyboard.space.windows());
                },
                None => {},
            }
        },
        None => {},
    }
}

/// What the control surface asks for leaves every window where it is.
pub proof fn control_keeps_place(state: StateView, f: StateFn, id: WindowId)
    ensures
        same_place(state.ran(f).state, state, id),
{
    match f {
        StateFn::SetFocused { window_id, set_or_toggle } => {
            focus_keeps_place(state, window_id, set_or_toggle, id);
        },
        StateFn::SetGeometry { window_id, geometry } => {
            match window_index(state.windows, window_id) {
                Some(window) => {
                    let changed = state.with_window(
                        window,
                        state.windows[window].with_rect(geometry.spec_merged_into(state.geometry_of(window_id))),
                    );
                    relayout_moves_nothing(changed, state.outputs_showing(window_id));
                },
                None => {},
            }
        },
        StateFn::SetFullscreen { window_id, set_or_toggle } => {
            match window_index(state.windows, window_id) {
                Some(window) => {
                    let w = state.windows[window];
                    let changed = state.with_window(
                        window,
                        if set_or_toggle.spec_changes(w.fullscreen_or_maximized.spec_is_fullscreen()) {
                            w.toggled_fullscreen()
                        } else {
                            w
                        },
                    );
                    layout_for_window_moves_nothing(changed, window);
                },
                None => {},
            }
        },
        StateFn::SetMaximized { window_id, set_or_toggle } => {
            match window_index(state.windows, window_id) {
                Some(window) => {
                    let w = state.windows[window];
                    let changed = state.with_window(
                        window,
                        if set_or_toggle.spec_changes(w.fullscreen_or_maximized.spec_is_maximized()) {
                            w.toggled_maximized()
                        } else {
                            w
                        },
                    );
                    layout_for_window_moves_nothing(changed, window);
                },
                None => {},
            }
        },
        StateFn::SetFloating { window_id, set_or_toggle } => {
            match window_index(state.windows, window_id) {
                Some(window) => {
                    let w = state.windows[window];
                    let changed = state.with_window(
                        window,
                        if set_or_toggle.spec_changes(w.floating_or_tiled.spec_is_floating()) {
                            w.toggled_floating(state.geometry_of(window_id))
                        } else {
                            w
                        },
                    );
                    layout_for_window_moves_nothing(changed, window);
                },
                None => {},
            }
        },
        StateFn::MoveToTag { window_id, tag_id } => {
            match (window_index(state.windows, window_id), tag_output_index(state.outputs, tag_id)) {
                (Some(window), Some(output)) => {
                    let changed = state.with_window(
                        window,
                        WindowView { tags: seq![tag_id], ..state.windows[window] },
                    );
                    layout_moves_nothing(changed, output);
                },
                _ => {},
            }
        },
        StateFn::SetTag { window_id, tag_id, set_or_toggle } => {
            match (window_index(state.windows, window_id), tag_output_index(state.outputs, tag_id)) {
                (Some(window), Some(output)) => {
                    let changed = state.with_window(
                        window,
                        WindowView {
                            tags: crate::control::tags_after(state.windows[window].tags, tag_id, set_or_toggle),
                            ..state.windows[window]
                        },
                    );
                    layout_moves_nothing(changed, output);
                },
                _ => {},
            }
        },
        StateFn::Raise { window_id } => {
            match (window_index(state.windows, window_id), state.space.element_geometry(window_id)) {
                (Some(_), Some(geometry)) => {
                    mapping_records_geometry(state.space, window_id, geometry, id);
                },
                _ => {},
            }
        },
        _ => {},
    }
}

/// Laying out the output of a window moves nothing.
proof fn layout_for_window_moves_nothing(state: StateView, window: int)
    ensures
        state.relaid_for(window).state.space == state.space,
{
    match state.output_of_window(window) {
        Some(output) => {
            layout_moves_nothing(state, output);
        },
        None => {},
    }
}

/// What comes of an event that is none of a commit, a destruction, a motion
/// of the pointer or a request of the control surface leaves every window
/// where it is.
pub proof fn other_events_keep_place(state: StateView, event: Event, id: WindowId)
    requires
        !(event is Commit),
        !(event is ToplevelDestroyed),
        !(event is PointerMotion),
        !(event is Request),
    ensures
        same_place(state.after(event).state, state, id),
{
    match event {
        Event::AckConfigure { window, serial } => {
            first_index_is_first(state.windows, |w: WindowView| w.id == window);
        },
        Event::Idle => {
            if state.pending.len() > 0 {
                let rest = StateView { pending: state.pending.drop_first(), ..state };
                match state.pending[0] {
                    crate::effect::PendingAction::RequestLayout(output) => {
                        match output_index(rest.outputs, output) {
                            Some(index) => {
                                layout_moves_nothing(rest, index);
                            },
                            None => {},
                        }
                    },
                    _ => {},
                }
            }
        },
        _ => {},
    }
}

/// A window with a request open stays where it is, whatever happens, until
/// it is destroyed.
///
/// Take a consistent state in which a mapped window has been asked to take
/// a geometry and has not acknowledged the request. Then no event changes
/// the geometry that the space records for the window, save the window's
/// own destruction.
pub proof fn open_request_holds_the_window(state: StateView, event: Event, id: WindowId)
    requires
        is_consistent(state),
        window_index(state.windows, id) is Some,
        state.windows[window_index(state.windows, id)->0].resize_state is Requested,
        !(event matches Event::ToplevelDestroyed { window } && window == id),
    ensures
        same_place(state.after(event).state, state, id),
{
    let index = window_index(state.windows, id)->0;
    first_index_is_first(state.windows, |w: WindowView| w.id == id);
    match event {
        Event::Commit { window, buffer } => {
            commit_keeps_place(state, window, buffer, id, index);
        },
        Event::ToplevelDestroyed { window } => {
            destruction_keeps_place(state, window, id, index);
        },
        Event::PointerMotion { location } => {
            motion_keeps_place(state, location, id, index);
        },
        Event::Request(f) => {
            control_keeps_place(state, f, id);
        },
        _ => {
            other_events_keep_place(state, event, id);
        },
    }
}

/// Letting what another window has pending take effect leaves a window
/// where it is.
pub proof fn settling_another_keeps_place(state: StateView, other: int, id: WindowId)
    requires
        0 <= other < state.windows.len(),
        state.windows[other].id != id,
    ensures
        same_place(state.settled(other), state, id),
        state.settled(other).batch == state.batch,
        state.settled(other).windows.len() == state.windows.len(),
        forall|i: int|
            0 <= i < state.windows.len() ==> (#[trigger] state.settled(other).windows[i]).id
                == state.windows[i].id,
{
    let window = state.windows[other];
    let moved = match window.target_loc {
        Some(loc) => state.space.mapped(window.id, Rect { loc, size: state.geometry_of(window.id).size }),
        None => state.space,
    };
    if window.target_loc is Some {
        mapping_records_geometry(
            state.space,
            window.id,
            Rect { loc: window.target_loc->0, size: state.geometry_of(window.id).size },
            id,
        );
    }
    match window.resize_state {
        crate::window::WindowResizeState::Acknowledged(rect) => {
            mapping_records_geometry(moved, window.id, rect, id);
        },
        _ => {},
    }
}

/// A commit leaves a blocked window where it is, unless it ends the batch.
pub proof fn commit_keeps_blocked(
    state: StateView,
    committing: WindowId,
    buffer: Option<Size>,
    id: WindowId,
    index: int,
)
    requires
        is_consistent(state),
        window_index(state.windows, id) == Some(index),
        state.batch.blocked.contains(id),
        state.committed(committing, buffer).state.batch.blocked.contains(id),
    ensures
        same_place(state.committed(committing, buffer).state, state, id),
{
    first_index_is_first(state.new_windows, |w: WindowView| w.id == committing);
    first_index_is_first(state.windows, |w: WindowView| w.id == committing);
    first_index_is_first(state.windows, |w: WindowView| w.id == id);
    match window_index(state.new_windows, committing) {
        Some(unmapped) => match buffer {
            Some(size) => {
                mapping_keeps_place(state, unmapped, size, id, index);
            },
            None => {},
        },
        None => match window_index(state.windows, committing) {
            Some(j) => {
                if state.batch.blocked.contains(committing) {
                    // Held back: the batch goes on, or the window would be blocked no more.
                    let held = state.with_commit_held(committing);
                    if held.batch_is_complete() {
                        ended_batch_blocks_nothing(held, id);
                    }
                } else {
                    settling_another_keeps_place(state, j, id);
                    let settled = state.settled(j);
                    let resized = if state.windows[j].resize_state is Idle {
                        settled.self_resized(j, buffer)
                    } else {
                        settled
                    };
                    match (buffer, settled.space.element_geometry(committing)) {
                        (Some(size), Some(geometry)) => {
                            mapping_records_geometry(
                                settled.space,
                                committing,
                                crate::lifecycle::anchored(geometry, size, settled.edges_held(committing)),
                                id,
                            );
                        },
                        _ => {},
                    }
                    assert(same_place(resized, state, id));
                    let configured = resized.initially_configured(j).state;
                    if configured.batch.waiting.contains(committing) && !(configured.windows[j].resize_state
                        is Requested) {
                        let rest = configured.no_longer_awaited(committing);
                        if rest.batch_is_complete() {
                            ended_batch_blocks_nothing(rest, id);
                        }
                    }
                }
            },
            None => {},
        },
    }
}

/// When the batch has ended, no window is blocked.
pub proof fn ended_batch_blocks_nothing(state: StateView, id: WindowId)
    ensures
        !state.released().state.batch.blocked.contains(id),
{
    let open = state.with_batch_ended();
    crate::consistency::late_commits_keep_activation(open, state.batch.held);
    late_commits_keep_batch(open, state.batch.held);
}

/// Letting held commits take effect leaves the batch as it is.
pub proof fn late_commits_keep_batch(state: StateView, held: Seq<WindowId>)
    ensures
        state.settled_all(held).state.batch == state.batch,
    decreases held.len(),
{
    if held.len() > 0 {
        late_commits_keep_batch(state, held.drop_last());
    }
}

/// The destruction of another window leaves a blocked window where it is,
/// unless it ends the batch.
pub proof fn destruction_keeps_blocked(state: StateView, gone: WindowId, id: WindowId, index: int)
    requires
        window_index(state.windows, id) == Some(index),
        gone != id,
        state.destroyed(gone).state.batch.blocked.contains(id),
    ensures
        same_place(state.destroyed(gone).state, state, id),
{
    let left = state.without_window(gone);
    unmapping_keeps_others(state.space.elements, gone, id);
    if left.batch_is_complete() {
        ended_batch_blocks_nothing(left, id);
    }
    let released = left.batch_settled().state;
    match released.focused_output() {
        Some(output) => {
            layout_moves_nothing(released, output);
        },
        None => {},
    }
}

/// The pointer's motion leaves a blocked window where it is.
pub proof fn motion_keeps_blocked(state: StateView, location: Point, id: WindowId, index: int)
    requires
        window_index(state.windows, id) == Some(index),
        state.batch.blocked.contains(id),
    ensures
        same_place(state.pointer_moved(location).state, state, id),
{
    first_index_is_first(state.windows, |w: WindowView| w.id == id);
    match (state.pointer, state.grab) {
        (Some(_), Some(grab)) => {
            first_index_is_first(state.windows, |w: WindowView| w.id == grab.window);
            match window_index(state.windows, grab.window) {
                Some(j) => {
                    let delta = location.spec_minus(grab.pointer_start);
                    match grab.kind {
                        GrabKind::Move { initial_loc } => {
                            if j != index {
                                let loc = initial_loc.spec_plus(delta);
                                match state.space.element_geometry(grab.window) {
                                    Some(geometry) => {
                                        mapping_records_geometry(
                                            state.space,
                                            grab.window,
                                            Rect { loc, size: geometry.size },
                                            id,
                                        );
                                    },
                                    None => {},
                                }
                            }
                        },
                        GrabKind::Resize { .. } => {},
                    }
                },
                None => {},
            }
        },
        _ => {},
    }
}

/// A blocked window stays where it is for as long as it is blocked.
///
/// Take a consistent state in which a mapped window is blocked, and an event
/// after which it is blocked still. Then the event does not change the
/// geometry that the space records for the window: no frame shows the
/// window at a new place before the batch ends.
pub proof fn blocked_window_stays(state: StateView, event: Event, id: WindowId)
    requires
        is_consistent(state),
        window_index(state.windows, id) is Some,
        state.batch.blocked.contains(id),
        state.after(event).state.batch.blocked.contains(id),
    ensures
        same_place(state.after(event).state, state, id),
{
    let index = window_index(state.windows, id)->0;
    first_index_is_first(state.windows, |w: WindowView| w.id == id);
    match event {
        Event::Commit { window, buffer } => {
            commit_keeps_blocked(state, window, buffer, id, index);
        },
        Event::ToplevelDestroyed { window } => {
            if window == id {
                destruction_unblocks(state, id);
            } else {
                destruction_keeps_blocked(state, window, id, index);
            }
        },
        Event::PointerMotion { location } => {
            motion_keeps_blocked(state, location, id, index);
        },
        Event::Request(f) => {
            control_keeps_place(state, f, id);
        },
        _ => {
            other_events_keep_place(state, event, id);
        },
    }
}

/// A window that is destroyed is blocked no more.
pub proof fn destruction_unblocks(state: StateView, id: WindowId)
    ensures
        !state.destroyed(id).state.batch.blocked.contains(id),
{
    let left = without(state.batch.blocked, id);
    if left.contains(id) {
        state.batch.blocked.lemma_filter_pred(|t: WindowId| t != id, left.index_of(id));
    }
    let rest = state.without_window(id);
    if rest.batch_is_complete() {
        ended_batch_blocks_nothing(rest, id);
    }
    let released = rest.batch_settled().state;
    match released.focused_output() {
        Some(output) => {
            layout_moves_nothing(released, output);
        },
        None => {},
    }
}

/// Whether the mapped window `id`, at `index`, has acknowledged that it is
/// to take `rect` and has not been let through since.
pub open spec fn is_due(state: StateView, id: WindowId, index: int, rect: Rect) -> bool {
    &&& window_index(state.windows, id) == Some(index)
    &&& 0 <= index < state.windows.len()
    &&& state.windows[index].resize_state == WindowResizeState::Acknowledged(rect)
}

/// Whether the mapped window `id`, at `index`, is at `rect` with its
/// negotiation over and nothing pending.
pub open spec fn has_arrived(state: StateView, id: WindowId, index: int, rect: Rect) -> bool {
    &&& window_index(state.windows, id) == Some(index)
    &&& 0 <= index < state.windows.len()
    &&& state.windows[index].resize_state is Idle
    &&& state.windows[index].target_loc is None
    &&& state.space.element_geometry(id) == Some(rect)
}

/// Letting one held commit take effect puts the window that is due at its
/// geometry if the commit is its own, and leaves it as it is otherwise.
pub proof fn late_commit_lets_arrive(state: StateView, held: WindowId, id: WindowId, index: int, rect: Rect)
    requires
        is_due(state, id, index, rect) || has_arrived(state, id, index, rect),
    ensures
        held == id || has_arrived(state, id, index, rect) ==> has_arrived(
            state.settled_late(held).state,
            id,
            index,
            rect,
        ),
        held != id && is_due(state, id, index, rect) ==> is_due(state.settled_late(held).state, id, index, rect),
{
    first_index_is_first(state.windows, |w: WindowView| w.id == held);
    first_index_is_first(state.windows, |w: WindowView| w.id == id);
    match window_index(state.windows, held) {
        Some(j) => {
            let after = state.settled(j);
            lookup_survives_update(state.windows, j, after.windows[j], id);
            if j == index {
                let window = state.windows[index];
                let moved = match window.target_loc {
                    Some(loc) => state.space.mapped(id, Rect { loc, size: state.geometry_of(id).size }),
                    None => state.space,
                };
                mapping_records_geometry(moved, id, rect, id);
            } else {
                settling_another_keeps_place(state, j, id);
            }
        },
        None => {},
    }
}

/// Letting held commits take effect, one after the other, puts the window
/// that is due at its geometry if its commit is among them.
pub proof fn late_commits_let_arrive(state: StateView, held: Seq<WindowId>, id: WindowId, index: int, rect: Rect)
    requires
        is_due(state, id, index, rect) || has_arrived(state, id, index, rect),
    ensures
        is_due(state.settled_all(held).state, id, index, rect) || has_arrived(
            state.settled_all(held).state,
            id,
            index,
            rect,
        ),
        held.contains(id) || has_arrived(state, id, index, rect) ==> has_arrived(
            state.settled_all(held).state,
            id,
            index,
            rect,
        ),
    decreases held.len(),
{
    if held.len() > 0 {
        let earlier = held.drop_last();
        late_commits_let_arrive(state, earlier, id, index, rect);
        late_commit_lets_arrive(state.settled_all(earlier).state, held.last(), id, index, rect);
        if held.contains(id) && held.last() != id {
            let k = held.index_of(id);
            assert(earlier[k] == id);
        }
    }
}

/// A commit that was held back takes effect when the batch ends.
///
/// Take a mapped window that has acknowledged that it is to take `rect`,
/// and whose commit since was held back because the window is blocked.
/// When the batch ends, the window is at `rect`, its negotiation is over,
/// and nothing is pending for it.
pub proof fn held_commit_applies_at_release(state: StateView, id: WindowId, index: int, rect: Rect)
    requires
        is_due(state, id, index, rect),
        state.batch.held.contains(id),
    ensures
        has_arrived(state.released().state, id, index, rect),
{
    let open = state.with_batch_ended();
    late_commits_let_arrive(open, state.batch.held, id, index, rect);
}

/// An acknowledged geometry takes effect with the next commit, held back
/// or not.
///
/// Take a consistent state in which a mapped window has acknowledged that
/// it is to take `rect`, and let its client commit. If the window is not
/// blocked, or if this commit ends the batch, the window is at `rect`
/// afterwards and its negotiation is over. Otherwise the window is blocked
/// still, it is where it was, and it is as due as before.
pub proof fn commit_applies_what_was_acknowledged(
    state: StateView,
    id: WindowId,
    index: int,
    rect: Rect,
    buffer: Option<Size>,
)
    requires
        is_consistent(state),
        is_due(state, id, index, rect),
    ensures
        ({
            let after = state.committed(id, buffer).state;
            if after.batch.blocked.contains(id) {
                is_due(after, id, index, rect) && same_place(after, state, id) && after.batch.held.contains(id)
            } else {
                has_arrived(after, id, index, rect)
            }
        }),
{
    first_index_is_first(state.new_windows, |w: WindowView| w.id == id);
    first_index_is_first(state.windows, |w: WindowView| w.id == id);
    let all = state.windows + state.new_windows;
    assert(window_index(state.new_windows, id) is None) by {
        if window_index(state.new_windows, id) is Some {
            let n = window_index(state.new_windows, id)->0;
            assert(all[index] == state.windows[index]);
            assert(all[state.windows.len() + n] == state.new_windows[n]);
        }
    }
    if state.batch.blocked.contains(id) {
        let held = state.with_commit_held(id);
        assert(held.batch.held.contains(id)) by {
            if !state.batch.held.contains(id) {
                assert(state.batch.held.push(id).last() == id);
            }
        }
        if held.batch_is_complete() {
            held_commit_applies_at_release(held, id, index, rect);
            ended_batch_blocks_nothing(held, id);
        }
    } else {
        let window = state.windows[index];
        let moved = match window.target_loc {
            Some(loc) => state.space.mapped(id, Rect { loc, size: state.geometry_of(id).size }),
            None => state.space,
        };
        mapping_records_geometry(moved, id, rect, id);
        let settled = state.settled(index);
        lookup_survives_update(state.windows, index, settled.windows[index], id);
        assert(has_arrived(settled, id, index, rect));
        let configured = settled.initially_configured(index);
        lookup_survives_update(settled.windows, index, configured.state.windows[index], id);
        assert(has_arrived(configured.state, id, index, rect));
        if configured.state.batch.waiting.contains(id) {
            let rest = configured.state.no_longer_awaited(id);
            if rest.batch_is_complete() {
                let open = rest.with_batch_ended();
                late_commits_let_arrive(open, rest.batch.held, id, index, rect);
                ended_batch_blocks_nothing(rest, id);
            }
        }
    }
}

/// The commit that the batch still lacks ends the batch.
///
/// Take a mapped window that is blocked, in a batch that waits for no new
/// window any more and in which every other blocked window has committed.
/// Its commit ends the batch: every blocked window is let through, in one
/// step and before anything else is asked for, and no window is blocked
/// afterwards.
pub proof fn last_blocked_commit_ends_the_batch(state: StateView, id: WindowId, buffer: Option<Size>)
    requires
        window_index(state.windows, id) is Some,
        window_index(state.new_windows, id) is None,
        state.batch.blocked.contains(id),
        state.batch.waiting.len() == 0,
        forall|i: int|
            0 <= i < state.batch.blocked.len() && state.batch.blocked[i] != id ==> state.batch.held.contains(
                #[trigger] state.batch.blocked[i],
            ),
    ensures
        state.committed(id, buffer).state.batch == BatchView::empty(),
        state.committed(id, buffer).effects.len() >= state.batch.blocked.len(),
        state.committed(id, buffer).effects.subrange(0, state.batch.blocked.len() as int)
            == state.batch.blocked.map_values(|w: WindowId| crate::lifecycle::unblock_of(w)),
{
    let held = state.with_commit_held(id);
    assert forall|i: int| 0 <= i < held.batch.blocked.len() implies held.batch.held.contains(
        #[trigger] held.batch.blocked[i],
    ) by {
        let blocked = held.batch.blocked[i];
        if state.batch.held.contains(blocked) {
            if !state.batch.held.contains(id) {
                let k = state.batch.held.index_of(blocked);
                assert(state.batch.held.push(id)[k] == blocked);
            }
        } else {
            assert(blocked == id);
            assert(state.batch.held.push(id).last() == id);
        }
    }
    assert(held.batch_is_complete());
    let open = held.with_batch_ended();
    late_commits_keep_batch(open, held.batch.held);
    let unblocked = state.batch.blocked.map_values(|w: WindowId| crate::lifecycle::unblock_of(w));
    let late = open.settled_all(held.batch.held).effects;
    assert((unblocked + late).subrange(0, unblocked.len() as int) =~= unblocked);
}

} // verus!
