//! What holds of the windows whatever happens: at most one of them is drawn
//! as active, and each has an identity of its own.

use vstd::prelude::*;
use crate::control::SetOrToggle;
use crate::geometry::{Point, Rect, Size};
use crate::ids::WindowId;
use crate::laws::{configuring_keeps_state, placing_keeps_state};

use crate::lifecycle::deactivated;
use crate::lookup::first_index_is_first;
use crate::output::OutputView;
use crate::rules::{WindowRule, WindowRuleCondition};
use crate::serial::Serial;
use crate::service::StateFn;
use crate::state::{output_index, tag_output_index, window_index, BatchView, StateView};
use crate::window::{WindowSurface, WindowView};

verus! {

/// The number of windows in `windows` that are drawn as active.
pub open spec fn active_count(windows: Seq<WindowView>) -> nat
    decreases windows.len(),
{
    if windows.len() == 0 {
        0
    } else {
        active_count(windows.drop_last()) + if windows.last().activated {
            1nat
        } else {
            0nat
        }
    }
}

/// Whether at most one window, mapped or not, is drawn as active.
pub open spec fn at_most_one_active(state: StateView) -> bool {
    active_count(state.windows) + active_count(state.new_windows) <= 1
}

/// Whether the windows of `a` are, one by one, the windows of `b`: they
/// have the same identities, and are drawn as active exactly where those of
/// `b` are.
pub open spec fn same_flags(a: Seq<WindowView>, b: Seq<WindowView>) -> bool {
    &&& a.len() == b.len()
    &&& forall|i: int|
        0 <= i < a.len() ==> (#[trigger] a[i]).activated == b[i].activated && a[i].id == b[i].id
}

/// Whether the windows of `a`, mapped and unmapped, are one by one the
/// windows of `b`, drawn as active exactly where those of `b` are, and the
/// next window will be given the same number.
pub open spec fn same_activation(a: StateView, b: StateView) -> bool {
    &&& same_flags(a.windows, b.windows)
    &&& same_flags(a.new_windows, b.new_windows)
    &&& a.next_window_id == b.next_window_id
}

/// Windows that are drawn as active in the same places are as many.
pub proof fn same_flags_same_count(a: Seq<WindowView>, b: Seq<WindowView>)
    requires
        same_flags(a, b),
    ensures
        active_count(a) == active_count(b),
    decreases a.len(),
{
    if a.len() > 0 {
        assert(a[a.len() - 1].activated == b[a.len() - 1].activated);
        assert forall|i: int| 0 <= i < a.drop_last().len() implies (#[trigger] a.drop_last()[i]).activated
            == b.drop_last()[i].activated by {
            assert(a[i].activated == b[i].activated);
        }
        same_flags_same_count(a.drop_last(), b.drop_last());
    }
}

/// Where at most one window is counted as active, two active windows are
/// the same window.
pub proof fn one_active_is_unique(windows: Seq<WindowView>, i: int, j: int)
    requires
        active_count(windows) <= 1,
        0 <= i < windows.len(),
        0 <= j < windows.len(),
        windows[i].activated,
        windows[j].activated,
    ensures
        i == j,
    decreases windows.len(),
{
    let last = windows.len() - 1;
    if i < last && j < last {
        one_active_is_unique(windows.drop_last(), i, j);
    } else if i < last {
        some_active_counts(windows.drop_last(), i);
    } else if j < last {
        some_active_counts(windows.drop_last(), j);
    }
}

/// A list with an active window counts at least one.
pub proof fn some_active_counts(windows: Seq<WindowView>, i: int)
    requires
        0 <= i < windows.len(),
        windows[i].activated,
    ensures
        active_count(windows) >= 1,
    decreases windows.len(),
{
    if i < windows.len() - 1 {
        some_active_counts(windows.drop_last(), i);
    }
}

/// Of windows that are all drawn as inactive, none counts as active.
pub proof fn deactivated_count_is_zero(windows: Seq<WindowView>)
    ensures
        active_count(deactivated(windows)) == 0,
    decreases windows.len(),
{
    if windows.len() > 0 {
        assert(deactivated(windows).drop_last() == deactivated(windows.drop_last()));
        deactivated_count_is_zero(windows.drop_last());
    }
}

/// Taking windows out of a list does not add to the active ones.
pub proof fn filtering_does_not_add(windows: Seq<WindowView>, pred: spec_fn(WindowView) -> bool)
    ensures
        active_count(windows.filter(pred)) <= active_count(windows),
    decreases windows.len(),
{
    reveal(Seq::filter);
    if windows.len() > 0 {
        filtering_does_not_add(windows.drop_last(), pred);
        let rest = windows.drop_last().filter(pred);
        if pred(windows.last()) {
            assert(rest.push(windows.last()).drop_last() == rest);
        }
    }
}

/// Taking one window out of a list takes it out of the count if it was
/// active.
pub proof fn removing_takes_from_count(windows: Seq<WindowView>, at: int)
    requires
        0 <= at < windows.len(),
    ensures
        active_count(windows.remove(at)) + (if windows[at].activated {
            1nat
        } else {
            0nat
        }) == active_count(windows),
    decreases windows.len(),
{
    if at == windows.len() - 1 {
        assert(windows.remove(at) == windows.drop_last());
    } else {
        removing_takes_from_count(windows.drop_last(), at);
        assert(windows.remove(at).drop_last() == windows.drop_last().remove(at));
        assert(windows.remove(at).last() == windows.last());
    }
}

/// Replacing one window changes the count by what the replacement changes.
pub proof fn updating_changes_count(windows: Seq<WindowView>, at: int, window: WindowView)
    requires
        0 <= at < windows.len(),
    ensures
        active_count(windows.update(at, window)) + (if windows[at].activated {
            1nat
        } else {
            0nat
        }) == active_count(windows) + (if window.activated {
            1nat
        } else {
            0nat
        }),
    decreases windows.len(),
{
    if at == windows.len() - 1 {
        assert(windows.update(at, window).drop_last() == windows.drop_last());
    } else {
        updating_changes_count(windows.drop_last(), at, window);
        assert(windows.update(at, window).drop_last() == windows.drop_last().update(at, window));
    }
}

/// States whose windows are drawn as active in the same places have at most
/// one active window together.
pub proof fn same_activation_same_bound(a: StateView, b: StateView)
    requires
        same_activation(a, b),
    ensures
        at_most_one_active(a) == at_most_one_active(b),
{
    same_flags_same_count(a.windows, b.windows);
    same_flags_same_count(a.new_windows, b.new_windows);
}

/// Whether the state is consistent: at most one window is drawn as active,
/// every window has an identity of its own, and the identities yet to be
/// given are all unused.
pub open spec fn is_consistent(state: StateView) -> bool {
    at_most_one_active(state) && state.ids_are_fresh()
}

/// A state whose windows are one by one the windows of a consistent state is
/// consistent.
pub proof fn same_activation_same_consistency(a: StateView, b: StateView)
    requires
        same_activation(a, b),
    ensures
        at_most_one_active(a) == at_most_one_active(b),
        b.ids_are_fresh() ==> a.ids_are_fresh(),
{
    same_activation_same_bound(a, b);
    if b.ids_are_fresh() {
        let all_a = a.windows + a.new_windows;
        let all_b = b.windows + b.new_windows;
        assert forall|i: int| 0 <= i < all_a.len() implies (#[trigger] all_a[i]).id == all_b[i].id by {
            if i < a.windows.len() {
                assert(a.windows[i].id == b.windows[i].id);
            } else {
                assert(a.new_windows[i - a.windows.len()].id == b.new_windows[i - a.windows.len()].id);
            }
        }
        assert forall|i: int| 0 <= i < all_a.len() implies (#[trigger] all_a[i]).id.0
            < a.next_window_id by {
            assert(all_b[i].id.0 < b.next_window_id);
        }
        assert forall|i: int, j: int| 0 <= i < all_a.len() && 0 <= j < all_a.len() && i != j implies (
        #[trigger] all_a[i]).id != (#[trigger] all_a[j]).id by {
            assert(all_b[i].id != all_b[j].id);
        }
    }
}

/// Whether the windows of `a`, mapped and unmapped, have one by one the
/// identities of the windows of `b`, and the next window will be given the
/// same number.
pub open spec fn same_ids(a: StateView, b: StateView) -> bool {
    &&& a.windows.len() == b.windows.len()
    &&& a.new_windows.len() == b.new_windows.len()
    &&& forall|i: int| 0 <= i < a.windows.len() ==> (#[trigger] a.windows[i]).id == b.windows[i].id
    &&& forall|i: int| 0 <= i < a.new_windows.len() ==> (#[trigger] a.new_windows[i]).id == b.new_windows[i].id
    &&& a.next_window_id == b.next_window_id
}

/// A state whose windows have the identities of the windows of a state with
/// fresh identities has fresh identities.
pub proof fn same_ids_keep_fresh(a: StateView, b: StateView)
    requires
        same_ids(a, b),
        b.ids_are_fresh(),
    ensures
        a.ids_are_fresh(),
{
    let all_a = a.windows + a.new_windows;
    let all_b = b.windows + b.new_windows;
    assert forall|i: int| 0 <= i < all_a.len() implies (#[trigger] all_a[i]).id == all_b[i].id by {
        if i < a.windows.len() {
            assert(a.windows[i].id == b.windows[i].id);
        } else {
            assert(a.new_windows[i - a.windows.len()].id == b.new_windows[i - a.windows.len()].id);
        }
    }
    assert forall|i: int| 0 <= i < all_a.len() implies (#[trigger] all_a[i]).id.0 < a.next_window_id by {
        assert(all_b[i].id.0 < b.next_window_id);
    }
    assert forall|i: int, j: int| 0 <= i < all_a.len() && 0 <= j < all_a.len() && i != j implies (
    #[trigger] all_a[i]).id != (#[trigger] all_a[j]).id by {
        assert(all_b[i].id != all_b[j].id);
    }
}

/// Windows that are left when some are taken out of a list have identities
/// below a bound if those of the list had.
pub proof fn filtering_keeps_ids_bounded(windows: Seq<WindowView>, pred: spec_fn(WindowView) -> bool, bound: u32)
    requires
        forall|i: int| 0 <= i < windows.len() ==> (#[trigger] windows[i]).id.0 < bound,
    ensures
        forall|i: int| 0 <= i < windows.filter(pred).len() ==> (#[trigger] windows.filter(pred)[i]).id.0 < bound,
    decreases windows.len(),
{
    reveal(Seq::filter);
    if windows.len() > 0 {
        let rest = windows.drop_last();
        assert forall|i: int| 0 <= i < rest.len() implies (#[trigger] rest[i]).id.0 < bound by {
            assert(windows[i].id.0 < bound);
        }
        filtering_keeps_ids_bounded(rest, pred, bound);
        assert(windows[windows.len() - 1].id.0 < bound);
    }
}

/// Letting held commits take effect changes no window's being active.
pub proof fn late_commits_keep_activation(state: StateView, held: Seq<WindowId>)
    ensures
        same_activation(state.settled_all(held).state, state),
    decreases held.len(),
{
    if held.len() > 0 {
        late_commits_keep_activation(state, held.drop_last());
        let before = state.settled_all(held.drop_last()).state;
        first_index_is_first(before.windows, |w: WindowView| w.id == held.last());
    }
}

/// Ending the batch, if it has all it waited for, changes no window's being
/// active.
pub proof fn settling_batch_keeps_activation(state: StateView)
    ensures
        same_activation(state.batch_settled().state, state),
{
    late_commits_keep_activation(state.with_batch_ended(), state.batch.held);
}

/// Laying out an output changes no window's being active.
pub proof fn layout_keeps_activation(state: StateView, output: int)
    ensures
        same_activation(state.laid_out(output).state, state),
{
    placing_keeps_state(state, state.arrangement(output));
}

/// Applying window rules changes no window's being active.
pub proof fn rules_keep_activation(
    state: StateView,
    index: int,
    rules: Seq<(WindowRuleCondition, WindowRule)>,
)
    requires
        0 <= index < state.windows.len(),
    ensures
        same_activation(state.rules_applied(index, rules), state),
        state.rules_applied(index, rules).windows.len() == state.windows.len(),
        state.rules_applied(index, rules) == (StateView {
            windows: state.rules_applied(index, rules).windows,
            ..state
        }),
        forall|i: int|
            0 <= i < state.windows.len() && i != index ==> #[trigger] state.rules_applied(
                index,
                rules,
            ).windows[i] == state.windows[i],
    decreases rules.len(),
{
    if rules.len() > 0 {
        rules_keep_activation(state, index, rules.drop_last());
    }
}

/// Laying out outputs, one after the other, changes no window's being
/// active.
pub proof fn relayout_keeps_activation(state: StateView, outputs: Seq<int>)
    ensures
        same_activation(state.relaid_each(outputs).state, state),
    decreases outputs.len(),
{
    if outputs.len() > 0 {
        relayout_keeps_activation(state, outputs.drop_last());
        layout_keeps_activation(state.relaid_each(outputs.drop_last()).state, outputs.last());
    }
}

/// Moving a window from the unmapped windows to the end of the mapped ones
/// keeps the identities fresh.
proof fn mapping_keeps_ids_fresh(state: StateView, index: int, after: StateView)
    requires
        state.ids_are_fresh(),
        0 <= index < state.new_windows.len(),
        after.next_window_id == state.next_window_id,
        after.windows.len() == state.windows.len() + 1,
        after.new_windows.len() == state.new_windows.len() - 1,
        forall|i: int| 0 <= i < state.windows.len() ==> (#[trigger] after.windows[i]).id == state.windows[i].id,
        after.windows[state.windows.len() as int].id == state.new_windows[index].id,
        forall|i: int|
            0 <= i < after.new_windows.len() ==> (#[trigger] after.new_windows[i]).id
                == state.new_windows.remove(index)[i].id,
    ensures
        after.ids_are_fresh(),
{
    let before_all = state.windows + state.new_windows;
    let after_all = after.windows + after.new_windows;
    let mapped = state.windows.len() as int;
    let from = |i: int|
        if i < mapped {
            i
        } else if i == mapped {
            mapped + index
        } else if i - mapped - 1 < index {
            i - 1
        } else {
            i
        };
    assert forall|i: int| 0 <= i < after_all.len() implies (#[trigger] after_all[i]).id == before_all[from(
        i,
    )].id && 0 <= from(i) < before_all.len() by {
        if i < mapped {
            assert(after.windows[i].id == state.windows[i].id);
        } else if i > mapped {
            assert(after.new_windows[i - mapped - 1].id == state.new_windows.remove(index)[i - mapped - 1].id);
        }
    }
    assert forall|i: int| 0 <= i < after_all.len() implies (#[trigger] after_all[i]).id.0
        < after.next_window_id by {
        assert(before_all[from(i)].id.0 < state.next_window_id);
    }
    assert forall|i: int, j: int| 0 <= i < after_all.len() && 0 <= j < after_all.len() && i != j implies (
    #[trigger] after_all[i]).id != (#[trigger] after_all[j]).id by {
        assert(from(i) != from(j));
        assert(before_all[from(i)].id != before_all[from(j)].id);
    }
}

/// Mapping a window keeps the state consistent: the window becomes the one
/// active window and keeps its identity.
pub proof fn mapping_keeps_consistency(state: StateView, index: int, size: Size)
    requires
        is_consistent(state),
        0 <= index < state.new_windows.len(),
    ensures
        is_consistent(state.mapped_new(index, size).state),
{
    let window = state.new_windows[index];
    let focused = state.focused_output();
    let before_rules = state.taken_in(index, size);
    deactivated_count_is_zero(state.new_windows.remove(index));
    deactivated_count_is_zero(state.windows);
    assert(before_rules.windows.drop_last() == deactivated(state.windows));
    assert(at_most_one_active(before_rules));
    mapping_keeps_ids_fresh(state, index, before_rules);
    rules_keep_activation(before_rules, state.windows.len() as int, state.window_rules);
    let placed = before_rules.rules_applied(state.windows.len() as int, state.window_rules);
    same_activation_same_consistency(placed, before_rules);
    match focused {
        Some(output) => {
            layout_keeps_activation(placed, output);
            let laid_out = placed.laid_out(output).state;
            same_activation_same_consistency(laid_out, placed);
            same_activation_same_consistency(laid_out.batch_begun(output).state, laid_out);
        },
        None => {},
    }
}

/// A commit keeps the state consistent.
///
/// A window that is mapped by the commit becomes the one active window and
/// keeps its identity; any other commit changes no window's being active
/// and no identity.
pub proof fn commit_keeps_consistency(state: StateView, id: WindowId, buffer: Option<Size>)
    requires
        is_consistent(state),
    ensures
        is_consistent(state.committed(id, buffer).state),
{
    first_index_is_first(state.new_windows, |w: WindowView| w.id == id);
    first_index_is_first(state.windows, |w: WindowView| w.id == id);
    match window_index(state.new_windows, id) {
        Some(index) => match buffer {
            Some(size) => {
                mapping_keeps_consistency(state, index, size);
            },
            None => {
                same_activation_same_consistency(state.new_initially_configured(index).state, state);
            },
        },
        None => match window_index(state.windows, id) {
            Some(index) => {
                if state.batch.blocked.contains(id) {
                    let held = state.with_commit_held(id);
                    settling_batch_keeps_activation(held);
                    same_activation_same_consistency(held.batch_settled().state, state);
                } else {
                    let settled = if state.windows[index].resize_state is Idle {
                        state.settled(index).self_resized(index, buffer)
                    } else {
                        state.settled(index)
                    };
                    let configured = settled.initially_configured(index).state;
                    assert(same_activation(configured, state));
                    if configured.batch.waiting.contains(id) && !(configured.windows[index].resize_state
                        is Requested) {
                        let rest = StateView {
                            batch: BatchView {
                                waiting: crate::ids::without(configured.batch.waiting, id),
                                ..configured.batch
                            },
                            ..configured
                        };
                        settling_batch_keeps_activation(rest);
                    }
                    same_activation_same_consistency(state.committed_mapped(index, buffer).state, state);
                }
            },
            None => {},
        },
    }
}

/// An acknowledgement keeps the state consistent.
pub proof fn ack_keeps_consistency(state: StateView, id: WindowId, serial: Serial)
    requires
        is_consistent(state),
    ensures
        is_consistent(state.acked(id, serial).state),
{
    first_index_is_first(state.windows, |w: WindowView| w.id == id);
    same_activation_same_consistency(state.acked(id, serial).state, state);
}

/// A new window keeps the state consistent, as long as the numbers have not
/// run out: it is not active, and its identity is one that no window has.
pub proof fn creation_keeps_consistency(state: StateView, surface: WindowSurface)
    requires
        is_consistent(state),
        state.next_window_id < u32::MAX,
    ensures
        is_consistent(state.with_new_toplevel(surface)),
{
    let after = state.with_new_toplevel(surface);
    assert(after.new_windows.drop_last() == state.new_windows);
    let before_all = state.windows + state.new_windows;
    let after_all = after.windows + after.new_windows;
    let created = WindowView::created(WindowId(state.next_window_id), surface);
    assert(after_all =~= before_all.push(created));
    assert forall|i: int| 0 <= i < after_all.len() implies (#[trigger] after_all[i]).id.0
        < after.next_window_id by {
        if i < before_all.len() {
            assert(before_all[i].id.0 < state.next_window_id);
        }
    }
    assert forall|i: int, j: int| 0 <= i < after_all.len() && 0 <= j < after_all.len() && i != j implies (
    #[trigger] after_all[i]).id != (#[trigger] after_all[j]).id by {
        if i < before_all.len() {
            assert(before_all[i].id.0 < state.next_window_id);
        }
        if j < before_all.len() {
            assert(before_all[j].id.0 < state.next_window_id);
        }
    }
}

/// The destruction of a window keeps the state consistent.
pub proof fn destruction_keeps_consistency(state: StateView, id: WindowId)
    requires
        is_consistent(state),
    ensures
        is_consistent(state.destroyed(id).state),
{
    let gone = state.without_window(id);
    filtering_does_not_add(state.windows, |w: WindowView| w.id != id);
    filtering_does_not_add(state.new_windows, |w: WindowView| w.id != id);
    assert(at_most_one_active(gone));
    filtering_keeps_ids_bounded(
        state.windows + state.new_windows,
        |w: WindowView| w.id != id,
        state.next_window_id,
    );
    crate::laws::filtered_ids_are_apart(state.windows + state.new_windows, |w: WindowView| w.id != id);
    Seq::filter_distributes_over_add(state.windows, state.new_windows, |w: WindowView| w.id != id);
    assert(gone.ids_are_fresh());
    settling_batch_keeps_activation(gone);
    let released = gone.batch_settled().state;
    same_activation_same_consistency(released, gone);
    let laid_out = match released.focused_output() {
        Some(output) => released.laid_out(output).state,
        None => released,
    };
    if released.focused_output() is Some {
        layout_keeps_activation(released, released.focused_output()->0);
    }
    same_activation_same_consistency(laid_out, released);
    same_activation_same_consistency(state.destroyed(id).state, laid_out);
}

/// Setting, taking or flipping the focus keeps the state consistent: at
/// most one window is active afterwards, whichever was active before.
pub proof fn focus_keeps_consistency(state: StateView, id: WindowId, set_or_toggle: SetOrToggle)
    requires
        is_consistent(state),
    ensures
        is_consistent(state.focus_set(id, set_or_toggle).state),
{
    first_index_is_first(state.windows, |w: WindowView| w.id == id);
    match window_index(state.windows, id) {
        Some(window) => {
            if !state.windows[window].is_x11_override_redirect() {
                first_index_is_first(
                    state.outputs,
                    |o: OutputView| o.has_tag(state.windows[window].tags[0]),
                );
                match state.output_of_window(window) {
                    Some(output) => {
                        deactivated_count_is_zero(state.windows);
                        deactivated_count_is_zero(state.new_windows);
                        // Given.
                        let active = WindowView { activated: true, ..state.windows[window] };
                        updating_changes_count(deactivated(state.windows), window, active);
                        let given = state.with_focus_given(window, output);
                        same_ids_keep_fresh(given, state);
                        let focused = given.keyboard_focused(
                            Some(crate::effect::KeyboardFocusTarget::Window(id)),
                        ).state;
                        configuring_keeps_state(focused, focused.space.windows());
                        same_activation_same_consistency(state.focused_on(window, output).state, given);
                        // Taken.
                        let taken = state.with_focus_taken(output);
                        same_ids_keep_fresh(taken, state);
                        let unfocused = taken.keyboard_focused(None).state;
                        configuring_keeps_state(unfocused, unfocused.space.windows());
                        same_activation_same_consistency(state.unfocused_on(output).state, taken);
                    },
                    None => {},
                }
            }
        },
        None => {},
    }
}

/// Setting a window's geometry keeps the state consistent.
pub proof fn geometry_keeps_consistency(state: StateView, id: WindowId, geometry: crate::window::Geometry)
    requires
        is_consistent(state),
    ensures
        is_consistent(state.geometry_set(id, geometry).state),
{
    first_index_is_first(state.windows, |w: WindowView| w.id == id);
    match window_index(state.windows, id) {
        Some(window) => {
            let changed = state.with_window(
                window,
                state.windows[window].with_rect(geometry.spec_merged_into(state.geometry_of(id))),
            );
            relayout_keeps_activation(changed, state.outputs_showing(id));
            same_activation_same_consistency(state.geometry_set(id, geometry).state, state);
        },
        None => {},
    }
}

/// Setting, unsetting or flipping fullscreen keeps the state consistent.
pub proof fn fullscreen_keeps_consistency(state: StateView, id: WindowId, set_or_toggle: SetOrToggle)
    requires
        is_consistent(state),
    ensures
        is_consistent(state.fullscreen_set(id, set_or_toggle).state),
{
    first_index_is_first(state.windows, |w: WindowView| w.id == id);
    match window_index(state.windows, id) {
        Some(window) => {
            let w = state.windows[window];
            let changed = state.with_window(
                window,
                if set_or_toggle.spec_changes(w.fullscreen_or_maximized.spec_is_fullscreen()) {
                    w.toggled_fullscreen()
                } else {
                    w
                },
            );
            layout_after_change_keeps_activation(changed, window);
            same_activation_same_consistency(state.fullscreen_set(id, set_or_toggle).state, state);
        },
        None => {},
    }
}

/// Setting, unsetting or flipping the maximized state keeps the state
/// consistent.
pub proof fn maximized_keeps_consistency(state: StateView, id: WindowId, set_or_toggle: SetOrToggle)
    requires
        is_consistent(state),
    ensures
        is_consistent(state.maximized_set(id, set_or_toggle).state),
{
    first_index_is_first(state.windows, |w: WindowView| w.id == id);
    match window_index(state.windows, id) {
        Some(window) => {
            let w = state.windows[window];
            let changed = state.with_window(
                window,
                if set_or_toggle.spec_changes(w.fullscreen_or_maximized.spec_is_maximized()) {
                    w.toggled_maximized()
                } else {
                    w
                },
            );
            layout_after_change_keeps_activation(changed, window);
            same_activation_same_consistency(state.maximized_set(id, set_or_toggle).state, state);
        },
        None => {},
    }
}

/// Setting, unsetting or flipping floating keeps the state consistent.
pub proof fn floating_keeps_consistency(state: StateView, id: WindowId, set_or_toggle: SetOrToggle)
    requires
        is_consistent(state),
    ensures
        is_consistent(state.floating_set(id, set_or_toggle).state),
{
    first_index_is_first(state.windows, |w: WindowView| w.id == id);
    match window_index(state.windows, id) {
        Some(window) => {
            let w = state.windows[window];
            let changed = state.with_window(
                window,
                if set_or_toggle.spec_changes(w.floating_or_tiled.spec_is_floating()) {
                    w.toggled_floating(state.geometry_of(id))
                } else {
                    w
                },
            );
            layout_after_change_keeps_activation(changed, window);
            same_activation_same_consistency(state.floating_set(id, set_or_toggle).state, state);
        },
        None => {},
    }
}

/// Moving a window to a tag keeps the state consistent.
pub proof fn move_to_tag_keeps_consistency(state: StateView, id: WindowId, tag: crate::ids::TagId)
    requires
        is_consistent(state),
    ensures
        is_consistent(state.moved_to_tag(id, tag).state),
{
    first_index_is_first(state.windows, |w: WindowView| w.id == id);
    match (window_index(state.windows, id), tag_output_index(state.outputs, tag)) {
        (Some(window), Some(output)) => {
            let changed = state.with_window(window, WindowView { tags: seq![tag], ..state.windows[window] });
            layout_keeps_activation(changed, output);
            same_activation_same_consistency(state.moved_to_tag(id, tag).state, state);
        },
        _ => {},
    }
}

/// Changing a window's tags keeps the state consistent.
pub proof fn tag_keeps_consistency(
    state: StateView,
    id: WindowId,
    tag: crate::ids::TagId,
    set_or_toggle: SetOrToggle,
)
    requires
        is_consistent(state),
    ensures
        is_consistent(state.tag_set(id, tag, set_or_toggle).state),
{
    first_index_is_first(state.windows, |w: WindowView| w.id == id);
    match (window_index(state.windows, id), tag_output_index(state.outputs, tag)) {
        (Some(window), Some(output)) => {
            let changed = state.with_window(
                window,
                WindowView {
                    tags: crate::control::tags_after(state.windows[window].tags, tag, set_or_toggle),
                    ..state.windows[window]
                },
            );
            layout_keeps_activation(changed, output);
            same_activation_same_consistency(state.tag_set(id, tag, set_or_toggle).state, state);
        },
        _ => {},
    }
}

/// Showing, hiding or flipping a tag keeps the state consistent.
pub proof fn tag_active_keeps_consistency(state: StateView, tag: crate::ids::TagId, set_or_toggle: SetOrToggle)
    requires
        is_consistent(state),
    ensures
        is_consistent(state.tag_active_set(tag, set_or_toggle).state),
{
    match tag_output_index(state.outputs, tag) {
        Some(output) => {
            let changed = state.with_output(
                output,
                OutputView {
                    tags: crate::control::tags_with_active(state.outputs[output].tags, tag, set_or_toggle),
                    ..state.outputs[output]
                },
            );
            layout_keeps_activation(changed, output);
            same_activation_same_consistency(state.tag_active_set(tag, set_or_toggle).state, state);
        },
        None => {},
    }
}

/// Whatever the control surface asks for keeps the state consistent.
pub proof fn control_keeps_consistency(state: StateView, f: StateFn)
    requires
        is_consistent(state),
    ensures
        is_consistent(state.ran(f).state),
{
    match f {
        StateFn::SetFocused { window_id, set_or_toggle } => {
            focus_keeps_consistency(state, window_id, set_or_toggle);
        },
        StateFn::SetGeometry { window_id, geometry } => {
            geometry_keeps_consistency(state, window_id, geometry);
        },
        StateFn::SetFullscreen { window_id, set_or_toggle } => {
            fullscreen_keeps_consistency(state, window_id, set_or_toggle);
        },
        StateFn::SetMaximized { window_id, set_or_toggle } => {
            maximized_keeps_consistency(state, window_id, set_or_toggle);
        },
        StateFn::SetFloating { window_id, set_or_toggle } => {
            floating_keeps_consistency(state, window_id, set_or_toggle);
        },
        StateFn::MoveToTag { window_id, tag_id } => {
            move_to_tag_keeps_consistency(state, window_id, tag_id);
        },
        StateFn::SetTag { window_id, tag_id, set_or_toggle } => {
            tag_keeps_consistency(state, window_id, tag_id, set_or_toggle);
        },
        StateFn::Close { .. } => {},
        StateFn::Raise { window_id } => {
            same_activation_same_consistency(state.raised(window_id), state);
        },
        StateFn::MoveGrab { button } => {
            same_activation_same_consistency(state.with_move_grab(button), state);
        },
        StateFn::ResizeGrab { button } => {
            same_activation_same_consistency(state.with_resize_grab(button), state);
        },
        StateFn::Get => {},
        StateFn::GetProperties { .. } => {},
        StateFn::AddWindowRule { .. } => {},
    }
}

/// Laying out the output of a window changes no window's being active.
proof fn layout_after_change_keeps_activation(state: StateView, window: int)
    ensures
        same_activation(state.relaid_for(window).state, state),
{
    match state.output_of_window(window) {
        Some(output) => {
            layout_keeps_activation(state, output);
        },
        None => {},
    }
}

/// The pointer's motion keeps the state consistent.
pub proof fn motion_keeps_consistency(state: StateView, location: Point)
    requires
        is_consistent(state),
    ensures
        is_consistent(state.pointer_moved(location).state),
{
    match state.grab {
        Some(grab) => {
            first_index_is_first(state.windows, |w: WindowView| w.id == grab.window);
        },
        None => {},
    }
    same_activation_same_consistency(state.pointer_moved(location).state, state);
}

/// What was put off keeps the state consistent when it is run.
pub proof fn pending_keeps_consistency(state: StateView)
    requires
        is_consistent(state),
    ensures
        is_consistent(state.with_pending_run().state),
{
    if state.pending.len() > 0 {
        let rest = StateView { pending: state.pending.drop_first(), ..state };
        match state.pending[0] {
            crate::effect::PendingAction::RequestLayout(id) => {
                match output_index(rest.outputs, id) {
                    Some(output) => {
                        layout_keeps_activation(rest, output);
                    },
                    None => {},
                }
                assert(same_activation(rest.layout_requested(id).state, rest));
            },
            _ => {},
        }
        same_activation_same_consistency(state.with_pending_run().state, state);
    }
}

/// A request for a layout keeps the state consistent.
pub proof fn layout_request_keeps_consistency(state: StateView, id: crate::ids::OutputId)
    requires
        is_consistent(state),
    ensures
        is_consistent(state.layout_requested(id).state),
{
    match output_index(state.outputs, id) {
        Some(index) => {
            layout_keeps_activation(state, index);
        },
        None => {},
    }
    same_activation_same_consistency(state.layout_requested(id).state, state);
}

/// A request for a geometry keeps the state consistent.
pub proof fn resize_request_keeps_consistency(state: StateView, id: WindowId, rect: Rect)
    requires
        is_consistent(state),
    ensures
        is_consistent(state.resize_requested(id, rect).state),
{
    first_index_is_first(state.windows, |w: WindowView| w.id == id);
    same_activation_same_consistency(state.resize_requested(id, rect).state, state);
}

/// When the compositor starts, its state is consistent.
pub proof fn initially_consistent(has_keyboard: bool, has_pointer: bool)
    ensures
        is_consistent(StateView::initial(has_keyboard, has_pointer)),
{
    let state = StateView::initial(has_keyboard, has_pointer);
    assert(state.windows + state.new_windows =~= Seq::<WindowView>::empty());
}

} // verus!
