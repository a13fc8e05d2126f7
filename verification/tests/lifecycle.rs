use pinnacle::effect::{Effect, Fault, KeyboardFocusTarget, PendingAction};
use pinnacle::geometry::{Point, Rect, Size};
use pinnacle::grab::{Grab, GrabKind};
use pinnacle::ids::{OutputId, TagId, WindowId};
use pinnacle::layout::Layout;
use pinnacle::output::Tag;
use pinnacle::serial::Serial;
use pinnacle::state::State;
use pinnacle::window::{FloatingOrTiled, WindowResizeState, WindowSurface};

fn rect(x: i32, y: i32, w: i32, h: i32) -> Rect {
    Rect { loc: Point { x, y }, size: Size { w, h } }
}

fn one_output() -> State {
    let mut state = State::new(true, true);
    state.add_output(
        OutputId(1),
        "eDP-1".to_string(),
        rect(0, 0, 1920, 1080),
        vec![Tag { id: TagId(1), active: true, layout: Layout::MasterStack }],
    );
    state
}

const BUFFER: Option<Size> = Some(Size { w: 800, h: 600 });

/// Commits a buffer of the size that the window has, or was asked to take.
fn commit_current(state: &mut State, id: WindowId) -> Vec<Effect> {
    let asked = state.windows.iter().find(|w| w.id == id).and_then(|w| w.resize_state.target());
    let size = match asked {
        Some(rect) => Some(rect.size),
        None => state.space.element_geometry(id).map(|g| g.size),
    };
    state.commit(id, size)
}

/// Creates a window and has it commit its first buffer.
fn map(state: &mut State) -> (WindowId, Vec<Effect>) {
    let id = state.new_toplevel(WindowSurface::Wayland);
    state.commit(id, None);
    let effects = state.commit(id, BUFFER);
    (id, effects)
}

/// Acknowledges whatever the window was last asked for.
fn ack(state: &mut State, id: WindowId) {
    let window = state.windows.iter().find(|w| w.id == id).unwrap();
    if let WindowResizeState::Requested(serial, _) = window.resize_state {
        state.ack_configure(id, serial);
    }
}

/// Acknowledges and commits for every window until nothing is pending.
fn settle_all(state: &mut State) {
    let ids: Vec<WindowId> = state.windows.iter().map(|w| w.id).collect();
    for id in ids.iter() {
        ack(state, *id);
    }
    for id in ids.iter() {
        commit_current(state, *id);
    }
}

fn geometry(state: &State, id: WindowId) -> Rect {
    state.space.element_geometry(id).unwrap()
}

/// A master and two stacked windows, all settled.
fn three_settled() -> (State, WindowId, WindowId, WindowId) {
    let mut state = one_output();
    let (m, _) = map(&mut state);
    settle_all(&mut state);
    let (a, _) = map(&mut state);
    settle_all(&mut state);
    let (b, _) = map(&mut state);
    settle_all(&mut state);
    assert_eq!(geometry(&state, m), rect(0, 0, 960, 1080));
    assert_eq!(geometry(&state, a), rect(960, 0, 960, 540));
    assert_eq!(geometry(&state, b), rect(960, 540, 960, 540));
    assert!(state.batch.waiting.is_empty());
    assert!(state.batch.blocked.is_empty());
    assert!(state.batch.held.is_empty());
    (state, m, a, b)
}

#[test]
fn a_fresh_state_is_empty() {
    let state = State::new(true, false);
    assert!(state.windows.is_empty());
    assert!(state.new_windows.is_empty());
    assert!(state.outputs.is_empty());
    assert!(state.space.elements.is_empty());
    assert!(state.has_keyboard);
    assert_eq!(state.pointer, None);
    assert_eq!(state.keyboard_focus, None);
    assert_eq!(state.grab, None);
    assert_eq!(state.focused_output(), None);
    assert_eq!(State::new(false, true).pointer, Some(Point { x: 0, y: 0 }));
}

#[test]
fn the_first_output_takes_the_focus() {
    let mut state = State::new(true, true);
    state.add_output(OutputId(4), "a".to_string(), rect(0, 0, 10, 10), vec![]);
    state.add_output(OutputId(5), "b".to_string(), rect(10, 0, 10, 10), vec![]);
    assert_eq!(state.output_focus_stack.current_focus(), Some(OutputId(4)));
    assert_eq!(state.focused_output(), Some(0));
    assert_eq!(state.outputs[1].name, "b");
}

#[test]
fn windows_are_numbered_in_the_order_they_are_created() {
    let mut state = one_output();
    assert_eq!(state.new_toplevel(WindowSurface::Wayland), WindowId(0));
    assert_eq!(state.new_toplevel(WindowSurface::X11 { override_redirect: false }), WindowId(1));
    assert_eq!(state.new_toplevel(WindowSurface::Wayland), WindowId(2));
    assert_eq!(state.new_windows.len(), 3);
    assert!(state.windows.is_empty());
    assert_eq!(state.next_window_id, 3);
}

#[test]
fn first_commit_without_buffer_sends_the_initial_configure_once() {
    let mut state = one_output();
    let a = state.new_toplevel(WindowSurface::Wayland);
    assert_eq!(
        state.commit(a, None),
        vec![Effect::Configure { window: a, serial: Serial(1), size: None }]
    );
    assert_eq!(state.commit(a, None), vec![]);
    assert!(state.windows.is_empty());
    assert_eq!(state.new_windows.len(), 1);
    assert!(state.new_windows[0].initial_configure_sent);
}

#[test]
fn a_compatibility_window_gets_no_initial_configure() {
    let mut state = one_output();
    let a = state.new_toplevel(WindowSurface::X11 { override_redirect: false });
    assert_eq!(state.commit(a, None), vec![]);
    assert!(!state.new_windows[0].initial_configure_sent);
}

#[test]
fn a_commit_of_an_unknown_window_does_nothing() {
    let mut state = one_output();
    assert_eq!(state.commit(WindowId(9), BUFFER), vec![]);
    assert_eq!(state.ack_configure(WindowId(9), Serial(1)), vec![]);
    assert!(state.windows.is_empty());
}

#[test]
fn first_buffer_maps_the_window_at_the_staging_location() {
    let mut state = one_output();
    let a = state.new_toplevel(WindowSurface::Wayland);
    state.commit(a, None);
    let effects = state.commit(a, BUFFER);
    assert_eq!(
        effects,
        vec![
            Effect::Configure { window: a, serial: Serial(2), size: Some(Size { w: 1920, h: 1080 }) },
            Effect::SendFrame { window: a, output: OutputId(1) },
        ]
    );
    assert!(state.new_windows.is_empty());
    assert_eq!(state.windows.len(), 1);
    assert_eq!(state.windows[0].tags, vec![TagId(1)]);
    assert!(state.windows[0].activated);
    assert_eq!(state.space.element_geometry(a), Some(rect(1000000, 0, 800, 600)));
    assert_eq!(
        state.windows[0].resize_state,
        WindowResizeState::Requested(Serial(2), rect(0, 0, 1920, 1080))
    );
    assert_eq!(state.pending, vec![PendingAction::FocusWindow(a)]);
    assert_eq!(state.outputs[0].focus_stack.current_focus(), Some(a));
}

#[test]
fn without_an_output_a_window_is_mapped_but_not_laid_out() {
    let mut state = State::new(true, true);
    let a = state.new_toplevel(WindowSurface::Wayland);
    assert_eq!(state.commit(a, BUFFER), vec![]);
    assert_eq!(state.windows.len(), 1);
    assert!(state.windows[0].tags.is_empty());
    assert_eq!(state.windows[0].resize_state, WindowResizeState::Idle);
    assert_eq!(state.space.element_geometry(a), Some(rect(1000000, 0, 800, 600)));
    assert_eq!(state.pending, vec![PendingAction::FocusWindow(a)]);
}

#[test]
fn the_staging_location_is_beyond_every_output() {
    let mut state = State::new(true, true);
    state.add_output(OutputId(1), "near".to_string(), rect(0, 0, 1920, 1080), vec![]);
    assert_eq!(state.staging(), Point { x: 1000000, y: 0 });
    state.add_output(OutputId(2), "far".to_string(), rect(2000000, 0, 1000, 1000), vec![]);
    assert_eq!(state.staging(), Point { x: 2001000, y: 0 });
    state.add_output(OutputId(3), "end".to_string(), rect(i32::MAX - 10, 0, 1000, 1000), vec![]);
    assert_eq!(state.staging(), Point { x: i32::MAX, y: 0 });
    let a = state.new_toplevel(WindowSurface::Wayland);
    state.commit(a, BUFFER);
    assert_eq!(state.space.element_geometry(a), Some(rect(i32::MAX, 0, 800, 600)));
    assert_eq!(state.outputs_showing(a), Vec::<usize>::new());
    assert_eq!(State::new(true, true).staging(), Point { x: 1000000, y: 0 });
}

#[test]
fn geometry_takes_effect_only_after_ack_and_commit() {
    let mut state = one_output();
    let a = state.new_toplevel(WindowSurface::Wayland);
    state.commit(a, None);
    state.commit(a, BUFFER);
    let staged = rect(1000000, 0, 800, 600);

    // A commit while the request is not acknowledged moves nothing.
    state.commit(a, BUFFER);
    assert_eq!(state.space.element_geometry(a), Some(staged));
    assert_eq!(
        state.windows[0].resize_state,
        WindowResizeState::Requested(Serial(2), rect(0, 0, 1920, 1080))
    );

    // An acknowledgement of an older configure settles nothing.
    assert_eq!(state.ack_configure(a, Serial(1)), vec![]);
    state.commit(a, BUFFER);
    assert_eq!(state.space.element_geometry(a), Some(staged));

    // The acknowledgement alone moves nothing either.
    assert_eq!(
        state.ack_configure(a, Serial(2)),
        vec![Effect::SendFrame { window: a, output: OutputId(1) }]
    );
    assert_eq!(state.windows[0].resize_state, WindowResizeState::Acknowledged(rect(0, 0, 1920, 1080)));
    assert_eq!(state.space.element_geometry(a), Some(staged));

    // A second acknowledgement changes nothing.
    assert_eq!(state.ack_configure(a, Serial(2)), vec![]);

    let effects = state.commit(a, BUFFER);
    assert_eq!(state.space.element_geometry(a), Some(rect(0, 0, 1920, 1080)));
    assert_eq!(state.windows[0].resize_state, WindowResizeState::Idle);
    assert_eq!(
        effects,
        vec![
            Effect::ScheduleRender { output: OutputId(1) },
            Effect::ScheduleRender { output: OutputId(1) },
        ]
    );
}

#[test]
fn a_newer_acknowledgement_settles_an_older_request() {
    let mut state = one_output();
    let (a, _) = map(&mut state);
    state.ack_configure(a, Serial(7));
    assert_eq!(state.windows[0].resize_state, WindowResizeState::Acknowledged(rect(0, 0, 1920, 1080)));
}

#[test]
fn a_newer_request_supersedes_an_older_one() {
    let mut state = one_output();
    let (a, _) = map(&mut state);
    // The window is still asked to fill the output when it is asked to float.
    let effects = state.request_resize(a, rect(5, 5, 50, 50));
    assert_eq!(effects, vec![Effect::Configure { window: a, serial: Serial(3), size: Some(Size { w: 50, h: 50 }) }]);
    assert_eq!(state.request_resize(WindowId(9), rect(5, 5, 50, 50)), vec![]);
    // The acknowledgement of the first request does not settle the second.
    assert_eq!(state.ack_configure(a, Serial(2)), vec![]);
    state.commit(a, BUFFER);
    assert_eq!(geometry(&state, a), rect(1000000, 0, 800, 600));
    state.ack_configure(a, Serial(3));
    state.commit(a, BUFFER);
    assert_eq!(geometry(&state, a), rect(5, 5, 50, 50));
}

#[test]
fn a_compatibility_window_counts_as_having_acknowledged() {
    let mut state = one_output();
    let a = state.new_toplevel(WindowSurface::X11 { override_redirect: false });
    let effects = state.commit(a, BUFFER);
    assert_eq!(
        effects,
        vec![
            Effect::ConfigureX11 { window: a, rect: rect(0, 0, 1920, 1080) },
            Effect::SendFrame { window: a, output: OutputId(1) },
        ]
    );
    assert_eq!(state.windows[0].resize_state, WindowResizeState::Acknowledged(rect(0, 0, 1920, 1080)));
    assert_eq!(geometry(&state, a), rect(1000000, 0, 800, 600));
    state.commit(a, BUFFER);
    assert_eq!(geometry(&state, a), rect(0, 0, 1920, 1080));
    // No serial was spent on it.
    assert_eq!(state.serials.next, 1);
}

#[test]
fn a_pending_location_takes_effect_with_the_next_commit() {
    let mut state = one_output();
    let (a, _) = map(&mut state);
    settle_all(&mut state);
    state.windows[0].target_loc = Some(Point { x: 40, y: 50 });
    commit_current(&mut state, a);
    assert_eq!(geometry(&state, a), rect(40, 50, 1920, 1080));
    assert_eq!(state.windows[0].target_loc, None);
}

#[test]
fn a_pending_location_waits_while_a_request_is_open() {
    let mut state = one_output();
    let (a, _) = map(&mut state);
    state.windows[0].target_loc = Some(Point { x: 40, y: 50 });
    // Requested: the window stays where it is.
    commit_current(&mut state, a);
    assert_eq!(geometry(&state, a), rect(1000000, 0, 800, 600));
    assert_eq!(state.windows[0].target_loc, Some(Point { x: 40, y: 50 }));
    // Acknowledged: the geometry that was agreed on wins over the location.
    ack(&mut state, a);
    commit_current(&mut state, a);
    assert_eq!(geometry(&state, a), rect(0, 0, 1920, 1080));
    assert_eq!(state.windows[0].target_loc, None);
}

#[test]
fn a_window_that_resizes_itself_keeps_its_top_left_corner() {
    let mut state = one_output();
    let (a, _) = map(&mut state);
    settle_all(&mut state);
    assert_eq!(geometry(&state, a), rect(0, 0, 1920, 1080));
    let effects = state.commit(a, Some(Size { w: 1900, h: 1000 }));
    assert_eq!(geometry(&state, a), rect(0, 0, 1900, 1000));
    assert_eq!(state.windows[0].resize_state, WindowResizeState::Idle);
    assert_eq!(
        effects,
        vec![
            Effect::ScheduleRender { output: OutputId(1) },
            Effect::ScheduleRender { output: OutputId(1) },
        ]
    );
    // The same size again, or no word of a size, changes nothing.
    state.commit(a, Some(Size { w: 1900, h: 1000 }));
    state.commit(a, None);
    assert_eq!(geometry(&state, a), rect(0, 0, 1900, 1000));
}

#[test]
fn a_window_held_by_its_top_left_corner_keeps_its_bottom_right_corner() {
    let mut state = one_output();
    let (a, _) = map(&mut state);
    settle_all(&mut state);
    state.space.map_element(a, rect(100, 100, 400, 300));
    state.pointer_motion(Point { x: 110, y: 110 });
    state.resize_grab(0x110);
    assert!(matches!(
        state.grab.map(|g| g.kind),
        Some(GrabKind::Resize { edges: pinnacle::grab::ResizeEdge::TopLeft, .. })
    ));
    state.commit(a, Some(Size { w: 350, h: 320 }));
    assert_eq!(geometry(&state, a), rect(150, 80, 350, 320));
    // Held by the other corner, it keeps its top-left corner.
    state.button_released(0x110);
    state.pointer_motion(Point { x: 490, y: 390 });
    state.resize_grab(0x110);
    state.commit(a, Some(Size { w: 10, h: 20 }));
    assert_eq!(geometry(&state, a), rect(150, 80, 10, 20));
}

#[test]
fn a_window_in_negotiation_does_not_resize_itself() {
    let mut state = one_output();
    let (a, _) = map(&mut state);
    // Requested: the buffer's size is of no account.
    state.commit(a, Some(Size { w: 5, h: 5 }));
    assert_eq!(geometry(&state, a), rect(1000000, 0, 800, 600));
    // Acknowledged: the geometry that was agreed on takes effect.
    ack(&mut state, a);
    state.commit(a, Some(Size { w: 5, h: 5 }));
    assert_eq!(geometry(&state, a), rect(0, 0, 1920, 1080));
}

#[test]
fn laying_out_again_asks_for_nothing() {
    let mut state = one_output();
    map(&mut state);
    map(&mut state);
    // Both windows are on their way to their places.
    assert_eq!(state.request_layout(OutputId(1)), vec![]);
    settle_all(&mut state);
    // Both windows are in their places.
    assert_eq!(state.request_layout(OutputId(1)), vec![]);
    // An output that is gone is not laid out.
    assert_eq!(state.request_layout(OutputId(9)), vec![]);
}

#[test]
fn deferred_focus_goes_to_the_new_window() {
    let mut state = one_output();
    let a = state.new_toplevel(WindowSurface::Wayland);
    state.commit(a, BUFFER);
    assert_eq!(
        state.run_pending(),
        Some(Ok(vec![Effect::SetKeyboardFocus {
            target: Some(KeyboardFocusTarget::Window(a)),
            serial: Serial(2),
        }]))
    );
    assert_eq!(state.keyboard_focus, Some(KeyboardFocusTarget::Window(a)));
    assert_eq!(state.run_pending(), None);
}

#[test]
fn without_a_keyboard_the_deferred_focus_ends_in_a_fault() {
    let mut state = State::new(false, true);
    state.add_output(
        OutputId(1),
        "eDP-1".to_string(),
        rect(0, 0, 1920, 1080),
        vec![Tag { id: TagId(1), active: true, layout: Layout::MasterStack }],
    );
    let (a, _) = map(&mut state);
    let serials = state.serials;
    assert_eq!(state.run_pending(), Some(Err(Fault::NoKeyboard)));
    assert_eq!(state.keyboard_focus, None);
    assert_eq!(state.serials, serials);
    assert!(state.pending.is_empty());
    assert_eq!(state.windows[0].id, a);
    assert_eq!(state.run_pending(), None);
}

#[test]
fn a_deferred_layout_lays_out_the_output() {
    let mut state = one_output();
    let (a, _) = map(&mut state);
    settle_all(&mut state);
    state.pending.clear();
    state.windows[0].floating_or_tiled = FloatingOrTiled::Floating(rect(1, 2, 30, 40));
    state.pending.push(PendingAction::RequestLayout(OutputId(1)));
    state.pending.push(PendingAction::RequestLayout(OutputId(8)));
    assert_eq!(
        state.run_pending(),
        Some(Ok(vec![Effect::Configure { window: a, serial: Serial(3), size: Some(Size { w: 30, h: 40 }) }]))
    );
    assert_eq!(state.run_pending(), Some(Ok(vec![])));
    assert_eq!(state.run_pending(), None);
}

#[test]
fn mapping_a_second_window_blocks_the_first() {
    let mut state = one_output();
    let (a, _) = map(&mut state);
    settle_all(&mut state);
    let b = state.new_toplevel(WindowSurface::Wayland);
    assert_eq!(state.commit(b, None), vec![Effect::Configure { window: b, serial: Serial(3), size: None }]);
    let effects = state.commit(b, BUFFER);
    assert_eq!(
        effects,
        vec![
            Effect::Configure { window: a, serial: Serial(4), size: Some(Size { w: 960, h: 1080 }) },
            Effect::Configure { window: b, serial: Serial(5), size: Some(Size { w: 960, h: 1080 }) },
            Effect::SendFrame { window: b, output: OutputId(1) },
            Effect::Block { window: a },
        ]
    );
    assert_eq!(state.batch.waiting, vec![b]);
    assert_eq!(state.batch.blocked, vec![a]);
    assert!(state.batch.held.is_empty());
    assert!(!state.windows[0].activated);
    assert!(state.windows[1].activated);
}

#[test]
fn siblings_reflow_at_once_when_the_new_window_commits_last() {
    let (mut state, m, a, b) = three_settled();
    let (c, effects) = map(&mut state);
    assert!(effects.contains(&Effect::Block { window: a }));
    assert!(effects.contains(&Effect::Block { window: b }));
    assert!(!effects.contains(&Effect::Block { window: m }));
    assert!(!effects.contains(&Effect::Block { window: c }));
    assert_eq!(state.batch.waiting, vec![c]);
    assert_eq!(state.batch.blocked, vec![a, b]);

    // A and B acknowledge and commit: nothing is seen of it yet.
    ack(&mut state, a);
    assert_eq!(state.commit(a, BUFFER), vec![]);
    ack(&mut state, b);
    assert_eq!(state.commit(b, BUFFER), vec![]);
    assert_eq!(geometry(&state, a), rect(960, 0, 960, 540));
    assert_eq!(geometry(&state, b), rect(960, 540, 960, 540));
    assert_eq!(geometry(&state, c), rect(1000000, 0, 800, 600));
    assert_eq!(state.batch.held, vec![a, b]);

    // C commits before it has acknowledged: the batch goes on waiting.
    assert!(!state.commit(c, BUFFER).contains(&Effect::Unblock { window: a }));
    assert_eq!(state.batch.waiting, vec![c]);
    assert_eq!(geometry(&state, a), rect(960, 0, 960, 540));

    // C acknowledges and commits: all three are in their new places.
    ack(&mut state, c);
    assert_eq!(geometry(&state, a), rect(960, 0, 960, 540));
    let effects = state.commit(c, BUFFER);
    assert_eq!(effects[0], Effect::Unblock { window: a });
    assert_eq!(effects[1], Effect::Unblock { window: b });
    assert_eq!(geometry(&state, m), rect(0, 0, 960, 1080));
    assert_eq!(geometry(&state, a), rect(960, 0, 960, 360));
    assert_eq!(geometry(&state, b), rect(960, 360, 960, 360));
    assert_eq!(geometry(&state, c), rect(960, 720, 960, 360));
    assert!(state.batch.waiting.is_empty());
    assert!(state.batch.blocked.is_empty());
    assert!(state.batch.held.is_empty());
}

#[test]
fn siblings_reflow_at_once_when_the_new_window_commits_first() {
    let (mut state, _, a, b) = three_settled();
    let (c, _) = map(&mut state);
    ack(&mut state, c);
    let effects = state.commit(c, BUFFER);
    assert!(!effects.contains(&Effect::Unblock { window: a }));
    assert!(state.batch.waiting.is_empty());
    assert_eq!(state.batch.blocked, vec![a, b]);
    assert_eq!(geometry(&state, c), rect(960, 720, 960, 360));

    ack(&mut state, a);
    assert_eq!(state.commit(a, BUFFER), vec![]);
    assert_eq!(geometry(&state, a), rect(960, 0, 960, 540));

    ack(&mut state, b);
    let effects = state.commit(b, BUFFER);
    assert_eq!(
        effects,
        vec![
            Effect::Unblock { window: a },
            Effect::Unblock { window: b },
            Effect::ScheduleRender { output: OutputId(1) },
            Effect::ScheduleRender { output: OutputId(1) },
            Effect::ScheduleRender { output: OutputId(1) },
            Effect::ScheduleRender { output: OutputId(1) },
        ]
    );
    assert_eq!(geometry(&state, a), rect(960, 0, 960, 360));
    assert_eq!(geometry(&state, b), rect(960, 360, 960, 360));
    assert!(state.batch.blocked.is_empty());
}

#[test]
fn a_blocked_window_under_a_move_grab_waits_for_the_batch() {
    let (mut state, _, a, b) = three_settled();
    let (c, _) = map(&mut state);
    ack(&mut state, a);
    state.pointer_motion(Point { x: 1000, y: 100 });
    state.move_request(a);
    assert_eq!(state.pointer_motion(Point { x: 1010, y: 120 }), vec![]);
    assert_eq!(geometry(&state, a), rect(960, 0, 960, 540));
    let window = state.windows.iter().find(|w| w.id == a).unwrap();
    assert_eq!(window.target_loc, Some(Point { x: 970, y: 20 }));
    assert_eq!(state.batch.blocked, vec![a, b]);

    // The batch ends: the window takes the place it acknowledged.
    state.button_released(0x110);
    assert_eq!(state.commit(a, BUFFER), vec![]);
    ack(&mut state, b);
    state.commit(b, BUFFER);
    ack(&mut state, c);
    state.commit(c, BUFFER);
    assert!(state.batch.blocked.is_empty());
    assert_eq!(geometry(&state, a), rect(960, 0, 960, 360));
    let window = state.windows.iter().find(|w| w.id == a).unwrap();
    assert_eq!(window.target_loc, None);
}

#[test]
fn a_held_commit_of_a_window_that_has_not_acknowledged_moves_nothing_at_the_release() {
    let (mut state, _, a, b) = three_settled();
    let (c, _) = map(&mut state);
    // A commits without acknowledging, B acknowledges and commits.
    assert_eq!(state.commit(a, BUFFER), vec![]);
    ack(&mut state, b);
    assert_eq!(state.commit(b, BUFFER), vec![]);
    ack(&mut state, c);
    state.commit(c, BUFFER);
    assert!(state.batch.blocked.is_empty());
    assert_eq!(geometry(&state, a), rect(960, 0, 960, 540));
    assert_eq!(geometry(&state, b), rect(960, 360, 960, 360));
    // A catches up on its own.
    ack(&mut state, a);
    state.commit(a, BUFFER);
    assert_eq!(geometry(&state, a), rect(960, 0, 960, 360));
}

#[test]
fn destroying_the_awaited_window_ends_the_batch() {
    let (mut state, m, a, b) = three_settled();
    let (c, _) = map(&mut state);
    ack(&mut state, a);
    state.commit(a, BUFFER);
    ack(&mut state, b);
    state.commit(b, BUFFER);
    let effects = state.toplevel_destroyed(c).effects;
    assert_eq!(effects[0], Effect::Unblock { window: a });
    assert_eq!(effects[1], Effect::Unblock { window: b });
    assert!(state.batch.waiting.is_empty());
    assert!(state.batch.blocked.is_empty());
    assert_eq!(state.windows.iter().map(|w| w.id).collect::<Vec<_>>(), vec![m, a, b]);
    // The held commits took effect, and the layout asks the two for their old places again.
    assert_eq!(geometry(&state, a), rect(960, 0, 960, 360));
    assert_eq!(
        state.windows[1].resize_state,
        WindowResizeState::Requested(Serial(13), rect(960, 0, 960, 540))
    );
}

#[test]
fn destroying_a_blocked_window_takes_it_out_of_the_batch() {
    let (mut state, _, a, b) = three_settled();
    let (c, _) = map(&mut state);
    state.toplevel_destroyed(a);
    assert_eq!(state.batch.waiting, vec![c]);
    assert_eq!(state.batch.blocked, vec![b]);
}

#[test]
fn a_destroyed_window_is_gone_from_everywhere() {
    let mut state = one_output();
    let (a, _) = map(&mut state);
    settle_all(&mut state);
    let (b, _) = map(&mut state);
    settle_all(&mut state);
    assert_eq!(state.run_pending().map(|r| r.is_ok()), Some(true));
    assert_eq!(state.run_pending().map(|r| r.is_ok()), Some(true));
    assert_eq!(state.keyboard_focus, Some(KeyboardFocusTarget::Window(b)));
    let serial = state.serials.next;

    let effects = state.toplevel_destroyed(b).effects;
    assert_eq!(state.windows.iter().map(|w| w.id).collect::<Vec<_>>(), vec![a]);
    assert_eq!(state.space.element_geometry(b), None);
    assert_eq!(state.outputs[0].focus_stack.stack, vec![a]);
    // The window that is left is asked to fill the output, and has the keyboard focus.
    assert_eq!(
        effects,
        vec![
            Effect::Configure { window: a, serial: Serial(serial), size: Some(Size { w: 1920, h: 1080 }) },
            Effect::SetKeyboardFocus {
                target: Some(KeyboardFocusTarget::Window(a)),
                serial: Serial(serial + 1),
            },
        ]
    );
    assert_eq!(state.keyboard_focus, Some(KeyboardFocusTarget::Window(a)));
    // Its geometry is as it was until it has acknowledged and committed.
    assert_eq!(geometry(&state, a), rect(0, 0, 960, 1080));
}

#[test]
fn destroying_the_last_window_leaves_the_keyboard_focus_on_nothing() {
    let mut state = one_output();
    let (a, _) = map(&mut state);
    let effects = state.toplevel_destroyed(a).effects;
    assert_eq!(effects, vec![Effect::SetKeyboardFocus { target: None, serial: Serial(3) }]);
    assert!(state.windows.is_empty());
    assert!(state.space.elements.is_empty());
    assert_eq!(state.keyboard_focus, None);
}

#[test]
fn destroying_an_unmapped_window_forgets_it() {
    let mut state = one_output();
    let a = state.new_toplevel(WindowSurface::Wayland);
    state.toplevel_destroyed(a);
    assert!(state.new_windows.is_empty());
    assert_eq!(state.commit(a, BUFFER), vec![]);
}

#[test]
fn destroying_a_window_with_a_keyboard_reports_no_fault() {
    let (mut state, _, a, _) = three_settled();
    let outcome = state.toplevel_destroyed(a);
    assert_eq!(outcome.fault, None);
    assert!(outcome.effects.iter().any(|e| matches!(e, Effect::SetKeyboardFocus { .. })));
}

#[test]
fn destroying_a_window_without_a_keyboard_ends_in_a_fault() {
    let (mut state, m, a, b) = three_settled();
    state.has_keyboard = false;
    let focus = state.keyboard_focus;
    let outcome = state.toplevel_destroyed(a);
    assert_eq!(outcome.fault, Some(Fault::NoKeyboard));
    // All that comes before the focus was done: the window is gone, the rest is laid out.
    assert!(state.windows.iter().all(|w| w.id != a));
    assert_eq!(state.space.element_geometry(a), None);
    assert!(outcome.effects.iter().any(|e| matches!(e, Effect::Configure { window, .. } if *window == b)));
    assert!(!outcome.effects.iter().any(|e| matches!(e, Effect::SetKeyboardFocus { .. })));
    assert_eq!(state.keyboard_focus, focus);
    assert_eq!(state.windows.iter().map(|w| w.id).collect::<Vec<_>>(), vec![m, b]);
}

#[test]
fn destroying_an_unknown_window_changes_no_window() {
    let mut state = one_output();
    let (a, _) = map(&mut state);
    settle_all(&mut state);
    state.toplevel_destroyed(WindowId(77));
    assert_eq!(state.windows.len(), 1);
    assert_eq!(geometry(&state, a), rect(0, 0, 1920, 1080));
}

#[test]
fn destroying_a_window_mid_grab_cancels_the_grab() {
    let mut state = one_output();
    let (a, _) = map(&mut state);
    settle_all(&mut state);
    let (b, _) = map(&mut state);
    settle_all(&mut state);
    state.pointer_motion(Point { x: 1000, y: 100 });
    state.move_grab(0x110);
    assert_eq!(
        state.grab,
        Some(Grab {
            window: b,
            button: 0x110,
            pointer_start: Point { x: 1000, y: 100 },
            kind: GrabKind::Move { initial_loc: Point { x: 960, y: 0 } },
        })
    );
    state.pointer_motion(Point { x: 1010, y: 120 });
    assert_eq!(geometry(&state, b), rect(970, 20, 960, 1080));
    let before = geometry(&state, a);

    state.toplevel_destroyed(b);
    assert_eq!(state.grab, None);
    assert_eq!(geometry(&state, a), before);
    assert_eq!(state.space.element_geometry(b), None);
    // The pointer moves on, and nothing follows it.
    assert_eq!(state.pointer_motion(Point { x: 500, y: 500 }), vec![]);
    assert_eq!(geometry(&state, a), before);
    assert_eq!(state.pointer, Some(Point { x: 500, y: 500 }));
}

#[test]
fn destroying_another_window_keeps_the_grab() {
    let mut state = one_output();
    let (a, _) = map(&mut state);
    settle_all(&mut state);
    let (b, _) = map(&mut state);
    settle_all(&mut state);
    state.pointer_motion(Point { x: 1000, y: 100 });
    state.move_grab(0x110);
    state.toplevel_destroyed(a);
    assert_eq!(state.grab.map(|g| g.window), Some(b));
}
