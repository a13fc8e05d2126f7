use pinnacle::backend::{gamma_size, gamma_was_set};
use pinnacle::effect::{Effect, KeyboardFocusTarget, PendingAction};
use pinnacle::geometry::{Point, Rect, Size};
use pinnacle::ids::{LayerId, OutputId, PopupId, TagId, WindowId};
use pinnacle::layout::Layout;
use pinnacle::output::{LayerKind, LayerSurface, Tag};
use pinnacle::popup::{find_root, grab_is_taken, Ancestor, PopupPlacement};
use pinnacle::positioner::{Anchor, ConstraintAdjustment, Gravity, Positioner};
use pinnacle::serial::Serial;
use pinnacle::state::State;
use pinnacle::window::{WindowResizeState, WindowSurface};

fn rect(x: i32, y: i32, w: i32, h: i32) -> Rect {
    Rect { loc: Point { x, y }, size: Size { w, h } }
}

fn at(x: i32, y: i32) -> Point {
    Point { x, y }
}

const BUFFER: Option<Size> = Some(Size { w: 800, h: 600 });

/// Commits a buffer of the size that the window has, or was asked to take.
fn commit_current(state: &mut State, id: WindowId) -> Vec<Effect> {
    let asked = state.windows.iter().find(|w| w.id == id).and_then(|w| w.resize_state.target());
    let size = match asked {
        Some(rect) => Some(rect.size),
        None => state.space.element_geometry(id).map(|g| g.size),
    };
    state.commit(id, size)
}

fn all_adjustments() -> ConstraintAdjustment {
    ConstraintAdjustment { slide_x: true, slide_y: true, flip_x: true, flip_y: true, resize_x: true, resize_y: true }
}

fn positioner() -> Positioner {
    let mut p = Positioner::new();
    p.rect_size = Size { w: 200, h: 100 };
    p.anchor_rect = rect(10, 10, 20, 20);
    p.anchor_edges = Anchor::BottomRight;
    p.gravity = Gravity::BottomRight;
    p.constraint_adjustment = all_adjustments();
    p.offset = at(1, 2);
    p
}

/// Two outputs side by side, two windows on the left one, the focus on the
/// right one.
fn state() -> State {
    let mut state = State::new(true, true);
    state.add_output(
        OutputId(1),
        "left".to_string(),
        rect(0, 0, 1000, 1000),
        vec![Tag { id: TagId(1), active: true, layout: Layout::MasterStack }],
    );
    state.add_output(OutputId(2), "right".to_string(), rect(1000, 0, 800, 600), vec![]);
    for _ in 0..2 {
        let id = state.new_toplevel(WindowSurface::Wayland);
        state.commit(id, BUFFER);
        let ids: Vec<WindowId> = state.windows.iter().map(|w| w.id).collect();
        for id in ids.iter() {
            let window = state.windows.iter().find(|w| w.id == *id).unwrap();
            if let WindowResizeState::Requested(serial, _) = window.resize_state {
                state.ack_configure(*id, serial);
            }
        }
        for id in ids.iter() {
            commit_current(&mut state, *id);
        }
    }
    state.pending.clear();
    state.output_focus_stack.set_focus(OutputId(2));
    assert_eq!(state.space.element_geometry(WindowId(1)), Some(rect(500, 0, 500, 1000)));
    state
}

#[test]
fn a_fresh_positioner_asks_for_nothing() {
    let p = Positioner::new();
    assert_eq!(p.rect_size, Size { w: 0, h: 0 });
    assert_eq!(p.anchor_rect, rect(0, 0, 0, 0));
    assert_eq!(p.anchor_edges, Anchor::NoEdge);
    assert_eq!(p.gravity, Gravity::NoEdge);
    assert_eq!(p.constraint_adjustment, ConstraintAdjustment::empty());
    assert_eq!(p.offset, at(0, 0));
    assert!(!p.reactive);
    assert_eq!(p.parent_size, None);
    assert_eq!(p.parent_configure, None);
}

#[test]
fn anchors_and_gravities_have_the_protocols_numbers() {
    let anchors = [
        Anchor::NoEdge,
        Anchor::Top,
        Anchor::Bottom,
        Anchor::Left,
        Anchor::Right,
        Anchor::TopLeft,
        Anchor::BottomLeft,
        Anchor::TopRight,
        Anchor::BottomRight,
    ];
    let gravities = [
        Gravity::NoEdge,
        Gravity::Top,
        Gravity::Bottom,
        Gravity::Left,
        Gravity::Right,
        Gravity::TopLeft,
        Gravity::BottomLeft,
        Gravity::TopRight,
        Gravity::BottomRight,
    ];
    for (number, anchor) in anchors.iter().enumerate() {
        assert_eq!(anchor.code(), number as u32);
    }
    for (number, gravity) in gravities.iter().enumerate() {
        assert_eq!(gravity.code(), number as u32);
    }
}

#[test]
fn adjustments_are_a_bit_set() {
    let none = ConstraintAdjustment::empty();
    assert_eq!(none.bits(), 0);
    assert_eq!(ConstraintAdjustment { slide_x: true, ..none }.bits(), 1);
    assert_eq!(ConstraintAdjustment { slide_y: true, ..none }.bits(), 2);
    assert_eq!(ConstraintAdjustment { flip_x: true, ..none }.bits(), 4);
    assert_eq!(ConstraintAdjustment { flip_y: true, ..none }.bits(), 8);
    assert_eq!(ConstraintAdjustment { resize_x: true, ..none }.bits(), 16);
    assert_eq!(ConstraintAdjustment { resize_y: true, ..none }.bits(), 32);
    assert_eq!(all_adjustments().bits(), 63);
    assert_eq!(ConstraintAdjustment { flip_x: false, ..all_adjustments() }.bits(), 59);
}

#[test]
fn the_root_is_the_first_ancestor_that_is_no_popup() {
    assert_eq!(find_root(&vec![]), None);
    assert_eq!(find_root(&vec![Ancestor::Popup { loc: at(1, 1) }]), None);
    assert_eq!(find_root(&vec![Ancestor::Window(WindowId(1))]), Some((0, at(0, 0))));
    assert_eq!(
        find_root(&vec![
            Ancestor::Popup { loc: at(10, 20) },
            Ancestor::Popup { loc: at(-3, 4) },
            Ancestor::Layer(LayerId(1)),
            Ancestor::Popup { loc: at(100, 100) },
            Ancestor::Window(WindowId(1)),
        ]),
        Some((2, at(7, 24)))
    );
}

#[test]
fn the_offset_of_the_ancestors_saturates_as_it_is_summed() {
    assert_eq!(
        find_root(&vec![
            Ancestor::Popup { loc: at(i32::MAX, 0) },
            Ancestor::Popup { loc: at(10, 0) },
            Ancestor::Popup { loc: at(-20, 0) },
            Ancestor::Window(WindowId(1)),
        ]),
        Some((3, at(i32::MAX - 20, 0)))
    );
}

#[test]
fn a_popup_of_a_window_slides_and_is_fitted_into_the_focused_output() {
    let state = state();
    let placement = state.position_popup(&vec![Ancestor::Window(WindowId(1))], positioner());
    assert_eq!(
        placement,
        PopupPlacement::Unconstrained {
            positioner: Positioner {
                constraint_adjustment: ConstraintAdjustment { flip_x: false, ..all_adjustments() },
                ..positioner()
            },
            // The bounds of the right output, seen from the window at (500, 0).
            target: rect(500, 0, 800, 600),
        }
    );
}

#[test]
fn a_popup_of_a_popup_may_flip_and_counts_its_parents_offset() {
    let state = state();
    let placement = state.position_popup(
        &vec![Ancestor::Popup { loc: at(30, 40) }, Ancestor::Popup { loc: at(5, 5) }, Ancestor::Window(WindowId(1))],
        positioner(),
    );
    assert_eq!(
        placement,
        PopupPlacement::Unconstrained { positioner: positioner(), target: rect(1000 - 535, -45, 800, 600) }
    );
}

#[test]
fn a_popup_of_a_layer_is_fitted_into_the_layers_output() {
    let mut state = state();
    state.new_layer_surface(LayerId(7), Some(OutputId(1)), LayerKind::Top);
    state.commit_layer(LayerId(7), Some(rect(0, 970, 1000, 30)));
    let placement = state.position_popup(&vec![Ancestor::Layer(LayerId(7))], positioner());
    assert_eq!(
        placement,
        PopupPlacement::Unconstrained {
            positioner: Positioner {
                constraint_adjustment: ConstraintAdjustment { flip_x: false, ..all_adjustments() },
                ..positioner()
            },
            target: rect(0, -970, 1000, 1000),
        }
    );
    // A layer on the right output is placed relative to that output.
    state.new_layer_surface(LayerId(8), Some(OutputId(2)), LayerKind::Top);
    state.commit_layer(LayerId(8), Some(rect(10, 20, 100, 30)));
    assert_eq!(
        state.position_popup(&vec![Ancestor::Popup { loc: at(1, 1) }, Ancestor::Layer(LayerId(8))], positioner()),
        PopupPlacement::Unconstrained { positioner: positioner(), target: rect(-11, -21, 800, 600) }
    );
}

#[test]
fn a_popup_falls_back_to_what_its_positioner_asks_for() {
    let mut state = state();
    let slid = Positioner {
        constraint_adjustment: ConstraintAdjustment { flip_x: false, ..all_adjustments() },
        ..positioner()
    };
    // No root.
    assert_eq!(state.position_popup(&vec![], positioner()), PopupPlacement::Default { positioner: positioner() });
    assert_eq!(
        state.position_popup(&vec![Ancestor::Popup { loc: at(1, 1) }], positioner()),
        PopupPlacement::Default { positioner: positioner() }
    );
    // A root that is gone.
    assert_eq!(
        state.position_popup(&vec![Ancestor::Window(WindowId(9))], positioner()),
        PopupPlacement::Default { positioner: slid }
    );
    assert_eq!(
        state.position_popup(&vec![Ancestor::Layer(LayerId(9))], positioner()),
        PopupPlacement::Default { positioner: slid }
    );
    // A layer that has not been arranged.
    state.new_layer_surface(LayerId(7), None, LayerKind::Top);
    assert_eq!(
        state.position_popup(&vec![Ancestor::Layer(LayerId(7))], positioner()),
        PopupPlacement::Default { positioner: slid }
    );
    // A window that the space does not hold.
    state.space.unmap_elem(WindowId(0));
    assert_eq!(
        state.position_popup(&vec![Ancestor::Popup { loc: at(1, 1) }, Ancestor::Window(WindowId(0))], positioner()),
        PopupPlacement::Default { positioner: positioner() }
    );
    // No focused output.
    state.output_focus_stack.unset_focus();
    assert_eq!(
        state.position_popup(&vec![Ancestor::Window(WindowId(1))], positioner()),
        PopupPlacement::Default { positioner: slid }
    );
}

#[test]
fn a_repositioned_popup_takes_what_its_positioner_asks_for() {
    assert_eq!(
        state().reposition_request(positioner()),
        PopupPlacement::Default { positioner: positioner() }
    );
}

#[test]
fn a_popups_commit_configures_it_once_and_draws_what_it_touches() {
    let mut state = state();
    let serial = state.serials.next;
    assert_eq!(
        state.commit_popup(PopupId(1), false, rect(900, 0, 100, 100)),
        vec![
            Effect::ConfigurePopup { popup: PopupId(1), serial: Serial(serial) },
            Effect::ScheduleRender { output: OutputId(1) },
            Effect::ScheduleRender { output: OutputId(2) },
        ]
    );
    assert_eq!(
        state.commit_popup(PopupId(1), true, rect(1001, 0, 100, 100)),
        vec![Effect::ScheduleRender { output: OutputId(2) }]
    );
    assert_eq!(state.commit_popup(PopupId(1), true, rect(5000, 0, 1, 1)), vec![]);
    assert_eq!(state.serials.next, serial + 1);
}

#[test]
fn a_new_layer_goes_on_the_output_it_asks_for_or_the_first() {
    let mut state = state();
    state.new_layer_surface(LayerId(1), Some(OutputId(2)), LayerKind::Top);
    state.new_layer_surface(LayerId(2), None, LayerKind::Top);
    state.new_layer_surface(LayerId(3), Some(OutputId(9)), LayerKind::Top);
    let fresh = |id| LayerSurface { id: LayerId(id), kind: LayerKind::Top, geometry: None, initial_configure_sent: false };
    assert_eq!(state.outputs[1].layers, vec![fresh(1)]);
    assert_eq!(state.outputs[0].layers, vec![fresh(2), fresh(3)]);
    assert_eq!(
        state.pending,
        vec![
            PendingAction::RequestLayout(OutputId(2)),
            PendingAction::RequestLayout(OutputId(1)),
            PendingAction::RequestLayout(OutputId(1)),
        ]
    );
    // A layer that is there already is not taken in again.
    state.new_layer_surface(LayerId(1), Some(OutputId(1)), LayerKind::Top);
    assert_eq!(state.outputs[0].layers.len(), 2);
    assert_eq!(state.outputs[1].layers.len(), 1);
    assert_eq!(state.pending.len(), 4);
}

#[test]
fn without_an_output_a_layer_is_not_taken_in() {
    let mut state = State::new(true, true);
    state.new_layer_surface(LayerId(1), None, LayerKind::Top);
    assert!(state.pending.is_empty());
    assert_eq!(state.commit_layer(LayerId(1), None), vec![]);
}

#[test]
fn a_layers_commit_configures_it_once_and_draws_its_output() {
    let mut state = state();
    state.new_layer_surface(LayerId(1), Some(OutputId(2)), LayerKind::Top);
    let serial = state.serials.next;
    assert_eq!(
        state.commit_layer(LayerId(1), None),
        vec![
            Effect::ConfigureLayer { layer: LayerId(1), serial: Serial(serial) },
            Effect::ScheduleRender { output: OutputId(2) },
        ]
    );
    assert_eq!(
        state.commit_layer(LayerId(1), Some(rect(0, 0, 800, 30))),
        vec![Effect::ScheduleRender { output: OutputId(2) }]
    );
    assert_eq!(
        state.outputs[1].layers,
        vec![LayerSurface { id: LayerId(1), kind: LayerKind::Top, geometry: Some(rect(0, 0, 800, 30)), initial_configure_sent: true }]
    );
    assert_eq!(state.commit_layer(LayerId(9), None), vec![]);
}

#[test]
fn a_destroyed_layer_leaves_its_output() {
    let mut state = state();
    state.new_layer_surface(LayerId(1), Some(OutputId(2)), LayerKind::Top);
    state.new_layer_surface(LayerId(2), Some(OutputId(2)), LayerKind::Top);
    state.pending.clear();
    state.layer_destroyed(LayerId(1));
    assert_eq!(state.outputs[1].layers.iter().map(|l| l.id).collect::<Vec<_>>(), vec![LayerId(2)]);
    assert_eq!(state.pending, vec![PendingAction::RequestLayout(OutputId(2))]);
    state.layer_destroyed(LayerId(1));
    assert_eq!(state.pending.len(), 1);
}

#[test]
fn a_popup_grab_gives_way_to_another_grab() {
    assert!(!grab_is_taken(false, false, false));
    assert!(!grab_is_taken(false, true, true));
    assert!(grab_is_taken(true, false, false));
    assert!(!grab_is_taken(true, true, false));
    assert!(!grab_is_taken(true, false, true));
    assert!(!grab_is_taken(true, true, true));
}

#[test]
fn the_root_of_a_grabbing_popup_takes_the_focus_back() {
    let mut state = state();
    state.new_layer_surface(LayerId(1), None, LayerKind::Top);
    assert_eq!(
        state.popup_grab_root(Ancestor::Window(WindowId(0))),
        Some(KeyboardFocusTarget::Window(WindowId(0)))
    );
    assert_eq!(state.popup_grab_root(Ancestor::Window(WindowId(9))), None);
    assert_eq!(
        state.popup_grab_root(Ancestor::Layer(LayerId(1))),
        Some(KeyboardFocusTarget::LayerSurface(LayerId(1)))
    );
    assert_eq!(state.popup_grab_root(Ancestor::Layer(LayerId(9))), None);
    assert_eq!(state.popup_grab_root(Ancestor::Popup { loc: at(0, 0) }), None);
}

#[test]
fn gamma_is_reported_as_unsupported_not_as_an_error() {
    assert_eq!(gamma_size(true, Some(256)), Some(256));
    assert_eq!(gamma_size(true, Some(0)), None);
    assert_eq!(gamma_size(true, None), None);
    assert_eq!(gamma_size(false, Some(256)), None);
    assert_eq!(gamma_size(false, None), None);
    assert!(gamma_was_set(true, true));
    assert!(!gamma_was_set(true, false));
    assert!(!gamma_was_set(false, true));
}

#[test]
fn a_surface_prefers_the_scale_of_the_output_it_is_shown_on() {
    let state = state();
    let primary = Some(OutputId(7));
    let root_primary = Some(OutputId(8));
    assert_eq!(state.scale_output(primary, false, root_primary, Some(WindowId(0))), primary);
    // A subsurface falls back to where its root is shown.
    assert_eq!(state.scale_output(None, false, root_primary, Some(WindowId(0))), root_primary);
    // A root does not.
    assert_eq!(state.scale_output(None, true, root_primary, Some(WindowId(0))), Some(OutputId(1)));
    // Then comes the first output that the root's window reaches into.
    assert_eq!(state.scale_output(None, false, None, Some(WindowId(1))), Some(OutputId(1)));
    // And then the first output there is.
    assert_eq!(state.scale_output(None, true, None, Some(WindowId(9))), Some(OutputId(1)));
    assert_eq!(state.scale_output(None, true, None, None), Some(OutputId(1)));
    assert_eq!(State::new(true, true).scale_output(None, true, None, None), None);
}

#[test]
fn the_first_output_a_window_reaches_into() {
    let mut state = state();
    state.space.map_element(WindowId(0), rect(1100, 10, 50, 50));
    assert_eq!(state.first_output_showing(Some(WindowId(0))), Some(OutputId(2)));
    state.space.map_element(WindowId(0), rect(990, 10, 50, 50));
    assert_eq!(state.first_output_showing(Some(WindowId(0))), Some(OutputId(1)));
    assert_eq!(state.outputs_showing(WindowId(0)), vec![0, 1]);
    state.space.map_element(WindowId(0), rect(5000, 10, 50, 50));
    assert_eq!(state.first_output_showing(Some(WindowId(0))), None);
    assert_eq!(state.first_output_showing(None), None);
}
