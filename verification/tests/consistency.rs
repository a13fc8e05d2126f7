use pinnacle::control::SetOrToggle;
use pinnacle::geometry::{Point, Rect, Size};
use pinnacle::ids::{LayerId, OutputId, PopupId, TagId, WindowId};
use pinnacle::layout::Layout;
use pinnacle::output::{LayerKind, Tag};
use pinnacle::rules::{FloatingOrTiled, WindowRule, WindowRuleCondition};
use pinnacle::service::StateFn;
use pinnacle::state::State;
use pinnacle::window::{Geometry, WindowResizeState, WindowSurface};

fn rect(x: i32, y: i32, w: i32, h: i32) -> Rect {
    Rect { loc: Point { x, y }, size: Size { w, h } }
}

fn tag(id: u32, active: bool) -> Tag {
    Tag { id: TagId(id), active, layout: Layout::MasterStack }
}

/// At most one window is active, every window has an identity of its own,
/// and the identities still to be given are unused.
fn assert_consistent(state: &State) {
    let all: Vec<_> = state.windows.iter().chain(state.new_windows.iter()).collect();
    assert!(all.iter().filter(|w| w.activated).count() <= 1);
    for (i, a) in all.iter().enumerate() {
        assert!(a.id.0 < state.next_window_id);
        for b in all.iter().skip(i + 1) {
            assert_ne!(a.id, b.id);
        }
    }
}

fn ack_all(state: &mut State) {
    let ids: Vec<WindowId> = state.windows.iter().map(|w| w.id).collect();
    for id in ids {
        let window = state.windows.iter().find(|w| w.id == id).unwrap();
        if let WindowResizeState::Requested(serial, rect) = window.resize_state {
            state.ack_configure(id, serial);
            assert_consistent(state);
            state.commit(id, Some(rect.size));
            assert_consistent(state);
        }
    }
}

#[test]
fn the_state_stays_consistent_whatever_happens() {
    let mut state = State::new(true, true);
    assert_consistent(&state);
    state.add_output(OutputId(1), "left".to_string(), rect(0, 0, 1000, 1000), vec![tag(1, true), tag(2, false)]);
    state.add_output(OutputId(2), "right".to_string(), rect(1000, 0, 1000, 1000), vec![tag(3, true)]);
    state.window_rules.push((
        WindowRuleCondition { cond_any: None, cond_all: None, class: None, title: None, tag: Some(vec![TagId(1)]) },
        WindowRule {
            output: None,
            tags: None,
            floating_or_tiled: Some(FloatingOrTiled::Floating),
            fullscreen_or_maximized: None,
            size: Some((300, 200)),
            location: None,
        },
    ));
    assert_consistent(&state);

    for round in 0..6 {
        let surface = if round % 3 == 2 {
            WindowSurface::X11 { override_redirect: false }
        } else {
            WindowSurface::Wayland
        };
        let id = state.new_toplevel(surface);
        assert_consistent(&state);
        state.commit(id, None);
        assert_consistent(&state);
        state.commit(id, Some(Size { w: 640, h: 480 }));
        assert_consistent(&state);
        assert!(state.windows.iter().find(|w| w.id == id).unwrap().activated);
        // Some clients answer at once, some later.
        if round % 2 == 0 {
            ack_all(&mut state);
        }
        while state.run_pending().is_some() {
            assert_consistent(&state);
        }
    }
    ack_all(&mut state);

    let requests = vec![
        StateFn::SetFocused { window_id: WindowId(1), set_or_toggle: SetOrToggle::SetOn },
        StateFn::SetFocused { window_id: WindowId(3), set_or_toggle: SetOrToggle::Toggle },
        StateFn::SetFocused { window_id: WindowId(3), set_or_toggle: SetOrToggle::Toggle },
        StateFn::SetFocused { window_id: WindowId(0), set_or_toggle: SetOrToggle::Unset },
        StateFn::MoveToTag { window_id: WindowId(2), tag_id: TagId(3) },
        StateFn::SetFocused { window_id: WindowId(2), set_or_toggle: SetOrToggle::SetOn },
        StateFn::SetTag { window_id: WindowId(4), tag_id: TagId(2), set_or_toggle: SetOrToggle::Toggle },
        StateFn::SetFloating { window_id: WindowId(0), set_or_toggle: SetOrToggle::Toggle },
        StateFn::SetFullscreen { window_id: WindowId(5), set_or_toggle: SetOrToggle::SetOn },
        StateFn::SetMaximized { window_id: WindowId(1), set_or_toggle: SetOrToggle::Toggle },
        StateFn::SetGeometry {
            window_id: WindowId(0),
            geometry: Geometry { x: Some(5), y: None, width: Some(50), height: None },
        },
        StateFn::Raise { window_id: WindowId(3) },
        StateFn::MoveGrab { button: 0x110 },
        StateFn::ResizeGrab { button: 0x110 },
        StateFn::Close { window_id: WindowId(2) },
        StateFn::Get,
        StateFn::GetProperties { window_id: WindowId(4) },
    ];
    for f in requests {
        let _ = state.run(f);
        assert_consistent(&state);
        ack_all(&mut state);
    }

    state.pointer_motion(Point { x: 100, y: 100 });
    state.move_grab(0x110);
    state.pointer_motion(Point { x: 150, y: 90 });
    assert_consistent(&state);
    state.button_released(0x110);
    state.set_tag_active(TagId(2), SetOrToggle::Toggle);
    assert_consistent(&state);
    state.new_layer_surface(LayerId(1), None, LayerKind::Top);
    state.commit_layer(LayerId(1), Some(rect(0, 0, 1000, 30)));
    state.commit_popup(PopupId(1), false, rect(0, 0, 10, 10));
    state.layer_destroyed(LayerId(1));
    state.remove_output(OutputId(2));
    assert_consistent(&state);
    while state.run_pending().is_some() {
        assert_consistent(&state);
    }

    for id in [WindowId(3), WindowId(0), WindowId(9), WindowId(5), WindowId(1), WindowId(2), WindowId(4)] {
        state.toplevel_destroyed(id);
        assert_consistent(&state);
        ack_all(&mut state);
    }
    assert!(state.windows.is_empty());
    assert!(state.space.elements.is_empty());
    assert_eq!(state.next_window_id, 6);
}

#[test]
fn an_output_that_was_laid_out_is_laid_out_again_without_a_change() {
    let mut state = State::new(true, true);
    state.add_output(OutputId(1), "only".to_string(), rect(0, 0, 1000, 1000), vec![tag(1, true)]);
    for _ in 0..4 {
        let id = state.new_toplevel(WindowSurface::Wayland);
        state.commit(id, Some(Size { w: 640, h: 480 }));
    }
    state.set_floating(WindowId(1), SetOrToggle::SetOn);
    state.set_fullscreen(WindowId(2), SetOrToggle::SetOn);
    state.space.map_element(WindowId(0), rect(3, 3, 3, 3));
    state.windows[3].resize_state = WindowResizeState::Idle;
    assert!(!state.request_layout(OutputId(1)).is_empty());
    let before = format!("{:?}", state);
    assert_eq!(state.request_layout(OutputId(1)), vec![]);
    assert_eq!(format!("{:?}", state), before);
}
