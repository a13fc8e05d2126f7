use pinnacle::api;
use pinnacle::control::SetOrToggle;
use pinnacle::effect::{Effect, Fault, KeyboardFocusTarget};
use pinnacle::event::Event;
use pinnacle::geometry::{Point, Rect, Size};
use pinnacle::grab::ResizeEdge;
use pinnacle::ids::{LayerId, OutputId, PopupId, TagId, WindowId};
use pinnacle::layout::Layout;
use pinnacle::output::{LayerKind, Tag};
use pinnacle::serial::Serial;
use pinnacle::service::{Response, StateFn};
use pinnacle::state::State;
use pinnacle::window::{WindowResizeState, WindowSurface};

fn rect(x: i32, y: i32, w: i32, h: i32) -> Rect {
    Rect { loc: Point { x, y }, size: Size { w, h } }
}

fn connected() -> State {
    let mut state = State::new(true, true);
    let handled = state.handle(Event::OutputConnected {
        id: OutputId(1),
        name: "eDP-1".to_string(),
        geometry: rect(0, 0, 1000, 1000),
        tags: vec![Tag { id: TagId(1), active: true, layout: Layout::MasterStack }],
    });
    assert!(handled.effects.is_empty());
    assert_eq!(handled.created, None);
    assert_eq!(handled.response, None);
    assert_eq!(handled.fault, None);
    state
}

#[test]
fn a_window_lives_its_life_through_events() {
    let mut state = connected();
    assert_eq!(state.outputs.len(), 1);

    let handled = state.handle(Event::NewToplevel { surface: WindowSurface::Wayland });
    assert_eq!(handled.created, Some(WindowId(0)));
    assert!(handled.effects.is_empty());

    let handled = state.handle(Event::Commit { window: WindowId(0), buffer: None });
    assert_eq!(handled.effects, vec![Effect::Configure { window: WindowId(0), serial: Serial(1), size: None }]);

    let handled = state.handle(Event::Commit { window: WindowId(0), buffer: Some(Size { w: 640, h: 480 }) });
    assert_eq!(
        handled.effects,
        vec![
            Effect::Configure { window: WindowId(0), serial: Serial(2), size: Some(Size { w: 1000, h: 1000 }) },
            Effect::SendFrame { window: WindowId(0), output: OutputId(1) },
        ]
    );

    let handled = state.handle(Event::Idle);
    assert_eq!(
        handled.effects,
        vec![Effect::SetKeyboardFocus {
            target: Some(KeyboardFocusTarget::Window(WindowId(0))),
            serial: Serial(3),
        }]
    );
    assert_eq!(handled.fault, None);
    let handled = state.handle(Event::Idle);
    assert!(handled.effects.is_empty());

    let handled = state.handle(Event::AckConfigure { window: WindowId(0), serial: Serial(2) });
    assert_eq!(handled.effects, vec![Effect::SendFrame { window: WindowId(0), output: OutputId(1) }]);
    state.handle(Event::Commit { window: WindowId(0), buffer: Some(Size { w: 1000, h: 1000 }) });
    assert_eq!(state.space.element_geometry(WindowId(0)), Some(rect(0, 0, 1000, 1000)));

    let handled = state.handle(Event::ToplevelDestroyed { window: WindowId(0) });
    assert_eq!(handled.effects, vec![Effect::SetKeyboardFocus { target: None, serial: Serial(4) }]);
    assert!(state.windows.is_empty());
}

#[test]
fn a_window_with_a_request_open_stays_where_it_is_whatever_happens() {
    let mut state = connected();
    for _ in 0..2 {
        let id = state.handle(Event::NewToplevel { surface: WindowSurface::Wayland }).created.unwrap();
        state.handle(Event::Commit { window: id, buffer: Some(Size { w: 640, h: 480 }) });
    }
    // Window 0 was asked to fill the output, then to take the left half; it has acknowledged neither.
    let waiting = WindowId(0);
    let place = state.space.element_geometry(waiting);
    assert!(matches!(state.windows[0].resize_state, WindowResizeState::Requested(_, _)));

    state.handle(Event::PointerMotion { location: Point { x: 1000010, y: 10 } });
    let events = vec![
        Event::Commit { window: waiting, buffer: Some(Size { w: 5, h: 5 }) },
        Event::Commit { window: WindowId(1), buffer: Some(Size { w: 5, h: 5 }) },
        Event::AckConfigure { window: WindowId(1), serial: Serial(99) },
        Event::Commit { window: WindowId(1), buffer: Some(Size { w: 500, h: 1000 }) },
        Event::MoveRequest { window: waiting },
        Event::PointerMotion { location: Point { x: 1000050, y: 70 } },
        Event::PointerMotion { location: Point { x: 3, y: 4 } },
        Event::ButtonReleased { button: 0x110 },
        Event::ResizeRequest { window: waiting, edges: ResizeEdge::TopLeft },
        Event::PointerMotion { location: Point { x: 30, y: 40 } },
        Event::ButtonReleased { button: 0x110 },
        Event::Request(StateFn::SetFloating { window_id: waiting, set_or_toggle: SetOrToggle::Toggle }),
        Event::Request(StateFn::SetFullscreen { window_id: WindowId(1), set_or_toggle: SetOrToggle::SetOn }),
        Event::Request(StateFn::SetFocused { window_id: WindowId(1), set_or_toggle: SetOrToggle::SetOn }),
        Event::Request(StateFn::Raise { window_id: waiting }),
        Event::Request(StateFn::Raise { window_id: WindowId(1) }),
        Event::NewToplevel { surface: WindowSurface::Wayland },
        Event::Commit { window: WindowId(2), buffer: Some(Size { w: 64, h: 48 }) },
        Event::NewLayerSurface { layer: LayerId(1), output: None, kind: LayerKind::Top },
        Event::LayerCommit { layer: LayerId(1), arranged: Some(rect(0, 0, 1000, 20)) },
        Event::PopupCommit { popup: PopupId(1), initial_configure_sent: false, geometry: rect(0, 0, 5, 5) },
        Event::Idle,
        Event::Idle,
        Event::Idle,
        Event::Idle,
        Event::ToplevelDestroyed { window: WindowId(1) },
        Event::LayerDestroyed { layer: LayerId(1) },
        Event::OutputDisconnected { id: OutputId(1) },
    ];
    for event in events {
        state.handle(event);
        assert!(matches!(state.windows[0].resize_state, WindowResizeState::Requested(_, _)));
        assert_eq!(state.space.element_geometry(waiting), place);
    }
    // The move that the pointer asked for is still wanted.
    assert!(state.windows[0].target_loc.is_some());
}

#[test]
fn requests_are_answered() {
    let mut state = connected();
    let id = state.handle(Event::NewToplevel { surface: WindowSurface::Wayland }).created.unwrap();
    state.handle(Event::Commit { window: id, buffer: Some(Size { w: 640, h: 480 }) });
    assert_eq!(state.handle(Event::Request(StateFn::Get)).response, Some(Response::Get(api::GetResponse { window_ids: vec![0] })));
    assert!(matches!(
        state.handle(Event::Request(StateFn::GetProperties { window_id: id })).response,
        Some(Response::GetProperties(p)) if p.tag_ids == vec![1]
    ));
    let handled = state.handle(Event::Request(StateFn::Close { window_id: id }));
    assert_eq!(handled.response, Some(Response::Done));
    assert_eq!(handled.effects, vec![Effect::Close { window: id }]);
}

#[test]
fn a_fault_is_reported_and_the_action_is_dropped() {
    let mut state = State::new(false, false);
    let id = state.handle(Event::NewToplevel { surface: WindowSurface::Wayland }).created.unwrap();
    state.handle(Event::Commit { window: id, buffer: Some(Size { w: 640, h: 480 }) });
    let handled = state.handle(Event::Idle);
    assert_eq!(handled.fault, Some(Fault::NoKeyboard));
    assert!(handled.effects.is_empty());
    assert!(state.pending.is_empty());
    assert_eq!(state.handle(Event::Idle).fault, None);
}

#[test]
fn a_focus_request_without_a_keyboard_is_reported_as_a_fault() {
    let mut state = State::new(false, true);
    state.handle(Event::OutputConnected {
        id: OutputId(1),
        name: "eDP-1".to_string(),
        geometry: Rect { loc: Point { x: 0, y: 0 }, size: Size { w: 800, h: 600 } },
        tags: vec![Tag { id: TagId(1), active: true, layout: Layout::MasterStack }],
    });
    let window = state.handle(Event::NewToplevel { surface: WindowSurface::Wayland }).created.unwrap();
    state.handle(Event::Commit { window, buffer: None });
    state.handle(Event::Commit { window, buffer: Some(Size { w: 10, h: 10 }) });
    let before = format!("{:?}", state);
    let handled = state.handle(Event::Request(StateFn::SetFocused { window_id: window, set_or_toggle: SetOrToggle::SetOn }));
    assert_eq!(handled.fault, Some(Fault::NoKeyboard));
    assert_eq!(handled.response, None);
    assert_eq!(handled.effects, vec![]);
    assert_eq!(format!("{:?}", state), before);
    // A request that assigns no focus is answered as ever.
    let handled = state.handle(Event::Request(StateFn::Raise { window_id: window }));
    assert_eq!(handled.fault, None);
    assert_eq!(handled.response, Some(Response::Done));
    // The destruction goes as far as it can, and reports the fault.
    let handled = state.handle(Event::ToplevelDestroyed { window });
    assert_eq!(handled.fault, Some(Fault::NoKeyboard));
    assert!(state.windows.is_empty());
}
