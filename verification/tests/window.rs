use pinnacle::geometry::{Point, Rect, Size};
use pinnacle::ids::{TagId, WindowId};
use pinnacle::serial::Serial;
use pinnacle::window::{
    FloatingOrTiled, FullscreenOrMaximized, Geometry, WindowElement, WindowResizeState, WindowSurface,
};

fn rect(x: i32, y: i32, w: i32, h: i32) -> Rect {
    Rect { loc: Point { x, y }, size: Size { w, h } }
}

#[test]
fn a_new_window_is_tiled_untagged_and_idle() {
    let w = WindowElement::new(WindowId(7), WindowSurface::Wayland);
    assert_eq!(w.id, WindowId(7));
    assert_eq!(w.surface, WindowSurface::Wayland);
    assert_eq!(w.floating_or_tiled, FloatingOrTiled::Tiled(None));
    assert_eq!(w.fullscreen_or_maximized, FullscreenOrMaximized::Neither);
    assert!(w.tags.is_empty());
    assert_eq!(w.resize_state, WindowResizeState::Idle);
    assert_eq!(w.target_loc, None);
    assert!(!w.activated);
    assert!(!w.initial_configure_sent);
    assert_eq!(w.class, None);
    assert_eq!(w.title, None);
}

#[test]
fn floating_rect_survives_float_tile_float() {
    let mut w = WindowElement::new(WindowId(1), WindowSurface::Wayland);
    let floated_at = rect(30, 40, 500, 300);
    w.floating_or_tiled = FloatingOrTiled::Floating(floated_at);
    w.toggle_floating(rect(0, 0, 1, 1));
    assert_eq!(w.floating_or_tiled, FloatingOrTiled::Tiled(Some(floated_at)));
    w.toggle_floating(rect(960, 0, 960, 1080));
    assert_eq!(w.floating_or_tiled, FloatingOrTiled::Floating(floated_at));
}

#[test]
fn tiled_window_with_a_remembered_rect_floats_there_again_and_again() {
    let mut w = WindowElement::new(WindowId(1), WindowSurface::Wayland);
    let remembered = rect(5, 6, 70, 80);
    w.floating_or_tiled = FloatingOrTiled::Tiled(Some(remembered));
    w.toggle_floating(rect(1, 1, 1, 1));
    assert_eq!(w.floating_or_tiled, FloatingOrTiled::Floating(remembered));
    w.toggle_floating(rect(2, 2, 2, 2));
    w.toggle_floating(rect(3, 3, 3, 3));
    assert_eq!(w.floating_or_tiled, FloatingOrTiled::Floating(remembered));
}

#[test]
fn a_window_that_never_floated_floats_where_it_is() {
    let mut w = WindowElement::new(WindowId(1), WindowSurface::Wayland);
    w.toggle_floating(rect(960, 0, 960, 1080));
    assert_eq!(w.floating_or_tiled, FloatingOrTiled::Floating(rect(960, 0, 960, 1080)));
}

#[test]
fn toggling_floating_touches_nothing_else() {
    let mut w = WindowElement::new(WindowId(1), WindowSurface::X11 { override_redirect: false });
    w.tags = vec![TagId(1), TagId(2)];
    w.fullscreen_or_maximized = FullscreenOrMaximized::Maximized;
    w.activated = true;
    w.toggle_floating(rect(0, 0, 5, 5));
    assert_eq!(w.tags, vec![TagId(1), TagId(2)]);
    assert_eq!(w.fullscreen_or_maximized, FullscreenOrMaximized::Maximized);
    assert!(w.activated);
    assert_eq!(w.surface, WindowSurface::X11 { override_redirect: false });
}

#[test]
fn fullscreen_toggles_between_fullscreen_and_neither() {
    let mut w = WindowElement::new(WindowId(1), WindowSurface::Wayland);
    w.toggle_fullscreen();
    assert_eq!(w.fullscreen_or_maximized, FullscreenOrMaximized::Fullscreen);
    assert!(w.fullscreen_or_maximized.is_fullscreen());
    assert!(!w.fullscreen_or_maximized.is_maximized());
    w.toggle_fullscreen();
    assert_eq!(w.fullscreen_or_maximized, FullscreenOrMaximized::Neither);
}

#[test]
fn maximized_toggles_between_maximized_and_neither() {
    let mut w = WindowElement::new(WindowId(1), WindowSurface::Wayland);
    w.toggle_maximized();
    assert_eq!(w.fullscreen_or_maximized, FullscreenOrMaximized::Maximized);
    assert!(w.fullscreen_or_maximized.is_maximized());
    w.toggle_maximized();
    assert_eq!(w.fullscreen_or_maximized, FullscreenOrMaximized::Neither);
}

#[test]
fn fullscreen_and_maximized_replace_each_other() {
    let mut w = WindowElement::new(WindowId(1), WindowSurface::Wayland);
    w.toggle_maximized();
    w.toggle_fullscreen();
    assert_eq!(w.fullscreen_or_maximized, FullscreenOrMaximized::Fullscreen);
    w.toggle_maximized();
    assert_eq!(w.fullscreen_or_maximized, FullscreenOrMaximized::Maximized);
}

#[test]
fn with_rect_keeps_the_mode() {
    let r = rect(1, 2, 3, 4);
    assert_eq!(FloatingOrTiled::Floating(rect(0, 0, 0, 0)).with_rect(r), FloatingOrTiled::Floating(r));
    assert_eq!(FloatingOrTiled::Tiled(None).with_rect(r), FloatingOrTiled::Tiled(Some(r)));
    assert_eq!(FloatingOrTiled::Tiled(Some(rect(9, 9, 9, 9))).with_rect(r), FloatingOrTiled::Tiled(Some(r)));
    assert!(FloatingOrTiled::Floating(r).is_floating());
    assert!(!FloatingOrTiled::Tiled(Some(r)).is_floating());
}

#[test]
fn geometry_merges_only_the_parts_it_gives() {
    let base = rect(10, 20, 300, 400);
    let none = Geometry { x: None, y: None, width: None, height: None };
    assert_eq!(none.merged_into(base), base);
    assert_eq!(Geometry { x: Some(-5), ..none }.merged_into(base), rect(-5, 20, 300, 400));
    assert_eq!(Geometry { y: Some(7), ..none }.merged_into(base), rect(10, 7, 300, 400));
    assert_eq!(Geometry { width: Some(1), ..none }.merged_into(base), rect(10, 20, 1, 400));
    assert_eq!(Geometry { height: Some(2), ..none }.merged_into(base), rect(10, 20, 300, 2));
    assert_eq!(
        Geometry { x: Some(1), y: Some(2), width: Some(3), height: Some(4) }.merged_into(base),
        rect(1, 2, 3, 4)
    );
}

#[test]
fn override_redirect_is_told_apart() {
    assert!(WindowElement::new(WindowId(1), WindowSurface::X11 { override_redirect: true })
        .is_x11_override_redirect());
    assert!(!WindowElement::new(WindowId(1), WindowSurface::X11 { override_redirect: false })
        .is_x11_override_redirect());
    assert!(!WindowElement::new(WindowId(1), WindowSurface::Wayland).is_x11_override_redirect());
}

#[test]
fn on_any_of_asks_for_one_shared_tag() {
    let mut w = WindowElement::new(WindowId(1), WindowSurface::Wayland);
    assert!(!w.on_any_of(&vec![TagId(1)]));
    w.tags = vec![TagId(2), TagId(5)];
    assert!(w.on_any_of(&vec![TagId(5)]));
    assert!(w.on_any_of(&vec![TagId(9), TagId(2)]));
    assert!(!w.on_any_of(&vec![TagId(1), TagId(3)]));
    assert!(!w.on_any_of(&vec![]));
}

#[test]
fn only_a_request_is_settled_by_an_acknowledgement() {
    let r = rect(0, 0, 10, 10);
    assert_eq!(WindowResizeState::Idle.acked(Serial(9)), WindowResizeState::Idle);
    assert_eq!(WindowResizeState::Acknowledged(r).acked(Serial(9)), WindowResizeState::Acknowledged(r));
    assert_eq!(
        WindowResizeState::Requested(Serial(5), r).acked(Serial(5)),
        WindowResizeState::Acknowledged(r)
    );
    assert_eq!(
        WindowResizeState::Requested(Serial(5), r).acked(Serial(8)),
        WindowResizeState::Acknowledged(r)
    );
    assert_eq!(
        WindowResizeState::Requested(Serial(5), r).acked(Serial(4)),
        WindowResizeState::Requested(Serial(5), r)
    );
}

#[test]
fn target_is_the_geometry_under_negotiation() {
    let r = rect(1, 1, 2, 2);
    assert_eq!(WindowResizeState::Idle.target(), None);
    assert_eq!(WindowResizeState::Requested(Serial(1), r).target(), Some(r));
    assert_eq!(WindowResizeState::Acknowledged(r).target(), Some(r));
}
