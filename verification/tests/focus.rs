use pinnacle::focus::FocusStack;
use pinnacle::ids::{contains_id, remove_id, OutputId, TagId, WindowId};
use pinnacle::space::{Space, SpaceElement};
use pinnacle::geometry::{Point, Rect, Size};

fn rect(x: i32, y: i32, w: i32, h: i32) -> Rect {
    Rect { loc: Point { x, y }, size: Size { w, h } }
}

#[test]
fn an_empty_stack_has_no_focus() {
    let stack: FocusStack<WindowId> = FocusStack::new();
    assert_eq!(stack.current_focus(), None);
    assert!(stack.stack.is_empty());
    assert!(!stack.focused);
}

#[test]
fn set_focus_pushes_to_the_recent_end() {
    let mut stack = FocusStack::new();
    stack.set_focus(WindowId(1));
    stack.set_focus(WindowId(2));
    stack.set_focus(WindowId(3));
    assert_eq!(stack.stack, vec![WindowId(1), WindowId(2), WindowId(3)]);
    assert_eq!(stack.current_focus(), Some(WindowId(3)));
}

#[test]
fn set_focus_moves_an_entry_that_is_there() {
    let mut stack = FocusStack::new();
    stack.set_focus(WindowId(1));
    stack.set_focus(WindowId(2));
    stack.set_focus(WindowId(3));
    stack.set_focus(WindowId(1));
    assert_eq!(stack.stack, vec![WindowId(2), WindowId(3), WindowId(1)]);
    assert_eq!(stack.current_focus(), Some(WindowId(1)));
    stack.set_focus(WindowId(1));
    assert_eq!(stack.stack, vec![WindowId(2), WindowId(3), WindowId(1)]);
}

#[test]
fn unset_focus_keeps_the_history() {
    let mut stack = FocusStack::new();
    stack.set_focus(OutputId(1));
    stack.set_focus(OutputId(2));
    stack.unset_focus();
    assert_eq!(stack.current_focus(), None);
    assert_eq!(stack.stack, vec![OutputId(1), OutputId(2)]);
    stack.set_focus(OutputId(1));
    assert_eq!(stack.current_focus(), Some(OutputId(1)));
    assert_eq!(stack.stack, vec![OutputId(2), OutputId(1)]);
}

#[test]
fn forgetting_the_focused_entry_gives_focus_to_the_one_before() {
    let mut stack = FocusStack::new();
    stack.set_focus(WindowId(1));
    stack.set_focus(WindowId(2));
    stack.forget(WindowId(2));
    assert_eq!(stack.stack, vec![WindowId(1)]);
    assert_eq!(stack.current_focus(), Some(WindowId(1)));
    stack.forget(WindowId(1));
    assert_eq!(stack.current_focus(), None);
    stack.forget(WindowId(9));
    assert!(stack.stack.is_empty());
}

#[test]
fn remove_id_takes_every_occurrence() {
    let mut tags = vec![TagId(1), TagId(2), TagId(1), TagId(3), TagId(1)];
    remove_id(&mut tags, TagId(1));
    assert_eq!(tags, vec![TagId(2), TagId(3)]);
    remove_id(&mut tags, TagId(7));
    assert_eq!(tags, vec![TagId(2), TagId(3)]);
    assert!(contains_id(&tags, TagId(3)));
    assert!(!contains_id(&tags, TagId(1)));
}

#[test]
fn a_mapped_window_is_on_top_at_its_geometry() {
    let mut space = Space::new();
    space.map_element(WindowId(1), rect(0, 0, 10, 10));
    space.map_element(WindowId(2), rect(5, 5, 10, 10));
    assert_eq!(
        space.elements,
        vec![
            SpaceElement { window: WindowId(1), geometry: rect(0, 0, 10, 10) },
            SpaceElement { window: WindowId(2), geometry: rect(5, 5, 10, 10) },
        ]
    );
    assert_eq!(space.element_geometry(WindowId(1)), Some(rect(0, 0, 10, 10)));
    assert_eq!(space.element_location(WindowId(2)), Some(Point { x: 5, y: 5 }));
    assert_eq!(space.element_geometry(WindowId(3)), None);
    assert_eq!(space.element_location(WindowId(3)), None);
}

#[test]
fn mapping_again_replaces_the_entry_and_raises() {
    let mut space = Space::new();
    space.map_element(WindowId(1), rect(0, 0, 10, 10));
    space.map_element(WindowId(2), rect(5, 5, 10, 10));
    space.map_element(WindowId(1), rect(1, 1, 20, 20));
    assert_eq!(
        space.elements,
        vec![
            SpaceElement { window: WindowId(2), geometry: rect(5, 5, 10, 10) },
            SpaceElement { window: WindowId(1), geometry: rect(1, 1, 20, 20) },
        ]
    );
}

#[test]
fn raising_keeps_the_geometry() {
    let mut space = Space::new();
    space.map_element(WindowId(1), rect(0, 0, 10, 10));
    space.map_element(WindowId(2), rect(5, 5, 10, 10));
    space.map_element(WindowId(3), rect(6, 6, 10, 10));
    space.raise_element(WindowId(1));
    assert_eq!(
        space.elements.iter().map(|e| e.window).collect::<Vec<_>>(),
        vec![WindowId(2), WindowId(3), WindowId(1)]
    );
    assert_eq!(space.element_geometry(WindowId(1)), Some(rect(0, 0, 10, 10)));
    space.raise_element(WindowId(9));
    assert_eq!(space.elements.len(), 3);
}

#[test]
fn moving_keeps_the_size() {
    let mut space = Space::new();
    space.map_element(WindowId(1), rect(0, 0, 10, 20));
    space.move_element(WindowId(1), Point { x: -7, y: 8 });
    assert_eq!(space.element_geometry(WindowId(1)), Some(rect(-7, 8, 10, 20)));
    space.move_element(WindowId(2), Point { x: 1, y: 1 });
    assert_eq!(space.element_geometry(WindowId(2)), None);
}

#[test]
fn unmapping_takes_the_window_out() {
    let mut space = Space::new();
    space.map_element(WindowId(1), rect(0, 0, 10, 10));
    space.map_element(WindowId(2), rect(5, 5, 10, 10));
    space.unmap_elem(WindowId(1));
    assert_eq!(space.elements, vec![SpaceElement { window: WindowId(2), geometry: rect(5, 5, 10, 10) }]);
    space.unmap_elem(WindowId(1));
    assert_eq!(space.elements.len(), 1);
}
