use pinnacle::geometry::{Point, Rect, Size};
use pinnacle::ids::{OutputId, TagId, WindowId};
use pinnacle::layout::{fixed, layout, Layout, Placement};
use pinnacle::output::{Output, Tag};
use pinnacle::serial::Serial;
use pinnacle::window::{
    FloatingOrTiled, FullscreenOrMaximized, WindowElement, WindowResizeState, WindowSurface,
};

fn rect(x: i32, y: i32, w: i32, h: i32) -> Rect {
    Rect { loc: Point { x, y }, size: Size { w, h } }
}

fn tiled(id: u32, tags: &[u32]) -> WindowElement {
    let mut w = WindowElement::new(WindowId(id), WindowSurface::Wayland);
    w.tags = tags.iter().map(|t| TagId(*t)).collect();
    w
}

fn windows(n: u32) -> Vec<WindowElement> {
    (1..=n).map(|id| tiled(id, &[1])).collect()
}

fn place(id: u32, r: Rect) -> Placement {
    Placement { window: WindowId(id), rect: r }
}

const AREA: Rect = Rect { loc: Point { x: 0, y: 0 }, size: Size { w: 1920, h: 1080 } };

#[test]
fn no_window_no_placement() {
    assert_eq!(layout(&vec![], &vec![TagId(1)], AREA, Layout::MasterStack), vec![]);
}

#[test]
fn a_single_window_takes_the_whole_area() {
    assert_eq!(
        layout(&windows(1), &vec![TagId(1)], AREA, Layout::MasterStack),
        vec![place(1, rect(0, 0, 1920, 1080))]
    );
}

#[test]
fn two_windows_share_the_area_left_and_right() {
    assert_eq!(
        layout(&windows(2), &vec![TagId(1)], AREA, Layout::MasterStack),
        vec![place(1, rect(0, 0, 960, 1080)), place(2, rect(960, 0, 960, 1080))]
    );
}

#[test]
fn three_windows_stack_two_on_the_right() {
    assert_eq!(
        layout(&windows(3), &vec![TagId(1)], AREA, Layout::MasterStack),
        vec![
            place(1, rect(0, 0, 960, 1080)),
            place(2, rect(960, 0, 960, 540)),
            place(3, rect(960, 540, 960, 540)),
        ]
    );
}

#[test]
fn the_last_of_the_stack_takes_the_remainder() {
    assert_eq!(
        layout(&windows(4), &vec![TagId(1)], rect(0, 0, 1000, 1000), Layout::MasterStack),
        vec![
            place(1, rect(0, 0, 500, 1000)),
            place(2, rect(500, 0, 500, 333)),
            place(3, rect(500, 333, 500, 333)),
            place(4, rect(500, 666, 500, 334)),
        ]
    );
}

#[test]
fn an_odd_width_gives_the_stack_the_wider_half() {
    assert_eq!(
        layout(&windows(2), &vec![TagId(1)], rect(100, 50, 801, 601), Layout::MasterStack),
        vec![place(1, rect(100, 50, 400, 601)), place(2, rect(500, 50, 401, 601))]
    );
}

#[test]
fn more_windows_than_rows_leaves_the_stack_empty_but_for_the_last() {
    assert_eq!(
        layout(&windows(5), &vec![TagId(1)], rect(0, 0, 10, 3), Layout::MasterStack),
        vec![
            place(1, rect(0, 0, 5, 3)),
            place(2, rect(5, 0, 5, 0)),
            place(3, rect(5, 0, 5, 0)),
            place(4, rect(5, 0, 5, 0)),
            place(5, rect(5, 0, 5, 3)),
        ]
    );
}

#[test]
fn a_negative_extent_counts_as_zero() {
    assert_eq!(
        layout(&windows(2), &vec![TagId(1)], rect(7, 8, -10, -20), Layout::MasterStack),
        vec![place(1, rect(7, 8, 0, 0)), place(2, rect(7, 8, 0, 0))]
    );
}

#[test]
fn an_area_at_the_end_of_the_range_saturates() {
    assert_eq!(
        layout(&windows(2), &vec![TagId(1)], rect(i32::MAX - 10, 0, 100, 100), Layout::MasterStack),
        vec![place(1, rect(i32::MAX - 10, 0, 50, 100)), place(2, rect(i32::MAX, 0, 50, 100))]
    );
}

#[test]
fn only_windows_on_an_active_tag_are_placed() {
    let ws = vec![tiled(1, &[1]), tiled(2, &[2]), tiled(3, &[]), tiled(4, &[3, 1]), tiled(5, &[2, 3])];
    assert_eq!(
        layout(&ws, &vec![TagId(1)], AREA, Layout::MasterStack),
        vec![place(1, rect(0, 0, 960, 1080)), place(4, rect(960, 0, 960, 1080))]
    );
    assert_eq!(
        layout(&ws, &vec![TagId(2), TagId(3)], AREA, Layout::MasterStack),
        vec![
            place(2, rect(0, 0, 960, 1080)),
            place(4, rect(960, 0, 960, 540)),
            place(5, rect(960, 540, 960, 540)),
        ]
    );
    assert_eq!(layout(&ws, &vec![], AREA, Layout::MasterStack), vec![]);
    assert_eq!(layout(&ws, &vec![TagId(9)], AREA, Layout::MasterStack), vec![]);
}

#[test]
fn floating_fullscreen_and_maximized_windows_are_not_placed() {
    let mut ws = windows(4);
    ws[0].floating_or_tiled = FloatingOrTiled::Floating(rect(1, 2, 3, 4));
    ws[1].fullscreen_or_maximized = FullscreenOrMaximized::Fullscreen;
    ws[2].fullscreen_or_maximized = FullscreenOrMaximized::Maximized;
    assert_eq!(
        layout(&ws, &vec![TagId(1)], AREA, Layout::MasterStack),
        vec![place(4, rect(0, 0, 1920, 1080))]
    );
}

#[test]
fn windows_with_a_rectangle_of_their_own_keep_it() {
    let mut ws = windows(5);
    ws[0].floating_or_tiled = FloatingOrTiled::Floating(rect(1, 2, 3, 4));
    ws[1].fullscreen_or_maximized = FullscreenOrMaximized::Fullscreen;
    ws[2].fullscreen_or_maximized = FullscreenOrMaximized::Maximized;
    ws[3].floating_or_tiled = FloatingOrTiled::Floating(rect(9, 9, 9, 9));
    ws[3].fullscreen_or_maximized = FullscreenOrMaximized::Fullscreen;
    assert_eq!(
        fixed(&ws, &vec![TagId(1)], AREA),
        vec![place(1, rect(1, 2, 3, 4)), place(2, AREA), place(3, AREA), place(4, AREA)]
    );
    assert_eq!(fixed(&ws, &vec![TagId(2)], AREA), vec![]);
}

#[test]
fn laying_out_twice_gives_the_same_placements() {
    let ws = vec![tiled(1, &[1]), tiled(2, &[2]), tiled(3, &[1, 2]), tiled(4, &[1])];
    let first = layout(&ws, &vec![TagId(1)], AREA, Layout::MasterStack);
    let second = layout(&ws, &vec![TagId(1)], AREA, Layout::MasterStack);
    assert_eq!(first, second);
}

#[test]
fn the_state_of_a_negotiation_is_of_no_account_to_the_layout() {
    let ws = windows(3);
    let first = layout(&ws, &vec![TagId(1)], AREA, Layout::MasterStack);
    let mut later = windows(3);
    for (w, p) in later.iter_mut().zip(first.iter()) {
        w.resize_state = WindowResizeState::Requested(Serial(4), p.rect);
        w.activated = true;
        w.target_loc = Some(Point { x: 1, y: 1 });
        w.floating_or_tiled = FloatingOrTiled::Tiled(Some(rect(1, 1, 1, 1)));
    }
    assert_eq!(layout(&later, &vec![TagId(1)], AREA, Layout::MasterStack), first);
}

#[test]
fn active_tags_come_in_the_outputs_order() {
    let mut output = Output::new(OutputId(1), "DP-1".to_string(), AREA);
    output.tags = vec![
        Tag { id: TagId(1), active: false, layout: Layout::MasterStack },
        Tag { id: TagId(2), active: true, layout: Layout::MasterStack },
        Tag { id: TagId(3), active: true, layout: Layout::MasterStack },
    ];
    assert_eq!(output.focused_tags(), vec![TagId(2), TagId(3)]);
    assert_eq!(output.tags_for_new_window(), vec![TagId(2), TagId(3)]);
    assert_eq!(output.layout(), Some(Layout::MasterStack));
    assert!(output.has_tag(TagId(1)));
    assert!(!output.has_tag(TagId(4)));
}

#[test]
fn a_new_window_goes_on_the_first_tag_when_none_is_active() {
    let mut output = Output::new(OutputId(1), "DP-1".to_string(), AREA);
    assert_eq!(output.tags_for_new_window(), vec![]);
    assert_eq!(output.layout(), None);
    output.tags = vec![
        Tag { id: TagId(7), active: false, layout: Layout::MasterStack },
        Tag { id: TagId(8), active: false, layout: Layout::MasterStack },
    ];
    assert_eq!(output.focused_tags(), vec![]);
    assert_eq!(output.tags_for_new_window(), vec![TagId(7)]);
    assert_eq!(output.layout(), None);
}
