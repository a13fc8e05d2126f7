use pinnacle::geometry::{Point, Rect, Size};
use pinnacle::ids::{OutputId, TagId, WindowId};
use pinnacle::layout::Layout;
use pinnacle::output::{Output, Tag};
use pinnacle::rules::{FloatingOrTiled, OutputName, WindowRule, WindowRuleCondition};
use pinnacle::state::State;
use pinnacle::window::FloatingOrTiled as Mode;
use pinnacle::window::{FullscreenOrMaximized, WindowElement, WindowResizeState, WindowSurface};

fn rect(x: i32, y: i32, w: i32, h: i32) -> Rect {
    Rect { loc: Point { x, y }, size: Size { w, h } }
}

fn tag(id: u32, active: bool) -> Tag {
    Tag { id: TagId(id), active, layout: Layout::MasterStack }
}

fn any_window() -> WindowRuleCondition {
    WindowRuleCondition { cond_any: None, cond_all: None, class: None, title: None, tag: None }
}

fn class(names: &[&str]) -> WindowRuleCondition {
    WindowRuleCondition { class: Some(names.iter().map(|n| n.to_string()).collect()), ..any_window() }
}

fn title(names: &[&str]) -> WindowRuleCondition {
    WindowRuleCondition { title: Some(names.iter().map(|n| n.to_string()).collect()), ..any_window() }
}

fn no_rule() -> WindowRule {
    WindowRule {
        output: None,
        tags: None,
        floating_or_tiled: None,
        fullscreen_or_maximized: None,
        size: None,
        location: None,
    }
}

fn outputs() -> Vec<Output> {
    let mut left = Output::new(OutputId(1), "left".to_string(), rect(0, 0, 1000, 1000));
    left.tags = vec![tag(1, true), tag(2, false)];
    let mut right = Output::new(OutputId(2), "right".to_string(), rect(1000, 0, 1000, 1000));
    right.tags = vec![tag(3, true), tag(4, true)];
    vec![left, right]
}

fn kitty() -> WindowElement {
    let mut w = WindowElement::new(WindowId(0), WindowSurface::Wayland);
    w.class = Some("kitty".to_string());
    w.title = Some("shell".to_string());
    w.tags = vec![TagId(1), TagId(3)];
    w
}

fn state() -> State {
    let mut state = State::new(true, true);
    state.add_output(OutputId(1), "left".to_string(), rect(0, 0, 1000, 1000), vec![tag(1, true), tag(2, false)]);
    state.add_output(OutputId(2), "right".to_string(), rect(1000, 0, 1000, 1000), vec![tag(3, true), tag(4, true)]);
    state
}

fn map(state: &mut State, class: &str) -> WindowId {
    let id = state.new_toplevel(WindowSurface::Wayland);
    state.new_windows.last_mut().unwrap().class = Some(class.to_string());
    state.commit(id, Some(Size { w: 300, h: 200 }));
    id
}

#[test]
fn a_condition_that_asks_for_nothing_is_met_by_every_window() {
    assert!(any_window().is_met(&kitty(), &outputs()));
    assert!(any_window().is_met(&WindowElement::new(WindowId(1), WindowSurface::Wayland), &vec![]));
}

#[test]
fn a_class_condition_asks_for_one_of_its_classes() {
    assert!(class(&["kitty"]).is_met(&kitty(), &outputs()));
    assert!(class(&["foot", "kitty"]).is_met(&kitty(), &outputs()));
    assert!(!class(&["foot"]).is_met(&kitty(), &outputs()));
    assert!(!class(&["Kitty"]).is_met(&kitty(), &outputs()));
    assert!(!class(&[]).is_met(&kitty(), &outputs()));
    assert!(!class(&["kitty"]).is_met(&WindowElement::new(WindowId(1), WindowSurface::Wayland), &outputs()));
}

#[test]
fn a_title_condition_asks_for_one_of_its_titles() {
    assert!(title(&["shell"]).is_met(&kitty(), &outputs()));
    assert!(!title(&["kitty"]).is_met(&kitty(), &outputs()));
}

#[test]
fn a_tag_condition_asks_for_every_tag_that_exists() {
    let on = |tags: &[u32]| WindowRuleCondition {
        tag: Some(tags.iter().map(|t| TagId(*t)).collect()),
        ..any_window()
    };
    assert!(on(&[1]).is_met(&kitty(), &outputs()));
    assert!(on(&[1, 3]).is_met(&kitty(), &outputs()));
    assert!(!on(&[1, 2]).is_met(&kitty(), &outputs()));
    // A tag that no output owns is not asked for.
    assert!(on(&[1, 99]).is_met(&kitty(), &outputs()));
    assert!(on(&[]).is_met(&kitty(), &outputs()));
    assert!(on(&[2]).is_met(&kitty(), &vec![]));
}

#[test]
fn the_parts_of_a_condition_must_all_hold() {
    let both = WindowRuleCondition { title: Some(vec!["shell".to_string()]), ..class(&["kitty"]) };
    assert!(both.is_met(&kitty(), &outputs()));
    let wrong_title = WindowRuleCondition { title: Some(vec!["editor".to_string()]), ..class(&["kitty"]) };
    assert!(!wrong_title.is_met(&kitty(), &outputs()));
}

#[test]
fn any_asks_for_one_and_all_for_every_condition() {
    let any = |conds: Vec<WindowRuleCondition>| WindowRuleCondition { cond_any: Some(conds), ..any_window() };
    let all = |conds: Vec<WindowRuleCondition>| WindowRuleCondition { cond_all: Some(conds), ..any_window() };
    assert!(any(vec![class(&["foot"]), title(&["shell"])]).is_met(&kitty(), &outputs()));
    assert!(!any(vec![class(&["foot"]), title(&["editor"])]).is_met(&kitty(), &outputs()));
    assert!(!any(vec![]).is_met(&kitty(), &outputs()));
    assert!(all(vec![class(&["kitty"]), title(&["shell"])]).is_met(&kitty(), &outputs()));
    assert!(!all(vec![class(&["kitty"]), title(&["editor"])]).is_met(&kitty(), &outputs()));
    assert!(all(vec![]).is_met(&kitty(), &outputs()));
    // Conditions nest.
    assert!(all(vec![any(vec![class(&["foot"]), all(vec![title(&["shell"])])])]).is_met(&kitty(), &outputs()));
    assert!(!all(vec![any(vec![class(&["foot"]), all(vec![title(&["editor"])])])]).is_met(&kitty(), &outputs()));
}

#[test]
fn a_rule_that_sets_nothing_changes_nothing() {
    let mut state = state();
    let id = map(&mut state, "kitty");
    let before = format!("{:?}", state.windows[0]);
    state.apply_rule(WindowId(0), &no_rule());
    assert_eq!(format!("{:?}", state.windows[0]), before);
    assert_eq!(state.windows[0].id, id);
}

#[test]
fn a_rule_puts_a_window_on_its_tags_or_on_its_output() {
    let mut state = state();
    map(&mut state, "kitty");
    state.apply_rule(WindowId(0), &WindowRule { output: Some(OutputName("right".to_string())), ..no_rule() });
    assert_eq!(state.windows[0].tags, vec![TagId(3), TagId(4)]);
    state.apply_rule(WindowId(0), &WindowRule { output: Some(OutputName("nowhere".to_string())), ..no_rule() });
    assert_eq!(state.windows[0].tags, vec![TagId(3), TagId(4)]);
    // Of the tags only those that exist are taken.
    state.apply_rule(WindowId(0), &WindowRule { tags: Some(vec![TagId(2), TagId(99), TagId(4)]), ..no_rule() });
    assert_eq!(state.windows[0].tags, vec![TagId(2), TagId(4)]);
    // Tags win over an output.
    state.apply_rule(
        WindowId(0),
        &WindowRule { tags: Some(vec![TagId(1)]), output: Some(OutputName("right".to_string())), ..no_rule() },
    );
    assert_eq!(state.windows[0].tags, vec![TagId(1)]);
}

#[test]
fn a_rule_sets_mode_state_size_and_location() {
    let mut state = state();
    map(&mut state, "kitty");
    let staged = rect(1000000, 0, 300, 200);
    state.apply_rule(WindowId(0), &WindowRule { floating_or_tiled: Some(FloatingOrTiled::Tiled), ..no_rule() });
    assert_eq!(state.windows[0].floating_or_tiled, Mode::Tiled(None));
    // A size without a rectangle to put it in is dropped.
    state.apply_rule(WindowId(0), &WindowRule { size: Some((5, 6)), ..no_rule() });
    assert_eq!(state.windows[0].floating_or_tiled, Mode::Tiled(None));
    // A location makes the rectangle that the window will float at.
    state.apply_rule(WindowId(0), &WindowRule { location: Some((7, 8)), ..no_rule() });
    assert_eq!(state.windows[0].floating_or_tiled, Mode::Tiled(Some(rect(7, 8, 300, 200))));
    state.apply_rule(WindowId(0), &WindowRule { size: Some((50, 60)), ..no_rule() });
    assert_eq!(state.windows[0].floating_or_tiled, Mode::Tiled(Some(rect(7, 8, 50, 60))));
    state.apply_rule(WindowId(0), &WindowRule { floating_or_tiled: Some(FloatingOrTiled::Floating), ..no_rule() });
    assert_eq!(state.windows[0].floating_or_tiled, Mode::Floating(rect(7, 8, 50, 60)));
    state.apply_rule(WindowId(0), &WindowRule { floating_or_tiled: Some(FloatingOrTiled::Floating), ..no_rule() });
    assert_eq!(state.windows[0].floating_or_tiled, Mode::Floating(rect(7, 8, 50, 60)));
    state.apply_rule(
        WindowId(0),
        &WindowRule {
            fullscreen_or_maximized: Some(FullscreenOrMaximized::Maximized),
            size: Some((1, 4294967295)),
            location: Some((-1, -2)),
            ..no_rule()
        },
    );
    assert_eq!(state.windows[0].floating_or_tiled, Mode::Floating(rect(-1, -2, 1, -1)));
    assert_eq!(state.windows[0].fullscreen_or_maximized, FullscreenOrMaximized::Maximized);
    // A window that never floated floats where it is.
    state.windows[0].floating_or_tiled = Mode::Tiled(None);
    state.apply_rule(WindowId(0), &WindowRule { floating_or_tiled: Some(FloatingOrTiled::Floating), ..no_rule() });
    assert_eq!(state.windows[0].floating_or_tiled, Mode::Floating(staged));
}

#[test]
fn rules_are_applied_to_a_new_window_before_it_is_laid_out() {
    let mut state = state();
    state.window_rules.push((
        class(&["pavucontrol"]),
        WindowRule {
            floating_or_tiled: Some(FloatingOrTiled::Floating),
            size: Some((400, 300)),
            location: Some((100, 100)),
            ..no_rule()
        },
    ));
    state.window_rules.push((class(&["firefox"]), WindowRule { tags: Some(vec![TagId(2)]), ..no_rule() }));
    let terminal = map(&mut state, "kitty");
    let mixer = map(&mut state, "pavucontrol");
    let browser = map(&mut state, "firefox");
    assert_eq!(state.window_rules.len(), 2);

    // The terminal meets no rule and is tiled on the shown tag.
    assert_eq!(state.windows[0].tags, vec![TagId(1)]);
    assert_eq!(state.windows[0].resize_state.target(), Some(rect(0, 0, 1000, 1000)));
    // The mixer floats where its rule put it.
    assert_eq!(state.windows[1].floating_or_tiled, Mode::Floating(rect(100, 100, 400, 300)));
    assert!(matches!(state.windows[1].resize_state, WindowResizeState::Requested(_, r) if r == rect(100, 100, 400, 300)));
    // The browser is on a tag that is not shown and is not laid out.
    assert_eq!(state.windows[2].tags, vec![TagId(2)]);
    assert_eq!(state.windows[2].resize_state, WindowResizeState::Idle);
    assert_eq!(state.space.element_geometry(browser), Some(rect(1000000, 0, 300, 200)));
    assert_eq!(state.windows.iter().map(|w| w.id).collect::<Vec<_>>(), vec![terminal, mixer, browser]);
}

#[test]
fn rules_for_a_window_that_is_gone_change_nothing() {
    let mut state = state();
    map(&mut state, "kitty");
    state.window_rules.push((any_window(), WindowRule { tags: Some(vec![TagId(3)]), ..no_rule() }));
    let before = format!("{:?}", state.windows);
    state.apply_rule(WindowId(9), &WindowRule { tags: Some(vec![TagId(3)]), ..no_rule() });
    state.apply_window_rules(WindowId(9));
    assert_eq!(format!("{:?}", state.windows), before);
    state.apply_window_rules(WindowId(0));
    assert_eq!(state.windows[0].tags, vec![TagId(3)]);
}

#[test]
fn later_rules_see_what_earlier_rules_did() {
    let mut state = state();
    state.window_rules.push((class(&["kitty"]), WindowRule { tags: Some(vec![TagId(3)]), ..no_rule() }));
    state.window_rules.push((
        WindowRuleCondition { tag: Some(vec![TagId(3)]), ..any_window() },
        WindowRule { fullscreen_or_maximized: Some(FullscreenOrMaximized::Fullscreen), ..no_rule() },
    ));
    map(&mut state, "kitty");
    map(&mut state, "foot");
    assert_eq!(state.windows[0].tags, vec![TagId(3)]);
    assert_eq!(state.windows[0].fullscreen_or_maximized, FullscreenOrMaximized::Fullscreen);
    assert_eq!(state.windows[1].tags, vec![TagId(1)]);
    assert_eq!(state.windows[1].fullscreen_or_maximized, FullscreenOrMaximized::Neither);
}
