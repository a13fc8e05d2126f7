//! Window rules: what to set on a new window that meets a condition.

use vstd::prelude::*;
use crate::consistency::is_consistent;
use crate::api;
use crate::geometry::{Point, Rect, Size};
use crate::ids::TagId;
use crate::layout::views;
use crate::lookup::{first_index, first_is_unique, none_is_first};
use crate::output::{Output, OutputView};
use crate::ids::WindowId;
use crate::state::{
    find_tag_output, find_window, output_views, tag_output_index, window_index, State, StateView,
};
use crate::window::{FullscreenOrMaximized, WindowElement, WindowView};

verus! {

/// The name of an output.
#[derive(Debug, Clone, PartialEq, Eq)]
pub struct OutputName(pub String);

/// Whether a rule makes a window float or tiles it.
#[derive(Debug, Clone, Copy, PartialEq, Eq, Hash, Structural)]
pub enum FloatingOrTiled {
    Floating,
    Tiled,
}

/// A condition on a window. A part that is `None` asks for nothing.
#[derive(Debug, PartialEq, Eq)]
pub struct WindowRuleCondition {
    /// At least one of these is to be met.
    pub cond_any: Option<Vec<WindowRuleCondition>>,
    /// All of these are to be met.
    pub cond_all: Option<Vec<WindowRuleCondition>>,
    pub class: Option<Vec<String>>,
    pub title: Option<Vec<String>>,
    pub tag: Option<Vec<TagId>>,
}

/// What a rule sets on a window that meets its condition. A part that is
/// `None` sets nothing.
#[derive(Debug, Clone, PartialEq, Eq)]
pub struct WindowRule {
    pub output: Option<OutputName>,
    pub tags: Option<Vec<TagId>>,
    pub floating_or_tiled: Option<FloatingOrTiled>,
    pub fullscreen_or_maximized: Option<FullscreenOrMaximized>,
    /// A width and a height, neither of them zero.
    pub size: Option<(u32, u32)>,
    pub location: Option<(i32, i32)>,
}

/// The tags with the given numbers.
pub open spec fn tag_ids(numbers: Seq<u32>) -> Seq<TagId> {
    numbers.map_values(|n: u32| TagId(n))
}

/// Whether `cond` says what `msg` says: a list that is empty in the message
/// is a part that is `None` in the condition, and every other list is there
/// entry by entry.
pub open spec fn condition_matches(cond: WindowRuleCondition, msg: api::WindowRuleCondition) -> bool
    decreases msg,
{
    &&& msg.any@.len() == 0 ==> cond.cond_any is None
    &&& msg.any@.len() > 0 ==> (cond.cond_any matches Some(conds) && conds@.len() == msg.any@.len()
        && forall|i: int| 0 <= i < conds@.len() ==> condition_matches(#[trigger] conds@[i], msg.any@[i]))
    &&& msg.all@.len() == 0 ==> cond.cond_all is None
    &&& msg.all@.len() > 0 ==> (cond.cond_all matches Some(conds) && conds@.len() == msg.all@.len()
        && forall|i: int| 0 <= i < conds@.len() ==> condition_matches(#[trigger] conds@[i], msg.all@[i]))
    &&& msg.classes@.len() == 0 ==> cond.class is None
    &&& msg.classes@.len() > 0 ==> (cond.class matches Some(classes) && classes@ == msg.classes@)
    &&& msg.titles@.len() == 0 ==> cond.title is None
    &&& msg.titles@.len() > 0 ==> (cond.title matches Some(titles) && titles@ == msg.titles@)
    &&& msg.tags@.len() == 0 ==> cond.tag is None
    &&& msg.tags@.len() > 0 ==> (cond.tag matches Some(tags) && tags@ == tag_ids(msg.tags@))
}

/// The fullscreen-or-maximized state that the number `code` stands for.
pub open spec fn spec_fullscreen_or_maximized_of(code: Option<i32>) -> Option<FullscreenOrMaximized> {
    match code {
        Some(code) => if code == api::FULLSCREEN_OR_MAXIMIZED_NEITHER {
            Some(FullscreenOrMaximized::Neither)
        } else if code == api::FULLSCREEN_OR_MAXIMIZED_FULLSCREEN {
            Some(FullscreenOrMaximized::Fullscreen)
        } else if code == api::FULLSCREEN_OR_MAXIMIZED_MAXIMIZED {
            Some(FullscreenOrMaximized::Maximized)
        } else {
            None
        },
        None => None,
    }
}

/// The fullscreen-or-maximized state that the number `code` stands for. A
/// number that stands for none, or no number, gives nothing.
#[verifier::when_used_as_spec(spec_fullscreen_or_maximized_of)]
pub fn fullscreen_or_maximized_of(code: Option<i32>) -> (state: Option<FullscreenOrMaximized>)
    ensures
        state == spec_fullscreen_or_maximized_of(code),
{
    match code {
        Some(code) => if code == api::FULLSCREEN_OR_MAXIMIZED_NEITHER {
            Some(FullscreenOrMaximized::Neither)
        } else if code == api::FULLSCREEN_OR_MAXIMIZED_FULLSCREEN {
            Some(FullscreenOrMaximized::Fullscreen)
        } else if code == api::FULLSCREEN_OR_MAXIMIZED_MAXIMIZED {
            Some(FullscreenOrMaximized::Maximized)
        } else {
            None
        },
        None => None,
    }
}

/// The number that stands for `state`.
pub open spec fn spec_fullscreen_or_maximized_code(state: FullscreenOrMaximized) -> i32 {
    match state {
        FullscreenOrMaximized::Neither => api::FULLSCREEN_OR_MAXIMIZED_NEITHER,
        FullscreenOrMaximized::Fullscreen => api::FULLSCREEN_OR_MAXIMIZED_FULLSCREEN,
        FullscreenOrMaximized::Maximized => api::FULLSCREEN_OR_MAXIMIZED_MAXIMIZED,
    }
}

/// The number that stands for `state`.
#[verifier::when_used_as_spec(spec_fullscreen_or_maximized_code)]
pub fn fullscreen_or_maximized_code(state: FullscreenOrMaximized) -> (code: i32)
    ensures
        code == spec_fullscreen_or_maximized_code(state),
{
    match state {
        FullscreenOrMaximized::Neither => api::FULLSCREEN_OR_MAXIMIZED_NEITHER,
        FullscreenOrMaximized::Fullscreen => api::FULLSCREEN_OR_MAXIMIZED_FULLSCREEN,
        FullscreenOrMaximized::Maximized => api::FULLSCREEN_OR_MAXIMIZED_MAXIMIZED,
    }
}

/// The size that a rule sets, given the width and the height of the
/// message. Both must be there, and neither may be zero once it is read as
/// an unsigned number.
pub open spec fn rule_size(width: Option<i32>, height: Option<i32>) -> Option<(u32, u32)> {
    match (width, height) {
        (Some(w), Some(h)) => if w as u32 != 0 && h as u32 != 0 {
            Some((w as u32, h as u32))
        } else {
            None
        },
        _ => None,
    }
}

/// The location that a rule sets, given the coordinates of the message.
/// Both must be there.
pub open spec fn rule_location(x: Option<i32>, y: Option<i32>) -> Option<(i32, i32)> {
    match (x, y) {
        (Some(x), Some(y)) => Some((x, y)),
        _ => None,
    }
}

/// Whether `rule` says what `msg` says.
pub open spec fn rule_matches(rule: WindowRule, msg: api::WindowRule) -> bool {
    &&& match msg.output {
        Some(name) => rule.output matches Some(output) && output.0 == name,
        None => rule.output is None,
    }
    &&& msg.tags@.len() == 0 ==> rule.tags is None
    &&& msg.tags@.len() > 0 ==> (rule.tags matches Some(tags) && tags@ == tag_ids(msg.tags@))
    &&& rule.floating_or_tiled == match msg.floating {
        Some(true) => Some(FloatingOrTiled::Floating),
        Some(false) => Some(FloatingOrTiled::Tiled),
        None => None,
    }
    &&& rule.fullscreen_or_maximized == spec_fullscreen_or_maximized_of(msg.fullscreen_or_maximized)
    &&& rule.size == rule_size(msg.width, msg.height)
    &&& rule.location == rule_location(msg.x, msg.y)
}

/// The tags with the given numbers.
pub fn to_tag_ids(numbers: Vec<u32>) -> (tags: Vec<TagId>)
    ensures
        tags@ == tag_ids(numbers@),
{
    let mut tags: Vec<TagId> = Vec::new();
    let mut i: usize = 0;
    while i < numbers.len()
        invariant
            i <= numbers.len(),
            tags@ == tag_ids(numbers@.subrange(0, i as int)),
        decreases numbers.len() - i,
    {
        tags.push(TagId(numbers[i]));
        assert(numbers@.subrange(0, i + 1).drop_last() == numbers@.subrange(0, i as int));
        i = i + 1;
    }
    assert(numbers@.subrange(0, i as int) == numbers@);
    tags
}

/// The conditions that say what `msgs` say, or `None` if there are none.
fn conditions_from(msgs: Vec<api::WindowRuleCondition>) -> (conds: Option<Vec<WindowRuleCondition>>)
    ensures
        msgs@.len() == 0 ==> conds is None,
        msgs@.len() > 0 ==> (conds matches Some(v) && v@.len() == msgs@.len() && forall|i: int|
            0 <= i < v@.len() ==> condition_matches(#[trigger] v@[i], msgs@[i])),
    decreases msgs, 0int,
{
    if msgs.len() == 0 {
        return None;
    }
    let mut out: Vec<WindowRuleCondition> = Vec::new();
    let mut rest = msgs;
    let ghost mut taken: int = 0;
    while rest.len() > 0
        invariant
            0 <= taken <= msgs@.len(),
            rest@ == msgs@.subrange(taken, msgs@.len() as int),
            out@.len() == taken,
            forall|i: int| 0 <= i < taken ==> condition_matches(#[trigger] out@[i], msgs@[i]),
        decreases rest.len(),
    {
        let child = rest.remove(0);
        assert(child == msgs@[taken]);
        out.push(WindowRuleCondition::from_api(child));
        proof {
            taken = taken + 1;
        }
    }
    Some(out)
}

impl WindowRuleCondition {
    /// The condition that says what the message says.
    pub fn from_api(cond: api::WindowRuleCondition) -> (out: WindowRuleCondition)
        ensures
            condition_matches(out, cond),
        decreases cond, 1int,
    {
        let api::WindowRuleCondition { any, all, classes, titles, tags } = cond;
        let cond_any = conditions_from(any);
        let cond_all = conditions_from(all);
        let class = if classes.len() == 0 {
            None
        } else {
            Some(classes)
        };
        let title = if titles.len() == 0 {
            None
        } else {
            Some(titles)
        };
        let tag = if tags.len() == 0 {
            None
        } else {
            Some(to_tag_ids(tags))
        };
        WindowRuleCondition { cond_any, cond_all, class, title, tag }
    }
}

impl WindowRule {
    /// The rule that says what the message says.
    pub fn from_api(rule: api::WindowRule) -> (out: WindowRule)
        ensures
            rule_matches(out, rule),
    {
        let api::WindowRule { output, tags, floating, fullscreen_or_maximized, x, y, width, height } = rule;
        let output = match output {
            Some(name) => Some(OutputName(name)),
            None => None,
        };
        let tags = if tags.len() == 0 {
            None
        } else {
            Some(to_tag_ids(tags))
        };
        let floating_or_tiled = match floating {
            Some(true) => Some(FloatingOrTiled::Floating),
            Some(false) => Some(FloatingOrTiled::Tiled),
            None => None,
        };
        let size = match (width, height) {
            (Some(w), Some(h)) => {
                let w = #[verifier::truncate] (w as u32);
                let h = #[verifier::truncate] (h as u32);
                if w != 0 && h != 0 {
                    Some((w, h))
                } else {
                    None
                }
            },
            _ => None,
        };
        let location = match (x, y) {
            (Some(x), Some(y)) => Some((x, y)),
            _ => None,
        };
        WindowRule {
            output,
            tags,
            floating_or_tiled,
            fullscreen_or_maximized: fullscreen_or_maximized_of(fullscreen_or_maximized),
            size,
            location,
        }
    }
}

/// Whether `text` is there and is one of `wanted`.
pub open spec fn is_one_of(text: Option<Seq<char>>, wanted: Seq<String>) -> bool {
    exists|i: int| 0 <= i < wanted.len() && text == Some((#[trigger] wanted[i])@)
}

/// Whether a window on `held` is on every tag of `wanted` that some output
/// of `outputs` owns.
pub open spec fn tags_held(held: Seq<TagId>, wanted: Seq<TagId>, outputs: Seq<OutputView>) -> bool {
    forall|i: int|
        0 <= i < wanted.len() && tag_output_index(outputs, #[trigger] wanted[i]) is Some ==> held.contains(
            wanted[i],
        )
}

/// Whether `window` meets `cond`.
///
/// Every part of the condition that is there must hold: one of the
/// conditions under `cond_any` is met, all of those under `cond_all` are
/// met, the window's class is one of the classes, its title is one of the
/// titles, and the window is on every tag that exists.
pub open spec fn is_met(cond: WindowRuleCondition, window: WindowView, outputs: Seq<OutputView>) -> bool
    decreases cond,
{
    &&& match cond.cond_any {
        Some(conds) => exists|i: int| 0 <= i < conds@.len() && is_met(#[trigger] conds@[i], window, outputs),
        None => true,
    }
    &&& match cond.cond_all {
        Some(conds) => forall|i: int| 0 <= i < conds@.len() ==> is_met(#[trigger] conds@[i], window, outputs),
        None => true,
    }
    &&& match cond.class {
        Some(classes) => is_one_of(window.class, classes@),
        None => true,
    }
    &&& match cond.title {
        Some(titles) => is_one_of(window.title, titles@),
        None => true,
    }
    &&& match cond.tag {
        Some(tags) => tags_held(window.tags, tags@, outputs),
        None => true,
    }
}

/// The mode `mode` with its rectangle, if it has one, brought to the size
/// `size`.
pub open spec fn with_size(mode: crate::window::FloatingOrTiled, size: Size) -> crate::window::FloatingOrTiled {
    match mode {
        crate::window::FloatingOrTiled::Floating(rect) => crate::window::FloatingOrTiled::Floating(
            Rect { loc: rect.loc, size },
        ),
        crate::window::FloatingOrTiled::Tiled(Some(rect)) => crate::window::FloatingOrTiled::Tiled(
            Some(Rect { loc: rect.loc, size }),
        ),
        crate::window::FloatingOrTiled::Tiled(None) => mode,
    }
}

/// The mode `mode` with its rectangle moved to `loc`. A mode without a
/// rectangle gets one of the size `size`.
pub open spec fn with_loc(mode: crate::window::FloatingOrTiled, loc: Point, size: Size) -> crate::window::FloatingOrTiled {
    match mode {
        crate::window::FloatingOrTiled::Floating(rect) => crate::window::FloatingOrTiled::Floating(
            Rect { loc, size: rect.size },
        ),
        crate::window::FloatingOrTiled::Tiled(Some(rect)) => crate::window::FloatingOrTiled::Tiled(
            Some(Rect { loc, size: rect.size }),
        ),
        crate::window::FloatingOrTiled::Tiled(None) => crate::window::FloatingOrTiled::Tiled(
            Some(Rect { loc, size }),
        ),
    }
}

/// Whether `text` is there and is one of `wanted`.
fn one_of(text: &Option<String>, wanted: &Vec<String>) -> (found: bool)
    ensures
        found == is_one_of(crate::window::text_view(*text), wanted@),
{
    match text {
        Some(given) => {
            assert(crate::window::text_view(*text) == Some(given@));
            let mut i: usize = 0;
            while i < wanted.len()
                invariant
                    i <= wanted.len(),
                    crate::window::text_view(*text) == Some(given@),
                    forall|k: int| 0 <= k < i ==> given@ != (#[trigger] wanted@[k])@,
                decreases wanted.len() - i,
            {
                if *given == wanted[i] {
                    assert(Some(given@) == Some(wanted@[i as int]@));
                    return true;
                }
                i = i + 1;
            }
            false
        },
        None => false,
    }
}

/// Whether a window on `held` is on every tag of `wanted` that some output
/// of `outputs` owns.
fn holds_tags(held: &Vec<TagId>, wanted: &Vec<TagId>, outputs: &Vec<Output>) -> (all: bool)
    ensures
        all == tags_held(held@, wanted@, output_views(outputs@)),
{
    let mut i: usize = 0;
    while i < wanted.len()
        invariant
            i <= wanted.len(),
            forall|k: int|
                0 <= k < i && tag_output_index(output_views(outputs@), #[trigger] wanted@[k]) is Some
                    ==> held@.contains(wanted@[k]),
        decreases wanted.len() - i,
    {
        if find_tag_output(outputs, wanted[i]).is_some() && !crate::ids::contains_id(held, wanted[i]) {
            return false;
        }
        i = i + 1;
    }
    true
}

impl WindowRuleCondition {
    /// Whether `window` meets the condition, given the outputs and their
    /// tags.
    pub fn is_met(&self, window: &WindowElement, outputs: &Vec<Output>) -> (met: bool)
        ensures
            met == is_met(*self, window@, output_views(outputs@)),
        decreases self,
    {
        let any = match &self.cond_any {
            Some(conds) => {
                let mut found = false;
                let mut i: usize = 0;
                while i < conds.len() && !found
                    invariant
                        i <= conds.len(),
                        self.cond_any == Some(*conds),
                        found ==> exists|k: int|
                            0 <= k < conds@.len() && is_met(
                                #[trigger] conds@[k],
                                window@,
                                output_views(outputs@),
                            ),
                        !found ==> forall|k: int|
                            0 <= k < i ==> !is_met(#[trigger] conds@[k], window@, output_views(outputs@)),
                    decreases conds.len() - i + (if found { 0int } else { 1int }),
                {
                    assert(conds@[i as int] == self.cond_any->0@[i as int]);
                    if conds[i].is_met(window, outputs) {
                        found = true;
                    } else {
                        i = i + 1;
                    }
                }
                found
            },
            None => true,
        };
        let all = match &self.cond_all {
            Some(conds) => {
                let mut every = true;
                let mut i: usize = 0;
                while i < conds.len() && every
                    invariant
                        i <= conds.len(),
                        self.cond_all == Some(*conds),
                        every ==> forall|k: int|
                            0 <= k < i ==> is_met(#[trigger] conds@[k], window@, output_views(outputs@)),
                        !every ==> exists|k: int|
                            0 <= k < conds@.len() && !is_met(
                                #[trigger] conds@[k],
                                window@,
                                output_views(outputs@),
                            ),
                    decreases conds.len() - i + (if every { 1int } else { 0int }),
                {
                    assert(conds@[i as int] == self.cond_all->0@[i as int]);
                    if conds[i].is_met(window, outputs) {
                        i = i + 1;
                    } else {
                        every = false;
                    }
                }
                every
            },
            None => true,
        };
        let classes = match &self.class {
            Some(classes) => one_of(&window.class, classes),
            None => true,
        };
        let titles = match &self.title {
            Some(titles) => one_of(&window.title, titles),
            None => true,
        };
        let tags = match &self.tag {
            Some(tags) => holds_tags(&window.tags, tags, outputs),
            None => true,
        };
        any && all && classes && titles && tags
    }
}

impl WindowView {
    /// The window made to float, or tiled, as `wanted` says. A window that
    /// floats for the first time floats at `current`.
    pub open spec fn with_mode(self, wanted: Option<FloatingOrTiled>, current: Rect) -> WindowView {
        match wanted {
            Some(wanted) => if (wanted is Floating) != self.floating_or_tiled.spec_is_floating() {
                self.toggled_floating(current)
            } else {
                self
            },
            None => self,
        }
    }

    /// The window in the fullscreen or maximized state `wanted`, if that is
    /// there.
    pub open spec fn with_state(self, wanted: Option<FullscreenOrMaximized>) -> WindowView {
        match wanted {
            Some(state) => WindowView { fullscreen_or_maximized: state, ..self },
            None => self,
        }
    }

    /// The window with the rectangle of its mode, if it has one, brought to
    /// the size `wanted`, if that is there.
    pub open spec fn with_size(self, wanted: Option<(u32, u32)>) -> WindowView {
        match wanted {
            Some((w, h)) => WindowView {
                floating_or_tiled: with_size(self.floating_or_tiled, Size { w: w as i32, h: h as i32 }),
                ..self
            },
            None => self,
        }
    }

    /// The window with the rectangle of its mode moved to `wanted`, if that
    /// is there. A mode without a rectangle gets one of the size `size`.
    pub open spec fn with_loc(self, wanted: Option<(i32, i32)>, size: Size) -> WindowView {
        match wanted {
            Some((x, y)) => WindowView {
                floating_or_tiled: with_loc(self.floating_or_tiled, Point { x, y }, size),
                ..self
            },
            None => self,
        }
    }
}

impl WindowElement {
    /// Makes the window float, or tiles it, as `wanted` says.
    pub fn set_mode(&mut self, wanted: Option<FloatingOrTiled>, current: Rect)
        ensures
            final(self)@ == old(self)@.with_mode(wanted, current),
    {
        match wanted {
            Some(wanted) => {
                let floating = match wanted {
                    FloatingOrTiled::Floating => true,
                    FloatingOrTiled::Tiled => false,
                };
                if floating != self.floating_or_tiled.is_floating() {
                    self.toggle_floating(current);
                }
            },
            None => {},
        }
    }

    /// Puts the window in the fullscreen or maximized state `wanted`, if
    /// that is there.
    pub fn set_state(&mut self, wanted: Option<FullscreenOrMaximized>)
        ensures
            final(self)@ == old(self)@.with_state(wanted),
    {
        match wanted {
            Some(state) => {
                self.fullscreen_or_maximized = state;
            },
            None => {},
        }
    }

    /// Brings the rectangle of the window's mode, if it has one, to the size
    /// `wanted`, if that is there.
    pub fn set_size(&mut self, wanted: Option<(u32, u32)>)
        ensures
            final(self)@ == old(self)@.with_size(wanted),
    {
        match wanted {
            Some((w, h)) => {
                let size = Size { w: #[verifier::truncate] (w as i32), h: #[verifier::truncate] (h as i32) };
                self.floating_or_tiled = match self.floating_or_tiled {
                    crate::window::FloatingOrTiled::Floating(rect) => crate::window::FloatingOrTiled::Floating(
                        Rect { loc: rect.loc, size },
                    ),
                    crate::window::FloatingOrTiled::Tiled(Some(rect)) => crate::window::FloatingOrTiled::Tiled(
                        Some(Rect { loc: rect.loc, size }),
                    ),
                    crate::window::FloatingOrTiled::Tiled(None) => crate::window::FloatingOrTiled::Tiled(None),
                };
            },
            None => {},
        }
    }

    /// Moves the rectangle of the window's mode to `wanted`, if that is
    /// there. A mode without a rectangle gets one of the size `size`.
    pub fn set_loc(&mut self, wanted: Option<(i32, i32)>, size: Size)
        ensures
            final(self)@ == old(self)@.with_loc(wanted, size),
    {
        match wanted {
            Some((x, y)) => {
                let loc = Point { x, y };
                self.floating_or_tiled = match self.floating_or_tiled {
                    crate::window::FloatingOrTiled::Floating(rect) => crate::window::FloatingOrTiled::Floating(
                        Rect { loc, size: rect.size },
                    ),
                    crate::window::FloatingOrTiled::Tiled(Some(rect)) => crate::window::FloatingOrTiled::Tiled(
                        Some(Rect { loc, size: rect.size }),
                    ),
                    crate::window::FloatingOrTiled::Tiled(None) => crate::window::FloatingOrTiled::Tiled(
                        Some(Rect { loc, size }),
                    ),
                };
            },
            None => {},
        }
    }
}

impl StateView {
    /// The index of the first output named `name`.
    pub open spec fn output_named(self, name: Seq<char>) -> Option<int> {
        first_index(self.outputs, |o: OutputView| o.name == name)
    }

    /// Those of `tags` that some output owns, in their order.
    pub open spec fn known_tags(self, tags: Seq<TagId>) -> Seq<TagId> {
        tags.filter(|t: TagId| tag_output_index(self.outputs, t) is Some)
    }

    /// The tags that `rule` puts `window` on: those of the rule's tags that
    /// exist, if the rule names tags; else the active tags of the rule's
    /// output, if the rule names an output and there is one of that name;
    /// else the tags the window is on.
    pub open spec fn ruled_tags(self, window: WindowView, rule: WindowRule) -> Seq<TagId> {
        match rule.tags {
            Some(tags) => self.known_tags(tags@),
            None => match rule.output {
                Some(name) => match self.output_named(name.0@) {
                    Some(output) => self.outputs[output].focused_tags(),
                    None => window.tags,
                },
                None => window.tags,
            },
        }
    }

    /// `window` with what `rule` sets put on it.
    ///
    /// The window goes on the tags that the rule puts it on. Then, part by
    /// part in this order: a mode makes the window float or tiles it, and a
    /// window that floats for the first time floats where it is; a
    /// fullscreen or maximized state is taken as it is; a size and a
    /// location go into the rectangle that the window floats at, now or
    /// later.
    pub open spec fn ruled(self, window: WindowView, rule: WindowRule) -> WindowView {
        let geometry = self.geometry_of(window.id);
        WindowView { tags: self.ruled_tags(window, rule), ..window }.with_mode(
            rule.floating_or_tiled,
            geometry,
        ).with_state(rule.fullscreen_or_maximized).with_size(rule.size).with_loc(rule.location, geometry.size)
    }

    /// The state after `rule` was applied to the window `id`. Nothing
    /// happens if the window is not mapped.
    pub open spec fn rule_applied(self, id: WindowId, rule: WindowRule) -> StateView {
        match window_index(self.windows, id) {
            Some(index) => self.with_window(index, self.ruled(self.windows[index], rule)),
            None => self,
        }
    }

    /// The state after the window rules were applied to the window `id`:
    /// each rule whose condition the window meets, in the order the rules
    /// were added. Nothing happens if the window is not mapped.
    pub open spec fn window_rules_applied(self, id: WindowId) -> StateView {
        match window_index(self.windows, id) {
            Some(index) => self.rules_applied(index, self.window_rules),
            None => self,
        }
    }

    /// The state after each rule of `rules` whose condition the mapped
    /// window at `index` meets was applied to it, one after the other.
    pub open spec fn rules_applied(self, index: int, rules: Seq<(WindowRuleCondition, WindowRule)>) -> StateView
        decreases rules.len(),
    {
        if rules.len() == 0 {
            self
        } else {
            let before = self.rules_applied(index, rules.drop_last());
            if is_met(rules.last().0, before.windows[index], before.outputs) {
                before.with_window(index, before.ruled(before.windows[index], rules.last().1))
            } else {
                before
            }
        }
    }
}

impl State {
    /// The index of the first output named `name`.
    pub fn output_named(&self, name: &String) -> (index: Option<usize>)
        ensures
            match index {
                Some(i) => self@.output_named(name@) == Some(i as int) && i < self.outputs.len(),
                None => self@.output_named(name@) is None,
            },
    {
        let ghost pred = |o: OutputView| o.name == name@;
        let mut i: usize = 0;
        while i < self.outputs.len()
            invariant
                i <= self.outputs.len(),
                pred == |o: OutputView| o.name == name@,
                forall|j: int| 0 <= j < i ==> !pred(#[trigger] output_views(self.outputs@)[j]),
            decreases self.outputs.len() - i,
        {
            if self.outputs[i].name == *name {
                proof {
                    assert(pred(output_views(self.outputs@)[i as int]));
                    first_is_unique(output_views(self.outputs@), pred, i as int);
                }
                return Some(i);
            }
            i = i + 1;
        }
        proof {
            none_is_first(output_views(self.outputs@), pred);
        }
        None
    }

    /// Those of `tags` that some output owns, in their order.
    pub fn known_tags(&self, tags: &Vec<TagId>) -> (known: Vec<TagId>)
        ensures
            known@ == self@.known_tags(tags@),
    {
        let ghost pred = |t: TagId| tag_output_index(self@.outputs, t) is Some;
        let mut known: Vec<TagId> = Vec::new();
        let mut i: usize = 0;
        while i < tags.len()
            invariant
                i <= tags.len(),
                pred == |t: TagId| tag_output_index(self@.outputs, t) is Some,
                known@ == tags@.subrange(0, i as int).filter(pred),
            decreases tags.len() - i,
        {
            proof {
                let next = tags@.subrange(0, i + 1);
                assert(next.drop_last() == tags@.subrange(0, i as int));
                reveal(Seq::filter);
            }
            if find_tag_output(&self.outputs, tags[i]).is_some() {
                known.push(tags[i]);
            }
            i = i + 1;
        }
        assert(tags@.subrange(0, i as int) == tags@);
        known
    }

    /// The tags that `rule` puts the mapped window at `index` on, if they
    /// are others than the ones it is on.
    pub(crate) fn ruled_tags(&self, index: usize, rule: &WindowRule) -> (tags: Option<Vec<TagId>>)
        requires
            index < self.windows.len(),
        ensures
            match tags {
                Some(tags) => tags@ == self@.ruled_tags(self@.windows[index as int], *rule),
                None => self@.windows[index as int].tags == self@.ruled_tags(
                    self@.windows[index as int],
                    *rule,
                ),
            },
    {
        match &rule.tags {
            Some(tags) => Some(self.known_tags(tags)),
            None => match &rule.output {
                Some(name) => match self.output_named(&name.0) {
                    Some(output) => {
                        assert(output_views(self.outputs@)[output as int] == self.outputs@[output as int]@);
                        Some(self.outputs[output].focused_tags())
                    },
                    None => None,
                },
                None => None,
            },
        }
    }

    /// Puts what `rule` sets on the mapped window at `index`.
    pub(crate) fn apply_rule_at(&mut self, index: usize, rule: &WindowRule)
        requires
            index < old(self).windows.len(),
        ensures
            final(self)@ == old(self)@.with_window(
                index as int,
                old(self)@.ruled(old(self)@.windows[index as int], *rule),
            ),
            final(self).windows.len() == old(self).windows.len(),
            final(self).outputs.len() == old(self).outputs.len(),
    {
        assert(views(self.windows@)[index as int] == self.windows@[index as int]@);
        let geometry = self.geometry_of(self.windows[index].id);
        let tags = self.ruled_tags(index, rule);
        match tags {
            Some(tags) => {
                self.windows[index].tags = tags;
            },
            None => {},
        }
        let ghost tagged = self.windows@[index as int]@;
        assert(tagged == (WindowView {
            tags: old(self)@.ruled_tags(old(self)@.windows[index as int], *rule),
            ..old(self)@.windows[index as int]
        }));
        self.windows[index].set_mode(rule.floating_or_tiled, geometry);
        self.windows[index].set_state(rule.fullscreen_or_maximized);
        self.windows[index].set_size(rule.size);
        self.windows[index].set_loc(rule.location, geometry.size);
        assert(self@ =~= old(self)@.with_window(
            index as int,
            old(self)@.ruled(old(self)@.windows[index as int], *rule),
        ));
    }

    /// Puts what `rule` sets on the window `id`.
    pub fn apply_rule(&mut self, id: WindowId, rule: &WindowRule)
        ensures
            final(self)@ == old(self)@.rule_applied(id, *rule),
            is_consistent(old(self)@) ==> is_consistent(final(self)@),
    {
        proof {
            crate::lookup::first_index_is_first(old(self)@.windows, |w: WindowView| w.id == id);
            crate::consistency::same_activation_same_consistency(
                old(self)@.rule_applied(id, *rule),
                old(self)@,
            );
        }
        match find_window(&self.windows, id) {
            Some(index) => self.apply_rule_at(index, rule),
            None => {},
        }
    }

    /// Applies to the window `id` every window rule whose condition the
    /// window meets, in the order the rules were added.
    pub fn apply_window_rules(&mut self, id: WindowId)
        ensures
            final(self)@ == old(self)@.window_rules_applied(id),
            is_consistent(old(self)@) ==> is_consistent(final(self)@),
    {
        proof {
            crate::lookup::first_index_is_first(old(self)@.windows, |w: WindowView| w.id == id);
            if window_index(old(self)@.windows, id) is Some {
                crate::consistency::rules_keep_activation(
                    old(self)@,
                    window_index(old(self)@.windows, id)->0,
                    old(self)@.window_rules,
                );
            }
            crate::consistency::same_activation_same_consistency(
                old(self)@.window_rules_applied(id),
                old(self)@,
            );
        }
        match find_window(&self.windows, id) {
            Some(index) => self.apply_window_rules_at(index),
            None => {},
        }
    }

    /// Applies to the mapped window at `index` every window rule whose
    /// condition the window meets, in the order the rules were added.
    pub(crate) fn apply_window_rules_at(&mut self, index: usize)
        requires
            index < old(self).windows.len(),
        ensures
            final(self)@ == old(self)@.rules_applied(index as int, old(self)@.window_rules),
            final(self).windows.len() == old(self).windows.len(),
            final(self).outputs.len() == old(self).outputs.len(),
    {
        let mut rules: Vec<(WindowRuleCondition, WindowRule)> = Vec::new();
        std::mem::swap(&mut self.window_rules, &mut rules);
        let ghost empty = self.window_rules@;
        let mut i: usize = 0;
        while i < rules.len()
            invariant
                i <= rules.len(),
                index < self.windows.len(),
                self.windows.len() == old(self).windows.len(),
                self.outputs.len() == old(self).outputs.len(),
                rules@ == old(self).window_rules@,
                self.window_rules@ == empty,
                (StateView { window_rules: rules@, ..self@ }) == old(self)@.rules_applied(
                    index as int,
                    rules@.subrange(0, i as int),
                ),
            decreases rules.len() - i,
        {
            proof {
                let next = rules@.subrange(0, i + 1);
                assert(next.drop_last() == rules@.subrange(0, i as int));
                assert(next.last() == rules@[i as int]);
                assert(views(self.windows@)[index as int] == self.windows@[index as int]@);
            }
            let ghost before = StateView { window_rules: rules@, ..self@ };
            if rules[i].0.is_met(&self.windows[index], &self.outputs) {
                self.apply_rule_at(index, &rules[i].1);
                assert((StateView { window_rules: rules@, ..self@ }) =~= before.with_window(
                    index as int,
                    before.ruled(before.windows[index as int], rules@[i as int].1),
                ));
            }
            i = i + 1;
        }
        assert(rules@.subrange(0, i as int) == rules@);
        std::mem::swap(&mut self.window_rules, &mut rules);
    }
}

} // verus!
