//! The remote window service: it checks what a caller asks for and hands
//! what is well-formed to the event loop.
//!
//! The service never touches the state itself. A request that passes the
//! check becomes a [`StateFn`] in a queue; the event loop takes it from
//! there and runs it on the state, alone and to the end, so that no
//! protocol event sees a request half done.

use vstd::prelude::*;
use crate::consistency::is_consistent;
use crate::api;
use crate::control::SetOrToggle;
use crate::effect::{Effect, Fault};
use crate::ids::{TagId, WindowId};
use crate::layout::views;
use crate::rules::{
    condition_matches, fullscreen_or_maximized_code, rule_matches, spec_fullscreen_or_maximized_code,
    WindowRule, WindowRuleCondition,
};
use crate::state::{find_window, output_views, window_index, State, StateView, Step};
use crate::window::{text_view, Geometry, WindowView};

verus! {

/// Why a request was turned down. Each of these is an invalid argument.
#[derive(Debug, Clone, Copy, PartialEq, Eq, Hash, Structural)]
pub enum Status {
    NoWindowSpecified,
    NoTagSpecified,
    NoButtonSpecified,
    NoConditionSpecified,
    NoRuleSpecified,
    UnspecifiedSetOrToggle,
}

impl Status {
    /// The reason in words.
    pub fn message(self) -> (message: &'static str)
        ensures
            message@ == match self {
                Status::NoWindowSpecified => "no window specified"@,
                Status::NoTagSpecified => "no tag specified"@,
                Status::NoButtonSpecified => "no button specified"@,
                Status::NoConditionSpecified => "no condition specified"@,
                Status::NoRuleSpecified => "no rule specified"@,
                Status::UnspecifiedSetOrToggle => "unspecified set or toggle"@,
            },
    {
        match self {
            Status::NoWindowSpecified => "no window specified",
            Status::NoTagSpecified => "no tag specified",
            Status::NoButtonSpecified => "no button specified",
            Status::NoConditionSpecified => "no condition specified",
            Status::NoRuleSpecified => "no rule specified",
            Status::UnspecifiedSetOrToggle => "unspecified set or toggle",
        }
    }
}

/// What the number in a set-or-toggle field stands for.
pub open spec fn spec_set_or_toggle_of(code: Option<i32>) -> Option<SetOrToggle> {
    match code {
        Some(code) => if code == api::SET_OR_TOGGLE_SET {
            Some(SetOrToggle::SetOn)
        } else if code == api::SET_OR_TOGGLE_UNSET {
            Some(SetOrToggle::Unset)
        } else if code == api::SET_OR_TOGGLE_TOGGLE {
            Some(SetOrToggle::Toggle)
        } else {
            None
        },
        None => None,
    }
}

/// What the number in a set-or-toggle field stands for. A number that
/// stands for nothing, or no number, gives nothing.
#[verifier::when_used_as_spec(spec_set_or_toggle_of)]
pub fn set_or_toggle_of(code: Option<i32>) -> (set_or_toggle: Option<SetOrToggle>)
    ensures
        set_or_toggle == spec_set_or_toggle_of(code),
{
    match code {
        Some(code) => if code == api::SET_OR_TOGGLE_SET {
            Some(SetOrToggle::SetOn)
        } else if code == api::SET_OR_TOGGLE_UNSET {
            Some(SetOrToggle::Unset)
        } else if code == api::SET_OR_TOGGLE_TOGGLE {
            Some(SetOrToggle::Toggle)
        } else {
            None
        },
        None => None,
    }
}

/// Something to run on the state with no event in between.
#[derive(Debug, PartialEq, Eq)]
pub enum StateFn {
    Close { window_id: WindowId },
    SetGeometry { window_id: WindowId, geometry: Geometry },
    SetFullscreen { window_id: WindowId, set_or_toggle: SetOrToggle },
    SetMaximized { window_id: WindowId, set_or_toggle: SetOrToggle },
    SetFloating { window_id: WindowId, set_or_toggle: SetOrToggle },
    SetFocused { window_id: WindowId, set_or_toggle: SetOrToggle },
    MoveToTag { window_id: WindowId, tag_id: TagId },
    SetTag { window_id: WindowId, tag_id: TagId, set_or_toggle: SetOrToggle },
    Raise { window_id: WindowId },
    MoveGrab { button: u32 },
    ResizeGrab { button: u32 },
    Get,
    GetProperties { window_id: WindowId },
    AddWindowRule { cond: WindowRuleCondition, rule: WindowRule },
}

/// The queue through which the service hands its requests to the event
/// loop, oldest first.
#[derive(Debug)]
pub struct StateFnSender {
    pub queue: Vec<StateFn>,
}

impl StateFnSender {
    /// An empty queue.
    pub fn new() -> (sender: StateFnSender)
        ensures
            sender.queue@ == Seq::<StateFn>::empty(),
    {
        StateFnSender { queue: Vec::new() }
    }

    /// Takes the oldest request off the queue.
    pub fn next(&mut self) -> (next: Option<StateFn>)
        ensures
            match next {
                Some(f) => old(self).queue@.len() > 0 && f == old(self).queue@[0] && final(self).queue@
                    == old(self).queue@.drop_first(),
                None => old(self).queue@.len() == 0 && final(self).queue@ == old(self).queue@,
            },
    {
        if self.queue.len() == 0 {
            None
        } else {
            let f = self.queue.remove(0);
            assert(self.queue@ == old(self).queue@.drop_first());
            Some(f)
        }
    }
}

/// The remote window service.
#[derive(Debug)]
pub struct WindowService {
    pub sender: StateFnSender,
}

impl WindowService {
    /// A service that hands its requests to `sender`.
    pub fn new(sender: StateFnSender) -> (service: WindowService)
        ensures
            service.sender == sender,
    {
        WindowService { sender }
    }

    /// Whether the service has handed on exactly `f` and nothing else since
    /// it was `before`.
    pub open spec fn handed_on(self, before: WindowService, f: StateFn) -> bool {
        self.sender.queue@ == before.sender.queue@.push(f)
    }

    /// Whether the service has handed on nothing since it was `before`.
    pub open spec fn handed_on_nothing(self, before: WindowService) -> bool {
        self.sender.queue@ == before.sender.queue@
    }

    /// Asks for a window to be closed.
    pub fn close(&mut self, request: api::CloseRequest) -> (result: Result<(), Status>)
        ensures
            match request.window_id {
                Some(id) => result is Ok && final(self).handed_on(
                    *old(self),
                    StateFn::Close { window_id: WindowId(id) },
                ),
                None => result == Err::<(), Status>(Status::NoWindowSpecified) && final(self).handed_on_nothing(*old(self)),
            },
    {
        match request.window_id {
            Some(id) => {
                self.sender.queue.push(StateFn::Close { window_id: WindowId(id) });
                Ok(())
            },
            None => Err(Status::NoWindowSpecified),
        }
    }

    /// Asks for a window's geometry to be set. Where the request gives no
    /// geometry, nothing of the geometry is changed.
    pub fn set_geometry(&mut self, request: api::SetGeometryRequest) -> (result: Result<(), Status>)
        ensures
            match request.window_id {
                Some(id) => result is Ok && final(self).handed_on(
                    *old(self),
                    StateFn::SetGeometry {
                        window_id: WindowId(id),
                        geometry: match request.geometry {
                            Some(geometry) => geometry,
                            None => Geometry { x: None, y: None, width: None, height: None },
                        },
                    },
                ),
                None => result == Err::<(), Status>(Status::NoWindowSpecified) && final(self).handed_on_nothing(*old(self)),
            },
    {
        match request.window_id {
            Some(id) => {
                let geometry = match request.geometry {
                    Some(geometry) => geometry,
                    None => Geometry { x: None, y: None, width: None, height: None },
                };
                self.sender.queue.push(StateFn::SetGeometry { window_id: WindowId(id), geometry });
                Ok(())
            },
            None => Err(Status::NoWindowSpecified),
        }
    }

    /// Asks for fullscreen to be set, unset or flipped for a window.
    pub fn set_fullscreen(&mut self, request: api::SetFullscreenRequest) -> (result: Result<(), Status>)
        ensures
            match (request.window_id, spec_set_or_toggle_of(request.set_or_toggle)) {
                (Some(id), Some(set_or_toggle)) => result is Ok && final(self).handed_on(
                    *old(self),
                    StateFn::SetFullscreen { window_id: WindowId(id), set_or_toggle },
                ),
                (None, _) => result == Err::<(), Status>(Status::NoWindowSpecified) && final(self).handed_on_nothing(*old(self)),
                (Some(_), None) => result == Err::<(), Status>(Status::UnspecifiedSetOrToggle) && final(self).handed_on_nothing(*old(self)),
            },
    {
        let id = match request.window_id {
            Some(id) => id,
            None => {
                return Err(Status::NoWindowSpecified);
            },
        };
        match set_or_toggle_of(request.set_or_toggle) {
            Some(set_or_toggle) => {
                self.sender.queue.push(StateFn::SetFullscreen { window_id: WindowId(id), set_or_toggle });
                Ok(())
            },
            None => Err(Status::UnspecifiedSetOrToggle),
        }
    }

    /// Asks for the maximized state to be set, unset or flipped for a
    /// window.
    pub fn set_maximized(&mut self, request: api::SetMaximizedRequest) -> (result: Result<(), Status>)
        ensures
            match (request.window_id, spec_set_or_toggle_of(request.set_or_toggle)) {
                (Some(id), Some(set_or_toggle)) => result is Ok && final(self).handed_on(
                    *old(self),
                    StateFn::SetMaximized { window_id: WindowId(id), set_or_toggle },
                ),
                (None, _) => result == Err::<(), Status>(Status::NoWindowSpecified) && final(self).handed_on_nothing(*old(self)),
                (Some(_), None) => result == Err::<(), Status>(Status::UnspecifiedSetOrToggle) && final(self).handed_on_nothing(*old(self)),
            },
    {
        let id = match request.window_id {
            Some(id) => id,
            None => {
                return Err(Status::NoWindowSpecified);
            },
        };
        match set_or_toggle_of(request.set_or_toggle) {
            Some(set_or_toggle) => {
                self.sender.queue.push(StateFn::SetMaximized { window_id: WindowId(id), set_or_toggle });
                Ok(())
            },
            None => Err(Status::UnspecifiedSetOrToggle),
        }
    }

    /// Asks for floating to be set, unset or flipped for a window.
    pub fn set_floating(&mut self, request: api::SetFloatingRequest) -> (result: Result<(), Status>)
        ensures
            match (request.window_id, spec_set_or_toggle_of(request.set_or_toggle)) {
                (Some(id), Some(set_or_toggle)) => result is Ok && final(self).handed_on(
                    *old(self),
                    StateFn::SetFloating { window_id: WindowId(id), set_or_toggle },
                ),
                (None, _) => result == Err::<(), Status>(Status::NoWindowSpecified) && final(self).handed_on_nothing(*old(self)),
                (Some(_), None) => result == Err::<(), Status>(Status::UnspecifiedSetOrToggle) && final(self).handed_on_nothing(*old(self)),
            },
    {
        let id = match request.window_id {
            Some(id) => id,
            None => {
                return Err(Status::NoWindowSpecified);
            },
        };
        match set_or_toggle_of(request.set_or_toggle) {
            Some(set_or_toggle) => {
                self.sender.queue.push(StateFn::SetFloating { window_id: WindowId(id), set_or_toggle });
                Ok(())
            },
            None => Err(Status::UnspecifiedSetOrToggle),
        }
    }

    /// Asks for the focus to be set on, taken from, or flipped for a window.
    pub fn set_focused(&mut self, request: api::SetFocusedRequest) -> (result: Result<(), Status>)
        ensures
            match (request.window_id, spec_set_or_toggle_of(request.set_or_toggle)) {
                (Some(id), Some(set_or_toggle)) => result is Ok && final(self).handed_on(
                    *old(self),
                    StateFn::SetFocused { window_id: WindowId(id), set_or_toggle },
                ),
                (None, _) => result == Err::<(), Status>(Status::NoWindowSpecified) && final(self).handed_on_nothing(*old(self)),
                (Some(_), None) => result == Err::<(), Status>(Status::UnspecifiedSetOrToggle) && final(self).handed_on_nothing(*old(self)),
            },
    {
        let id = match request.window_id {
            Some(id) => id,
            None => {
                return Err(Status::NoWindowSpecified);
            },
        };
        match set_or_toggle_of(request.set_or_toggle) {
            Some(set_or_toggle) => {
                self.sender.queue.push(StateFn::SetFocused { window_id: WindowId(id), set_or_toggle });
                Ok(())
            },
            None => Err(Status::UnspecifiedSetOrToggle),
        }
    }

    /// Asks for a window to be moved to a tag, off every other tag.
    pub fn move_to_tag(&mut self, request: api::MoveToTagRequest) -> (result: Result<(), Status>)
        ensures
            match (request.window_id, request.tag_id) {
                (Some(id), Some(tag)) => result is Ok && final(self).handed_on(
                    *old(self),
                    StateFn::MoveToTag { window_id: WindowId(id), tag_id: TagId(tag) },
                ),
                (None, _) => result == Err::<(), Status>(Status::NoWindowSpecified) && final(self).handed_on_nothing(*old(self)),
                (Some(_), None) => result == Err::<(), Status>(Status::NoTagSpecified) && final(self).handed_on_nothing(*old(self)),
            },
    {
        let id = match request.window_id {
            Some(id) => id,
            None => {
                return Err(Status::NoWindowSpecified);
            },
        };
        match request.tag_id {
            Some(tag) => {
                self.sender.queue.push(StateFn::MoveToTag { window_id: WindowId(id), tag_id: TagId(tag) });
                Ok(())
            },
            None => Err(Status::NoTagSpecified),
        }
    }

    /// Asks for a window to be put on a tag, taken off it, or flipped.
    pub fn set_tag(&mut self, request: api::SetTagRequest) -> (result: Result<(), Status>)
        ensures
            match (request.window_id, request.tag_id, spec_set_or_toggle_of(request.set_or_toggle)) {
                (Some(id), Some(tag), Some(set_or_toggle)) => result is Ok && final(self).handed_on(
                    *old(self),
                    StateFn::SetTag { window_id: WindowId(id), tag_id: TagId(tag), set_or_toggle },
                ),
                (None, _, _) => result == Err::<(), Status>(Status::NoWindowSpecified) && final(self).handed_on_nothing(*old(self)),
                (Some(_), None, _) => result == Err::<(), Status>(Status::NoTagSpecified) && final(self).handed_on_nothing(*old(self)),
                (Some(_), Some(_), None) => result == Err::<(), Status>(Status::UnspecifiedSetOrToggle)
                    && final(self).handed_on_nothing(*old(self)),
            },
    {
        let id = match request.window_id {
            Some(id) => id,
            None => {
                return Err(Status::NoWindowSpecified);
            },
        };
        let tag = match request.tag_id {
            Some(tag) => tag,
            None => {
                return Err(Status::NoTagSpecified);
            },
        };
        match set_or_toggle_of(request.set_or_toggle) {
            Some(set_or_toggle) => {
                self.sender.queue.push(
                    StateFn::SetTag { window_id: WindowId(id), tag_id: TagId(tag), set_or_toggle },
                );
                Ok(())
            },
            None => Err(Status::UnspecifiedSetOrToggle),
        }
    }

    /// Asks for a window to be put on top of all others.
    pub fn raise(&mut self, request: api::RaiseRequest) -> (result: Result<(), Status>)
        ensures
            match request.window_id {
                Some(id) => result is Ok && final(self).handed_on(
                    *old(self),
                    StateFn::Raise { window_id: WindowId(id) },
                ),
                None => result == Err::<(), Status>(Status::NoWindowSpecified) && final(self).handed_on_nothing(*old(self)),
            },
    {
        match request.window_id {
            Some(id) => {
                self.sender.queue.push(StateFn::Raise { window_id: WindowId(id) });
                Ok(())
            },
            None => Err(Status::NoWindowSpecified),
        }
    }

    /// Asks for a move of the window under the pointer to begin.
    pub fn move_grab(&mut self, request: api::MoveGrabRequest) -> (result: Result<(), Status>)
        ensures
            match request.button {
                Some(button) => result is Ok && final(self).handed_on(*old(self), StateFn::MoveGrab { button }),
                None => result == Err::<(), Status>(Status::NoButtonSpecified) && final(self).handed_on_nothing(*old(self)),
            },
    {
        match request.button {
            Some(button) => {
                self.sender.queue.push(StateFn::MoveGrab { button });
                Ok(())
            },
            None => Err(Status::NoButtonSpecified),
        }
    }

    /// Asks for a resize of the window under the pointer to begin.
    pub fn resize_grab(&mut self, request: api::ResizeGrabRequest) -> (result: Result<(), Status>)
        ensures
            match request.button {
                Some(button) => result is Ok && final(self).handed_on(
                    *old(self),
                    StateFn::ResizeGrab { button },
                ),
                None => result == Err::<(), Status>(Status::NoButtonSpecified) && final(self).handed_on_nothing(*old(self)),
            },
    {
        match request.button {
            Some(button) => {
                self.sender.queue.push(StateFn::ResizeGrab { button });
                Ok(())
            },
            None => Err(Status::NoButtonSpecified),
        }
    }

    /// Asks for the identities of all windows.
    pub fn get(&mut self, request: api::GetRequest)
        ensures
            final(self).handed_on(*old(self), StateFn::Get),
    {
        self.sender.queue.push(StateFn::Get);
    }

    /// Asks for what is known of a window.
    pub fn get_properties(&mut self, request: api::GetPropertiesRequest) -> (result: Result<(), Status>)
        ensures
            match request.window_id {
                Some(id) => result is Ok && final(self).handed_on(
                    *old(self),
                    StateFn::GetProperties { window_id: WindowId(id) },
                ),
                None => result == Err::<(), Status>(Status::NoWindowSpecified) && final(self).handed_on_nothing(*old(self)),
            },
    {
        match request.window_id {
            Some(id) => {
                self.sender.queue.push(StateFn::GetProperties { window_id: WindowId(id) });
                Ok(())
            },
            None => Err(Status::NoWindowSpecified),
        }
    }

    /// Asks for a window rule to be added.
    pub fn add_window_rule(&mut self, request: api::AddWindowRuleRequest) -> (result: Result<(), Status>)
        ensures
            match (request.cond, request.rule) {
                (Some(cond_msg), Some(rule_msg)) => result is Ok && final(self).sender.queue@.len() == old(self).sender.queue@.len() + 1 && final(self).sender.queue@.drop_last() == old(self).sender.queue@
                    && (final(self).sender.queue@.last() matches StateFn::AddWindowRule { cond, rule }
                    && condition_matches(cond, cond_msg) && rule_matches(rule, rule_msg)),
                (None, _) => result == Err::<(), Status>(Status::NoConditionSpecified) && final(self).handed_on_nothing(*old(self)),
                (Some(_), None) => result == Err::<(), Status>(Status::NoRuleSpecified) && final(self).handed_on_nothing(*old(self)),
            },
    {
        let api::AddWindowRuleRequest { cond, rule } = request;
        let cond = match cond {
            Some(cond) => cond,
            None => {
                return Err(Status::NoConditionSpecified);
            },
        };
        let rule = match rule {
            Some(rule) => rule,
            None => {
                return Err(Status::NoRuleSpecified);
            },
        };
        let cond = WindowRuleCondition::from_api(cond);
        let rule = WindowRule::from_api(rule);
        self.sender.queue.push(StateFn::AddWindowRule { cond, rule });
        assert(self.sender.queue@.drop_last() == old(self).sender.queue@);
        Ok(())
    }
}

/// What the event loop hands back to the caller of a request.
#[derive(Debug, PartialEq, Eq)]
pub enum Response {
    /// The request was carried out and has nothing to report.
    Done,
    Get(api::GetResponse),
    GetProperties(api::GetPropertiesResponse),
}

/// A copy of a string that may be absent.
fn copy_text(text: &Option<String>) -> (copy: Option<String>)
    ensures
        text_view(copy) == text_view(*text),
{
    match text {
        Some(s) => Some(s.clone()),
        None => None,
    }
}

impl StateView {
    /// The numbers of the mapped windows, in the order they were mapped.
    pub open spec fn window_ids(self) -> Seq<u32> {
        self.windows.map_values(|w: WindowView| w.id.0)
    }

    /// Whether the window `id` has the focus: it is the one that has focus
    /// on the focused output. Nothing is said where no output is focused or
    /// no window has focus on it.
    pub open spec fn is_focused(self, id: WindowId) -> Option<bool> {
        match self.focused_output() {
            Some(output) => match self.outputs[output].focus_stack.current_focus() {
                Some(focused) => Some(focused == id),
                None => None,
            },
            None => None,
        }
    }

    /// What is known of the window `id`. Of a window that is not mapped
    /// nothing is known; of one that the space does not hold, no location.
    pub open spec fn properties_of(self, id: WindowId) -> api::PropertiesView {
        match window_index(self.windows, id) {
            Some(index) => {
                let window = self.windows[index];
                api::PropertiesView {
                    geometry: Some(
                        Geometry {
                            x: match self.space.element_location(id) {
                                Some(loc) => Some(loc.x),
                                None => None,
                            },
                            y: match self.space.element_location(id) {
                                Some(loc) => Some(loc.y),
                                None => None,
                            },
                            width: Some(self.geometry_of(id).size.w),
                            height: Some(self.geometry_of(id).size.h),
                        },
                    ),
                    class: window.class,
                    title: window.title,
                    focused: self.is_focused(id),
                    floating: Some(window.floating_or_tiled.spec_is_floating()),
                    fullscreen_or_maximized: Some(
                        spec_fullscreen_or_maximized_code(window.fullscreen_or_maximized),
                    ),
                    tag_ids: window.tags.map_values(|t: TagId| t.0),
                }
            },
            None => api::PropertiesView {
                geometry: None,
                class: None,
                title: None,
                focused: None,
                floating: None,
                fullscreen_or_maximized: None,
                tag_ids: Seq::empty(),
            },
        }
    }

    /// The fault in which running `f` ends, if it ends in one.
    pub open spec fn run_fault(self, f: StateFn) -> Option<Fault> {
        match f {
            StateFn::SetFocused { window_id, set_or_toggle } => self.focus_fault(window_id, set_or_toggle),
            _ => None,
        }
    }

    /// The step that running `f` takes. Where it ends in a fault, nothing
    /// changes.
    pub open spec fn ran(self, f: StateFn) -> Step {
        match f {
            StateFn::Close { window_id } => Step { state: self, effects: self.close_effects(window_id) },
            StateFn::SetGeometry { window_id, geometry } => self.geometry_set(window_id, geometry),
            StateFn::SetFullscreen { window_id, set_or_toggle } => self.fullscreen_set(
                window_id,
                set_or_toggle,
            ),
            StateFn::SetMaximized { window_id, set_or_toggle } => self.maximized_set(window_id, set_or_toggle),
            StateFn::SetFloating { window_id, set_or_toggle } => self.floating_set(window_id, set_or_toggle),
            StateFn::SetFocused { window_id, set_or_toggle } => self.focus_set(window_id, set_or_toggle),
            StateFn::MoveToTag { window_id, tag_id } => self.moved_to_tag(window_id, tag_id),
            StateFn::SetTag { window_id, tag_id, set_or_toggle } => self.tag_set(
                window_id,
                tag_id,
                set_or_toggle,
            ),
            StateFn::Raise { window_id } => self.raised(window_id).unchanged(),
            StateFn::MoveGrab { button } => self.with_move_grab(button).unchanged(),
            StateFn::ResizeGrab { button } => self.with_resize_grab(button).unchanged(),
            StateFn::Get => self.unchanged(),
            StateFn::GetProperties { .. } => self.unchanged(),
            StateFn::AddWindowRule { cond, rule } => StateView {
                window_rules: self.window_rules.push((cond, rule)),
                ..self
            }.unchanged(),
        }
    }
}

impl State {
    /// The numbers of the mapped windows, in the order they were mapped.
    pub fn get(&self) -> (response: api::GetResponse)
        ensures
            response.window_ids@ == self@.window_ids(),
    {
        let mut window_ids: Vec<u32> = Vec::new();
        let mut i: usize = 0;
        while i < self.windows.len()
            invariant
                i <= self.windows.len(),
                window_ids@ == views(self.windows@.subrange(0, i as int)).map_values(|w: WindowView| w.id.0),
            decreases self.windows.len() - i,
        {
            window_ids.push(self.windows[i].id.0);
            proof {
                let next = views(self.windows@.subrange(0, i + 1));
                assert(next.drop_last() == views(self.windows@.subrange(0, i as int)));
                assert(next.last() == self.windows@[i as int]@);
            }
            i = i + 1;
        }
        assert(self.windows@.subrange(0, i as int) == self.windows@);
        api::GetResponse { window_ids }
    }

    /// Whether the window `id` has the focus.
    pub fn is_focused(&self, id: WindowId) -> (focused: Option<bool>)
        ensures
            focused == self@.is_focused(id),
    {
        match self.focused_output() {
            Some(output) => {
                assert(output_views(self.outputs@)[output as int] == self.outputs@[output as int]@);
                match self.outputs[output].focus_stack.current_focus() {
                    Some(focused) => Some(focused == id),
                    None => None,
                }
            },
            None => None,
        }
    }

    /// What is known of the window `id`.
    pub fn get_properties(&self, id: WindowId) -> (response: api::GetPropertiesResponse)
        ensures
            response@ == self@.properties_of(id),
    {
        match find_window(&self.windows, id) {
            Some(index) => {
                assert(views(self.windows@)[index as int] == self.windows@[index as int]@);
                let window = &self.windows[index];
                let loc = self.space.element_location(id);
                let size = self.geometry_of(id).size;
                let mut tag_ids: Vec<u32> = Vec::new();
                let mut i: usize = 0;
                while i < window.tags.len()
                    invariant
                        i <= window.tags.len(),
                        tag_ids@ == window.tags@.subrange(0, i as int).map_values(|t: TagId| t.0),
                    decreases window.tags.len() - i,
                {
                    tag_ids.push(window.tags[i].0);
                    assert(window.tags@.subrange(0, i + 1).drop_last() == window.tags@.subrange(0, i as int));
                    i = i + 1;
                }
                assert(window.tags@.subrange(0, i as int) == window.tags@);
                api::GetPropertiesResponse {
                    geometry: Some(
                        Geometry {
                            x: match loc {
                                Some(loc) => Some(loc.x),
                                None => None,
                            },
                            y: match loc {
                                Some(loc) => Some(loc.y),
                                None => None,
                            },
                            width: Some(size.w),
                            height: Some(size.h),
                        },
                    ),
                    class: copy_text(&window.class),
                    title: copy_text(&window.title),
                    focused: self.is_focused(id),
                    floating: Some(window.floating_or_tiled.is_floating()),
                    fullscreen_or_maximized: Some(fullscreen_or_maximized_code(window.fullscreen_or_maximized)),
                    tag_ids,
                }
            },
            None => api::GetPropertiesResponse {
                geometry: None,
                class: None,
                title: None,
                focused: None,
                floating: None,
                fullscreen_or_maximized: None,
                tag_ids: Vec::new(),
            },
        }
    }

    /// Runs `f` on the state, and returns what is to be carried out and
    /// what is to be handed back to the caller. Where `f` ends in a fault,
    /// nothing has changed.
    pub fn run(&mut self, f: StateFn) -> (result: Result<(Vec<Effect>, Response), Fault>)
        ensures
            match result {
                Ok((effects, response)) => {
                    &&& old(self)@.run_fault(f) is None
                    &&& final(self)@ == old(self)@.ran(f).state
                    &&& effects@ == old(self)@.ran(f).effects
                    &&& match f {
                        StateFn::Get => response matches Response::Get(got) && got.window_ids@ == old(
                            self,
                        )@.window_ids(),
                        StateFn::GetProperties { window_id } => response matches Response::GetProperties(got)
                            && got@ == old(self)@.properties_of(window_id),
                        _ => response is Done,
                    }
                },
                Err(fault) => {
                    &&& old(self)@.run_fault(f) == Some(fault)
                    &&& final(self)@ == old(self)@
                },
            },
            is_consistent(old(self)@) ==> is_consistent(final(self)@),
    {
        proof {
            if is_consistent(old(self)@) {
                crate::consistency::control_keeps_consistency(old(self)@, f);
            }
        }
        let done = match f {
            StateFn::SetFocused { window_id, set_or_toggle } => {
                return match self.set_focused(window_id, set_or_toggle) {
                    Ok(effects) => Ok((effects, Response::Done)),
                    Err(fault) => Err(fault),
                };
            },
            StateFn::Close { window_id } => (self.close(window_id), Response::Done),
            StateFn::SetGeometry { window_id, geometry } => (
                self.set_geometry(window_id, geometry),
                Response::Done,
            ),
            StateFn::SetFullscreen { window_id, set_or_toggle } => (
                self.set_fullscreen(window_id, set_or_toggle),
                Response::Done,
            ),
            StateFn::SetMaximized { window_id, set_or_toggle } => (
                self.set_maximized(window_id, set_or_toggle),
                Response::Done,
            ),
            StateFn::SetFloating { window_id, set_or_toggle } => (
                self.set_floating(window_id, set_or_toggle),
                Response::Done,
            ),
            StateFn::MoveToTag { window_id, tag_id } => (self.move_to_tag(window_id, tag_id), Response::Done),
            StateFn::SetTag { window_id, tag_id, set_or_toggle } => (
                self.set_tag(window_id, tag_id, set_or_toggle),
                Response::Done,
            ),
            StateFn::Raise { window_id } => {
                self.raise(window_id);
                (Vec::new(), Response::Done)
            },
            StateFn::MoveGrab { button } => {
                self.move_grab(button);
                (Vec::new(), Response::Done)
            },
            StateFn::ResizeGrab { button } => {
                self.resize_grab(button);
                (Vec::new(), Response::Done)
            },
            StateFn::Get => (Vec::new(), Response::Get(self.get())),
            StateFn::GetProperties { window_id } => (
                Vec::new(),
                Response::GetProperties(self.get_properties(window_id)),
            ),
            StateFn::AddWindowRule { cond, rule } => {
                self.window_rules.push((cond, rule));
                (Vec::new(), Response::Done)
            },
        };
        Ok(done)
    }
}

} // verus!
