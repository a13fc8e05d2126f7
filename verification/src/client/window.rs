//! Handles to the compositor's windows.

use vstd::prelude::*;
use crate::client::msg::{Msg, Request, RequestResponse};
use crate::ids::WindowId;
use crate::lookup::{first_index, first_is_unique, none_is_first};
use crate::window::FullscreenOrMaximized;

verus! {

/// A handle to one window of the compositor.
#[derive(Debug, Clone, Copy, PartialEq, Eq, Structural)]
pub struct WindowHandle(pub WindowId);

/// What the compositor reports of a window. A field is `None` where the
/// compositor has nothing to report, as for a window that is gone.
#[derive(Debug)]
pub struct WindowProperties {
    pub size: Option<(i32, i32)>,
    pub loc: Option<(i32, i32)>,
    pub class: Option<String>,
    pub title: Option<String>,
    pub focused: Option<bool>,
    pub floating: Option<bool>,
    pub fullscreen_or_maximized: Option<FullscreenOrMaximized>,
}

impl WindowHandle {
    /// The message that flips the window between floating and tiled.
    pub fn toggle_floating(&self) -> (msg: Msg)
        ensures
            msg == (Msg::ToggleFloating { window_id: self.0 }),
    {
        Msg::ToggleFloating { window_id: self.0 }
    }

    /// The message that flips the window into or out of fullscreen.
    pub fn toggle_fullscreen(&self) -> (msg: Msg)
        ensures
            msg == (Msg::ToggleFullscreen { window_id: self.0 }),
    {
        Msg::ToggleFullscreen { window_id: self.0 }
    }

    /// The message that flips the window into or out of the maximized state.
    pub fn toggle_maximized(&self) -> (msg: Msg)
        ensures
            msg == (Msg::ToggleMaximized { window_id: self.0 }),
    {
        Msg::ToggleMaximized { window_id: self.0 }
    }

    /// The message that resizes the window. A dimension that is `None` is
    /// left as it is.
    pub fn set_size(&self, width: Option<i32>, height: Option<i32>) -> (msg: Msg)
        ensures
            msg == (Msg::SetWindowSize { window_id: self.0, width, height }),
    {
        Msg::SetWindowSize { window_id: self.0, width, height }
    }

    /// The message that asks the window's client to close it.
    pub fn close(&self) -> (msg: Msg)
        ensures
            msg == (Msg::CloseWindow { window_id: self.0 }),
    {
        Msg::CloseWindow { window_id: self.0 }
    }

    /// The request whose answer [`WindowHandle::properties`] decodes.
    pub fn properties_request(&self) -> (request: Request)
        ensures
            request == (Request::GetWindowProps { window_id: self.0 }),
    {
        Request::GetWindowProps { window_id: self.0 }
    }

    /// The window's properties, as the compositor answered
    /// [`WindowHandle::properties_request`].
    pub fn properties(&self, response: RequestResponse) -> (props: WindowProperties)
        requires
            response is WindowProps,
        ensures
            props.size == response->size,
            props.loc == response->loc,
            props.class == response->class,
            props.title == response->title,
            props.focused == response->focused,
            props.floating == response->floating,
            props.fullscreen_or_maximized == response->fullscreen_or_maximized,
    {
        match response {
            RequestResponse::WindowProps {
                size,
                loc,
                class,
                title,
                focused,
                floating,
                fullscreen_or_maximized,
            } => WindowProperties {
                size,
                loc,
                class,
                title,
                focused,
                floating,
                fullscreen_or_maximized,
            },
            RequestResponse::Windows { .. } => {
                proof {
                    assert(false);
                }
                unreached()
            },
        }
    }
}

impl WindowProperties {
    /// Whether the compositor reported exactly this class for the window.
    pub open spec fn has_class(&self, class: Seq<char>) -> bool {
        self.class matches Some(c) && c@ == class
    }

    /// Whether the compositor reported the window as the focused one.
    pub open spec fn is_focused(&self) -> bool {
        self.focused == Some(true)
    }
}

/// The handles of the windows whose reported class is `class`, in the order
/// the windows are listed.
pub open spec fn handles_by_class(
    windows: Seq<(WindowHandle, WindowProperties)>,
    class: Seq<char>,
) -> Seq<WindowHandle> {
    windows.filter(|w: (WindowHandle, WindowProperties)| w.1.has_class(class)).map_values(
        |w: (WindowHandle, WindowProperties)| w.0,
    )
}

/// The handle of the first window that is reported as focused.
pub open spec fn first_focused(windows: Seq<(WindowHandle, WindowProperties)>) -> Option<WindowHandle> {
    match first_index(windows, |w: (WindowHandle, WindowProperties)| w.1.is_focused()) {
        Some(i) => Some(windows[i].0),
        None => None,
    }
}

/// The entry point for questions about the compositor's windows.
///
/// Every question is a request to the compositor. The caller carries the
/// requests and answers; the methods here build the former and read the
/// latter.
pub struct Window;

impl Window {
    /// The request whose answer [`Window::get_all`] decodes.
    pub fn get_all_request(&self) -> (request: Request)
        ensures
            request == Request::GetWindows,
    {
        Request::GetWindows
    }

    /// A handle for every window, in the order the compositor answered
    /// [`Window::get_all_request`].
    pub fn get_all(&self, response: RequestResponse) -> (handles: Vec<WindowHandle>)
        requires
            response is Windows,
        ensures
            handles@ == response->window_ids@.map_values(|id: WindowId| WindowHandle(id)),
    {
        match response {
            RequestResponse::Windows { window_ids } => {
                let mut handles: Vec<WindowHandle> = Vec::new();
                let mut i: usize = 0;
                while i < window_ids.len()
                    invariant
                        i <= window_ids.len(),
                        handles@ == window_ids@.subrange(0, i as int).map_values(
                            |id: WindowId| WindowHandle(id),
                        ),
                    decreases window_ids.len() - i,
                {
                    handles.push(WindowHandle(window_ids[i]));
                    i = i + 1;
                }
                assert(window_ids@.subrange(0, i as int) == window_ids@);
                handles
            },
            RequestResponse::WindowProps { .. } => {
                proof {
                    assert(false);
                }
                unreached()
            },
        }
    }

    /// The windows whose class is `class`, out of all windows paired with
    /// their properties.
    pub fn get_by_class(&self, class: &str, windows: &Vec<(WindowHandle, WindowProperties)>) -> (handles:
        Vec<WindowHandle>)
        ensures
            handles@ == handles_by_class(windows@, class@),
    {
        let wanted = class.to_owned();
        let mut handles: Vec<WindowHandle> = Vec::new();
        let mut i: usize = 0;
        while i < windows.len()
            invariant
                i <= windows.len(),
                wanted@ == class@,
                handles@ == handles_by_class(windows@.subrange(0, i as int), class@),
            decreases windows.len() - i,
        {
            let matched = match &windows[i].1.class {
                Some(c) => *c == wanted,
                None => false,
            };
            proof {
                let pred = |w: (WindowHandle, WindowProperties)| w.1.has_class(class@);
                let prefix = windows@.subrange(0, i as int);
                let next = windows@.subrange(0, i + 1);
                assert(next.drop_last() == prefix);
                assert(next.last() == windows@[i as int]);
                reveal(Seq::filter);
                assert(matched == pred(windows@[i as int]));
            }
            if matched {
                handles.push(windows[i].0);
            }
            i = i + 1;
        }
        assert(windows@.subrange(0, i as int) == windows@);
        handles
    }

    /// The first window that the compositor reports as focused, out of all
    /// windows paired with their properties.
    pub fn get_focused(&self, windows: &Vec<(WindowHandle, WindowProperties)>) -> (focused: Option<
        WindowHandle,
    >)
        ensures
            focused == first_focused(windows@),
    {
        let ghost pred = |w: (WindowHandle, WindowProperties)| w.1.is_focused();
        let mut i: usize = 0;
        while i < windows.len()
            invariant
                i <= windows.len(),
                pred == |w: (WindowHandle, WindowProperties)| w.1.is_focused(),
                forall|j: int| 0 <= j < i ==> !pred(#[trigger] windows@[j]),
            decreases windows.len() - i,
        {
            let is_focused = match windows[i].1.focused {
                Some(f) => f,
                None => false,
            };
            if is_focused {
                proof {
                    first_is_unique(windows@, pred, i as int);
                }
                return Some(windows[i].0);
            }
            i = i + 1;
        }
        proof {
            none_is_first(windows@, pred);
        }
        None
    }
}

} // verus!
