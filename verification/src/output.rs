//! Outputs and the tags they own.

use vstd::prelude::*;
use crate::focus::{FocusStack, FocusStackView};
use crate::geometry::{Point, Rect};
use crate::ids::{LayerId, OutputId, TagId, WindowId};
use crate::layout::Layout;

verus! {

/// A named group of windows. A tag belongs to one output, and any number of
/// an output's tags may be active at once.
#[derive(Debug, Clone, Copy, PartialEq, Eq, Hash, Structural)]
pub struct Tag {
    pub id: TagId,
    /// Whether the windows on this tag are shown.
    pub active: bool,
    /// How the windows on this tag are laid out.
    pub layout: Layout,
}

/// Where a layer surface sits in the stacking order of its output, from the
/// bottom up. The windows are between `Bottom` and `Top`.
#[derive(Debug, Clone, Copy, PartialEq, Eq, Hash, Structural)]
pub enum LayerKind {
    Background,
    Bottom,
    Top,
    Overlay,
}

impl LayerKind {
    /// Whether a layer of this kind is drawn above the windows.
    pub open spec fn spec_is_above_windows(self) -> bool {
        self is Top || self is Overlay
    }

    /// Whether a layer of this kind is drawn above the windows.
    #[verifier::when_used_as_spec(spec_is_above_windows)]
    pub fn is_above_windows(self) -> (above: bool)
        ensures
            above == self.spec_is_above_windows(),
    {
        match self {
            LayerKind::Top => true,
            LayerKind::Overlay => true,
            _ => false,
        }
    }
}

/// A surface that is anchored to an output rather than managed as a window,
/// such as a panel.
#[derive(Debug, Clone, Copy, PartialEq, Eq, Hash, Structural)]
pub struct LayerSurface {
    pub id: LayerId,
    pub kind: LayerKind,
    /// Where the layer sits on its output, once it has been arranged.
    pub geometry: Option<Rect>,
    /// Whether the client has been sent its first configure.
    pub initial_configure_sent: bool,
}

impl LayerSurface {
    /// Whether the layer hides what is at `point` from the pointer, on an
    /// output whose top left corner is at `origin`: it is drawn above the
    /// windows, it has been arranged, and `point` lies in it.
    pub open spec fn spec_covers(self, origin: Point, point: Point) -> bool {
        self.kind.spec_is_above_windows() && match self.geometry {
            Some(rect) => (Rect { loc: rect.loc.spec_plus(origin), size: rect.size }).spec_contains(point),
            None => false,
        }
    }

    /// Whether the layer hides what is at `point` from the pointer, on an
    /// output whose top left corner is at `origin`.
    #[verifier::when_used_as_spec(spec_covers)]
    pub fn covers(self, origin: Point, point: Point) -> (covered: bool)
        ensures
            covered == self.spec_covers(origin, point),
    {
        self.kind.is_above_windows() && match self.geometry {
            Some(rect) => (Rect { loc: rect.loc.plus(origin), size: rect.size }).contains(point),
            None => false,
        }
    }
}

/// A display.
#[derive(Debug)]
pub struct Output {
    pub id: OutputId,
    /// The name of the connector that the display hangs on.
    pub name: String,
    /// The part of the global space that the output shows.
    pub geometry: Rect,
    pub tags: Vec<Tag>,
    /// The windows that have had focus on this output.
    pub focus_stack: FocusStack<WindowId>,
    pub layers: Vec<LayerSurface>,
}

/// An output as a mathematical value.
#[verifier::ext_equal]
pub struct OutputView {
    pub id: OutputId,
    pub name: Seq<char>,
    pub geometry: Rect,
    pub tags: Seq<Tag>,
    pub focus_stack: FocusStackView<WindowId>,
    pub layers: Seq<LayerSurface>,
}

impl View for Output {
    type V = OutputView;

    open spec fn view(&self) -> OutputView {
        OutputView {
            id: self.id,
            name: self.name@,
            geometry: self.geometry,
            tags: self.tags@,
            focus_stack: self.focus_stack@,
            layers: self.layers@,
        }
    }
}

impl OutputView {
    /// The output's active tags, in the output's order.
    pub open spec fn focused_tags(self) -> Seq<TagId> {
        self.tags.filter(|t: Tag| t.active).map_values(|t: Tag| t.id)
    }

    /// The tags a new window is put on: the active tags, or the first tag
    /// if none is active, or none if the output has no tag.
    pub open spec fn tags_for_new_window(self) -> Seq<TagId> {
        if self.focused_tags().len() > 0 {
            self.focused_tags()
        } else if self.tags.len() > 0 {
            seq![self.tags[0].id]
        } else {
            Seq::empty()
        }
    }

    /// The layout of the first active tag.
    pub open spec fn layout(self) -> Option<Layout> {
        let active = self.tags.filter(|t: Tag| t.active);
        if active.len() > 0 {
            Some(active[0].layout)
        } else {
            None
        }
    }

    /// Whether the output owns the tag `tag`.
    pub open spec fn has_tag(self, tag: TagId) -> bool {
        exists|i: int| 0 <= i < self.tags.len() && (#[trigger] self.tags[i]).id == tag
    }

    /// Whether a layer of the output hides what is at `point` from the
    /// pointer.
    pub open spec fn layer_covers(self, point: Point) -> bool {
        exists|i: int|
            0 <= i < self.layers.len() && (#[trigger] self.layers[i]).spec_covers(self.geometry.loc, point)
    }
}

impl Output {
    /// Whether a layer of the output hides what is at `point` from the
    /// pointer.
    pub fn layer_covers(&self, point: Point) -> (covered: bool)
        ensures
            covered == self@.layer_covers(point),
    {
        let mut i: usize = 0;
        while i < self.layers.len()
            invariant
                i <= self.layers.len(),
                forall|k: int| 0 <= k < i ==> !(#[trigger] self.layers@[k]).spec_covers(self.geometry.loc, point),
            decreases self.layers.len() - i,
        {
            if self.layers[i].covers(self.geometry.loc, point) {
                assert(self@.layers[i as int].spec_covers(self@.geometry.loc, point));
                return true;
            }
            i = i + 1;
        }
        false
    }

    /// An output showing `geometry`, with no tags and no history of focus.
    pub fn new(id: OutputId, name: String, geometry: Rect) -> (output: Output)
        ensures
            output@ == (OutputView {
                id,
                name: name@,
                geometry,
                tags: Seq::empty(),
                focus_stack: FocusStackView::empty(),
                layers: Seq::empty(),
            }),
    {
        Output { id, name, geometry, tags: Vec::new(), focus_stack: FocusStack::new(), layers: Vec::new() }
    }

    /// The output's active tags, in the output's order.
    pub fn focused_tags(&self) -> (tags: Vec<TagId>)
        ensures
            tags@ == self@.focused_tags(),
    {
        let mut tags: Vec<TagId> = Vec::new();
        let mut i: usize = 0;
        while i < self.tags.len()
            invariant
                i <= self.tags.len(),
                tags@ == self.tags@.subrange(0, i as int).filter(|t: Tag| t.active).map_values(
                    |t: Tag| t.id,
                ),
            decreases self.tags.len() - i,
        {
            proof {
                let next = self.tags@.subrange(0, i + 1);
                assert(next.drop_last() == self.tags@.subrange(0, i as int));
                reveal(Seq::filter);
            }
            if self.tags[i].active {
                tags.push(self.tags[i].id);
            }
            i = i + 1;
        }
        assert(self.tags@.subrange(0, i as int) == self.tags@);
        tags
    }

    /// The tags a new window is put on.
    pub fn tags_for_new_window(&self) -> (tags: Vec<TagId>)
        ensures
            tags@ == self@.tags_for_new_window(),
    {
        let mut tags = self.focused_tags();
        if tags.len() == 0 && self.tags.len() > 0 {
            tags.push(self.tags[0].id);
        }
        tags
    }

    /// The layout of the first active tag.
    pub fn layout(&self) -> (layout: Option<Layout>)
        ensures
            layout == self@.layout(),
    {
        let mut i: usize = 0;
        while i < self.tags.len()
            invariant
                i <= self.tags.len(),
                self.tags@.subrange(0, i as int).filter(|t: Tag| t.active).len() == 0,
            decreases self.tags.len() - i,
        {
            proof {
                let next = self.tags@.subrange(0, i + 1);
                assert(next.drop_last() == self.tags@.subrange(0, i as int));
                reveal(Seq::filter);
            }
            if self.tags[i].active {
                proof {
                    let pred = |t: Tag| t.active;
                    let head = self.tags@.subrange(0, i + 1);
                    let tail = self.tags@.subrange(i + 1, self.tags@.len() as int);
                    assert(self.tags@ == head + tail);
                    Seq::filter_distributes_over_add(head, tail, pred);
                    assert(head.filter(pred) == seq![self.tags@[i as int]]);
                }
                return Some(self.tags[i].layout);
            }
            i = i + 1;
        }
        assert(self.tags@.subrange(0, i as int) == self.tags@);
        None
    }

    /// Whether the output owns the tag `tag`.
    pub fn has_tag(&self, tag: TagId) -> (b: bool)
        ensures
            b == self@.has_tag(tag),
    {
        let mut i: usize = 0;
        while i < self.tags.len()
            invariant
                i <= self.tags.len(),
                forall|k: int| 0 <= k < i ==> (#[trigger] self.tags@[k]).id != tag,
            decreases self.tags.len() - i,
        {
            if self.tags[i].id == tag {
                assert(self@.tags[i as int].id == tag);
                return true;
            }
            i = i + 1;
        }
        false
    }
}

} // verus!
