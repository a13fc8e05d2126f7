//! The layout engine: a pure function from the windows on an output's active
//! tags to the rectangle each of them is to take.

use vstd::prelude::*;
use crate::geometry::{saturate, saturating_add, Point, Rect, Size};
use crate::ids::{TagId, WindowId};
use crate::window::{FloatingOrTiled, FullscreenOrMaximized, WindowElement, WindowView};

verus! {

/// A layout strategy.
#[derive(Debug, Clone, Copy, PartialEq, Eq, Hash, Structural)]
pub enum Layout {
    /// The first window, the master, takes the left half of the area; the
    /// others share the right half, stacked from top to bottom.
    MasterStack,
}

/// The rectangle that a layout gives to one window.
#[derive(Debug, Clone, Copy, PartialEq, Eq, Hash, Structural)]
pub struct Placement {
    pub window: WindowId,
    pub rect: Rect,
}

/// The windows of `windows` as mathematical values.
pub open spec fn views(windows: Seq<WindowElement>) -> Seq<WindowView> {
    windows.map_values(|w: WindowElement| w@)
}

/// Whether the layout places the window: it is on one of the active tags,
/// does not float, and is neither fullscreen nor maximized.
pub open spec fn is_placed(window: WindowView, active_tags: Seq<TagId>) -> bool {
    &&& window.on_any_of(active_tags)
    &&& !window.floating_or_tiled.spec_is_floating()
    &&& window.fullscreen_or_maximized is Neither
}

/// The windows that the layout places, in the order they are listed.
pub open spec fn placed_windows(windows: Seq<WindowView>, active_tags: Seq<TagId>) -> Seq<WindowId> {
    windows.filter(|w: WindowView| is_placed(w, active_tags)).map_values(|w: WindowView| w.id)
}

/// `v`, or 0 if `v` is negative.
pub open spec fn at_least_zero(v: int) -> int {
    if v < 0 {
        0
    } else {
        v
    }
}

/// The rectangle of the window at `index` among `count` windows laid out as
/// master and stack in `area`.
///
/// A single window takes the whole area. Otherwise the master takes the left
/// half, rounded down, and the stack the rest of the width; the height is
/// split evenly among the windows of the stack, and the last of them takes
/// what the division left over.
pub open spec fn master_stack_rect(area: Rect, count: nat, index: nat) -> Rect {
    let w = at_least_zero(area.size.w as int);
    let h = at_least_zero(area.size.h as int);
    if count <= 1 {
        Rect { loc: area.loc, size: Size { w: w as i32, h: h as i32 } }
    } else if index == 0 {
        Rect { loc: area.loc, size: Size { w: (w / 2) as i32, h: h as i32 } }
    } else {
        let stacked = count - 1;
        let slot = h / stacked;
        let above = index - 1;
        Rect {
            loc: Point { x: saturate(area.loc.x + w / 2), y: saturate(area.loc.y + above * slot) },
            size: Size {
                w: (w - w / 2) as i32,
                h: (if above == stacked - 1 {
                    h - above * slot
                } else {
                    slot
                }) as i32,
            },
        }
    }
}

/// The rectangle that `strategy` gives the window at `index` among `count`
/// windows in `area`.
pub open spec fn strategy_rect(strategy: Layout, area: Rect, count: nat, index: nat) -> Rect {
    match strategy {
        Layout::MasterStack => master_stack_rect(area, count, index),
    }
}

/// The placements of `windows` on `active_tags` in `area` under `strategy`.
pub open spec fn layout_of(
    windows: Seq<WindowView>,
    active_tags: Seq<TagId>,
    area: Rect,
    strategy: Layout,
) -> Seq<Placement> {
    let placed = placed_windows(windows, active_tags);
    Seq::new(
        placed.len(),
        |i: int| Placement { window: placed[i], rect: strategy_rect(strategy, area, placed.len(), i as nat) },
    )
}

/// Whether a window on the active tags has a rectangle of its own, which no
/// layout touches: it floats, or it is fullscreen or maximized.
pub open spec fn is_fixed(window: WindowView, active_tags: Seq<TagId>) -> bool {
    window.on_any_of(active_tags) && !is_placed(window, active_tags)
}

/// The rectangle of a window that no layout touches: the whole area if it is
/// fullscreen or maximized, else the rectangle it floats at.
pub open spec fn own_rect(window: WindowView, area: Rect) -> Rect {
    match window.floating_or_tiled {
        FloatingOrTiled::Floating(rect) => if window.fullscreen_or_maximized is Neither {
            rect
        } else {
            area
        },
        FloatingOrTiled::Tiled(_) => area,
    }
}

/// The rectangles of the windows on `active_tags` that no layout touches,
/// in the order the windows are listed.
pub open spec fn fixed_placements(windows: Seq<WindowView>, active_tags: Seq<TagId>, area: Rect) -> Seq<
    Placement,
> {
    windows.filter(|w: WindowView| is_fixed(w, active_tags)).map_values(
        |w: WindowView| Placement { window: w.id, rect: own_rect(w, area) },
    )
}

/// Computes [`fixed_placements`].
pub fn fixed(windows: &Vec<WindowElement>, active_tags: &Vec<TagId>, area: Rect) -> (placements: Vec<Placement>)
    ensures
        placements@ == fixed_placements(views(windows@), active_tags@, area),
{
    let mut placements: Vec<Placement> = Vec::new();
    let mut i: usize = 0;
    while i < windows.len()
        invariant
            i <= windows.len(),
            placements@ == fixed_placements(views(windows@.subrange(0, i as int)), active_tags@, area),
        decreases windows.len() - i,
    {
        let window = &windows[i];
        let is_fixed_here = window.on_any_of(active_tags) && !placed(window, active_tags);
        proof {
            let prefix = views(windows@.subrange(0, i as int));
            let next = views(windows@.subrange(0, i + 1));
            assert(next.drop_last() == prefix);
            assert(next.last() == windows@[i as int]@);
            reveal(Seq::filter);
        }
        if is_fixed_here {
            let rect = match window.floating_or_tiled {
                FloatingOrTiled::Floating(rect) => match window.fullscreen_or_maximized {
                    FullscreenOrMaximized::Neither => rect,
                    _ => area,
                },
                FloatingOrTiled::Tiled(_) => area,
            };
            placements.push(Placement { window: window.id, rect });
        }
        i = i + 1;
    }
    assert(windows@.subrange(0, i as int) == windows@);
    placements
}

/// Computes [`master_stack_rect`].
fn master_stack(area: Rect, count: usize, index: usize) -> (rect: Rect)
    requires
        index < count,
    ensures
        rect == master_stack_rect(area, count as nat, index as nat),
{
    let w: i32 = if area.size.w < 0 {
        0
    } else {
        area.size.w
    };
    let h: i32 = if area.size.h < 0 {
        0
    } else {
        area.size.h
    };
    if count <= 1 {
        Rect { loc: area.loc, size: Size { w, h } }
    } else if index == 0 {
        Rect { loc: area.loc, size: Size { w: w / 2, h } }
    } else {
        let stacked: usize = count - 1;
        let above: usize = index - 1;
        // More windows than rows: every slot is empty.
        let slot: i32 = if stacked > i32::MAX as usize {
            0
        } else {
            h / (stacked as i32)
        };
        assert(slot == (h as int) / (stacked as int)) by {
            if stacked > i32::MAX as usize {
                assert((h as int) / (stacked as int) == 0) by (nonlinear_arith)
                    requires
                        0 <= h < stacked,
                ;
            }
        }
        assert(0 <= above * slot <= h) by (nonlinear_arith)
            requires
                0 <= above < stacked,
                0 <= h,
                slot == (h as int) / (stacked as int),
        ;
        let offset: i32 = if slot == 0 {
            0
        } else {
            assert(stacked <= h) by (nonlinear_arith)
                requires
                    slot == (h as int) / (stacked as int),
                    slot > 0,
                    stacked > 0,
                    h >= 0,
            ;
            assert(above * slot == (above as i32) * slot);
            (above as i32) * slot
        };
        assert(offset == above * slot) by (nonlinear_arith)
            requires
                slot == 0 ==> offset == 0,
                slot != 0 ==> offset == above * slot,
        ;
        Rect {
            loc: Point { x: saturating_add(area.loc.x, w / 2), y: saturating_add(area.loc.y, offset) },
            size: Size {
                w: w - w / 2,
                h: if above == stacked - 1 {
                    h - offset
                } else {
                    slot
                },
            },
        }
    }
}

/// Whether the layout places `window`.
fn placed(window: &WindowElement, active_tags: &Vec<TagId>) -> (b: bool)
    ensures
        b == is_placed(window@, active_tags@),
{
    !window.floating_or_tiled.is_floating() && match window.fullscreen_or_maximized {
        FullscreenOrMaximized::Neither => true,
        _ => false,
    } && window.on_any_of(active_tags)
}

/// Lays out `windows` on `active_tags` in `area`.
///
/// Only tiled windows on an active tag are placed; a floating window keeps
/// the rectangle it floats at, and a fullscreen or maximized one is not the
/// layout's to place. The result depends on nothing but the arguments, and
/// of the windows only on their order, identity, tags and modes.
pub fn layout(windows: &Vec<WindowElement>, active_tags: &Vec<TagId>, area: Rect, strategy: Layout) -> (placements:
    Vec<Placement>)
    ensures
        placements@ == layout_of(views(windows@), active_tags@, area, strategy),
{
    let mut ids: Vec<WindowId> = Vec::new();
    let mut i: usize = 0;
    while i < windows.len()
        invariant
            i <= windows.len(),
            ids@ == placed_windows(views(windows@.subrange(0, i as int)), active_tags@),
        decreases windows.len() - i,
    {
        let is_placed_here = placed(&windows[i], active_tags);
        proof {
            let prefix = views(windows@.subrange(0, i as int));
            let next = views(windows@.subrange(0, i + 1));
            assert(next.drop_last() == prefix);
            assert(next.last() == windows@[i as int]@);
            reveal(Seq::filter);
        }
        if is_placed_here {
            ids.push(windows[i].id);
        }
        i = i + 1;
    }
    assert(windows@.subrange(0, i as int) == windows@);
    let count = ids.len();
    let mut placements: Vec<Placement> = Vec::new();
    let mut j: usize = 0;
    while j < count
        invariant
            j <= count,
            count == ids.len(),
            placements.len() == j,
            forall|k: int|
                0 <= k < j ==> placements@[k] == (Placement {
                    window: ids@[k],
                    rect: strategy_rect(strategy, area, count as nat, k as nat),
                }),
        decreases count - j,
    {
        let rect = match strategy {
            Layout::MasterStack => master_stack(area, count, j),
        };
        placements.push(Placement { window: ids[j], rect });
        j = j + 1;
    }
    assert(placements@ =~= layout_of(views(windows@), active_tags@, area, strategy));
    placements
}

/// Whether two windows are alike in all that a layout looks at: identity,
/// tags and modes.
pub open spec fn same_for_layout(a: WindowView, b: WindowView) -> bool {
    &&& a.id == b.id
    &&& a.tags == b.tags
    &&& a.floating_or_tiled.spec_is_floating() == b.floating_or_tiled.spec_is_floating()
    &&& a.fullscreen_or_maximized == b.fullscreen_or_maximized
}

/// Laying out an unchanged snapshot again yields the same placements: two
/// lists of windows that agree, window by window, in identity, tags and
/// modes are placed alike on the same tags in the same area. What the
/// windows' geometry is, or how far its negotiation has come, is of no
/// account.
pub proof fn layout_is_idempotent(
    first: Seq<WindowView>,
    second: Seq<WindowView>,
    active_tags: Seq<TagId>,
    area: Rect,
    strategy: Layout,
)
    requires
        first.len() == second.len(),
        forall|i: int| 0 <= i < first.len() ==> same_for_layout(#[trigger] first[i], second[i]),
    ensures
        layout_of(first, active_tags, area, strategy) == layout_of(second, active_tags, area, strategy),
    decreases first.len(),
{
    same_windows_placed(first, second, active_tags);
}

/// Two lists of windows that agree in identity, tags and modes have the
/// same windows placed.
pub proof fn same_windows_placed(first: Seq<WindowView>, second: Seq<WindowView>, active_tags: Seq<TagId>)
    requires
        first.len() == second.len(),
        forall|i: int| 0 <= i < first.len() ==> same_for_layout(#[trigger] first[i], second[i]),
    ensures
        placed_windows(first, active_tags) == placed_windows(second, active_tags),
    decreases first.len(),
{
    reveal(Seq::filter);
    if first.len() > 0 {
        same_windows_placed(first.drop_last(), second.drop_last(), active_tags);
        assert(same_for_layout(first[first.len() - 1], second[first.len() - 1]));
        let a = first.last();
        let b = second.last();
        assert(a.on_any_of(active_tags) == b.on_any_of(active_tags)) by {
            if a.on_any_of(active_tags) {
                let i = choose|i: int| 0 <= i < a.tags.len() && active_tags.contains(#[trigger] a.tags[i]);
                assert(active_tags.contains(b.tags[i]));
            }
            if b.on_any_of(active_tags) {
                let i = choose|i: int| 0 <= i < b.tags.len() && active_tags.contains(#[trigger] b.tags[i]);
                assert(active_tags.contains(a.tags[i]));
            }
        }
        let pred = |w: WindowView| is_placed(w, active_tags);
        let id = |w: WindowView| w.id;
        assert(pred(a) == pred(b));
        let fa = first.drop_last().filter(pred);
        let fb = second.drop_last().filter(pred);
        assert(fa.map_values(id) == fb.map_values(id));
        if pred(a) {
            assert(first.filter(pred) == fa.push(a));
            assert(second.filter(pred) == fb.push(b));
            assert(fa.push(a).map_values(id) =~= fa.map_values(id).push(a.id));
            assert(fb.push(b).map_values(id) =~= fb.map_values(id).push(b.id));
        } else {
            assert(first.filter(pred) == fa);
            assert(second.filter(pred) == fb);
        }
    } else {
        assert(placed_windows(first, active_tags) =~= placed_windows(second, active_tags));
    }
}

} // verus!
