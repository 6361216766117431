//! Rendering of the menu as lists of drawing operations.
//!
//! The renderer never touches a surface. It returns the operations in the
//! order in which they are to be carried out, and records in the model that
//! the indicator now stands at the selected item.

use vstd::prelude::*;
use crate::geometry::{Point, INDICATOR_RADIUS};
use crate::menu::{MenuItem, MenuModel, MenuView};

verus! {

/// One operation on the drawing surface.
#[derive(Clone, Copy, Debug, PartialEq, Eq, Structural)]
pub enum DrawOp {
    /// Paint the whole surface in the background colour.
    Clear,
    /// Draw the label of item `id` with its origin at `at`.
    Label { id: u8, at: Point },
    /// Paint a rectangle in the background colour.
    EraseRect { origin: Point, width: u32, height: u32 },
    /// Draw the selection indicator: a filled circle in the foreground colour.
    Indicator { center: Point, radius: u32 },
}

/// The operation that draws the indicator of the item anchored at `anchor`.
pub open spec fn indicator_op(anchor: Point) -> DrawOp {
    DrawOp::Indicator { center: anchor.indicator_center(), radius: INDICATOR_RADIUS as u32 }
}

/// The operation that removes the indicator of the item anchored at
/// `anchor`: it paints over the square that bounds the circle.
pub open spec fn erase_op(anchor: Point) -> DrawOp {
    DrawOp::EraseRect {
        origin: anchor.indicator_box_origin(),
        width: (2 * INDICATOR_RADIUS + 1) as u32,
        height: (2 * INDICATOR_RADIUS + 1) as u32,
    }
}

/// The operation that draws the label of `item`.
pub open spec fn label_op(item: MenuItem) -> DrawOp {
    DrawOp::Label { id: item.id, at: item.anchor }
}

/// The labels of all items, in display order.
pub open spec fn label_ops(items: Seq<MenuItem>) -> Seq<DrawOp> {
    Seq::new(items.len(), |i: int| label_op(items[i]))
}

/// What a differential update issues: nothing when the surface is up to
/// date, else the erasure of the old indicator followed by the new one.
pub open spec fn sync_ops(menu: MenuView) -> Seq<DrawOp> {
    if menu.current == menu.previous {
        Seq::empty()
    } else {
        seq![
            erase_op(menu.items[menu.previous].anchor),
            indicator_op(menu.items[menu.current].anchor),
        ]
    }
}

/// What a full repaint issues: a clear, every label, and the indicator of
/// the selected item.
pub open spec fn redraw_ops(menu: MenuView) -> Seq<DrawOp> {
    seq![DrawOp::Clear] + label_ops(menu.items) + seq![
        indicator_op(menu.items[menu.current].anchor),
    ]
}

/// True when the rectangle covers the whole square that bounds an indicator
/// centred at `center`.
pub open spec fn rect_covers_indicator(origin: Point, width: u32, height: u32, center: Point) -> bool {
    &&& origin.x <= center.x - INDICATOR_RADIUS
    &&& center.x + INDICATOR_RADIUS < origin.x + width
    &&& origin.y <= center.y - INDICATOR_RADIUS
    &&& center.y + INDICATOR_RADIUS < origin.y + height
}

/// The centres of the indicators that the surface shows after `op`, given
/// those that it showed before. An indicator counts as shown until a clear
/// or a rectangle that covers all of it removes it.
pub open spec fn visible_after_op(visible: Set<Point>, op: DrawOp) -> Set<Point> {
    match op {
        DrawOp::Clear => Set::empty(),
        DrawOp::Label { .. } => visible,
        DrawOp::EraseRect { origin, width, height } => visible.filter(
            |c: Point| !rect_covers_indicator(origin, width, height, c),
        ),
        DrawOp::Indicator { center, .. } => visible.insert(center),
    }
}

/// The centres of the indicators that the surface shows after `ops` were
/// carried out in order.
pub open spec fn visible_after(visible: Set<Point>, ops: Seq<DrawOp>) -> Set<Point>
    decreases ops.len(),
{
    if ops.len() == 0 {
        visible
    } else {
        visible_after_op(visible_after(visible, ops.drop_last()), ops.last())
    }
}

/// No two different indicators are shown.
pub open spec fn at_most_one(visible: Set<Point>) -> bool {
    forall|a: Point, b: Point| visible.contains(a) && visible.contains(b) ==> a == b
}

/// Centre of the indicator of item `index`.
pub open spec fn indicator_of(menu: MenuView, index: int) -> Point {
    menu.items[index].anchor.indicator_center()
}

fn draw_indicator(anchor: Point) -> (op: DrawOp)
    requires
        anchor.indicator_fits(),
    ensures
        op == indicator_op(anchor),
{
    DrawOp::Indicator { center: anchor.center_of_indicator(), radius: INDICATOR_RADIUS as u32 }
}

fn erase_indicator(anchor: Point) -> (op: DrawOp)
    requires
        anchor.indicator_fits(),
    ensures
        op == erase_op(anchor),
{
    let side: u32 = (2 * INDICATOR_RADIUS + 1) as u32;
    DrawOp::EraseRect { origin: anchor.origin_of_indicator_box(), width: side, height: side }
}

/// Brings the indicator on the surface in step with the selection.
///
/// When the indicator already stands at the selected item nothing is issued
/// and the model is left as it is. Otherwise the old indicator is erased
/// first, the new one is drawn second, and the model records the selected
/// item as the one that is drawn.
pub fn sync(model: &mut MenuModel) -> (ops: Vec<DrawOp>)
    requires
        old(model).wf(),
    ensures
        final(model).wf(),
        final(model)@ == old(model)@.synced(),
        ops@ == sync_ops(old(model)@),
{
    let mut ops: Vec<DrawOp> = Vec::new();
    let current: usize = model.current_index();
    let previous: usize = model.previous_index();
    if current != previous {
        ops.push(erase_indicator(model.item(previous).anchor));
        ops.push(draw_indicator(model.item(current).anchor));
        model.mark_drawn();
    }
    assert(ops@ =~= sync_ops(old(model)@));
    ops
}

/// The operations that paint the whole menu from scratch: a clear, every
/// label at its anchor, and the indicator at the selected item.
pub fn repaint_ops(model: &MenuModel) -> (ops: Vec<DrawOp>)
    requires
        model.wf(),
    ensures
        ops@ == redraw_ops(model@),
{
    let mut ops: Vec<DrawOp> = Vec::new();
    ops.push(DrawOp::Clear);
    let n: usize = model.len();
    let mut i: usize = 0;
    while i < n
        invariant
            i <= n,
            n == model@.items.len(),
            ops@.len() == i + 1,
            ops@[0] == DrawOp::Clear,
            forall|k: int| 1 <= k <= i ==> #[trigger] ops@[k] == label_op(model@.items[k - 1]),
        decreases n - i,
    {
        let item: MenuItem = model.item(i);
        ops.push(DrawOp::Label { id: item.id, at: item.anchor });
        i += 1;
    }
    ops.push(draw_indicator(model.item(model.current_index()).anchor));
    assert(ops@ =~= redraw_ops(model@));
    ops
}

/// Repaints the whole menu: issues the operations of [`repaint_ops`] and
/// records the selected item as the one that is drawn.
pub fn full_redraw(model: &mut MenuModel) -> (ops: Vec<DrawOp>)
    requires
        old(model).wf(),
    ensures
        final(model).wf(),
        final(model)@ == old(model)@.synced(),
        ops@ == redraw_ops(old(model)@),
{
    let ops = repaint_ops(model);
    model.mark_drawn();
    ops
}

} // verus!
