//! Putting a forest into a tree widget.
//!
//! A widget takes its rows one at a time, each placed beside or below a row
//! that it already holds, and collapses a row on request. The plans here say
//! which calls to make and in what order; the caller makes them. Rows are
//! counted as the widget counts them while none of its rows is collapsed:
//! from the top, starting at zero.

use crate::forest::{hangs_below, parent_from};
use crate::tree::{rows_view, DisplayRow, RowView};
use vstd::prelude::*;

verus! {

/// Where a new row goes, seen from the row that anchors it.
#[derive(Clone, Copy, Debug, PartialEq, Eq, Structural)]
pub enum RowPlacement {
    /// As the next sibling of the anchor, after everything below the anchor.
    After,
    /// As the last child of the anchor.
    LastChild,
}

/// One insertion into a widget.
#[derive(Debug, PartialEq, Eq)]
pub struct RowInsert {
    /// The text of the new row.
    pub label: String,
    /// Where the row goes, seen from the anchor.
    pub placement: RowPlacement,
    /// The row of the widget that anchors the new row. Into an empty widget
    /// the first row goes whatever the anchor.
    pub anchor: usize,
}

/// What a [`RowInsert`] holds.
pub struct InsertView {
    pub label: Seq<char>,
    pub placement: RowPlacement,
    pub anchor: int,
}

impl View for RowInsert {
    type V = InsertView;

    open spec fn view(&self) -> InsertView {
        InsertView { label: self.label@, placement: self.placement, anchor: self.anchor as int }
    }
}

/// What a plan holds, insertion by insertion.
pub open spec fn inserts_view(plan: Seq<RowInsert>) -> Seq<InsertView> {
    Seq::new(plan.len(), |i: int| plan[i]@)
}

/// The position of the last top-level row before position `i`, and zero when
/// there is none.
pub open spec fn last_top_before(rows: Seq<RowView>, i: int) -> int
    decreases i,
{
    if i <= 0 {
        0
    } else if rows[i - 1].parent is None {
        i - 1
    } else {
        last_top_before(rows, i - 1)
    }
}

/// The row that anchors row `i` when the rows before it are in the widget:
/// its parent, or for a top-level row the top-level row before it.
pub open spec fn anchor_of(rows: Seq<RowView>, i: int) -> int {
    match rows[i].parent {
        Some(parent) => parent as int,
        None => last_top_before(rows, i),
    }
}

/// The insertion of row `i`: a child goes in as the last child of its parent,
/// a top-level row after the top-level row before it.
pub open spec fn insert_of(rows: Seq<RowView>, i: int) -> InsertView {
    InsertView {
        label: rows[i].label,
        placement: match rows[i].parent {
            Some(_) => RowPlacement::LastChild,
            None => RowPlacement::After,
        },
        anchor: anchor_of(rows, i),
    }
}

/// The insertions that put a forest into an empty widget: one for each row,
/// in the order of the rows.
pub open spec fn insert_steps(rows: Seq<RowView>) -> Seq<InsertView> {
    Seq::new(rows.len(), |i: int| insert_of(rows, i))
}

/// The positions, among the first `n` rows, of the rows that start collapsed,
/// the last one first.
pub open spec fn collapse_steps(rows: Seq<RowView>, n: int) -> Seq<usize>
    decreases n,
{
    if n <= 0 {
        Seq::empty()
    } else if rows[n - 1].initially_collapsed {
        seq![(n - 1) as usize] + collapse_steps(rows, n - 1)
    } else {
        collapse_steps(rows, n - 1)
    }
}

/// The insertions that put `rows` into an empty widget, to be made in order
/// while no row of the widget is collapsed.
pub fn insert_plan(rows: &Vec<DisplayRow>) -> (plan: Vec<RowInsert>)
    ensures
        inserts_view(plan@) == insert_steps(rows_view(rows@)),
{
    let ghost views = rows_view(rows@);
    let mut plan: Vec<RowInsert> = Vec::new();
    let mut last_top: usize = 0;
    let mut i: usize = 0;
    while i < rows.len()
        invariant
            i <= rows.len(),
            views == rows_view(rows@),
            last_top as int == last_top_before(views, i as int),
            inserts_view(plan@) == insert_steps(views).take(i as int),
        decreases rows.len() - i,
    {
        let row = &rows[i];
        let ghost held = inserts_view(plan@);
        assert(views[i as int] == row@);
        let step = match row.parent {
            Some(parent) => RowInsert {
                label: row.label.clone(),
                placement: RowPlacement::LastChild,
                anchor: parent,
            },
            None => RowInsert {
                label: row.label.clone(),
                placement: RowPlacement::After,
                anchor: last_top,
            },
        };
        assert(step@ == insert_of(views, i as int));
        plan.push(step);
        if row.parent.is_none() {
            last_top = i;
        }
        assert(inserts_view(plan@) =~= held.push(insert_of(views, i as int)));
        assert(insert_steps(views).take(i + 1) =~= insert_steps(views).take(i as int).push(
            insert_of(views, i as int),
        ));
        i += 1;
    }
    assert(insert_steps(views).take(i as int) =~= insert_steps(views));
    plan
}

/// The rows of the widget to collapse once `rows` are in it, in the order to
/// collapse them: every row that starts collapsed, the last one first, so
/// that no row is counted past a collapsed one.
pub fn collapse_order(rows: &Vec<DisplayRow>) -> (order: Vec<usize>)
    ensures
        order@ == collapse_steps(rows_view(rows@), rows@.len() as int),
{
    let ghost views = rows_view(rows@);
    let ghost all = collapse_steps(views, rows@.len() as int);
    let mut order: Vec<usize> = Vec::new();
    let mut i: usize = rows.len();
    while i > 0
        invariant
            i <= rows.len(),
            views == rows_view(rows@),
            all == order@ + collapse_steps(views, i as int),
        decreases i,
    {
        i -= 1;
        assert(views[i as int] == rows@[i as int]@);
        if rows[i].initially_collapsed {
            let ghost held = order@;
            order.push(i);
            assert(all =~= order@ + collapse_steps(views, i as int)) by {
                assert(order@ =~= held + seq![i]);
                assert(collapse_steps(views, i + 1) =~= seq![i] + collapse_steps(views, i as int));
            }
        }
    }
    assert(all =~= order@);
    order
}

/// Before a row that is not the first stands a top-level row, provided the
/// first row is one; `last_top_before` finds the last of them, and no row
/// between it and the row is top-level.
proof fn lemma_last_top(rows: Seq<RowView>, i: int)
    requires
        0 < i <= rows.len(),
        rows[0].parent is None,
    ensures
        0 <= last_top_before(rows, i) < i,
        rows[last_top_before(rows, i)].parent is None,
        forall|k: int| last_top_before(rows, i) < k < i ==> (#[trigger] rows[k]).parent is Some,
    decreases i,
{
    if i > 1 && rows[i - 1].parent is Some {
        lemma_last_top(rows, i - 1);
    }
}

/// In the plan of a forest each row but the first is anchored on an earlier
/// row, and every row between the two lies below the anchor. So when the
/// insertions are made in order, the anchor's subtree reaches to the end of
/// what the widget holds, and each insertion puts its row at the end.
pub proof fn lemma_plan_appends(record: Seq<crate::document::FieldView>, i: int)
    requires
        0 < i < crate::tree::forest(record).len(),
    ensures
        0 <= anchor_of(crate::tree::forest(record), i) < i,
        forall|k: int|
            anchor_of(crate::tree::forest(record), i) < k < i ==> parent_from(
                #[trigger] crate::tree::forest(record)[k],
                anchor_of(crate::tree::forest(record), i) as nat,
            ),
{
    let rows = crate::tree::forest(record);
    crate::forest::lemma_forest_preorder(record);
    assert(rows[0].parent is None) by {
        if rows[0].parent is Some {
            assert(hangs_below(rows, 0, 0));
        }
    }
    match rows[i].parent {
        Some(parent) => {
            assert(hangs_below(rows, 0, i));
        },
        None => {
            lemma_last_top(rows, i);
            let top = last_top_before(rows, i);
            assert forall|k: int| top < k < i implies parent_from(#[trigger] rows[k], top as nat) by {
                assert(rows[k].parent is Some);
                assert(hangs_below(rows, 0, k));
                let q = rows[k].parent->Some_0;
                if q < top {
                    assert(parent_from(rows[top], q));
                }
            }
        },
    }
}

} // verus!
