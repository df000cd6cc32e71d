//! What holds of every forest that the materializer builds.

use crate::document::{fields_view, Field, FieldView, ValueView};
use crate::tree::{array_rows, field_rows, forest, head_row, object_rows, RowView};
use vstd::prelude::*;

verus! {

/// The row's parent stands at position `q` or later.
pub open spec fn parent_from(row: RowView, q: nat) -> bool {
    match row.parent {
        Some(parent) => parent >= q,
        None => false,
    }
}

/// Row `j` of a run of rows that starts at position `at` is the child of an
/// earlier row of the run, that row starts collapsed, and every row between
/// the two lies below that same row. So a row's subtree is the unbroken block
/// of rows that follows it.
pub open spec fn hangs_below(rows: Seq<RowView>, at: nat, j: int) -> bool {
    &&& rows[j].parent matches Some(q)
    &&& at <= q < at + j
    &&& rows[q - at].initially_collapsed
    &&& forall|k: int| q - at < k < j ==> parent_from(#[trigger] rows[k], q)
}

/// Every row of the run is a child of `parent` or hangs below a row of the run.
pub open spec fn well_nested(rows: Seq<RowView>, parent: Option<nat>, at: nat) -> bool {
    forall|j: int|
        0 <= j < rows.len() ==> (#[trigger] rows[j]).parent == parent || hangs_below(rows, at, j)
}

/// The rows that have no parent, in order.
pub open spec fn top_level(rows: Seq<RowView>) -> Seq<RowView> {
    rows.filter(|row: RowView| row.parent is None)
}

/// The top-level row of each field of a document, in field order.
pub open spec fn top_rows(record: Seq<FieldView>) -> Seq<RowView> {
    Seq::new(record.len(), |i: int| head_row(record[i].name, record[i].value, None))
}

/// The rows of a field start with the field's own row, and every later row
/// hangs below a row of that field.
pub proof fn lemma_field_rows_nested(
    name: Seq<char>,
    value: ValueView,
    parent: Option<nat>,
    at: nat,
)
    ensures
        field_rows(name, value, parent, at).len() >= 1,
        field_rows(name, value, parent, at)[0] == head_row(name, value, parent),
        forall|j: int|
            1 <= j < field_rows(name, value, parent, at).len() ==> hangs_below(
                field_rows(name, value, parent, at),
                at,
                j,
            ),
    decreases value,
{
    let rows = field_rows(name, value, parent, at);
    let below = match value {
        ValueView::Scalar(_) => Seq::<RowView>::empty(),
        ValueView::Array(items) => array_rows(items, Some(at), at + 1),
        ValueView::Object(fields) => object_rows(fields, Some(at), at + 1),
    };
    assert(rows =~= seq![head_row(name, value, parent)] + below);
    match value {
        ValueView::Scalar(_) => {},
        ValueView::Array(items) => {
            lemma_array_rows_nested(items, Some(at), at + 1);
        },
        ValueView::Object(fields) => {
            lemma_object_rows_nested(fields, Some(at), at + 1);
        },
    }
    assert forall|j: int| 1 <= j < rows.len() implies hangs_below(rows, at, j) by {
        assert(rows[j] == below[j - 1]);
        assert(rows[0].initially_collapsed);
        if below[j - 1].parent == Some(at) {
            assert forall|k: int| 0 < k < j implies parent_from(#[trigger] rows[k], at) by {
                assert(rows[k] == below[k - 1]);
                if below[k - 1].parent != Some(at) {
                    assert(hangs_below(below, at + 1, k - 1));
                }
            }
        } else {
            assert(hangs_below(below, at + 1, j - 1));
            let q = below[j - 1].parent->Some_0;
            assert(rows[q - at] == below[q - (at + 1)]);
            assert forall|k: int| q - at < k < j implies parent_from(#[trigger] rows[k], q) by {
                assert(rows[k] == below[k - 1]);
            }
        }
    }
}

/// The rows of an array's items are children of `parent` or hang below one
/// another.
pub proof fn lemma_array_rows_nested(items: Seq<ValueView>, parent: Option<nat>, at: nat)
    ensures
        well_nested(array_rows(items, parent, at), parent, at),
    decreases items,
{
    if items.len() > 0 {
        let before = array_rows(items.drop_last(), parent, at);
        let name = crate::text::decimal_digits((items.len() - 1) as nat);
        let last = field_rows(name, items.last(), parent, at + before.len());
        lemma_array_rows_nested(items.drop_last(), parent, at);
        lemma_field_rows_nested(name, items.last(), parent, at + before.len());
        lemma_nested_append(before, last, parent, at, at + before.len());
    }
}

/// The rows of a list of fields are children of `parent` or hang below one
/// another.
pub proof fn lemma_object_rows_nested(fields: Seq<FieldView>, parent: Option<nat>, at: nat)
    ensures
        well_nested(object_rows(fields, parent, at), parent, at),
    decreases fields,
{
    if fields.len() > 0 {
        let before = object_rows(fields.drop_last(), parent, at);
        let last = field_rows(
            fields.last().name,
            fields.last().value,
            parent,
            at + before.len(),
        );
        lemma_object_rows_nested(fields.drop_last(), parent, at);
        lemma_field_rows_nested(
            fields.last().name,
            fields.last().value,
            parent,
            at + before.len(),
        );
        lemma_nested_append(before, last, parent, at, at + before.len());
    }
}

/// A well-nested run stays well nested when the rows of one more child of
/// `parent` follow it.
proof fn lemma_nested_append(
    before: Seq<RowView>,
    last: Seq<RowView>,
    parent: Option<nat>,
    at: nat,
    next: nat,
)
    requires
        well_nested(before, parent, at),
        next == at + before.len(),
        last.len() >= 1,
        last[0].parent == parent,
        forall|j: int| 1 <= j < last.len() ==> hangs_below(last, next, j),
    ensures
        well_nested(before + last, parent, at),
{
    let rows = before + last;
    let n = before.len() as int;
    assert forall|j: int| 0 <= j < rows.len() implies (#[trigger] rows[j]).parent == parent
        || hangs_below(rows, at, j) by {
        if j < n {
            assert(rows[j] == before[j]);
            if before[j].parent != parent {
                assert(hangs_below(before, at, j));
                let q = before[j].parent->Some_0;
                assert(rows[q - at] == before[q - at]);
                assert forall|k: int| q - at < k < j implies parent_from(#[trigger] rows[k], q) by {
                    assert(rows[k] == before[k]);
                }
            }
        } else if j > n {
            assert(rows[j] == last[j - n]);
            assert(hangs_below(last, next, j - n));
            let q = last[j - n].parent->Some_0;
            assert(rows[q - at] == last[q - at - n]);
            assert forall|k: int| q - at < k < j implies parent_from(#[trigger] rows[k], q) by {
                assert(rows[k] == last[k - n]);
            }
        } else {
            assert(rows[j] == last[0]);
        }
    }
}

/// In the forest of a document every row is a top-level row or the child of
/// an earlier row that starts collapsed, and the rows between a row and its
/// parent all lie below that parent: the rows stand in pre-order, each
/// subtree an unbroken block right after its root.
pub proof fn lemma_forest_preorder(record: Seq<FieldView>)
    ensures
        forall|j: int|
            0 <= j < forest(record).len() ==> (#[trigger] forest(record)[j]).parent is None
                || hangs_below(forest(record), 0, j),
{
    lemma_object_rows_nested(record, None, 0);
    let rows = forest(record);
    assert forall|j: int| 0 <= j < rows.len() implies (#[trigger] rows[j]).parent is None
        || hangs_below(rows, 0, j) by {
        if rows[j].parent != None::<nat> {
            assert(hangs_below(rows, 0, j));
        }
    }
}

/// Filtering a run in which no row passes gives nothing.
proof fn lemma_filter_none(rows: Seq<RowView>, pred: spec_fn(RowView) -> bool)
    requires
        forall|j: int| 0 <= j < rows.len() ==> !pred(#[trigger] rows[j]),
    ensures
        rows.filter(pred) == Seq::<RowView>::empty(),
    decreases rows.len(),
{
    reveal(Seq::filter);
    if rows.len() > 0 {
        lemma_filter_none(rows.drop_last(), pred);
    }
}

/// Of the rows of one top-level field only the field's own row is top-level.
proof fn lemma_top_level_of_field(name: Seq<char>, value: ValueView, at: nat)
    ensures
        top_level(field_rows(name, value, None, at)) == seq![head_row(name, value, None)],
{
    let pred = |row: RowView| row.parent is None;
    let rows = field_rows(name, value, None, at);
    lemma_field_rows_nested(name, value, None, at);
    let head = seq![rows[0]];
    let below = rows.subrange(1, rows.len() as int);
    assert(rows =~= head + below);
    assert forall|j: int| 0 <= j < below.len() implies !pred(#[trigger] below[j]) by {
        assert(below[j] == rows[j + 1]);
        assert(hangs_below(rows, at, j + 1));
    }
    lemma_filter_none(below, pred);
    assert(head.filter(pred) =~= head) by {
        reveal_with_fuel(Seq::filter, 2);
        assert(head.drop_last() =~= Seq::<RowView>::empty());
    }
    Seq::filter_distributes_over_add(head, below, pred);
    assert(rows.filter(pred) =~= head);
}

/// The top-level rows among the rows of a list of top-level fields are the
/// fields' own rows, in field order.
proof fn lemma_top_level_of_fields(fields: Seq<FieldView>, at: nat)
    ensures
        top_level(object_rows(fields, None, at)) == top_rows(fields),
    decreases fields,
{
    let pred = |row: RowView| row.parent is None;
    if fields.len() == 0 {
        reveal(Seq::filter);
        assert(top_level(object_rows(fields, None, at)) =~= top_rows(fields));
    } else {
        let before = object_rows(fields.drop_last(), None, at);
        let last = field_rows(fields.last().name, fields.last().value, None, at + before.len());
        lemma_top_level_of_fields(fields.drop_last(), at);
        lemma_top_level_of_field(fields.last().name, fields.last().value, at + before.len());
        Seq::filter_distributes_over_add(before, last, pred);
        assert(top_level(object_rows(fields, None, at)) =~= top_rows(fields));
    }
}

/// The forest of a document has one top-level row for each field of the
/// document, in the document's field order.
pub proof fn lemma_top_level_rows(record: Seq<FieldView>)
    ensures
        top_level(forest(record)) == top_rows(record),
        top_level(forest(record)).len() == record.len(),
{
    lemma_top_level_of_fields(record, 0);
}

/// Documents that hold the same fields have the same forest, whatever the
/// values that carry them: the forest depends on the document's contents
/// alone.
pub proof fn lemma_materialize_deterministic(first: Vec<Field>, second: Vec<Field>)
    requires
        fields_view(first@) == fields_view(second@),
    ensures
        forest(fields_view(first@)) == forest(fields_view(second@)),
{
}

/// A document without fields has an empty forest.
pub proof fn lemma_empty_record()
    ensures
        forest(Seq::<FieldView>::empty()) == Seq::<RowView>::empty(),
{
}

/// An empty array gives one collapsed row and nothing below it.
pub proof fn lemma_empty_array(name: Seq<char>, parent: Option<nat>, at: nat)
    ensures
        field_rows(name, ValueView::Array(Seq::empty()), parent, at) == seq![
            RowView { label: crate::tree::array_label(name), parent, initially_collapsed: true },
        ],
{
    assert(field_rows(name, ValueView::Array(Seq::empty()), parent, at) =~= seq![
        RowView { label: crate::tree::array_label(name), parent, initially_collapsed: true },
    ]);
}

} // verus!
