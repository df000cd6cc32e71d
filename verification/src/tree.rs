//! The tree materializer: a document becomes a forest of display rows.
//!
//! A forest is held as the list of its rows in pre-order. Each row names its
//! parent by that parent's position in the list, so a row's children are the
//! rows that name it, in list order.

use crate::document::{fields_view, values_view, Field, FieldValue, FieldView, ValueView};
use crate::text::{decimal_digits, index_string};
use vstd::prelude::*;

verus! {

/// One row of a document tree.
#[derive(Debug, PartialEq, Eq)]
pub struct DisplayRow {
    /// The text shown for the row.
    pub label: String,
    /// The position of the parent row in the forest; `None` for a top-level row.
    pub parent: Option<usize>,
    /// Whether the row starts with its children hidden.
    pub initially_collapsed: bool,
}

/// What a [`DisplayRow`] holds.
pub struct RowView {
    pub label: Seq<char>,
    pub parent: Option<nat>,
    pub initially_collapsed: bool,
}

/// A parent position as a mathematical value.
pub open spec fn parent_view(parent: Option<usize>) -> Option<nat> {
    match parent {
        Some(row) => Some(row as nat),
        None => None,
    }
}

impl View for DisplayRow {
    type V = RowView;

    open spec fn view(&self) -> RowView {
        RowView { label: self.label@, parent: parent_view(self.parent), initially_collapsed: self.initially_collapsed }
    }
}

/// What a list of rows holds, row by row.
pub open spec fn rows_view(rows: Seq<DisplayRow>) -> Seq<RowView> {
    Seq::new(rows.len(), |i: int| rows[i]@)
}

/// The label of a scalar field: its name, a colon and the value's text.
pub open spec fn scalar_label(name: Seq<char>, text: Seq<char>) -> Seq<char> {
    name + ": "@ + text
}

/// The label of an array field.
pub open spec fn array_label(name: Seq<char>) -> Seq<char> {
    name + ": Array"@
}

/// The label of an object field.
pub open spec fn object_label(name: Seq<char>) -> Seq<char> {
    name + ": Object"@
}

/// The row that a field shows for itself under `parent`: a leaf for a
/// scalar, a collapsed row for an array or an object.
pub open spec fn head_row(name: Seq<char>, value: ValueView, parent: Option<nat>) -> RowView {
    match value {
        ValueView::Scalar(text) => RowView {
            label: scalar_label(name, text),
            parent,
            initially_collapsed: false,
        },
        ValueView::Array(_) => RowView { label: array_label(name), parent, initially_collapsed: true },
        ValueView::Object(_) => RowView { label: object_label(name), parent, initially_collapsed: true },
    }
}

/// The rows of one field whose own row stands at position `at` under `parent`:
/// the field's row, then the rows of everything below it.
pub open spec fn field_rows(name: Seq<char>, value: ValueView, parent: Option<nat>, at: nat) -> Seq<
    RowView,
>
    decreases value,
{
    seq![head_row(name, value, parent)] + match value {
        ValueView::Scalar(_) => Seq::empty(),
        ValueView::Array(items) => array_rows(items, Some(at), at + 1),
        ValueView::Object(fields) => object_rows(fields, Some(at), at + 1),
    }
}

/// The rows of the items of an array, each named by its index, the first
/// standing at position `at`.
pub open spec fn array_rows(items: Seq<ValueView>, parent: Option<nat>, at: nat) -> Seq<RowView>
    decreases items,
{
    if items.len() == 0 {
        Seq::empty()
    } else {
        let before = array_rows(items.drop_last(), parent, at);
        before + field_rows(
            decimal_digits((items.len() - 1) as nat),
            items.last(),
            parent,
            at + before.len(),
        )
    }
}

/// The rows of a list of fields, in field order, the first standing at
/// position `at`.
pub open spec fn object_rows(fields: Seq<FieldView>, parent: Option<nat>, at: nat) -> Seq<RowView>
    decreases fields,
{
    if fields.len() == 0 {
        Seq::empty()
    } else {
        let before = object_rows(fields.drop_last(), parent, at);
        before + field_rows(fields.last().name, fields.last().value, parent, at + before.len())
    }
}

/// The forest of a document: the rows of its fields as top-level rows.
pub open spec fn forest(record: Seq<FieldView>) -> Seq<RowView> {
    object_rows(record, None, 0)
}

/// Appends the rows of one field to `tree`, under `parent_row`.
pub fn build_document_tree(
    tree: &mut Vec<DisplayRow>,
    parent_row: Option<usize>,
    key: &str,
    value: &FieldValue,
)
    ensures
        rows_view(final(tree)@) == rows_view(old(tree)@) + field_rows(
            key@,
            value@,
            parent_view(parent_row),
            old(tree)@.len(),
        ),
    decreases value,
{
    let ghost before = rows_view(tree@);
    let row = tree.len();
    let mut label = String::from_str(key);
    match value {
        FieldValue::Scalar(text) => {
            label.append(": ");
            label.append(text.as_str());
            tree.push(DisplayRow { label, parent: parent_row, initially_collapsed: false });
            assert(rows_view(tree@) =~= before + field_rows(
                key@,
                value@,
                parent_view(parent_row),
                row as nat,
            ));
        },
        FieldValue::Array(items) => {
            label.append(": Array");
            tree.push(DisplayRow { label, parent: parent_row, initially_collapsed: true });
            let ghost head = rows_view(tree@);
            let ghost views = values_view(items@);
            proof {
                crate::document::lemma_array_view(*items);
                assert(head =~= before + seq![head_row(key@, value@, parent_view(parent_row))]);
            }
            let mut i: usize = 0;
            while i < items.len()
                invariant
                    i <= items.len(),
                    *value == FieldValue::Array(*items),
                    views == values_view(items@),
                    head.len() == row + 1,
                    rows_view(tree@) == head + array_rows(
                        views.take(i as int),
                        Some(row as nat),
                        (row + 1) as nat,
                    ),
                decreases items.len() - i,
            {
                let name = index_string(i);
                let ghost so_far = array_rows(
                    views.take(i as int),
                    Some(row as nat),
                    (row + 1) as nat,
                );
                proof {
                    assert(decreases_to!(*value => value->Array_0));
                    assert(decreases_to!(*items => items[i as int]));
                }
                build_document_tree(tree, Some(row), name.as_str(), &items[i]);
                proof {
                    let next = views.take(i + 1);
                    assert(next.drop_last() =~= views.take(i as int));
                    assert(next.last() == items@[i as int]@);
                    assert(rows_view(tree@) =~= head + array_rows(
                        next,
                        Some(row as nat),
                        (row + 1) as nat,
                    ));
                }
                i += 1;
            }
            proof {
                assert(views.take(i as int) =~= views);
                assert(rows_view(tree@) =~= before + field_rows(
                    key@,
                    value@,
                    parent_view(parent_row),
                    row as nat,
                ));
            }
        },
        FieldValue::Object(fields) => {
            label.append(": Object");
            tree.push(DisplayRow { label, parent: parent_row, initially_collapsed: true });
            let ghost head = rows_view(tree@);
            proof {
                crate::document::lemma_object_view(*fields);
                assert(head =~= before + seq![head_row(key@, value@, parent_view(parent_row))]);
            }
            append_fields(tree, Some(row), fields);
            proof {
                assert(rows_view(tree@) =~= before + field_rows(
                    key@,
                    value@,
                    parent_view(parent_row),
                    row as nat,
                ));
            }
        },
    }
}

/// Appends the rows of `fields` to `tree`, in field order, under `parent_row`.
fn append_fields(tree: &mut Vec<DisplayRow>, parent_row: Option<usize>, fields: &Vec<Field>)
    ensures
        rows_view(final(tree)@) == rows_view(old(tree)@) + object_rows(
            fields_view(fields@),
            parent_view(parent_row),
            old(tree)@.len(),
        ),
    decreases fields,
{
    let ghost head = rows_view(tree@);
    let ghost views = fields_view(fields@);
    let base = tree.len();
    let mut i: usize = 0;
    while i < fields.len()
        invariant
            i <= fields.len(),
            views == fields_view(fields@),
            head.len() == base,
            rows_view(tree@) == head + object_rows(
                views.take(i as int),
                parent_view(parent_row),
                base as nat,
            ),
        decreases fields.len() - i,
    {
        let field = &fields[i];
        build_document_tree(tree, parent_row, field.name.as_str(), &field.value);
        proof {
            let next = views.take(i + 1);
            assert(next.drop_last() =~= views.take(i as int));
            assert(next.last() == fields@[i as int]@);
            assert(rows_view(tree@) =~= head + object_rows(
                next,
                parent_view(parent_row),
                base as nat,
            ));
        }
        i += 1;
    }
    proof {
        assert(views.take(i as int) =~= views);
    }
}

/// Turns a document into its forest of display rows.
///
/// Every field gives one row, labelled with the field's name and, for a
/// scalar, its text. The row of an array or an object starts collapsed and is
/// followed at once by the rows of what it holds; array items are named by
/// their index. Top-level fields give top-level rows, in field order.
pub fn materialize(record: &Vec<Field>) -> (rows: Vec<DisplayRow>)
    ensures
        rows_view(rows@) == forest(fields_view(record@)),
{
    let mut rows: Vec<DisplayRow> = Vec::new();
    append_fields(&mut rows, None, record);
    assert(rows_view(rows@) =~= forest(fields_view(record@)));
    rows
}

} // verus!
