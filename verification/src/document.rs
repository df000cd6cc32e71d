//! Documents as the browser sees them: ordered fields holding scalars,
//! arrays and nested objects.

use vstd::prelude::*;

verus! {

/// A value inside a document.
#[derive(Debug, PartialEq, Eq)]
pub enum FieldValue {
    /// A value without children, held as the text to show for it.
    Scalar(String),
    /// An ordered list of values.
    Array(Vec<FieldValue>),
    /// An ordered list of named values.
    Object(Vec<Field>),
}

/// One named value of a document or nested object.
#[derive(Debug, PartialEq, Eq)]
pub struct Field {
    pub name: String,
    pub value: FieldValue,
}

/// What a [`FieldValue`] holds.
pub enum ValueView {
    Scalar(Seq<char>),
    Array(Seq<ValueView>),
    Object(Seq<FieldView>),
}

/// What a [`Field`] holds.
pub struct FieldView {
    pub name: Seq<char>,
    pub value: ValueView,
}

impl View for FieldValue {
    type V = ValueView;

    open spec fn view(&self) -> ValueView
        decreases self,
    {
        match self {
            FieldValue::Scalar(text) => ValueView::Scalar(text@),
            FieldValue::Array(items) => ValueView::Array(
                Seq::new(
                    items@.len(),
                    |i: int|
                        if 0 <= i < items@.len() {
                            items@[i].view()
                        } else {
                            ValueView::Scalar(Seq::empty())
                        },
                ),
            ),
            FieldValue::Object(fields) => ValueView::Object(
                Seq::new(
                    fields@.len(),
                    |i: int|
                        if 0 <= i < fields@.len() {
                            FieldView { name: fields@[i].name@, value: fields@[i].value.view() }
                        } else {
                            FieldView { name: Seq::empty(), value: ValueView::Scalar(Seq::empty()) }
                        },
                ),
            ),
        }
    }
}

impl View for Field {
    type V = FieldView;

    open spec fn view(&self) -> FieldView {
        FieldView { name: self.name@, value: self.value@ }
    }
}

/// What a list of fields holds, field by field.
pub open spec fn fields_view(fields: Seq<Field>) -> Seq<FieldView> {
    Seq::new(fields.len(), |i: int| fields[i]@)
}

/// What a list of values holds, value by value.
pub open spec fn values_view(items: Seq<FieldValue>) -> Seq<ValueView> {
    Seq::new(items.len(), |i: int| items[i]@)
}

/// The view of an array is the list of its items' views.
pub proof fn lemma_array_view(items: Vec<FieldValue>)
    ensures
        FieldValue::Array(items)@ == ValueView::Array(values_view(items@)),
{
    assert(FieldValue::Array(items)@->Array_0 =~= values_view(items@));
}

/// The view of an object is the list of its fields' views.
pub proof fn lemma_object_view(fields: Vec<Field>)
    ensures
        FieldValue::Object(fields)@ == ValueView::Object(fields_view(fields@)),
{
    assert(FieldValue::Object(fields)@->Object_0 =~= fields_view(fields@));
}

} // verus!
