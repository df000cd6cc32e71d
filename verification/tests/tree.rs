use mongo_browser::document::{Field, FieldValue};
use mongo_browser::tree::{build_document_tree, materialize, DisplayRow};

fn scalar(name: &str, text: &str) -> Field {
    Field { name: name.to_string(), value: FieldValue::Scalar(text.to_string()) }
}

fn array(name: &str, items: Vec<FieldValue>) -> Field {
    Field { name: name.to_string(), value: FieldValue::Array(items) }
}

fn object(name: &str, fields: Vec<Field>) -> Field {
    Field { name: name.to_string(), value: FieldValue::Object(fields) }
}

fn text(value: &str) -> FieldValue {
    FieldValue::Scalar(value.to_string())
}

fn row(label: &str, parent: Option<usize>, initially_collapsed: bool) -> DisplayRow {
    DisplayRow { label: label.to_string(), parent, initially_collapsed }
}

fn sample_order() -> Vec<Field> {
    vec![
        scalar("_id", "ObjectId(\"64b7\")"),
        object(
            "customer",
            vec![
                scalar("name", "\"Ada\""),
                array("tags", vec![text("\"vip\""), text("\"eu\"")]),
            ],
        ),
        array(
            "items",
            vec![
                FieldValue::Object(vec![scalar("sku", "\"A-1\""), scalar("qty", "2")]),
                FieldValue::Array(vec![]),
                text("null"),
            ],
        ),
        scalar("total", "19.5"),
    ]
}

#[test]
fn empty_record_gives_empty_forest() {
    assert_eq!(materialize(&vec![]), vec![]);
}

#[test]
fn empty_array_gives_one_collapsed_row_without_children() {
    let rows = materialize(&vec![array("tags", vec![])]);
    assert_eq!(rows, vec![row("tags: Array", None, true)]);
}

#[test]
fn empty_object_gives_one_collapsed_row_without_children() {
    let rows = materialize(&vec![object("meta", vec![])]);
    assert_eq!(rows, vec![row("meta: Object", None, true)]);
}

#[test]
fn scalar_field_gives_a_leaf() {
    let rows = materialize(&vec![scalar("count", "42")]);
    assert_eq!(rows, vec![row("count: 42", None, false)]);
}

#[test]
fn array_of_scalars_names_items_by_index() {
    let items: Vec<FieldValue> = (0..12).map(|i| text(&format!("v{}", i))).collect();
    let rows = materialize(&vec![array("list", items)]);
    assert_eq!(rows.len(), 13);
    assert_eq!(rows[0], row("list: Array", None, true));
    for i in 0..12 {
        assert_eq!(rows[i + 1], row(&format!("{}: v{}", i, i), Some(0), false));
    }
}

#[test]
fn nested_document_is_laid_out_in_pre_order() {
    let rows = materialize(&sample_order());
    let expected = vec![
        row("_id: ObjectId(\"64b7\")", None, false),
        row("customer: Object", None, true),
        row("name: \"Ada\"", Some(1), false),
        row("tags: Array", Some(1), true),
        row("0: \"vip\"", Some(3), false),
        row("1: \"eu\"", Some(3), false),
        row("items: Array", None, true),
        row("0: Object", Some(6), true),
        row("sku: \"A-1\"", Some(7), false),
        row("qty: 2", Some(7), false),
        row("1: Array", Some(6), true),
        row("2: null", Some(6), false),
        row("total: 19.5", None, false),
    ];
    assert_eq!(rows, expected);
}

#[test]
fn top_level_rows_follow_field_order() {
    let record = sample_order();
    let rows = materialize(&record);
    let top: Vec<&DisplayRow> = rows.iter().filter(|r| r.parent.is_none()).collect();
    assert_eq!(top.len(), record.len());
    let labels: Vec<&str> = top.iter().map(|r| r.label.as_str()).collect();
    assert_eq!(
        labels,
        vec!["_id: ObjectId(\"64b7\")", "customer: Object", "items: Array", "total: 19.5"]
    );
}

#[test]
fn children_follow_their_parent_without_a_gap() {
    let rows = materialize(&sample_order());
    for (j, row) in rows.iter().enumerate() {
        if let Some(p) = row.parent {
            assert!(p < j);
            assert!(rows[p].initially_collapsed);
            for k in p + 1..j {
                let between = rows[k].parent.expect("a row inside a subtree has a parent");
                assert!(between >= p);
            }
        }
    }
}

#[test]
fn composite_rows_start_collapsed_and_leaves_do_not() {
    let rows = materialize(&sample_order());
    for (j, row) in rows.iter().enumerate() {
        let composite = row.label.ends_with(": Array") || row.label.ends_with(": Object");
        assert_eq!(row.initially_collapsed, composite, "row {}", j);
    }
}

#[test]
fn materialize_twice_gives_equal_forests() {
    let first = materialize(&sample_order());
    let second = materialize(&sample_order());
    assert_eq!(first, second);
    let record = sample_order();
    assert_eq!(materialize(&record), materialize(&record));
}

#[test]
fn build_document_tree_appends_below_the_given_parent() {
    let mut rows = vec![row("root: Object", None, true)];
    build_document_tree(&mut rows, Some(0), "a", &FieldValue::Array(vec![text("1")]));
    build_document_tree(&mut rows, Some(0), "b", &text("x"));
    let expected = vec![
        row("root: Object", None, true),
        row("a: Array", Some(0), true),
        row("0: 1", Some(1), false),
        row("b: x", Some(0), false),
    ];
    assert_eq!(rows, expected);
}
