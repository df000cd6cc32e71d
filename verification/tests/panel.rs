use mongo_browser::collection_stats::CollectionStats;
use mongo_browser::detail::CollectionDetail;
use mongo_browser::document::{Field, FieldValue};
use mongo_browser::panel::{show_database, DetailPanel, PanelChild, StatTile};
use mongo_browser::tree::{materialize, DisplayRow};

fn scalar(name: &str, text: &str) -> Field {
    Field { name: name.to_string(), value: FieldValue::Scalar(text.to_string()) }
}

fn tile(title: &str, value: &str) -> StatTile {
    StatTile { title: title.to_string(), value: value.to_string() }
}

fn detail(storage: i64, documents: Vec<Vec<Field>>) -> CollectionDetail {
    CollectionDetail {
        stats: CollectionStats {
            storage_size: storage,
            document_count: documents.len() as i64,
            avg_document_size: 100,
            indexes_count: 3,
            total_index_size: 123456,
        },
        sample_documents: documents,
    }
}

fn size_tile(panel: &DetailPanel) -> String {
    match &panel.children[1] {
        PanelChild::StatTiles(tiles) => tiles[0].value.clone(),
        other => panic!("expected the statistics, got {:?}", other),
    }
}

#[test]
fn new_panel_shows_nothing() {
    assert!(DetailPanel::new().children.is_empty());
}

#[test]
fn panel_shows_header_tiles_and_one_tree_per_document() {
    let documents = vec![
        vec![scalar("a", "1")],
        vec![],
        vec![Field { name: "b".to_string(), value: FieldValue::Array(vec![]) }],
    ];
    let mut panel = DetailPanel::new();
    show_database(&mut panel, "users", &detail(4096, documents));
    assert_eq!(
        panel.children,
        vec![
            PanelChild::Header("users".to_string()),
            PanelChild::StatTiles(vec![
                tile("Storage Size", "4 KB"),
                tile("Documents", "3"),
                tile("Avg Document Size", "0 KB"),
                tile("Indexes", "3"),
                tile("Total Index Size", "120 KB"),
            ]),
            PanelChild::DocumentTree(vec![DisplayRow {
                label: "a: 1".to_string(),
                parent: None,
                initially_collapsed: false,
            }]),
            PanelChild::DocumentTree(vec![]),
            PanelChild::DocumentTree(vec![DisplayRow {
                label: "b: Array".to_string(),
                parent: None,
                initially_collapsed: true,
            }]),
        ]
    );
}

#[test]
fn document_trees_are_the_materialized_documents() {
    let document = vec![
        scalar("x", "1"),
        Field { name: "o".to_string(), value: FieldValue::Object(vec![scalar("y", "2")]) },
    ];
    let mut panel = DetailPanel::new();
    show_database(&mut panel, "c", &detail(0, vec![document]));
    let again = vec![
        scalar("x", "1"),
        Field { name: "o".to_string(), value: FieldValue::Object(vec![scalar("y", "2")]) },
    ];
    assert_eq!(panel.children[2], PanelChild::DocumentTree(materialize(&again)));
}

#[test]
fn storage_size_of_2048_shows_as_2_kb() {
    let mut panel = DetailPanel::new();
    show_database(&mut panel, "c", &detail(2048, vec![]));
    assert_eq!(size_tile(&panel), "2 KB");
}

#[test]
fn storage_size_of_1536_shows_as_1_kb() {
    let mut panel = DetailPanel::new();
    show_database(&mut panel, "c", &detail(1536, vec![]));
    assert_eq!(size_tile(&panel), "1 KB");
}

#[test]
fn negative_sizes_round_toward_zero() {
    let mut panel = DetailPanel::new();
    show_database(&mut panel, "c", &detail(-1536, vec![]));
    assert_eq!(size_tile(&panel), "-1 KB");
    show_database(&mut panel, "c", &detail(-1, vec![]));
    assert_eq!(size_tile(&panel), "0 KB");
}

#[test]
fn showing_replaces_what_the_panel_held() {
    let mut panel = DetailPanel::new();
    show_database(&mut panel, "orders", &detail(1024, vec![vec![scalar("a", "1")], vec![]]));
    assert_eq!(panel.children.len(), 4);
    show_database(&mut panel, "users", &detail(2048, vec![]));
    assert_eq!(panel.children.len(), 2);
    assert_eq!(panel.children[0], PanelChild::Header("users".to_string()));
}

#[test]
fn the_detail_delivered_last_is_the_one_shown() {
    let orders = detail(1024, vec![vec![scalar("order", "1")]]);
    let users = detail(2048, vec![vec![scalar("user", "\"ada\"")], vec![]]);

    let mut selected_order = DetailPanel::new();
    show_database(&mut selected_order, "orders", &orders);
    show_database(&mut selected_order, "users", &users);

    let mut reversed = DetailPanel::new();
    show_database(&mut reversed, "users", &users);
    show_database(&mut reversed, "orders", &orders);

    let mut only_users = DetailPanel::new();
    show_database(&mut only_users, "users", &users);
    let mut only_orders = DetailPanel::new();
    show_database(&mut only_orders, "orders", &orders);

    assert_eq!(selected_order, only_users);
    assert_eq!(reversed, only_orders);
    assert_ne!(selected_order, reversed);
}
