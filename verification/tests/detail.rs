use mongo_browser::collection_stats::CollectionStats;
use mongo_browser::db_tree::{DbTreeView, TreeAction, TreeEvent};
use mongo_browser::detail::{
    load_database_collection, CollectionDetail, DetailLoad, LoadAction, LoadEvent, LoadPhase,
    SAMPLE_SIZE,
};
use mongo_browser::document::{Field, FieldValue};
use mongo_browser::fetch::FetchError;
use mongo_browser::panel::{show_database, DetailPanel, PanelChild, StatTile};
use mongodb::bson::Document;

fn scalar(name: &str, text: &str) -> Field {
    Field { name: name.to_string(), value: FieldValue::Scalar(text.to_string()) }
}

fn order(id: usize) -> Vec<Field> {
    vec![
        scalar("_id", &format!("{}", id)),
        Field {
            name: "lines".to_string(),
            value: FieldValue::Array(vec![FieldValue::Object(vec![scalar("sku", "\"A\"")])]),
        },
    ]
}

fn stats_reply() -> Document {
    let mut reply = Document::new();
    reply.insert("storageSize", 2048i32);
    reply.insert("count", 12i32);
    reply.insert("avgObjSize", 1536i32);
    reply.insert("nindexes", 1i32);
    reply.insert("totalIndexSize", 20480i32);
    reply
}

fn tile(title: &str, value: &str) -> StatTile {
    StatTile { title: title.to_string(), value: value.to_string() }
}

fn zeros() -> CollectionStats {
    CollectionStats {
        storage_size: 0,
        document_count: 0,
        avg_document_size: 0,
        indexes_count: 0,
        total_index_size: 0,
    }
}

#[test]
fn sample_size_is_ten() {
    assert_eq!(SAMPLE_SIZE, 10);
}

#[test]
fn load_runs_statistics_before_the_sample_and_then_delivers() {
    let mut load = DetailLoad::new("shop".to_string(), "orders".to_string());
    assert_eq!(load.phase(), LoadPhase::Idle);
    assert_eq!(
        load_database_collection(&mut load, LoadEvent::Start),
        LoadAction::RunCommand {
            database: "shop".to_string(),
            command: "collStats".to_string(),
            collection: "orders".to_string(),
        }
    );
    assert_eq!(load.phase(), LoadPhase::AwaitingStats);
    assert_eq!(
        load_database_collection(&mut load, LoadEvent::Stats(stats_reply())),
        LoadAction::FetchSample {
            database: "shop".to_string(),
            collection: "orders".to_string(),
            limit: 10,
        }
    );
    assert_eq!(load.phase(), LoadPhase::AwaitingSample);
    let action = load_database_collection(&mut load, LoadEvent::Sample(vec![order(1), order(2)]));
    assert_eq!(
        action,
        LoadAction::Deliver {
            collection: "orders".to_string(),
            detail: CollectionDetail {
                stats: CollectionStats {
                    storage_size: 2048,
                    document_count: 12,
                    avg_document_size: 1536,
                    indexes_count: 1,
                    total_index_size: 20480,
                },
                sample_documents: vec![order(1), order(2)],
            },
        }
    );
    assert_eq!(load.phase(), LoadPhase::Finished);
}

#[test]
fn reply_without_statistics_does_not_fail_the_load() {
    let mut load = DetailLoad::new("shop".to_string(), "users".to_string());
    load_database_collection(&mut load, LoadEvent::Start);
    let mut reply = Document::new();
    reply.insert("count", 4i32);
    assert_eq!(
        load_database_collection(&mut load, LoadEvent::Stats(reply)),
        LoadAction::FetchSample {
            database: "shop".to_string(),
            collection: "users".to_string(),
            limit: 10,
        }
    );
    let action = load_database_collection(&mut load, LoadEvent::Sample(vec![]));
    assert_eq!(
        action,
        LoadAction::Deliver {
            collection: "users".to_string(),
            detail: CollectionDetail {
                stats: CollectionStats { document_count: 4, ..zeros() },
                sample_documents: vec![],
            },
        }
    );
}

#[test]
fn failed_statistics_command_is_reported_and_nothing_delivered() {
    let mut load = DetailLoad::new("shop".to_string(), "orders".to_string());
    load_database_collection(&mut load, LoadEvent::Start);
    let action =
        load_database_collection(&mut load, LoadEvent::Failed(FetchError::new("down".to_string())));
    assert_eq!(action, LoadAction::Report(FetchError::new("down".to_string())));
    assert_eq!(load.phase(), LoadPhase::Finished);
    assert_eq!(
        load_database_collection(&mut load, LoadEvent::Sample(vec![order(1)])),
        LoadAction::Ignored
    );
    assert_eq!(
        load_database_collection(&mut load, LoadEvent::Stats(stats_reply())),
        LoadAction::Ignored
    );
}

#[test]
fn failed_sample_is_reported_and_nothing_delivered() {
    let mut load = DetailLoad::new("shop".to_string(), "orders".to_string());
    load_database_collection(&mut load, LoadEvent::Start);
    load_database_collection(&mut load, LoadEvent::Stats(stats_reply()));
    let action = load_database_collection(
        &mut load,
        LoadEvent::Failed(FetchError::new("cursor lost".to_string())),
    );
    assert_eq!(action, LoadAction::Report(FetchError::new("cursor lost".to_string())));
    assert_eq!(
        load_database_collection(&mut load, LoadEvent::Sample(vec![order(1)])),
        LoadAction::Ignored
    );
}

#[test]
fn load_events_out_of_turn_are_ignored() {
    let mut load = DetailLoad::new("shop".to_string(), "orders".to_string());
    assert_eq!(
        load_database_collection(&mut load, LoadEvent::Stats(stats_reply())),
        LoadAction::Ignored
    );
    assert_eq!(load_database_collection(&mut load, LoadEvent::Sample(vec![])), LoadAction::Ignored);
    assert_eq!(
        load_database_collection(&mut load, LoadEvent::Failed(FetchError::new("x".to_string()))),
        LoadAction::Ignored
    );
    assert_eq!(load.phase(), LoadPhase::Idle);
    load_database_collection(&mut load, LoadEvent::Start);
    assert_eq!(load_database_collection(&mut load, LoadEvent::Start), LoadAction::Ignored);
    assert_eq!(load_database_collection(&mut load, LoadEvent::Sample(vec![])), LoadAction::Ignored);
    assert_eq!(load.phase(), LoadPhase::AwaitingStats);
}

#[test]
fn selecting_orders_in_shop_shows_its_detail() {
    let mut tree = DbTreeView::new();
    assert_eq!(tree.load_databases(TreeEvent::Start), TreeAction::ListDatabases);
    assert_eq!(
        tree.load_databases(TreeEvent::Databases(vec!["shop".to_string()])),
        TreeAction::ListCollections("shop".to_string())
    );
    assert_eq!(
        tree.load_databases(TreeEvent::Collections(vec![
            "orders".to_string(),
            "users".to_string()
        ])),
        TreeAction::Finished
    );
    assert_eq!(tree.items().len(), 3);
    assert_eq!(tree.items()[0].selection(), None);
    let (database, collection) = tree.items()[1].selection().expect("a collection row");
    assert_eq!((database.as_str(), collection.as_str()), ("shop", "orders"));

    let mut load = DetailLoad::new(database, collection);
    let first = load_database_collection(&mut load, LoadEvent::Start);
    assert_eq!(
        first,
        LoadAction::RunCommand {
            database: "shop".to_string(),
            command: "collStats".to_string(),
            collection: "orders".to_string(),
        }
    );
    let second = load_database_collection(&mut load, LoadEvent::Stats(stats_reply()));
    assert_eq!(
        second,
        LoadAction::FetchSample {
            database: "shop".to_string(),
            collection: "orders".to_string(),
            limit: 10,
        }
    );
    let sample: Vec<Vec<Field>> = (0..10).map(order).collect();
    let third = load_database_collection(&mut load, LoadEvent::Sample(sample));
    let (label, detail) = match third {
        LoadAction::Deliver { collection, detail } => (collection, detail),
        other => panic!("expected a delivery, got {:?}", other),
    };

    let mut panel = DetailPanel::new();
    show_database(&mut panel, &label, &detail);
    assert_eq!(panel.children.len(), 12);
    assert_eq!(panel.children[0], PanelChild::Header("orders".to_string()));
    assert_eq!(
        panel.children[1],
        PanelChild::StatTiles(vec![
            tile("Storage Size", "2 KB"),
            tile("Documents", "12"),
            tile("Avg Document Size", "1 KB"),
            tile("Indexes", "1"),
            tile("Total Index Size", "20 KB"),
        ])
    );
    for child in &panel.children[2..] {
        let rows = match child {
            PanelChild::DocumentTree(rows) => rows,
            other => panic!("expected a document tree, got {:?}", other),
        };
        assert_eq!(rows.len(), 4);
        assert_eq!(rows[1].label, "lines: Array");
        assert_eq!(rows[2].label, "0: Object");
        for row in rows {
            let composite = row.label.ends_with(": Array") || row.label.ends_with(": Object");
            assert_eq!(row.initially_collapsed, composite);
        }
    }
}

#[test]
fn storage_size_held_in_64_bits_reaches_the_tile() {
    let mut load = DetailLoad::new("shop".to_string(), "orders".to_string());
    load_database_collection(&mut load, LoadEvent::Start);
    let mut reply = Document::new();
    reply.insert("storageSize", 4096i64);
    load_database_collection(&mut load, LoadEvent::Stats(reply));
    let action = load_database_collection(&mut load, LoadEvent::Sample(vec![order(1)]));
    let (label, detail) = match action {
        LoadAction::Deliver { collection, detail } => (collection, detail),
        other => panic!("expected a delivery, got {:?}", other),
    };
    assert_eq!(detail.stats, CollectionStats { storage_size: 4096, ..zeros() });
    let mut panel = DetailPanel::new();
    show_database(&mut panel, &label, &detail);
    match &panel.children[1] {
        PanelChild::StatTiles(tiles) => assert_eq!(tiles[0], tile("Storage Size", "4 KB")),
        other => panic!("expected the statistics, got {:?}", other),
    }
}
