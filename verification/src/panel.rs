//! The detail panel: what is shown for the collection that was selected.

use crate::collection_stats::CollectionStats;
use crate::detail::{CollectionDetail, DetailView};
use crate::text::{decimal_string, decimal_text, kibibyte_string, kibibyte_text};
use crate::tree::{forest, materialize, rows_view, DisplayRow, RowView};
use vstd::prelude::*;

verus! {

/// One statistic of a collection: a title and the value below it.
#[derive(Debug, PartialEq, Eq)]
pub struct StatTile {
    pub title: String,
    pub value: String,
}

/// What a [`StatTile`] holds.
pub struct TileView {
    pub title: Seq<char>,
    pub value: Seq<char>,
}

impl View for StatTile {
    type V = TileView;

    open spec fn view(&self) -> TileView {
        TileView { title: self.title@, value: self.value@ }
    }
}

/// What a list of tiles holds, tile by tile.
pub open spec fn tiles_view(tiles: Seq<StatTile>) -> Seq<TileView> {
    Seq::new(tiles.len(), |i: int| tiles[i]@)
}

/// One child of the detail panel.
#[derive(Debug, PartialEq, Eq)]
pub enum PanelChild {
    /// The name of the collection.
    Header(String),
    /// The row of statistics.
    StatTiles(Vec<StatTile>),
    /// The tree of one sampled document.
    DocumentTree(Vec<DisplayRow>),
}

/// What a [`PanelChild`] holds.
pub enum ChildView {
    Header(Seq<char>),
    StatTiles(Seq<TileView>),
    DocumentTree(Seq<RowView>),
}

impl View for PanelChild {
    type V = ChildView;

    open spec fn view(&self) -> ChildView {
        match self {
            PanelChild::Header(text) => ChildView::Header(text@),
            PanelChild::StatTiles(tiles) => ChildView::StatTiles(tiles_view(tiles@)),
            PanelChild::DocumentTree(rows) => ChildView::DocumentTree(rows_view(rows@)),
        }
    }
}

/// The detail panel: its children, top to bottom.
#[derive(Debug, PartialEq, Eq)]
pub struct DetailPanel {
    pub children: Vec<PanelChild>,
}

impl View for DetailPanel {
    type V = Seq<ChildView>;

    open spec fn view(&self) -> Seq<ChildView> {
        Seq::new(self.children@.len(), |i: int| self.children@[i]@)
    }
}

/// The five tiles of a collection's statistics: sizes in whole kibibytes,
/// counts as they are.
pub open spec fn stat_tiles(stats: CollectionStats) -> Seq<TileView> {
    seq![
        TileView { title: "Storage Size"@, value: kibibyte_text(stats.storage_size as int) },
        TileView { title: "Documents"@, value: decimal_text(stats.document_count as int) },
        TileView {
            title: "Avg Document Size"@,
            value: kibibyte_text(stats.avg_document_size as int),
        },
        TileView { title: "Indexes"@, value: decimal_text(stats.indexes_count as int) },
        TileView { title: "Total Index Size"@, value: kibibyte_text(stats.total_index_size as int) },
    ]
}

/// The trees of the sampled documents, one for each, in sample order.
pub open spec fn document_trees(documents: Seq<Seq<crate::document::FieldView>>) -> Seq<ChildView> {
    Seq::new(documents.len(), |i: int| ChildView::DocumentTree(forest(documents[i])))
}

/// The panel of a collection's detail: a header with the collection's name,
/// the row of statistics, then the tree of each sampled document.
pub open spec fn rendered(collection: Seq<char>, detail: DetailView) -> Seq<ChildView> {
    seq![ChildView::Header(collection), ChildView::StatTiles(stat_tiles(detail.stats))]
        + document_trees(detail.documents)
}

/// The panel after a detail was shown on it: nothing of what it held stays.
pub open spec fn shown(panel: Seq<ChildView>, collection: Seq<char>, detail: DetailView) -> Seq<
    ChildView,
> {
    rendered(collection, detail)
}

/// A detail that was delivered to the interface, with the name to show it under.
pub struct Delivery {
    pub collection: Seq<char>,
    pub detail: DetailView,
}

/// The panel after the deliveries were shown on it, one after another.
pub open spec fn panel_after(panel: Seq<ChildView>, deliveries: Seq<Delivery>) -> Seq<ChildView>
    decreases deliveries.len(),
{
    if deliveries.len() == 0 {
        panel
    } else {
        shown(
            panel_after(panel, deliveries.drop_last()),
            deliveries.last().collection,
            deliveries.last().detail,
        )
    }
}

impl DetailPanel {
    /// A panel that shows nothing.
    pub fn new() -> (panel: DetailPanel)
        ensures
            panel@ == Seq::<ChildView>::empty(),
    {
        let panel = DetailPanel { children: Vec::new() };
        assert(panel@ =~= Seq::<ChildView>::empty());
        panel
    }
}

/// Builds one tile.
fn stat_tile(title: &str, value: String) -> (tile: StatTile)
    ensures
        tile@ == (TileView { title: title@, value: value@ }),
{
    StatTile { title: String::from_str(title), value }
}

/// Builds the row of statistics.
fn build_stat_tiles(stats: &CollectionStats) -> (tiles: Vec<StatTile>)
    ensures
        tiles_view(tiles@) == stat_tiles(*stats),
{
    let mut tiles: Vec<StatTile> = Vec::new();
    tiles.push(stat_tile("Storage Size", kibibyte_string(stats.storage_size)));
    tiles.push(stat_tile("Documents", decimal_string(stats.document_count)));
    tiles.push(stat_tile("Avg Document Size", kibibyte_string(stats.avg_document_size)));
    tiles.push(stat_tile("Indexes", decimal_string(stats.indexes_count)));
    tiles.push(stat_tile("Total Index Size", kibibyte_string(stats.total_index_size)));
    assert(tiles_view(tiles@) =~= stat_tiles(*stats));
    tiles
}

/// Shows a collection's detail on the panel, in place of whatever it held: a
/// header with the collection's name, the five statistics, then one tree for
/// each sampled document, every array and object in it collapsed.
pub fn show_database(panel: &mut DetailPanel, collection: &str, detail: &CollectionDetail)
    ensures
        final(panel)@ == shown(old(panel)@, collection@, detail@),
{
    let mut children: Vec<PanelChild> = Vec::new();
    children.push(PanelChild::Header(String::from_str(collection)));
    children.push(PanelChild::StatTiles(build_stat_tiles(&detail.stats)));
    let ghost head = seq![
        ChildView::Header(collection@),
        ChildView::StatTiles(stat_tiles(detail.stats)),
    ];
    let ghost trees = document_trees(detail@.documents);
    panel.children = children;
    assert(panel@ =~= head);
    let documents = &detail.sample_documents;
    let mut i: usize = 0;
    while i < documents.len()
        invariant
            i <= documents.len(),
            documents == &detail.sample_documents,
            trees == document_trees(detail@.documents),
            panel@ == head + trees.take(i as int),
        decreases documents.len() - i,
    {
        let ghost held = panel@;
        let rows = materialize(&documents[i]);
        panel.children.push(PanelChild::DocumentTree(rows));
        assert(panel@ =~= held.push(trees[i as int]));
        assert(trees.take(i + 1) =~= trees.take(i as int).push(trees[i as int]));
        assert(panel@ =~= head + trees.take(i + 1));
        i += 1;
    }
    assert(trees.take(i as int) =~= trees);
}

/// After any run of deliveries the panel shows the detail that was shown
/// last, and nothing of the panel before or of the deliveries before it,
/// whichever of them was asked for first.
pub proof fn lemma_last_delivery_wins(panel: Seq<ChildView>, deliveries: Seq<Delivery>)
    requires
        deliveries.len() > 0,
    ensures
        panel_after(panel, deliveries) == rendered(
            deliveries.last().collection,
            deliveries.last().detail,
        ),
{
}

/// Two details shown in either order leave the panel with the one shown
/// second.
pub proof fn lemma_later_delivery_replaces(
    panel: Seq<ChildView>,
    first: Delivery,
    second: Delivery,
)
    ensures
        panel_after(panel, seq![first, second]) == rendered(second.collection, second.detail),
        panel_after(panel, seq![second, first]) == rendered(first.collection, first.detail),
{
}

} // verus!
