//! The navigation tree: every database with its collections below it.
//!
//! The tree is loaded by a conversation with the database. The caller tells
//! [`DbTreeView::load_databases`] what happened, performs the request that
//! comes back, and repeats until the load is finished or aborted.

use crate::fetch::{names_view, FetchError};
use crate::mount::RowPlacement;
use vstd::prelude::*;

verus! {

/// One row of the navigation tree.
#[derive(Debug, PartialEq, Eq)]
pub enum DbTreeItem {
    /// A database, by name.
    DatabaseItem(String),
    /// A collection: the name of its database, then its own name.
    CollectionItem(String, String),
}

/// What a [`DbTreeItem`] holds.
pub enum ItemView {
    Database(Seq<char>),
    Collection(Seq<char>, Seq<char>),
}

impl View for DbTreeItem {
    type V = ItemView;

    open spec fn view(&self) -> ItemView {
        match self {
            DbTreeItem::DatabaseItem(name) => ItemView::Database(name@),
            DbTreeItem::CollectionItem(database, name) => ItemView::Collection(database@, name@),
        }
    }
}

/// The text shown for an item: a database's name, or a collection's own name.
pub open spec fn item_label(item: ItemView) -> Seq<char> {
    match item {
        ItemView::Database(name) => name,
        ItemView::Collection(_, name) => name,
    }
}

/// The database and collection that activating an item selects: those of a
/// collection, and nothing for a database.
pub open spec fn item_selection(item: ItemView) -> Option<(Seq<char>, Seq<char>)> {
    match item {
        ItemView::Database(_) => None,
        ItemView::Collection(database, name) => Some((database, name)),
    }
}

impl DbTreeItem {
    /// The text shown for the item.
    pub fn label(&self) -> (text: String)
        ensures
            text@ == item_label(self@),
    {
        match self {
            DbTreeItem::DatabaseItem(name) => name.clone(),
            DbTreeItem::CollectionItem(_, name) => name.clone(),
        }
    }

    /// What activating the item selects: the database and collection of a
    /// collection item. Activating a database selects nothing.
    pub fn selection(&self) -> (selected: Option<(String, String)>)
        ensures
            match item_selection(self@) {
                Some((database, name)) => selected matches Some(pair) && pair.0@ == database
                    && pair.1@ == name,
                None => selected is None,
            },
    {
        match self {
            DbTreeItem::DatabaseItem(_) => None,
            DbTreeItem::CollectionItem(database, name) => Some((database.clone(), name.clone())),
        }
    }
}

/// What a list of items holds, item by item.
pub open spec fn items_view(items: Seq<DbTreeItem>) -> Seq<ItemView> {
    Seq::new(items.len(), |i: int| items[i]@)
}

/// Where a load of the navigation tree stands.
#[derive(Clone, Copy, Debug, PartialEq, Eq, Structural)]
pub enum TreePhase {
    /// No load is under way.
    Idle,
    /// The list of databases was asked for.
    ListingDatabases,
    /// The collections of one database were asked for.
    ListingCollections,
}

/// What happened since the last step of a load.
#[derive(Debug, PartialEq, Eq)]
pub enum TreeEvent {
    /// A load of the whole tree is wanted.
    Start,
    /// The database answered with the names of its databases.
    Databases(Vec<String>),
    /// The database answered with the names of the collections asked for.
    Collections(Vec<String>),
    /// The last request failed.
    Failed(FetchError),
}

/// What a [`TreeEvent`] holds.
pub enum TreeEventView {
    Start,
    Databases(Seq<Seq<char>>),
    Collections(Seq<Seq<char>>),
    Failed(Seq<char>),
}

impl View for TreeEvent {
    type V = TreeEventView;

    open spec fn view(&self) -> TreeEventView {
        match self {
            TreeEvent::Start => TreeEventView::Start,
            TreeEvent::Databases(names) => TreeEventView::Databases(names_view(names@)),
            TreeEvent::Collections(names) => TreeEventView::Collections(names_view(names@)),
            TreeEvent::Failed(error) => TreeEventView::Failed(error@),
        }
    }
}

/// What the caller is to do next.
#[derive(Debug, PartialEq, Eq)]
pub enum TreeAction {
    /// Ask for the names of all databases.
    ListDatabases,
    /// Ask for the names of the collections of this database.
    ListCollections(String),
    /// The tree is complete and may be shown.
    Finished,
    /// The load failed; nothing is to be shown.
    Abort(FetchError),
    /// The event does not belong to the load as it stands; nothing changed.
    Ignored,
}

/// What a [`TreeAction`] holds.
pub enum TreeActionView {
    ListDatabases,
    ListCollections(Seq<char>),
    Finished,
    Abort(Seq<char>),
    Ignored,
}

impl View for TreeAction {
    type V = TreeActionView;

    open spec fn view(&self) -> TreeActionView {
        match self {
            TreeAction::ListDatabases => TreeActionView::ListDatabases,
            TreeAction::ListCollections(database) => TreeActionView::ListCollections(database@),
            TreeAction::Finished => TreeActionView::Finished,
            TreeAction::Abort(error) => TreeActionView::Abort(error@),
            TreeAction::Ignored => TreeActionView::Ignored,
        }
    }
}

/// The navigation tree and the state of its load.
pub struct DbTreeView {
    items: Vec<DbTreeItem>,
    databases: Vec<String>,
    next: usize,
    phase: TreePhase,
}

/// What a [`DbTreeView`] holds.
pub struct NavView {
    /// The rows of the tree, top to bottom: each database, then its collections.
    pub items: Seq<ItemView>,
    /// The databases of the load under way, in the order the database gave.
    pub databases: Seq<Seq<char>>,
    /// How many of them have their collections in the tree.
    pub next: int,
    /// Where the load stands.
    pub phase: TreePhase,
}

impl View for DbTreeView {
    type V = NavView;

    closed spec fn view(&self) -> NavView {
        NavView {
            items: items_view(self.items@),
            databases: names_view(self.databases@),
            next: self.next as int,
            phase: self.phase,
        }
    }
}

/// An empty tree with no load under way.
pub open spec fn empty_tree() -> NavView {
    NavView { items: Seq::empty(), databases: Seq::empty(), next: 0, phase: TreePhase::Idle }
}

/// The rows for the collections of one database, in the order given.
pub open spec fn collection_items(database: Seq<char>, names: Seq<Seq<char>>) -> Seq<ItemView> {
    Seq::new(names.len(), |i: int| ItemView::Collection(database, names[i]))
}

/// One step of a load: the tree and the caller's next action after `event`.
///
/// A start empties the tree and asks for the databases. Their names come
/// back: the first database gets its row and its collections are asked for,
/// or, without any database, the load is finished. Each list of collections
/// is put below its database, in the order given; then the next database gets
/// its row and its collections are asked for, or, after the last database,
/// the load is finished. A failure empties the tree and aborts the load. An
/// event that the load does not wait for changes nothing.
pub open spec fn tree_step(state: NavView, event: TreeEventView) -> (NavView, TreeActionView) {
    match event {
        TreeEventView::Start => if state.phase == TreePhase::Idle {
            (
                NavView { phase: TreePhase::ListingDatabases, ..empty_tree() },
                TreeActionView::ListDatabases,
            )
        } else {
            (state, TreeActionView::Ignored)
        },
        TreeEventView::Databases(names) => if state.phase == TreePhase::ListingDatabases {
            if names.len() == 0 {
                (empty_tree(), TreeActionView::Finished)
            } else {
                (
                    NavView {
                        items: seq![ItemView::Database(names[0])],
                        databases: names,
                        next: 0,
                        phase: TreePhase::ListingCollections,
                    },
                    TreeActionView::ListCollections(names[0]),
                )
            }
        } else {
            (state, TreeActionView::Ignored)
        },
        TreeEventView::Collections(names) => if state.phase == TreePhase::ListingCollections
            && state.next < state.databases.len() {
            let items = state.items + collection_items(state.databases[state.next], names);
            if state.next + 1 < state.databases.len() {
                (
                    NavView {
                        items: items.push(ItemView::Database(state.databases[state.next + 1])),
                        next: state.next + 1,
                        ..state
                    },
                    TreeActionView::ListCollections(state.databases[state.next + 1]),
                )
            } else {
                (
                    NavView { items, next: state.next + 1, phase: TreePhase::Idle, ..state },
                    TreeActionView::Finished,
                )
            }
        } else {
            (state, TreeActionView::Ignored)
        },
        TreeEventView::Failed(reason) => if state.phase != TreePhase::Idle {
            (empty_tree(), TreeActionView::Abort(reason))
        } else {
            (state, TreeActionView::Ignored)
        },
    }
}

impl DbTreeView {
    /// An empty tree with no load under way.
    pub fn new() -> (tree: DbTreeView)
        ensures
            tree@ == empty_tree(),
    {
        let tree = DbTreeView {
            items: Vec::new(),
            databases: Vec::new(),
            next: 0,
            phase: TreePhase::Idle,
        };
        assert(tree@.items =~= Seq::empty());
        assert(tree@.databases =~= Seq::empty());
        tree
    }

    /// The rows of the tree, top to bottom.
    pub fn items(&self) -> (items: &Vec<DbTreeItem>)
        ensures
            items_view(items@) == self@.items,
    {
        &self.items
    }

    /// Where the load stands.
    pub fn phase(&self) -> (phase: TreePhase)
        ensures
            phase == self@.phase,
    {
        self.phase
    }

    /// Empties the tree and ends any load.
    fn reset(&mut self)
        ensures
            final(self)@ == empty_tree(),
    {
        self.items = Vec::new();
        self.databases = Vec::new();
        self.next = 0;
        self.phase = TreePhase::Idle;
        assert(self@.items =~= Seq::empty());
        assert(self@.databases =~= Seq::empty());
    }

    /// Puts the collections `names` of `database` at the end of the tree.
    fn push_collections(&mut self, database: &String, names: &Vec<String>)
        ensures
            final(self)@ == (NavView {
                items: old(self)@.items + collection_items(database@, names_view(names@)),
                ..old(self)@
            }),
    {
        let ghost before = self@.items;
        let mut i: usize = 0;
        while i < names.len()
            invariant
                i <= names.len(),
                self@.databases == old(self)@.databases,
                self@.next == old(self)@.next,
                self@.phase == old(self)@.phase,
                before == old(self)@.items,
                self@.items == before + collection_items(database@, names_view(names@)).take(
                    i as int,
                ),
            decreases names.len() - i,
        {
            let ghost held = self@.items;
            let ghost all = collection_items(database@, names_view(names@));
            self.items.push(DbTreeItem::CollectionItem(database.clone(), names[i].clone()));
            assert(self@.items =~= held.push(all[i as int]));
            assert(all.take(i + 1) =~= all.take(i as int).push(all[i as int]));
            assert(self@.items =~= before + all.take(i + 1));
            i += 1;
        }
        assert(self@.items =~= before + collection_items(database@, names_view(names@)));
    }

    /// Takes one step of a load of the tree: records what `event` brought and
    /// says what the caller is to do next.
    pub fn load_databases(&mut self, event: TreeEvent) -> (action: TreeAction)
        ensures
            (final(self)@, action@) == tree_step(old(self)@, event@),
    {
        match event {
            TreeEvent::Start => {
                if self.phase == TreePhase::Idle {
                    self.reset();
                    self.phase = TreePhase::ListingDatabases;
                    TreeAction::ListDatabases
                } else {
                    TreeAction::Ignored
                }
            },
            TreeEvent::Databases(names) => {
                if self.phase == TreePhase::ListingDatabases {
                    self.reset();
                    if names.len() == 0 {
                        TreeAction::Finished
                    } else {
                        let first = names[0].clone();
                        self.items.push(DbTreeItem::DatabaseItem(first.clone()));
                        self.databases = names;
                        self.phase = TreePhase::ListingCollections;
                        assert(self@.items =~= seq![ItemView::Database(first@)]);
                        TreeAction::ListCollections(first)
                    }
                } else {
                    TreeAction::Ignored
                }
            },
            TreeEvent::Collections(names) => {
                if self.phase == TreePhase::ListingCollections && self.next < self.databases.len() {
                    let database = self.databases[self.next].clone();
                    self.push_collections(&database, &names);
                    self.next = self.next + 1;
                    if self.next < self.databases.len() {
                        let following = self.databases[self.next].clone();
                        self.items.push(DbTreeItem::DatabaseItem(following.clone()));
                        assert(self@.items =~= (old(self)@.items + collection_items(
                            database@,
                            names_view(names@),
                        )).push(ItemView::Database(following@)));
                        TreeAction::ListCollections(following)
                    } else {
                        self.phase = TreePhase::Idle;
                        TreeAction::Finished
                    }
                } else {
                    TreeAction::Ignored
                }
            },
            TreeEvent::Failed(error) => {
                if self.phase != TreePhase::Idle {
                    self.reset();
                    TreeAction::Abort(error)
                } else {
                    TreeAction::Ignored
                }
            },
        }
    }
}

/// One insertion of a row of the navigation tree into a widget.
#[derive(Debug, PartialEq, Eq)]
pub struct ItemInsert {
    /// The new row.
    pub item: DbTreeItem,
    /// Where the row goes, seen from the anchor.
    pub placement: RowPlacement,
    /// The row of the widget that anchors the new row. Into an empty widget
    /// the first row goes whatever the anchor.
    pub anchor: usize,
}

/// What an [`ItemInsert`] holds.
pub struct ItemInsertView {
    pub item: ItemView,
    pub placement: RowPlacement,
    pub anchor: int,
}

impl View for ItemInsert {
    type V = ItemInsertView;

    open spec fn view(&self) -> ItemInsertView {
        ItemInsertView { item: self.item@, placement: self.placement, anchor: self.anchor as int }
    }
}

/// What a plan holds, insertion by insertion.
pub open spec fn item_inserts_view(plan: Seq<ItemInsert>) -> Seq<ItemInsertView> {
    Seq::new(plan.len(), |i: int| plan[i]@)
}

/// The position of the last database row before position `i`, and zero when
/// there is none.
pub open spec fn last_database_before(items: Seq<ItemView>, i: int) -> int
    decreases i,
{
    if i <= 0 {
        0
    } else if items[i - 1] is Database {
        i - 1
    } else {
        last_database_before(items, i - 1)
    }
}

/// The insertion of row `i`: a database goes after the database before it, a
/// collection in as the last child of the database before it.
pub open spec fn item_insert_of(items: Seq<ItemView>, i: int) -> ItemInsertView {
    ItemInsertView {
        item: items[i],
        placement: match items[i] {
            ItemView::Database(_) => RowPlacement::After,
            ItemView::Collection(_, _) => RowPlacement::LastChild,
        },
        anchor: last_database_before(items, i),
    }
}

/// The insertions that put the tree into an empty widget: one for each row,
/// in the order of the rows.
pub open spec fn item_insert_steps(items: Seq<ItemView>) -> Seq<ItemInsertView> {
    Seq::new(items.len(), |i: int| item_insert_of(items, i))
}

impl DbTreeView {
    /// The insertions that put the tree into an empty widget, to be made in
    /// order while no row of the widget is collapsed. Rows are counted as the
    /// widget counts them: from the top, starting at zero.
    pub fn insert_plan(&self) -> (plan: Vec<ItemInsert>)
        ensures
            item_inserts_view(plan@) == item_insert_steps(self@.items),
    {
        let ghost views = items_view(self.items@);
        let mut plan: Vec<ItemInsert> = Vec::new();
        let mut last_database: usize = 0;
        let mut i: usize = 0;
        while i < self.items.len()
            invariant
                i <= self.items.len(),
                views == items_view(self.items@),
                last_database as int == last_database_before(views, i as int),
                item_inserts_view(plan@) == item_insert_steps(views).take(i as int),
            decreases self.items.len() - i,
        {
            let ghost held = item_inserts_view(plan@);
            assert(views[i as int] == self.items@[i as int]@);
            let step = match &self.items[i] {
                DbTreeItem::DatabaseItem(name) => ItemInsert {
                    item: DbTreeItem::DatabaseItem(name.clone()),
                    placement: RowPlacement::After,
                    anchor: last_database,
                },
                DbTreeItem::CollectionItem(database, name) => ItemInsert {
                    item: DbTreeItem::CollectionItem(database.clone(), name.clone()),
                    placement: RowPlacement::LastChild,
                    anchor: last_database,
                },
            };
            assert(step@ == item_insert_of(views, i as int));
            let is_database = match &self.items[i] {
                DbTreeItem::DatabaseItem(_) => true,
                DbTreeItem::CollectionItem(_, _) => false,
            };
            plan.push(step);
            if is_database {
                last_database = i;
            }
            assert(item_inserts_view(plan@) =~= held.push(item_insert_of(views, i as int)));
            assert(item_insert_steps(views).take(i + 1) =~= item_insert_steps(views).take(
                i as int,
            ).push(item_insert_of(views, i as int)));
            i += 1;
        }
        assert(item_insert_steps(views).take(i as int) =~= item_insert_steps(views));
        plan
    }
}

/// One database as a load finds it: its name and the names of its
/// collections, in the order the database gave them.
pub struct Listing {
    pub database: Seq<char>,
    pub collections: Seq<Seq<char>>,
}

/// The tree of a list of databases: each database's row, followed by the
/// rows of its collections, database after database.
pub open spec fn hierarchy(listings: Seq<Listing>) -> Seq<ItemView>
    decreases listings.len(),
{
    if listings.len() == 0 {
        Seq::empty()
    } else {
        hierarchy(listings.drop_last()).push(ItemView::Database(listings.last().database))
            + collection_items(listings.last().database, listings.last().collections)
    }
}

/// The names of the databases of a list, in order.
pub open spec fn database_names(listings: Seq<Listing>) -> Seq<Seq<char>> {
    Seq::new(listings.len(), |i: int| listings[i].database)
}

/// The events of a load that succeeds: the start, the names of the
/// databases, then the collections of each database in turn.
pub open spec fn load_events(listings: Seq<Listing>) -> Seq<TreeEventView> {
    seq![TreeEventView::Start, TreeEventView::Databases(database_names(listings))] + Seq::new(
        listings.len(),
        |i: int| TreeEventView::Collections(listings[i].collections),
    )
}

/// The tree after a run of events, each taken as one step.
pub open spec fn tree_run(state: NavView, events: Seq<TreeEventView>) -> NavView
    decreases events.len(),
{
    if events.len() == 0 {
        state
    } else {
        tree_step(tree_run(state, events.drop_last()), events.last()).0
    }
}

/// The tree in the middle of a load, when the collections of the first `done`
/// databases are in: the hierarchy so far, and the row of the database whose
/// collections are awaited.
spec fn midway(listings: Seq<Listing>, done: int) -> NavView {
    if done < listings.len() {
        NavView {
            items: hierarchy(listings.take(done)).push(ItemView::Database(listings[done].database)),
            databases: database_names(listings),
            next: done,
            phase: TreePhase::ListingCollections,
        }
    } else {
        NavView {
            items: hierarchy(listings),
            databases: database_names(listings),
            next: done,
            phase: TreePhase::Idle,
        }
    }
}

/// After the start, the names and the collections of the first `done`
/// databases, the tree is the one that `midway` describes.
proof fn lemma_load_midway(before: NavView, listings: Seq<Listing>, done: int)
    requires
        before.phase == TreePhase::Idle,
        listings.len() > 0,
        0 <= done <= listings.len(),
    ensures
        tree_run(before, load_events(listings).take(2 + done)) == midway(listings, done),
    decreases done,
{
    let events = load_events(listings);
    let names = database_names(listings);
    if done == 0 {
        let first = events.take(1);
        assert(first.drop_last() =~= Seq::<TreeEventView>::empty());
        assert(first.last() == TreeEventView::Start);
        assert(tree_run(before, first.drop_last()) == before);
        let two = events.take(2);
        assert(two.drop_last() =~= first);
        assert(two.last() == TreeEventView::Databases(names));
        assert(listings.take(0) =~= Seq::<Listing>::empty());
        assert(midway(listings, 0).items =~= seq![ItemView::Database(names[0])]);
    } else {
        lemma_load_midway(before, listings, done - 1);
        let upto = events.take(2 + done);
        assert(upto.drop_last() =~= events.take(2 + done - 1));
        assert(upto.last() == TreeEventView::Collections(listings[done - 1].collections));
        let earlier = listings.take(done);
        assert(earlier.drop_last() =~= listings.take(done - 1));
        assert(earlier.last() == listings[done - 1]);
        assert(names[done - 1] == listings[done - 1].database);
        if done == listings.len() {
            assert(earlier =~= listings);
        }
    }
}

/// A load in which every request succeeds ends with no load under way and
/// with the tree of what the database listed: one row for each database,
/// followed by the rows of its collections, all in the order the database
/// returned them, and nothing of the tree before.
pub proof fn lemma_load_builds_hierarchy(before: NavView, listings: Seq<Listing>)
    requires
        before.phase == TreePhase::Idle,
    ensures
        tree_run(before, load_events(listings)).items == hierarchy(listings),
        tree_run(before, load_events(listings)).phase == TreePhase::Idle,
{
    let events = load_events(listings);
    if listings.len() == 0 {
        let first = events.take(1);
        assert(first.drop_last() =~= Seq::<TreeEventView>::empty());
        assert(first.last() == TreeEventView::Start);
        assert(tree_run(before, first.drop_last()) == before);
        assert(tree_run(before, first) == tree_step(before, TreeEventView::Start).0);
        assert(events.drop_last() =~= first);
        assert(events.last() == TreeEventView::Databases(database_names(listings)));
        assert(tree_run(before, events) == tree_step(
            tree_run(before, first),
            events.last(),
        ).0);
        assert(hierarchy(listings) =~= Seq::<ItemView>::empty());
    } else {
        lemma_load_midway(before, listings, listings.len() as int);
        assert(events.take(2 + listings.len() as int) =~= events);
    }
}

/// The tree of a list of databases that is not empty starts with a database.
pub proof fn lemma_hierarchy_starts_with_database(listings: Seq<Listing>)
    requires
        listings.len() > 0,
    ensures
        hierarchy(listings).len() > 0,
        hierarchy(listings)[0] is Database,
    decreases listings.len(),
{
    let before = hierarchy(listings.drop_last());
    let rest = collection_items(listings.last().database, listings.last().collections);
    let tree = before.push(ItemView::Database(listings.last().database)) + rest;
    assert(hierarchy(listings) == tree);
    if listings.len() > 1 {
        lemma_hierarchy_starts_with_database(listings.drop_last());
        assert(tree[0] == before[0]);
    } else {
        assert(before =~= Seq::<ItemView>::empty());
        assert(tree[0] == ItemView::Database(listings.last().database));
    }
}

/// In a tree that starts with a database each row but the first is anchored
/// on an earlier database row, and every row between the two is a collection.
/// So when the insertions are made in order, each puts its row at the end of
/// what the widget holds.
pub proof fn lemma_item_plan_appends(items: Seq<ItemView>, i: int)
    requires
        0 < i <= items.len(),
        items[0] is Database,
    ensures
        0 <= last_database_before(items, i) < i,
        items[last_database_before(items, i)] is Database,
        forall|k: int|
            last_database_before(items, i) < k < i ==> (#[trigger] items[k]) is Collection,
    decreases i,
{
    if i > 1 && items[i - 1] is Collection {
        lemma_item_plan_appends(items, i - 1);
    }
}

/// A failure at any point of a load leaves an empty tree and no load under
/// way: no part of the tree is kept.
pub proof fn lemma_failed_load_keeps_nothing(state: NavView, reason: Seq<char>)
    requires
        state.phase != TreePhase::Idle,
    ensures
        tree_step(state, TreeEventView::Failed(reason)) == (
            empty_tree(),
            TreeActionView::Abort(reason),
        ),
{
}

} // verus!
