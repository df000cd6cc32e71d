//! Loading the detail of one collection: its statistics, then a sample of
//! its documents.
//!
//! A load is a conversation with the database, run off the interface's
//! thread. The caller tells [`load_database_collection`] what happened,
//! performs the request that comes back, and repeats until a detail is to be
//! delivered or a failure reported.

use crate::collection_stats::{
    integer_fields, stats_command_name, stats_of, CollectionStats, CollectionStatsView,
    IntegerFields,
};
use crate::document::{fields_view, Field, FieldView};
use crate::fetch::FetchError;
use mongodb::bson::Document;
use vstd::prelude::*;

verus! {

/// How many documents of a collection are sampled at most.
pub const SAMPLE_SIZE: i64 = 10;

/// Everything shown for one collection: its statistics and a sample of its
/// documents, in the order the database returned them.
#[derive(Debug, PartialEq, Eq)]
pub struct CollectionDetail {
    pub stats: CollectionStats,
    pub sample_documents: Vec<Vec<Field>>,
}

/// What a [`CollectionDetail`] holds.
pub struct DetailView {
    pub stats: CollectionStats,
    pub documents: Seq<Seq<FieldView>>,
}

/// What a list of documents holds, document by document.
pub open spec fn documents_view(documents: Seq<Vec<Field>>) -> Seq<Seq<FieldView>> {
    Seq::new(documents.len(), |i: int| fields_view(documents[i]@))
}

impl View for CollectionDetail {
    type V = DetailView;

    open spec fn view(&self) -> DetailView {
        DetailView { stats: self.stats, documents: documents_view(self.sample_documents@) }
    }
}

/// Where the load of a detail stands.
#[derive(Clone, Copy, Debug, PartialEq, Eq, Structural)]
pub enum LoadPhase {
    /// Nothing was asked yet.
    Idle,
    /// The statistics command is running.
    AwaitingStats,
    /// The statistics are in and the sample was asked for.
    AwaitingSample,
    /// The detail was delivered or the failure reported.
    Finished,
}

/// What happened since the last step of a load.
pub enum LoadEvent {
    /// The load is to begin.
    Start,
    /// The statistics command answered with this document.
    Stats(Document),
    /// The sample arrived.
    Sample(Vec<Vec<Field>>),
    /// The last request failed.
    Failed(FetchError),
}

/// What a [`LoadEvent`] holds. Of a statistics reply only its integer fields
/// count, of either width.
pub enum LoadEventView {
    Start,
    Stats(IntegerFields),
    Sample(Seq<Seq<FieldView>>),
    Failed(Seq<char>),
}

impl View for LoadEvent {
    type V = LoadEventView;

    open spec fn view(&self) -> LoadEventView {
        match self {
            LoadEvent::Start => LoadEventView::Start,
            LoadEvent::Stats(reply) => LoadEventView::Stats(integer_fields(*reply)),
            LoadEvent::Sample(documents) => LoadEventView::Sample(documents_view(documents@)),
            LoadEvent::Failed(error) => LoadEventView::Failed(error@),
        }
    }
}

/// What the caller is to do next.
#[derive(Debug, PartialEq, Eq)]
pub enum LoadAction {
    /// Run the command `command` against `database`, with `collection` as its
    /// argument.
    RunCommand { database: String, command: String, collection: String },
    /// Fetch at most `limit` documents of `collection` in `database`.
    FetchSample { database: String, collection: String, limit: i64 },
    /// Hand the detail to the interface's thread, to be shown under the
    /// collection's name.
    Deliver { collection: String, detail: CollectionDetail },
    /// The load failed: report the failure and deliver nothing.
    Report(FetchError),
    /// The event does not belong to the load as it stands; nothing changed.
    Ignored,
}

/// What a [`LoadAction`] holds.
pub enum LoadActionView {
    RunCommand { database: Seq<char>, command: Seq<char>, collection: Seq<char> },
    FetchSample { database: Seq<char>, collection: Seq<char>, limit: int },
    Deliver { collection: Seq<char>, detail: DetailView },
    Report(Seq<char>),
    Ignored,
}

impl View for LoadAction {
    type V = LoadActionView;

    open spec fn view(&self) -> LoadActionView {
        match self {
            LoadAction::RunCommand { database, command, collection } => LoadActionView::RunCommand {
                database: database@,
                command: command@,
                collection: collection@,
            },
            LoadAction::FetchSample { database, collection, limit } => LoadActionView::FetchSample {
                database: database@,
                collection: collection@,
                limit: *limit as int,
            },
            LoadAction::Deliver { collection, detail } => LoadActionView::Deliver {
                collection: collection@,
                detail: detail@,
            },
            LoadAction::Report(error) => LoadActionView::Report(error@),
            LoadAction::Ignored => LoadActionView::Ignored,
        }
    }
}

/// The load of one collection's detail.
pub struct DetailLoad {
    target: CollectionStatsView,
    stats: CollectionStats,
    phase: LoadPhase,
}

/// What a [`DetailLoad`] holds.
pub struct LoadView {
    pub database: Seq<char>,
    pub collection: Seq<char>,
    /// The statistics read so far; zeros before the reply is in.
    pub stats: CollectionStats,
    pub phase: LoadPhase,
}

impl View for DetailLoad {
    type V = LoadView;

    closed spec fn view(&self) -> LoadView {
        LoadView {
            database: self.target.db@,
            collection: self.target.collection@,
            stats: self.stats,
            phase: self.phase,
        }
    }
}

/// Statistics that are all zero.
pub open spec fn no_stats() -> CollectionStats {
    CollectionStats {
        storage_size: 0,
        document_count: 0,
        avg_document_size: 0,
        indexes_count: 0,
        total_index_size: 0,
    }
}

/// One step of a load: its state and the caller's next action after `event`.
///
/// A start runs the statistics command. Its reply, whatever it holds, is read
/// and the sample asked for, of at most [`SAMPLE_SIZE`] documents. The sample
/// completes the detail, which is delivered under the collection's name. A
/// failure of either request ends the load with a report and no delivery. An
/// event that the load does not wait for changes nothing.
pub open spec fn load_step(state: LoadView, event: LoadEventView) -> (LoadView, LoadActionView) {
    match event {
        LoadEventView::Start => if state.phase == LoadPhase::Idle {
            (
                LoadView { phase: LoadPhase::AwaitingStats, ..state },
                LoadActionView::RunCommand {
                    database: state.database,
                    command: stats_command_name(),
                    collection: state.collection,
                },
            )
        } else {
            (state, LoadActionView::Ignored)
        },
        LoadEventView::Stats(fields) => if state.phase == LoadPhase::AwaitingStats {
            (
                LoadView { stats: stats_of(fields), phase: LoadPhase::AwaitingSample, ..state },
                LoadActionView::FetchSample {
                    database: state.database,
                    collection: state.collection,
                    limit: SAMPLE_SIZE as int,
                },
            )
        } else {
            (state, LoadActionView::Ignored)
        },
        LoadEventView::Sample(documents) => if state.phase == LoadPhase::AwaitingSample {
            (
                LoadView { phase: LoadPhase::Finished, ..state },
                LoadActionView::Deliver {
                    collection: state.collection,
                    detail: DetailView { stats: state.stats, documents },
                },
            )
        } else {
            (state, LoadActionView::Ignored)
        },
        LoadEventView::Failed(reason) => if state.phase == LoadPhase::AwaitingStats || state.phase
            == LoadPhase::AwaitingSample {
            (LoadView { phase: LoadPhase::Finished, ..state }, LoadActionView::Report(reason))
        } else {
            (state, LoadActionView::Ignored)
        },
    }
}

impl DetailLoad {
    /// A load, not yet begun, of the detail of `collection` in `database`.
    pub fn new(database: String, collection: String) -> (load: DetailLoad)
        ensures
            load@ == (LoadView {
                database: database@,
                collection: collection@,
                stats: no_stats(),
                phase: LoadPhase::Idle,
            }),
    {
        DetailLoad {
            target: CollectionStatsView::new(collection, database),
            stats: CollectionStats {
                storage_size: 0,
                document_count: 0,
                avg_document_size: 0,
                indexes_count: 0,
                total_index_size: 0,
            },
            phase: LoadPhase::Idle,
        }
    }

    /// Where the load stands.
    pub fn phase(&self) -> (phase: LoadPhase)
        ensures
            phase == self@.phase,
    {
        self.phase
    }
}

/// Takes one step of the load of a collection's detail: records what `event`
/// brought and says what the caller is to do next.
pub fn load_database_collection(load: &mut DetailLoad, event: LoadEvent) -> (action: LoadAction)
    ensures
        (final(load)@, action@) == load_step(old(load)@, event@),
{
    match event {
        LoadEvent::Start => {
            if load.phase == LoadPhase::Idle {
                load.phase = LoadPhase::AwaitingStats;
                LoadAction::RunCommand {
                    database: load.target.db.clone(),
                    command: load.target.command(),
                    collection: load.target.collection.clone(),
                }
            } else {
                LoadAction::Ignored
            }
        },
        LoadEvent::Stats(reply) => {
            if load.phase == LoadPhase::AwaitingStats {
                load.stats = load.target.load_collection_stats(&reply);
                load.phase = LoadPhase::AwaitingSample;
                LoadAction::FetchSample {
                    database: load.target.db.clone(),
                    collection: load.target.collection.clone(),
                    limit: SAMPLE_SIZE,
                }
            } else {
                LoadAction::Ignored
            }
        },
        LoadEvent::Sample(documents) => {
            if load.phase == LoadPhase::AwaitingSample {
                load.phase = LoadPhase::Finished;
                LoadAction::Deliver {
                    collection: load.target.collection.clone(),
                    detail: CollectionDetail { stats: load.stats, sample_documents: documents },
                }
            } else {
                LoadAction::Ignored
            }
        },
        LoadEvent::Failed(error) => {
            if load.phase == LoadPhase::AwaitingStats || load.phase == LoadPhase::AwaitingSample {
                load.phase = LoadPhase::Finished;
                LoadAction::Report(error)
            } else {
                LoadAction::Ignored
            }
        },
    }
}

/// A load whose two requests succeed runs the statistics command first, asks
/// for the sample second, and then delivers, under the collection's name, the
/// statistics of the reply together with the sample as it came.
pub proof fn lemma_load_delivers(
    database: Seq<char>,
    collection: Seq<char>,
    fields: IntegerFields,
    documents: Seq<Seq<FieldView>>,
)
    ensures
        ({
            let idle = LoadView { database, collection, stats: no_stats(), phase: LoadPhase::Idle };
            let started = load_step(idle, LoadEventView::Start);
            let counted = load_step(started.0, LoadEventView::Stats(fields));
            let sampled = load_step(counted.0, LoadEventView::Sample(documents));
            &&& started.1 == LoadActionView::RunCommand {
                database,
                command: stats_command_name(),
                collection,
            }
            &&& counted.1 == LoadActionView::FetchSample {
                database,
                collection,
                limit: SAMPLE_SIZE as int,
            }
            &&& sampled.1 == LoadActionView::Deliver {
                collection,
                detail: DetailView { stats: stats_of(fields), documents },
            }
            &&& sampled.0.phase == LoadPhase::Finished
        }),
{
}

/// Whatever the statistics reply holds or lacks, the load goes on to the
/// sample: a missing statistic never fails a load.
pub proof fn lemma_stats_reply_never_fails(state: LoadView, fields: IntegerFields)
    requires
        state.phase == LoadPhase::AwaitingStats,
    ensures
        load_step(state, LoadEventView::Stats(fields)).1 is FetchSample,
        load_step(state, LoadEventView::Stats(fields)).0.stats == stats_of(fields),
{
}

/// A detail is delivered only when the sample arrives in a load that waits
/// for it, and a load waits for the sample only once the statistics are in:
/// nothing is delivered before both requests succeeded.
pub proof fn lemma_delivery_needs_both(state: LoadView, event: LoadEventView)
    ensures
        load_step(state, event).1 is Deliver ==> state.phase == LoadPhase::AwaitingSample
            && event is Sample,
        load_step(state, event).0.phase == LoadPhase::AwaitingSample ==> state.phase
            == LoadPhase::AwaitingSample || (state.phase == LoadPhase::AwaitingStats
            && event is Stats),
{
}

/// A load that delivered or reported is over: no later event changes it or
/// has anything delivered.
pub proof fn lemma_finished_load_is_over(state: LoadView, event: LoadEventView)
    requires
        state.phase == LoadPhase::Finished,
    ensures
        load_step(state, event) == (state, LoadActionView::Ignored),
{
}

} // verus!
