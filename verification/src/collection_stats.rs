//! Collection statistics, read out of the reply to a statistics command.

use mongodb::bson::Document;
use vstd::prelude::*;

verus! {

/// The driver's document type. Nothing is known of a value but what the
/// items below say.
#[verifier::external_type_specification]
#[verifier::external_body]
pub struct ExDocument(mongodb::bson::Document);

/// The fields of a document that hold a 32-bit integer: each such field's
/// name, with the integer it holds. Fields of any other type are left out.
pub uninterp spec fn int32_fields(document: Document) -> Map<Seq<char>, i32>;

/// `Document::get_i32`, with its error dropped: the integer under `key` when
/// the document has a field of that name holding a 32-bit integer, and
/// nothing when the field is missing or holds a value of another type.
#[verifier::external_body]
fn get_i32(document: &Document, key: &str) -> (found: Option<i32>)
    ensures
        found == if int32_fields(*document).contains_key(key@) {
            Some(int32_fields(*document)[key@])
        } else {
            None::<i32>
        },
{
    document.get_i32(key).ok()
}

/// The fields of a document that hold a 64-bit integer: each such field's
/// name, with the integer it holds. Fields of any other type are left out.
pub uninterp spec fn int64_fields(document: Document) -> Map<Seq<char>, i64>;

/// `Document::get_i64`, with its error dropped: the integer under `key` when
/// the document has a field of that name holding a 64-bit integer, and
/// nothing when the field is missing or holds a value of another type.
#[verifier::external_body]
fn get_i64(document: &Document, key: &str) -> (found: Option<i64>)
    ensures
        found == if int64_fields(*document).contains_key(key@) {
            Some(int64_fields(*document)[key@])
        } else {
            None::<i64>
        },
{
    document.get_i64(key).ok()
}

/// The integer fields of a reply, by the width they are held in.
pub struct IntegerFields {
    /// The fields that hold a 32-bit integer.
    pub narrow: Map<Seq<char>, i32>,
    /// The fields that hold a 64-bit integer.
    pub wide: Map<Seq<char>, i64>,
}

/// The integer fields of a document, of either width.
pub open spec fn integer_fields(document: Document) -> IntegerFields {
    IntegerFields { narrow: int32_fields(document), wide: int64_fields(document) }
}

/// The name of the command that reports a collection's statistics.
pub open spec fn stats_command_name() -> Seq<char> {
    "collStats"@
}

/// The five statistics shown for a collection.
#[derive(Clone, Copy, Debug, PartialEq, Eq, Structural)]
pub struct CollectionStats {
    /// Bytes of storage taken by the collection.
    pub storage_size: i64,
    /// Number of documents.
    pub document_count: i64,
    /// Average size of a document, in bytes.
    pub avg_document_size: i64,
    /// Number of indexes.
    pub indexes_count: i64,
    /// Bytes taken by all indexes together.
    pub total_index_size: i64,
}

/// The statistic called `name` in a reply: the integer of that name, held in
/// 32 or in 64 bits, or zero when the reply has no integer of that name.
pub open spec fn stat_value(fields: IntegerFields, name: Seq<char>) -> i64 {
    if fields.narrow.contains_key(name) {
        fields.narrow[name] as i64
    } else if fields.wide.contains_key(name) {
        fields.wide[name]
    } else {
        0
    }
}

/// The statistics that a reply with these integer fields stands for.
pub open spec fn stats_of(fields: IntegerFields) -> CollectionStats {
    CollectionStats {
        storage_size: stat_value(fields, "storageSize"@),
        document_count: stat_value(fields, "count"@),
        avg_document_size: stat_value(fields, "avgObjSize"@),
        indexes_count: stat_value(fields, "nindexes"@),
        total_index_size: stat_value(fields, "totalIndexSize"@),
    }
}

/// Reads one statistic, zero when it is missing or not an integer.
fn read_stat(reply: &Document, name: &str) -> (value: i64)
    ensures
        value == stat_value(integer_fields(*reply), name@),
{
    match get_i32(reply, name) {
        Some(found) => found as i64,
        None => match get_i64(reply, name) {
            Some(found) => found,
            None => 0,
        },
    }
}

/// The statistics of one collection of one database: which command asks for
/// them, and how its reply is read.
#[derive(Debug, PartialEq, Eq)]
pub struct CollectionStatsView {
    pub db: String,
    pub collection: String,
}

impl CollectionStatsView {
    /// The statistics view of `collection` in database `db`.
    pub fn new(collection: String, db: String) -> (view: CollectionStatsView)
        ensures
            view.db@ == db@,
            view.collection@ == collection@,
    {
        CollectionStatsView { db, collection }
    }

    /// The name of the command to run against the database, with the
    /// collection's name as its argument.
    pub fn command(&self) -> (name: String)
        ensures
            name@ == stats_command_name(),
    {
        String::from_str("collStats")
    }

    /// Reads the five statistics out of the command's reply. An integer is
    /// taken as it is, whether the reply holds it in 32 or in 64 bits. A
    /// statistic that the reply lacks, or holds as anything but an integer,
    /// is zero; no reply is refused.
    pub fn load_collection_stats(&self, reply: &Document) -> (stats: CollectionStats)
        ensures
            stats == stats_of(integer_fields(*reply)),
    {
        CollectionStats {
            storage_size: read_stat(reply, "storageSize"),
            document_count: read_stat(reply, "count"),
            avg_document_size: read_stat(reply, "avgObjSize"),
            indexes_count: read_stat(reply, "nindexes"),
            total_index_size: read_stat(reply, "totalIndexSize"),
        }
    }
}

/// A statistic that the reply does not hold as an integer reads as zero.
pub proof fn lemma_missing_stat_is_zero(fields: IntegerFields, name: Seq<char>)
    requires
        !fields.narrow.contains_key(name),
        !fields.wide.contains_key(name),
    ensures
        stat_value(fields, name) == 0,
{
}

/// An integer statistic reads as the integer itself, whichever width the
/// reply holds it in.
pub proof fn lemma_integer_stat_is_kept(fields: IntegerFields, name: Seq<char>)
    ensures
        fields.narrow.contains_key(name) ==> stat_value(fields, name) == fields.narrow[name],
        !fields.narrow.contains_key(name) && fields.wide.contains_key(name) ==> stat_value(
            fields,
            name,
        ) == fields.wide[name],
{
}

} // verus!
