//! The compute half of the service facade. Each remote operation has a
//! request builder here (caller parameters plus the per-client defaults,
//! assembled into a plain request value) and a response interpreter (the
//! status unified first, the payload touched only on success). The
//! transport that carries these values is outside this library.

use vstd::prelude::*;

use crate::common::{consistency_level_to_i32, consistency_level_value, msg_type_value};
use crate::common::{ConsistencyLevel, MsgBase, MsgType, Status};
use crate::data::{
    batch_row_count, batch_wf, decode, decode_output_ok, encode, encode_output_ok, first_bad_field,
    resolved_row_count, response_aligned, response_wf, rows_aligned, spec_find_column, values_kind,
    vector_dims_ok, CodecError, DecodedBatch, FieldData, RecordBatch,
};
use crate::error::Error;
use crate::schema::ValidatedSchema;
use crate::utils::{new_msg, spec_status_result, status_to_result};
use crate::wire::{schema_to_bytes, spec_schema_bytes};

verus! {

/// Per-client defaults every request carries: the database name.
#[derive(Debug, Clone, PartialEq, Eq)]
pub struct ClientConfig {
    pub db_name: String,
}

/// A create-collection request: the schema travels as its framed byte
/// buffer.
#[derive(Debug, Clone, PartialEq, Eq)]
pub struct CreateCollectionRequest {
    pub base: MsgBase,
    pub db_name: String,
    pub collection_name: String,
    pub schema: Vec<u8>,
    pub shards_num: i32,
    pub consistency_level: i32,
}

/// A drop-collection request.
#[derive(Debug, Clone, PartialEq, Eq)]
pub struct DropCollectionRequest {
    pub base: MsgBase,
    pub db_name: String,
    pub collection_name: String,
}

/// A has-collection request.
#[derive(Debug, Clone, PartialEq, Eq)]
pub struct HasCollectionRequest {
    pub base: MsgBase,
    pub db_name: String,
    pub collection_name: String,
    pub time_stamp: u64,
}

/// A flush request over several collections.
#[derive(Debug, Clone, PartialEq, Eq)]
pub struct FlushRequest {
    pub base: MsgBase,
    pub db_name: String,
    pub collection_names: Vec<String>,
}

/// A boolean-valued response, as has-collection returns it.
#[derive(Debug, Clone, PartialEq, Eq)]
pub struct BoolResponse {
    pub status: Option<Status>,
    pub value: bool,
}

/// The segment ids a flush reports for one collection.
#[derive(Debug, Clone, PartialEq, Eq)]
pub struct CollectionSegmentIds {
    pub collection_name: String,
    pub segment_ids: Vec<i64>,
}

/// A flush response: a status and per-collection segment ids.
#[derive(Debug, Clone, PartialEq, Eq)]
pub struct FlushResponse {
    pub status: Option<Status>,
    pub coll_seg_ids: Vec<CollectionSegmentIds>,
}

/// An envelope of the given type with every other field zero.
pub open spec fn spec_default_base(t: MsgType) -> MsgBase {
    MsgBase { msg_type: msg_type_value(t) as i32, msg_id: 0, timestamp: 0, source_id: 0 }
}

/// Build the create-collection request: the validated schema is framed
/// into its wire buffer, the collection name is taken from the schema.
pub fn build_create_collection_request(
    cfg: &ClientConfig,
    schema: &ValidatedSchema,
    shards_num: i32,
    consistency_level: ConsistencyLevel,
) -> (r: CreateCollectionRequest)
    ensures
        r.base == spec_default_base(MsgType::CreateCollection),
        r.db_name@ == cfg.db_name@,
        r.collection_name@ == schema.spec_schema().name@,
        r.schema@ == spec_schema_bytes(schema.spec_schema()),
        r.shards_num == shards_num,
        r.consistency_level as int == consistency_level_value(consistency_level),
{
    let s = schema.schema();
    CreateCollectionRequest {
        base: new_msg(MsgType::CreateCollection),
        db_name: cfg.db_name.clone(),
        collection_name: s.name.clone(),
        schema: schema_to_bytes(s),
        shards_num,
        consistency_level: consistency_level_to_i32(consistency_level),
    }
}

/// Build the drop-collection request.
pub fn build_drop_collection_request(cfg: &ClientConfig, name: String) -> (r:
    DropCollectionRequest)
    ensures
        r.base == spec_default_base(MsgType::DropCollection),
        r.db_name@ == cfg.db_name@,
        r.collection_name == name,
{
    DropCollectionRequest {
        base: new_msg(MsgType::DropCollection),
        db_name: cfg.db_name.clone(),
        collection_name: name,
    }
}

/// Build the has-collection request; the timestamp stays zero (read at
/// the latest state).
pub fn build_has_collection_request(cfg: &ClientConfig, name: String) -> (r: HasCollectionRequest)
    ensures
        r.base == spec_default_base(MsgType::HasCollection),
        r.db_name@ == cfg.db_name@,
        r.collection_name == name,
        r.time_stamp == 0,
{
    HasCollectionRequest {
        base: new_msg(MsgType::HasCollection),
        db_name: cfg.db_name.clone(),
        collection_name: name,
        time_stamp: 0,
    }
}

/// Build the flush request over the given collection names.
pub fn build_flush_request(cfg: &ClientConfig, names: Vec<String>) -> (r: FlushRequest)
    ensures
        r.base == spec_default_base(MsgType::Flush),
        r.db_name@ == cfg.db_name@,
        r.collection_names == names,
{
    FlushRequest {
        base: new_msg(MsgType::Flush),
        db_name: cfg.db_name.clone(),
        collection_names: names,
    }
}

/// A request naming one partition of one collection, as create-, drop-
/// and has-partition all do.
#[derive(Debug, Clone, PartialEq, Eq)]
pub struct PartitionRequest {
    pub base: MsgBase,
    pub db_name: String,
    pub collection_name: String,
    pub partition_name: String,
}

/// A load-collection request.
#[derive(Debug, Clone, PartialEq, Eq)]
pub struct LoadCollectionRequest {
    pub base: MsgBase,
    pub db_name: String,
    pub collection_name: String,
}

/// A load-partitions request.
#[derive(Debug, Clone, PartialEq, Eq)]
pub struct LoadPartitionsRequest {
    pub base: MsgBase,
    pub db_name: String,
    pub collection_name: String,
    pub partition_names: Vec<String>,
}

/// Build the create-partition request.
pub fn build_create_partition_request(
    cfg: &ClientConfig,
    collection_name: String,
    partition_name: String,
) -> (r: PartitionRequest)
    ensures
        r.base == spec_default_base(MsgType::CreatePartition),
        r.db_name@ == cfg.db_name@,
        r.collection_name == collection_name,
        r.partition_name == partition_name,
{
    PartitionRequest {
        base: new_msg(MsgType::CreatePartition),
        db_name: cfg.db_name.clone(),
        collection_name,
        partition_name,
    }
}

/// Build the drop-partition request.
pub fn build_drop_partition_request(
    cfg: &ClientConfig,
    collection_name: String,
    partition_name: String,
) -> (r: PartitionRequest)
    ensures
        r.base == spec_default_base(MsgType::DropPartition),
        r.db_name@ == cfg.db_name@,
        r.collection_name == collection_name,
        r.partition_name == partition_name,
{
    PartitionRequest {
        base: new_msg(MsgType::DropPartition),
        db_name: cfg.db_name.clone(),
        collection_name,
        partition_name,
    }
}

/// Build the has-partition request.
pub fn build_has_partition_request(
    cfg: &ClientConfig,
    collection_name: String,
    partition_name: String,
) -> (r: PartitionRequest)
    ensures
        r.base == spec_default_base(MsgType::HasPartition),
        r.db_name@ == cfg.db_name@,
        r.collection_name == collection_name,
        r.partition_name == partition_name,
{
    PartitionRequest {
        base: new_msg(MsgType::HasPartition),
        db_name: cfg.db_name.clone(),
        collection_name,
        partition_name,
    }
}

/// Build the load-collection request.
pub fn build_load_collection_request(cfg: &ClientConfig, collection_name: String) -> (r:
    LoadCollectionRequest)
    ensures
        r.base == spec_default_base(MsgType::LoadCollection),
        r.db_name@ == cfg.db_name@,
        r.collection_name == collection_name,
{
    LoadCollectionRequest {
        base: new_msg(MsgType::LoadCollection),
        db_name: cfg.db_name.clone(),
        collection_name,
    }
}

/// Build the load-partitions request.
pub fn build_load_partitions_request(
    cfg: &ClientConfig,
    collection_name: String,
    partition_names: Vec<String>,
) -> (r: LoadPartitionsRequest)
    ensures
        r.base == spec_default_base(MsgType::LoadPartitions),
        r.db_name@ == cfg.db_name@,
        r.collection_name == collection_name,
        r.partition_names == partition_names,
{
    LoadPartitionsRequest {
        base: new_msg(MsgType::LoadPartitions),
        db_name: cfg.db_name.clone(),
        collection_name,
        partition_names,
    }
}

/// An insert request: the batch travels as wire columns, the record
/// count alongside, since the wire stores rows only through column
/// lengths.
#[derive(Debug, Clone, PartialEq, Eq)]
pub struct InsertRequest {
    pub base: MsgBase,
    pub db_name: String,
    pub collection_name: String,
    pub partition_name: String,
    pub fields_data: Vec<FieldData>,
    pub num_rows: u64,
}

/// A query request: a filter expression, the fields to return, and the
/// partitions to search.
#[derive(Debug, Clone, PartialEq, Eq)]
pub struct QueryRequest {
    pub base: MsgBase,
    pub db_name: String,
    pub collection_name: String,
    pub expr: String,
    pub output_fields: Vec<String>,
    pub partition_names: Vec<String>,
}

/// A query response: a status and the result columns.
#[derive(Debug, Clone, PartialEq, Eq)]
pub struct QueryResults {
    pub status: Option<Status>,
    pub fields_data: Vec<FieldData>,
}

/// Build the insert request: the batch is encoded into wire columns under
/// the row-alignment invariant, and the resolved record count is carried
/// along. Fails, before anything could be sent, exactly where the encoder
/// fails.
pub fn build_insert_request(
    cfg: &ClientConfig,
    schema: &ValidatedSchema,
    partition_name: String,
    batch: &RecordBatch,
) -> (r: Result<InsertRequest, Error>)
    requires
        schema.wf(),
    ensures
        ({
            let fields = schema.spec_schema().fields@;
            let cols = batch.columns@;
            &&& (r is Ok <==> batch_wf(fields, cols) && rows_aligned(fields, cols))
            &&& (r matches Ok(req) ==> {
                &&& req.base == spec_default_base(MsgType::Insert)
                &&& req.db_name@ == cfg.db_name@
                &&& req.collection_name@ == schema.spec_schema().name@
                &&& req.partition_name == partition_name
                &&& encode_output_ok(fields, cols, req.fields_data@)
                &&& req.num_rows as nat == batch_row_count(fields, cols)
            })
            &&& (r matches Err(e) ==> e matches Error::Codec(_))
            &&& ((r matches Err(Error::Codec(CodecError::RowCountMisaligned))) <==> (batch_wf(
                fields,
                cols,
            ) && !rows_aligned(fields, cols)))
            &&& (r matches Err(Error::Codec(CodecError::KindMismatch(n))) ==> exists|k: int|
                first_bad_field(fields, cols, k) && #[trigger] fields[k].name@ == n@
                    && (spec_find_column(cols, n@) matches Some(v) && values_kind(v)
                    != fields[k].field_type))
            &&& (r matches Err(Error::Codec(CodecError::DimensionMismatch(n))) ==> exists|k: int|
                first_bad_field(fields, cols, k) && #[trigger] fields[k].name@ == n@
                    && (spec_find_column(cols, n@) matches Some(v) && values_kind(v)
                    == fields[k].field_type && !vector_dims_ok(fields[k], v)))
        }),
{
    match encode(schema, batch) {
        Err(e) => Err(Error::Codec(e)),
        Ok(fields_data) => match resolved_row_count(schema, batch) {
            Err(e) => Err(Error::Codec(e)),
            Ok(n) => Ok(
                InsertRequest {
                    base: new_msg(MsgType::Insert),
                    db_name: cfg.db_name.clone(),
                    collection_name: schema.schema().name.clone(),
                    partition_name,
                    fields_data,
                    num_rows: n as u64,
                },
            ),
        },
    }
}

/// Build the query request.
pub fn build_query_request(
    cfg: &ClientConfig,
    collection_name: String,
    expr: String,
    output_fields: Vec<String>,
    partition_names: Vec<String>,
) -> (r: QueryRequest)
    ensures
        r.base == spec_default_base(MsgType::Retrieve),
        r.db_name@ == cfg.db_name@,
        r.collection_name == collection_name,
        r.expr == expr,
        r.output_fields == output_fields,
        r.partition_names == partition_names,
{
    QueryRequest {
        base: new_msg(MsgType::Retrieve),
        db_name: cfg.db_name.clone(),
        collection_name,
        expr,
        output_fields,
        partition_names,
    }
}

/// Interpret a query response: the status is unified first, then the
/// result columns are decoded against the schema; a projection that
/// omits fields succeeds, with those fields absent from every record.
pub fn interpret_query_results(schema: &ValidatedSchema, resp: QueryResults) -> (r: Result<
    DecodedBatch,
    Error,
>)
    requires
        schema.wf(),
    ensures
        ({
            let fields = schema.spec_schema().fields@;
            let cols = resp.fields_data@;
            &&& (spec_status_result(resp.status) matches Err(e) ==> r == Err::<DecodedBatch, Error>(
                e,
            ))
            &&& (spec_status_result(resp.status) is Ok ==> {
                &&& (r is Ok <==> response_wf(fields, cols) && response_aligned(fields, cols))
                &&& (r matches Ok(b) ==> decode_output_ok(fields, cols, b))
                &&& (r matches Err(e) ==> e matches Error::Codec(_))
            })
        }),
{
    match status_to_result(resp.status) {
        Err(e) => Err(e),
        Ok(()) => match decode(schema, resp.fields_data) {
            Err(e) => Err(Error::Codec(e)),
            Ok(b) => Ok(b),
        },
    }
}

/// Interpret a create-collection outcome: pure status unification.
pub fn interpret_create_collection(status: Option<Status>) -> (r: Result<(), Error>)
    ensures
        r == spec_status_result(status),
{
    status_to_result(status)
}

/// Interpret a drop-collection outcome: pure status unification; a
/// server-reported failure (a missing collection, say) surfaces as the
/// server error, never as success.
pub fn interpret_drop_collection(status: Option<Status>) -> (r: Result<(), Error>)
    ensures
        r == spec_status_result(status),
{
    status_to_result(status)
}

/// Interpret a has-collection response: the status is unified first, and
/// the payload value is read only on success.
pub fn interpret_has_collection(resp: BoolResponse) -> (r: Result<bool, Error>)
    ensures
        spec_status_result(resp.status) is Ok ==> r == Ok::<bool, Error>(resp.value),
        spec_status_result(resp.status) matches Err(e) ==> r == Err::<bool, Error>(e),
{
    match status_to_result(resp.status) {
        Ok(()) => Ok(resp.value),
        Err(e) => Err(e),
    }
}

/// Interpret a flush response: the status is unified first, and the
/// per-collection segment ids are handed out only on success.
pub fn interpret_flush(resp: FlushResponse) -> (r: Result<Vec<CollectionSegmentIds>, Error>)
    ensures
        spec_status_result(resp.status) is Ok ==> r == Ok::<Vec<CollectionSegmentIds>, Error>(
            resp.coll_seg_ids,
        ),
        spec_status_result(resp.status) matches Err(e) ==> r == Err::<
            Vec<CollectionSegmentIds>,
            Error,
        >(e),
{
    match status_to_result(resp.status) {
        Ok(()) => Ok(resp.coll_seg_ids),
        Err(e) => Err(e),
    }
}

} // verus!
