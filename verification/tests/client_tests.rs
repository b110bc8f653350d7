use milvus::client::{
    build_create_collection_request, build_create_partition_request,
    build_drop_collection_request, build_drop_partition_request, build_flush_request,
    build_has_collection_request, build_has_partition_request, build_insert_request,
    build_load_collection_request, build_load_partitions_request, build_query_request,
    interpret_drop_collection, interpret_flush, interpret_has_collection,
    interpret_query_results, BoolResponse, ClientConfig, CollectionSegmentIds, FlushResponse,
    QueryResults,
};
use milvus::common::{ConsistencyLevel, ErrorCode, Status};
use milvus::data::{CodecError, ColumnData, ColumnValues, FieldData, InsertColumn, RecordBatch, Value};
use milvus::error::Error;
use milvus::schema::{CollectionSchema, FieldSchema, FieldType, ValidatedSchema};
use milvus::wire::schema_to_bytes;

fn config() -> ClientConfig {
    ClientConfig { db_name: String::new() }
}

fn sample_schema() -> ValidatedSchema {
    ValidatedSchema::bind(CollectionSchema {
        name: "listings".to_string(),
        description: String::new(),
        fields: vec![FieldSchema {
            name: "id".to_string(),
            field_type: FieldType::Int64,
            is_primary_key: true,
            is_auto_id: true,
            dimension: None,
        }],
    })
    .unwrap()
}

#[test]
fn create_request_embeds_framed_schema() {
    let schema = sample_schema();
    let req = build_create_collection_request(&config(), &schema, 2, ConsistencyLevel::Bounded);
    assert_eq!(req.base.msg_type, 100);
    assert_eq!(req.base.timestamp, 0);
    assert_eq!(req.db_name, "");
    assert_eq!(req.collection_name, "listings");
    assert_eq!(req.schema, schema_to_bytes(schema.schema()));
    assert_eq!(req.shards_num, 2);
    assert_eq!(req.consistency_level, 2);
}

#[test]
fn drop_and_has_requests_carry_the_name() {
    let drop = build_drop_collection_request(&config(), "listings".to_string());
    assert_eq!(drop.base.msg_type, 101);
    assert_eq!(drop.collection_name, "listings");
    let has = build_has_collection_request(&config(), "listings".to_string());
    assert_eq!(has.base.msg_type, 102);
    assert_eq!(has.collection_name, "listings");
    assert_eq!(has.time_stamp, 0);
}

#[test]
fn partition_and_load_requests_carry_their_names() {
    let create =
        build_create_partition_request(&config(), "c".to_string(), "p".to_string());
    assert_eq!(create.base.msg_type, 200);
    assert_eq!(create.partition_name, "p");
    let drop = build_drop_partition_request(&config(), "c".to_string(), "p".to_string());
    assert_eq!(drop.base.msg_type, 201);
    let has = build_has_partition_request(&config(), "c".to_string(), "p".to_string());
    assert_eq!(has.base.msg_type, 202);
    let load = build_load_collection_request(&config(), "c".to_string());
    assert_eq!(load.base.msg_type, 106);
    assert_eq!(load.collection_name, "c");
    let parts =
        build_load_partitions_request(&config(), "c".to_string(), vec!["p".to_string()]);
    assert_eq!(parts.base.msg_type, 205);
    assert_eq!(parts.partition_names, vec!["p".to_string()]);
}

#[test]
fn flush_request_keeps_collection_names() {
    let req = build_flush_request(&config(), vec!["a".to_string(), "b".to_string()]);
    assert_eq!(req.base.msg_type, 402);
    assert_eq!(req.collection_names, vec!["a".to_string(), "b".to_string()]);
}

fn id_embedding_schema() -> ValidatedSchema {
    ValidatedSchema::bind(CollectionSchema {
        name: "c".to_string(),
        description: String::new(),
        fields: vec![
            FieldSchema {
                name: "id".to_string(),
                field_type: FieldType::Int64,
                is_primary_key: true,
                is_auto_id: true,
                dimension: None,
            },
            FieldSchema {
                name: "embedding".to_string(),
                field_type: FieldType::FloatVector,
                is_primary_key: false,
                is_auto_id: false,
                dimension: Some(4),
            },
        ],
    })
    .unwrap()
}

fn three_vector_batch() -> RecordBatch {
    let vectors: Vec<Vec<u32>> = [
        [1.0f32, 2.0, 3.0, 4.0],
        [5.0, 6.0, 7.0, 8.0],
        [9.0, 10.0, 11.0, 12.0],
    ]
    .iter()
    .map(|v| v.iter().map(|x| x.to_bits()).collect())
    .collect();
    RecordBatch {
        columns: vec![InsertColumn {
            field_name: "embedding".to_string(),
            values: ColumnValues::FloatVector(vectors),
        }],
    }
}

#[test]
fn insert_request_resolves_row_count() {
    let schema = id_embedding_schema();
    let req =
        build_insert_request(&config(), &schema, String::new(), &three_vector_batch()).unwrap();
    assert_eq!(req.base.msg_type, 400);
    assert_eq!(req.collection_name, "c");
    assert_eq!(req.num_rows, 3);
    assert_eq!(req.fields_data.len(), 1);
    assert_eq!(req.fields_data[0].field_name, "embedding");
}

#[test]
fn insert_request_rejects_misaligned_batch() {
    let schema = id_embedding_schema();
    let mut batch = three_vector_batch();
    batch.columns.push(InsertColumn {
        field_name: "id".to_string(),
        values: ColumnValues::Int64(vec![1, 2]),
    });
    assert_eq!(
        build_insert_request(&config(), &schema, String::new(), &batch),
        Err(Error::Codec(CodecError::RowCountMisaligned))
    );
}

#[test]
fn query_request_carries_projection() {
    let req = build_query_request(
        &config(),
        "listings".to_string(),
        "id >= 0".to_string(),
        vec!["id".to_string()],
        vec!["RU".to_string()],
    );
    assert_eq!(req.base.msg_type, 502);
    assert_eq!(req.expr, "id >= 0");
    assert_eq!(req.output_fields, vec!["id".to_string()]);
    assert_eq!(req.partition_names, vec!["RU".to_string()]);
}

#[test]
fn query_results_fail_before_payload_is_read() {
    let schema = id_embedding_schema();
    let resp = QueryResults {
        status: Some(Status { error_code: 1, reason: "bad".to_string() }),
        fields_data: vec![FieldData {
            field_name: "id".to_string(),
            column: ColumnData::Int64(vec![1]),
        }],
    };
    assert_eq!(
        interpret_query_results(&schema, resp),
        Err(Error::Server(ErrorCode::UnexpectedError, "bad".to_string()))
    );
}

#[test]
fn query_results_decode_on_success() {
    let schema = id_embedding_schema();
    let resp = QueryResults {
        status: Some(Status { error_code: 0, reason: String::new() }),
        fields_data: vec![FieldData {
            field_name: "id".to_string(),
            column: ColumnData::Int64(vec![42]),
        }],
    };
    let batch = interpret_query_results(&schema, resp).unwrap();
    assert_eq!(batch.records.len(), 1);
    assert_eq!(batch.records[0].values[0], Some(Value::Int64(42)));
    assert_eq!(batch.records[0].values[1], None);
}

#[test]
fn drop_of_missing_collection_surfaces_server_error() {
    let status = Status { error_code: 4, reason: "can't find collection".to_string() };
    assert_eq!(
        interpret_drop_collection(Some(status)),
        Err(Error::Server(
            ErrorCode::CollectionNotExists,
            "can't find collection".to_string()
        ))
    );
}

#[test]
fn has_collection_reads_value_only_on_success() {
    let ok = BoolResponse {
        status: Some(Status { error_code: 0, reason: String::new() }),
        value: true,
    };
    assert_eq!(interpret_has_collection(ok), Ok(true));
    let failed = BoolResponse {
        status: Some(Status { error_code: 1, reason: "boom".to_string() }),
        value: true,
    };
    assert_eq!(
        interpret_has_collection(failed),
        Err(Error::Server(ErrorCode::UnexpectedError, "boom".to_string()))
    );
    let missing = BoolResponse { status: None, value: true };
    assert_eq!(interpret_has_collection(missing), Err(Error::Unknown));
}

#[test]
fn flush_hands_out_segment_ids_only_on_success() {
    let ids = CollectionSegmentIds {
        collection_name: "a".to_string(),
        segment_ids: vec![1, 2, 3],
    };
    let ok = FlushResponse {
        status: Some(Status { error_code: 0, reason: String::new() }),
        coll_seg_ids: vec![ids.clone()],
    };
    assert_eq!(interpret_flush(ok), Ok(vec![ids.clone()]));
    let failed = FlushResponse {
        status: None,
        coll_seg_ids: vec![ids],
    };
    assert_eq!(interpret_flush(failed), Err(Error::Unknown));
}
