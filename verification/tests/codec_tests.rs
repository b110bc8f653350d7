use milvus::data::{
    decode, encode, CodecError, ColumnData, ColumnValues, FieldData, InsertColumn, RecordBatch,
    Value,
};
use milvus::schema::{CollectionSchema, FieldSchema, FieldType, ValidatedSchema};

/// The schema used throughout: an auto-id int64 primary key and a
/// four-dimensional float vector.
fn id_embedding_schema() -> ValidatedSchema {
    let id = FieldSchema {
        name: "id".to_string(),
        field_type: FieldType::Int64,
        is_primary_key: true,
        is_auto_id: true,
        dimension: None,
    };
    let embedding = FieldSchema {
        name: "embedding".to_string(),
        field_type: FieldType::FloatVector,
        is_primary_key: false,
        is_auto_id: false,
        dimension: Some(4),
    };
    let schema = CollectionSchema {
        name: "c".to_string(),
        description: String::new(),
        fields: vec![id, embedding],
    };
    ValidatedSchema::bind(schema).unwrap()
}

fn bits(vals: &[f32]) -> Vec<u32> {
    vals.iter().map(|v| v.to_bits()).collect()
}

fn embedding_column(vectors: Vec<Vec<u32>>) -> InsertColumn {
    InsertColumn {
        field_name: "embedding".to_string(),
        values: ColumnValues::FloatVector(vectors),
    }
}

#[test]
fn three_records_flatten_to_one_vector_column() {
    let schema = id_embedding_schema();
    let vectors = vec![
        bits(&[1.0, 2.0, 3.0, 4.0]),
        bits(&[5.0, 6.0, 7.0, 8.0]),
        bits(&[9.0, 10.0, 11.0, 12.0]),
    ];
    let batch = RecordBatch { columns: vec![embedding_column(vectors.clone())] };
    let out = encode(&schema, &batch).unwrap();
    assert_eq!(out.len(), 1);
    assert_eq!(out[0].field_name, "embedding");
    match &out[0].column {
        ColumnData::FloatVector { dim, data } => {
            assert_eq!(*dim, 4);
            assert_eq!(data.len(), 12);
            let mut expected: Vec<u32> = Vec::new();
            for v in &vectors {
                expected.extend_from_slice(v);
            }
            assert_eq!(data, &expected);
        }
        other => panic!("wrong column kind: {:?}", other),
    }
}

#[test]
fn misaligned_id_column_rejected() {
    let schema = id_embedding_schema();
    let vectors = vec![
        bits(&[1.0, 2.0, 3.0, 4.0]),
        bits(&[5.0, 6.0, 7.0, 8.0]),
        bits(&[9.0, 10.0, 11.0, 12.0]),
    ];
    let ids = InsertColumn {
        field_name: "id".to_string(),
        values: ColumnValues::Int64(vec![7, 8]),
    };
    let batch = RecordBatch { columns: vec![ids, embedding_column(vectors)] };
    assert_eq!(encode(&schema, &batch), Err(CodecError::RowCountMisaligned));
}

#[test]
fn aligned_columns_accepted() {
    let schema = id_embedding_schema();
    let ids = InsertColumn {
        field_name: "id".to_string(),
        values: ColumnValues::Int64(vec![7, 8]),
    };
    let vectors = vec![bits(&[1.0, 2.0, 3.0, 4.0]), bits(&[5.0, 6.0, 7.0, 8.0])];
    let batch = RecordBatch { columns: vec![ids, embedding_column(vectors)] };
    let out = encode(&schema, &batch).unwrap();
    assert_eq!(out.len(), 2);
    assert_eq!(out[0].field_name, "id");
    assert_eq!(out[1].field_name, "embedding");
}

#[test]
fn empty_column_skipped_by_alignment() {
    let schema = id_embedding_schema();
    let ids = InsertColumn {
        field_name: "id".to_string(),
        values: ColumnValues::Int64(vec![]),
    };
    let vectors = vec![bits(&[1.0, 2.0, 3.0, 4.0])];
    let batch = RecordBatch { columns: vec![ids, embedding_column(vectors)] };
    let out = encode(&schema, &batch).unwrap();
    assert_eq!(out.len(), 2);
}

#[test]
fn wrong_vector_length_rejected() {
    let schema = id_embedding_schema();
    let vectors = vec![bits(&[1.0, 2.0, 3.0])];
    let batch = RecordBatch { columns: vec![embedding_column(vectors)] };
    assert_eq!(
        encode(&schema, &batch),
        Err(CodecError::DimensionMismatch("embedding".to_string()))
    );
}

#[test]
fn wrong_column_kind_rejected() {
    let schema = id_embedding_schema();
    let ids = InsertColumn {
        field_name: "id".to_string(),
        values: ColumnValues::Float(bits(&[1.0])),
    };
    let batch = RecordBatch { columns: vec![ids] };
    assert_eq!(
        encode(&schema, &batch),
        Err(CodecError::KindMismatch("id".to_string()))
    );
}

#[test]
fn vector_round_trip_is_exact() {
    let schema = id_embedding_schema();
    let vectors = vec![
        bits(&[1.0, 2.0, 3.0, 4.0]),
        bits(&[5.0, 6.0, 7.0, 8.0]),
        bits(&[9.0, 10.0, 11.0, 12.0]),
    ];
    let batch = RecordBatch { columns: vec![embedding_column(vectors.clone())] };
    let out = encode(&schema, &batch).unwrap();
    let decoded = decode(&schema, out).unwrap();
    assert_eq!(decoded.records.len(), 3);
    for (i, rec) in decoded.records.iter().enumerate() {
        assert_eq!(rec.values.len(), 2);
        assert_eq!(rec.values[0], None);
        assert_eq!(rec.values[1], Some(Value::FloatVector(vectors[i].clone())));
    }
}

#[test]
fn partial_projection_decodes_with_absent_fields() {
    let schema = id_embedding_schema();
    let cols = vec![FieldData {
        field_name: "id".to_string(),
        column: ColumnData::Int64(vec![3, 4]),
    }];
    let decoded = decode(&schema, cols).unwrap();
    assert_eq!(decoded.records.len(), 2);
    assert_eq!(decoded.records[0].values[0], Some(Value::Int64(3)));
    assert_eq!(decoded.records[0].values[1], None);
    assert_eq!(decoded.records[1].values[0], Some(Value::Int64(4)));
    assert_eq!(decoded.records[1].values[1], None);
    assert!(decoded.extra_columns.is_empty());
}

#[test]
fn unknown_response_column_surfaced_as_extra() {
    let schema = id_embedding_schema();
    let cols = vec![
        FieldData {
            field_name: "id".to_string(),
            column: ColumnData::Int64(vec![1]),
        },
        FieldData {
            field_name: "score".to_string(),
            column: ColumnData::Float(bits(&[0.5])),
        },
    ];
    let decoded = decode(&schema, cols).unwrap();
    assert_eq!(decoded.records.len(), 1);
    assert_eq!(decoded.extra_columns.len(), 1);
    assert_eq!(decoded.extra_columns[0].field_name, "score");
}

#[test]
fn misaligned_response_rejected() {
    let schema = id_embedding_schema();
    let cols = vec![
        FieldData {
            field_name: "id".to_string(),
            column: ColumnData::Int64(vec![1, 2]),
        },
        FieldData {
            field_name: "embedding".to_string(),
            column: ColumnData::FloatVector { dim: 4, data: bits(&[0.0; 4]) },
        },
    ];
    assert_eq!(decode(&schema, cols), Err(CodecError::RowCountMisaligned));
}

#[test]
fn response_with_wrong_dimension_rejected() {
    let schema = id_embedding_schema();
    let cols = vec![FieldData {
        field_name: "embedding".to_string(),
        column: ColumnData::FloatVector { dim: 3, data: bits(&[0.0; 3]) },
    }];
    assert_eq!(
        decode(&schema, cols),
        Err(CodecError::DimensionMismatch("embedding".to_string()))
    );
}

#[test]
fn response_with_ragged_buffer_rejected() {
    let schema = id_embedding_schema();
    let cols = vec![FieldData {
        field_name: "embedding".to_string(),
        column: ColumnData::FloatVector { dim: 4, data: bits(&[0.0; 6]) },
    }];
    assert_eq!(
        decode(&schema, cols),
        Err(CodecError::DimensionMismatch("embedding".to_string()))
    );
}

#[test]
fn empty_batch_encodes_to_no_columns() {
    let schema = id_embedding_schema();
    let batch = RecordBatch { columns: vec![] };
    assert_eq!(encode(&schema, &batch), Ok(vec![]));
}

#[test]
fn empty_response_decodes_to_no_records() {
    let schema = id_embedding_schema();
    let decoded = decode(&schema, vec![]).unwrap();
    assert!(decoded.records.is_empty());
    assert!(decoded.extra_columns.is_empty());
}

#[test]
fn scalar_columns_round_trip() {
    let id = FieldSchema {
        name: "id".to_string(),
        field_type: FieldType::Int64,
        is_primary_key: true,
        is_auto_id: false,
        dimension: None,
    };
    let tag = FieldSchema {
        name: "tag".to_string(),
        field_type: FieldType::VarChar,
        is_primary_key: false,
        is_auto_id: false,
        dimension: None,
    };
    let schema = ValidatedSchema::bind(CollectionSchema {
        name: "c".to_string(),
        description: String::new(),
        fields: vec![id, tag],
    })
    .unwrap();
    let batch = RecordBatch {
        columns: vec![
            InsertColumn {
                field_name: "id".to_string(),
                values: ColumnValues::Int64(vec![10, 20]),
            },
            InsertColumn {
                field_name: "tag".to_string(),
                values: ColumnValues::VarChar(vec!["a".to_string(), "b".to_string()]),
            },
        ],
    };
    let out = encode(&schema, &batch).unwrap();
    let decoded = decode(&schema, out).unwrap();
    assert_eq!(decoded.records.len(), 2);
    assert_eq!(decoded.records[0].values[0], Some(Value::Int64(10)));
    assert_eq!(decoded.records[0].values[1], Some(Value::VarChar("a".to_string())));
    assert_eq!(decoded.records[1].values[0], Some(Value::Int64(20)));
    assert_eq!(decoded.records[1].values[1], Some(Value::VarChar("b".to_string())));
}
