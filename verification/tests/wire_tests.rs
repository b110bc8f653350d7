use milvus::schema::{CollectionSchema, FieldSchema, FieldType};
use milvus::wire::{push_decimal, push_varint, schema_to_bytes};

#[test]
fn varint_matches_reference_encoder() {
    for n in [0u64, 1, 5, 127, 128, 129, 300, 16383, 16384, 1 << 32, u64::MAX] {
        let mut ours: Vec<u8> = Vec::new();
        push_varint(&mut ours, n);
        let mut reference: Vec<u8> = Vec::new();
        prost::encoding::encode_varint(n, &mut reference);
        assert_eq!(ours, reference, "varint of {}", n);
    }
}

#[test]
fn decimal_digits_most_significant_first() {
    let mut out: Vec<u8> = Vec::new();
    push_decimal(&mut out, 407);
    assert_eq!(out, b"407".to_vec());
    let mut zero: Vec<u8> = Vec::new();
    push_decimal(&mut zero, 0);
    assert_eq!(zero, b"0".to_vec());
}

#[test]
fn scalar_field_schema_bytes() {
    // One auto-id int64 primary key: name (tag 2), primary-key flag
    // (tag 3), data type 5 (tag 5), auto-id flag (tag 8), inside one
    // embedded field message (tag 4), after the collection name (tag 1).
    let schema = CollectionSchema {
        name: "c".to_string(),
        description: String::new(),
        fields: vec![FieldSchema {
            name: "id".to_string(),
            field_type: FieldType::Int64,
            is_primary_key: true,
            is_auto_id: true,
            dimension: None,
        }],
    };
    let bytes = schema_to_bytes(&schema);
    let expected = vec![
        0x0A, 1, b'c', // collection name
        0x22, 10, // field message, 10 bytes
        0x12, 2, b'i', b'd', // field name
        0x18, 1, // primary key
        0x28, 5, // data type int64
        0x40, 1, // auto id
    ];
    assert_eq!(bytes, expected);
}

#[test]
fn vector_field_carries_dim_parameter() {
    // A vector field's dimension travels as the key/value pair
    // {key: "dim", value: "4"} in the type-params field (tag 6).
    let schema = CollectionSchema {
        name: "c".to_string(),
        description: "d".to_string(),
        fields: vec![FieldSchema {
            name: "v".to_string(),
            field_type: FieldType::FloatVector,
            is_primary_key: false,
            is_auto_id: false,
            dimension: Some(4),
        }],
    };
    let bytes = schema_to_bytes(&schema);
    let expected = vec![
        0x0A, 1, b'c', // collection name
        0x12, 1, b'd', // description
        0x22, 15, // field message, 15 bytes
        0x12, 1, b'v', // field name
        0x28, 101, // data type float-vector
        0x32, 8, // type params, 8 bytes
        0x0A, 3, b'd', b'i', b'm', // key "dim"
        0x12, 1, b'4', // value "4"
    ];
    assert_eq!(bytes, expected);
}

#[test]
fn empty_strings_are_omitted() {
    let schema = CollectionSchema {
        name: String::new(),
        description: String::new(),
        fields: vec![],
    };
    assert_eq!(schema_to_bytes(&schema), Vec::<u8>::new());
}
