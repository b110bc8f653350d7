use milvus::schema::{
    CollectionSchema, FieldSchema, FieldType, SchemaError, ValidatedSchema,
};

fn scalar(name: &str, ft: FieldType) -> FieldSchema {
    FieldSchema {
        name: name.to_string(),
        field_type: ft,
        is_primary_key: false,
        is_auto_id: false,
        dimension: None,
    }
}

fn vector(name: &str, ft: FieldType, dim: Option<u64>) -> FieldSchema {
    FieldSchema {
        name: name.to_string(),
        field_type: ft,
        is_primary_key: false,
        is_auto_id: false,
        dimension: dim,
    }
}

fn collection(fields: Vec<FieldSchema>) -> CollectionSchema {
    CollectionSchema {
        name: "c".to_string(),
        description: String::new(),
        fields,
    }
}

#[test]
fn empty_schema_rejected() {
    let schema = collection(vec![]);
    assert_eq!(schema.validate(), Err(SchemaError::Empty));
}

#[test]
fn duplicate_field_names_rejected() {
    let schema = collection(vec![
        scalar("id", FieldType::Int64),
        scalar("x", FieldType::Float),
        scalar("id", FieldType::Int32),
    ]);
    assert_eq!(
        schema.validate(),
        Err(SchemaError::DuplicateField("id".to_string()))
    );
}

#[test]
fn two_primary_keys_rejected() {
    let mut a = scalar("a", FieldType::Int64);
    a.is_primary_key = true;
    let mut b = scalar("b", FieldType::Int64);
    b.is_primary_key = true;
    let schema = collection(vec![a, b]);
    assert_eq!(schema.validate(), Err(SchemaError::MultiplePrimaryKeys));
}

#[test]
fn single_primary_key_accepted() {
    let mut a = scalar("a", FieldType::Int64);
    a.is_primary_key = true;
    let schema = collection(vec![a, scalar("b", FieldType::VarChar)]);
    assert_eq!(schema.validate(), Ok(()));
}

#[test]
fn auto_id_on_non_primary_key_rejected() {
    let mut a = scalar("a", FieldType::Int64);
    a.is_primary_key = true;
    let mut b = scalar("b", FieldType::Int64);
    b.is_auto_id = true;
    let schema = collection(vec![a, b]);
    assert_eq!(schema.validate(), Err(SchemaError::AutoIdNotPrimaryKey));
}

#[test]
fn auto_id_on_primary_key_accepted() {
    let mut a = scalar("id", FieldType::Int64);
    a.is_primary_key = true;
    a.is_auto_id = true;
    let schema = collection(vec![a]);
    assert_eq!(schema.validate(), Ok(()));
}

#[test]
fn vector_without_dimension_rejected() {
    let schema = collection(vec![vector("v", FieldType::FloatVector, None)]);
    assert_eq!(
        schema.validate(),
        Err(SchemaError::DimensionMismatch("v".to_string()))
    );
}

#[test]
fn vector_with_zero_dimension_rejected() {
    let schema = collection(vec![vector("v", FieldType::BinaryVector, Some(0))]);
    assert_eq!(
        schema.validate(),
        Err(SchemaError::DimensionMismatch("v".to_string()))
    );
}

#[test]
fn scalar_with_dimension_rejected() {
    let schema = collection(vec![vector("s", FieldType::Int32, Some(4))]);
    assert_eq!(
        schema.validate(),
        Err(SchemaError::DimensionMismatch("s".to_string()))
    );
}

#[test]
fn checks_run_in_declared_order() {
    // Duplicate names take precedence over the primary-key count.
    let mut a = scalar("x", FieldType::Int64);
    a.is_primary_key = true;
    let mut b = scalar("x", FieldType::Int64);
    b.is_primary_key = true;
    let schema = collection(vec![a, b]);
    assert_eq!(
        schema.validate(),
        Err(SchemaError::DuplicateField("x".to_string()))
    );
}

#[test]
fn bind_wraps_only_valid_schemas() {
    let good = collection(vec![scalar("a", FieldType::Bool)]);
    let bound = ValidatedSchema::bind(good.clone()).unwrap();
    assert_eq!(bound.schema(), &good);
    let bad = collection(vec![scalar("a", FieldType::Bool), scalar("a", FieldType::Bool)]);
    assert!(ValidatedSchema::bind(bad).is_err());
}
