//! The collection schema model: field definitions, their structural
//! invariants, and the validator that establishes them.
//!
//! Validation runs once, when a schema is bound to a handle; everything
//! downstream (the column codec, request building) works on a
//! `ValidatedSchema` and never re-checks.

use vstd::prelude::*;

verus! {

/// The closed set of value kinds one field of a collection can hold.
///
/// `Float` and `Double` columns carry 32-bit and 64-bit IEEE values; this
/// library moves them around as their raw bit patterns (`u32` / `u64`) and
/// never does arithmetic on them. `FloatVector` and `BinaryVector` are the
/// two vector kinds; their per-record width comes from the field's declared
/// dimension.
#[derive(Debug, Clone, Copy, PartialEq, Eq)]
pub enum FieldType {
    Bool,
    Int8,
    Int16,
    Int32,
    Int64,
    Float,
    Double,
    VarChar,
    Bytes,
    FloatVector,
    BinaryVector,
}

/// Whether a field type is one of the two vector kinds.
pub open spec fn is_vector_type(t: FieldType) -> bool {
    t == FieldType::FloatVector || t == FieldType::BinaryVector
}

/// Whether a field type is one of the two vector kinds.
pub fn field_type_is_vector(t: FieldType) -> (r: bool)
    ensures
        r == is_vector_type(t),
{
    match t {
        FieldType::FloatVector => true,
        FieldType::BinaryVector => true,
        _ => false,
    }
}

/// The data-type value each field type carries in the store's schema
/// messages.
pub open spec fn field_type_wire_value(t: FieldType) -> int {
    match t {
        FieldType::Bool => 1,
        FieldType::Int8 => 2,
        FieldType::Int16 => 3,
        FieldType::Int32 => 4,
        FieldType::Int64 => 5,
        FieldType::Float => 10,
        FieldType::Double => 11,
        FieldType::VarChar => 21,
        FieldType::Bytes => 23,
        FieldType::BinaryVector => 100,
        FieldType::FloatVector => 101,
    }
}

/// The data-type wire value of a field type.
pub fn field_type_to_i32(t: FieldType) -> (r: i32)
    ensures
        r as int == field_type_wire_value(t),
{
    match t {
        FieldType::Bool => 1,
        FieldType::Int8 => 2,
        FieldType::Int16 => 3,
        FieldType::Int32 => 4,
        FieldType::Int64 => 5,
        FieldType::Float => 10,
        FieldType::Double => 11,
        FieldType::VarChar => 21,
        FieldType::Bytes => 23,
        FieldType::BinaryVector => 100,
        FieldType::FloatVector => 101,
    }
}

/// One typed column of a collection: its name, kind, key flags, and — for
/// vector kinds only — the declared dimension.
#[derive(Debug, Clone, PartialEq, Eq)]
pub struct FieldSchema {
    pub name: String,
    pub field_type: FieldType,
    pub is_primary_key: bool,
    pub is_auto_id: bool,
    pub dimension: Option<u64>,
}

/// A collection: a name, a free-form description, and an ordered field
/// list. Field order is significant: it fixes wire column order on both
/// the encode and the decode path.
#[derive(Debug, Clone, PartialEq, Eq)]
pub struct CollectionSchema {
    pub name: String,
    pub description: String,
    pub fields: Vec<FieldSchema>,
}

/// Structural violations a schema can carry, in the order validation
/// checks for them.
#[derive(Debug, Clone, PartialEq, Eq)]
pub enum SchemaError {
    Empty,
    DuplicateField(String),
    MultiplePrimaryKeys,
    AutoIdNotPrimaryKey,
    DimensionMismatch(String),
}

/// No two distinct fields share a name.
pub open spec fn names_unique(fields: Seq<FieldSchema>) -> bool {
    forall|i: int, j: int|
        0 <= i < j < fields.len() ==> fields[i].name@ != fields[j].name@
}

/// `n` is a name carried by at least two distinct fields.
pub open spec fn duplicated_name(fields: Seq<FieldSchema>, n: Seq<char>) -> bool {
    exists|i: int, j: int|
        0 <= i < j < fields.len() && fields[i].name@ == fields[j].name@ && fields[i].name@ == n
}

/// At most one field is marked primary key.
pub open spec fn at_most_one_primary_key(fields: Seq<FieldSchema>) -> bool {
    forall|i: int, j: int|
        0 <= i < j < fields.len() ==> !(fields[i].is_primary_key && fields[j].is_primary_key)
}

/// Every auto-id field is the primary key.
pub open spec fn auto_id_on_primary_key(fields: Seq<FieldSchema>) -> bool {
    forall|i: int|
        0 <= i < fields.len() ==> (fields[i].is_auto_id ==> fields[i].is_primary_key)
}

/// A vector field carries a positive dimension; a scalar field carries
/// none.
pub open spec fn dimension_ok(f: FieldSchema) -> bool {
    if is_vector_type(f.field_type) {
        f.dimension matches Some(d) && d > 0
    } else {
        f.dimension is None
    }
}

/// Every field's dimension declaration is consistent with its kind.
pub open spec fn dimensions_ok(fields: Seq<FieldSchema>) -> bool {
    forall|i: int| 0 <= i < fields.len() ==> dimension_ok(#[trigger] fields[i])
}

/// The schema invariant: non-empty, unique names, at most one primary key,
/// auto-id only on the primary key, dimensions consistent with kinds.
pub open spec fn schema_valid(fields: Seq<FieldSchema>) -> bool {
    &&& fields.len() > 0
    &&& names_unique(fields)
    &&& at_most_one_primary_key(fields)
    &&& auto_id_on_primary_key(fields)
    &&& dimensions_ok(fields)
}

/// How a validation outcome relates to the field list it judged: success
/// exactly on valid schemas, and each error variant exactly on the first
/// check (in declaration order: emptiness, name uniqueness, primary-key
/// count, auto-id placement, dimensions) that the schema fails.
pub open spec fn validate_outcome(fields: Seq<FieldSchema>, r: Result<(), SchemaError>) -> bool {
    &&& (r is Ok <==> schema_valid(fields))
    &&& ((r matches Err(SchemaError::Empty)) <==> fields.len() == 0)
    &&& ((r matches Err(SchemaError::DuplicateField(_))) <==> (fields.len() > 0 && !names_unique(
        fields,
    )))
    &&& (r matches Err(SchemaError::DuplicateField(n)) ==> duplicated_name(fields, n@))
    &&& ((r matches Err(SchemaError::MultiplePrimaryKeys)) <==> (fields.len() > 0 && names_unique(
        fields,
    ) && !at_most_one_primary_key(fields)))
    &&& ((r matches Err(SchemaError::AutoIdNotPrimaryKey)) <==> (fields.len() > 0 && names_unique(
        fields,
    ) && at_most_one_primary_key(fields) && !auto_id_on_primary_key(fields)))
    &&& ((r matches Err(SchemaError::DimensionMismatch(_))) <==> (fields.len() > 0 && names_unique(
        fields,
    ) && at_most_one_primary_key(fields) && auto_id_on_primary_key(fields) && !dimensions_ok(
        fields,
    )))
    &&& (r matches Err(SchemaError::DimensionMismatch(n)) ==> exists|i: int|
        0 <= i < fields.len() && !dimension_ok(#[trigger] fields[i]) && fields[i].name@ == n@)
}

impl CollectionSchema {
    /// Check the schema invariant, short-circuiting on the first failed
    /// rule; pure, no side effects. The outcome is characterized, rule by
    /// rule, by `validate_outcome`.
    pub fn validate(&self) -> (r: Result<(), SchemaError>)
        ensures
            validate_outcome(self.fields@, r),
    {
        let n = self.fields.len();
        if n == 0 {
            return Err(SchemaError::Empty);
        }
        let mut j: usize = 1;
        while j < n
            invariant
                1 <= j <= n,
                n == self.fields.len(),
                forall|a: int, b: int|
                    0 <= a < b < j ==> self.fields@[a].name@ != self.fields@[b].name@,
            decreases n - j,
        {
            let mut i: usize = 0;
            while i < j
                invariant
                    0 <= i <= j < n,
                    n == self.fields.len(),
                    forall|a: int, b: int|
                        0 <= a < b < j ==> self.fields@[a].name@ != self.fields@[b].name@,
                    forall|a: int|
                        0 <= a < i ==> self.fields@[a].name@ != self.fields@[j as int].name@,
                decreases j - i,
            {
                if self.fields[i].name == self.fields[j].name {
                    return Err(SchemaError::DuplicateField(self.fields[j].name.clone()));
                }
                i += 1;
            }
            j += 1;
        }
        let mut first_pk: Option<usize> = None;
        let mut k: usize = 0;
        while k < n
            invariant
                0 <= k <= n,
                n == self.fields.len(),
                names_unique(self.fields@),
                first_pk is None ==> forall|a: int|
                    0 <= a < k ==> !self.fields@[a].is_primary_key,
                first_pk matches Some(s) ==> 0 <= s < k && self.fields@[s as int].is_primary_key
                    && forall|a: int|
                    0 <= a < k && a != s as int ==> !self.fields@[a].is_primary_key,
            decreases n - k,
        {
            if self.fields[k].is_primary_key {
                match first_pk {
                    Some(_) => {
                        return Err(SchemaError::MultiplePrimaryKeys);
                    },
                    None => {
                        first_pk = Some(k);
                    },
                }
            }
            k += 1;
        }
        let mut k: usize = 0;
        while k < n
            invariant
                0 <= k <= n,
                n == self.fields.len(),
                names_unique(self.fields@),
                at_most_one_primary_key(self.fields@),
                forall|a: int|
                    0 <= a < k ==> (self.fields@[a].is_auto_id ==> self.fields@[a].is_primary_key),
            decreases n - k,
        {
            if self.fields[k].is_auto_id && !self.fields[k].is_primary_key {
                return Err(SchemaError::AutoIdNotPrimaryKey);
            }
            k += 1;
        }
        let mut k: usize = 0;
        while k < n
            invariant
                0 <= k <= n,
                n == self.fields.len(),
                names_unique(self.fields@),
                at_most_one_primary_key(self.fields@),
                auto_id_on_primary_key(self.fields@),
                forall|a: int| 0 <= a < k ==> dimension_ok(#[trigger] self.fields@[a]),
            decreases n - k,
        {
            if field_type_is_vector(self.fields[k].field_type) {
                match self.fields[k].dimension {
                    Some(d) => {
                        if d == 0 {
                            return Err(SchemaError::DimensionMismatch(self.fields[k].name.clone()));
                        }
                    },
                    None => {
                        return Err(SchemaError::DimensionMismatch(self.fields[k].name.clone()));
                    },
                }
            } else {
                if self.fields[k].dimension.is_some() {
                    return Err(SchemaError::DimensionMismatch(self.fields[k].name.clone()));
                }
            }
            k += 1;
        }
        Ok(())
    }
}

/// A collection schema that has passed validation. Holding one is the
/// proof that the schema invariant holds, so the codec and the request
/// builders never re-validate.
#[derive(Debug, Clone, PartialEq, Eq)]
pub struct ValidatedSchema {
    schema: CollectionSchema,
}

impl ValidatedSchema {
    /// The schema this handle was bound to.
    pub closed spec fn spec_schema(&self) -> CollectionSchema {
        self.schema
    }

    /// The handle's guarantee: the wrapped schema satisfies the schema
    /// invariant.
    pub open spec fn wf(&self) -> bool {
        schema_valid(self.spec_schema().fields@)
    }

    /// Validate once and wrap; the two-phase entry point of the library.
    /// Fails with exactly the error `validate` reports.
    pub fn bind(schema: CollectionSchema) -> (r: Result<ValidatedSchema, SchemaError>)
        ensures
            r matches Ok(v) ==> v.spec_schema() == schema && v.wf(),
            validate_outcome(
                schema.fields@,
                match r {
                    Ok(_) => Ok(()),
                    Err(e) => Err(e),
                },
            ),
    {
        match schema.validate() {
            Ok(()) => Ok(ValidatedSchema { schema }),
            Err(e) => Err(e),
        }
    }

    /// Read access to the wrapped schema.
    pub fn schema(&self) -> (r: &CollectionSchema)
        ensures
            *r == self.spec_schema(),
    {
        &self.schema
    }
}

/// Law: a schema in which two distinct fields share a name is never valid,
/// so (by `validate_outcome`) validation of it never succeeds.
pub proof fn lemma_duplicate_field_never_valid(fields: Seq<FieldSchema>, i: int, j: int)
    requires
        0 <= i < j < fields.len(),
        fields[i].name@ == fields[j].name@,
    ensures
        !schema_valid(fields),
{
    assert(!names_unique(fields));
}

/// Law: a schema with two fields both marked primary key is never valid.
pub proof fn lemma_two_primary_keys_never_valid(fields: Seq<FieldSchema>, i: int, j: int)
    requires
        0 <= i < j < fields.len(),
        fields[i].is_primary_key,
        fields[j].is_primary_key,
    ensures
        !schema_valid(fields),
{
    assert(!at_most_one_primary_key(fields));
}

/// Law: with exactly one field marked primary key, the primary-key rule
/// holds.
pub proof fn lemma_single_primary_key_rule_holds(fields: Seq<FieldSchema>, p: int)
    requires
        0 <= p < fields.len(),
        fields[p].is_primary_key,
        forall|i: int| 0 <= i < fields.len() && i != p ==> !(#[trigger] fields[i]).is_primary_key,
    ensures
        at_most_one_primary_key(fields),
{
}

/// Law: a schema with an auto-id flag on a field that is not the primary
/// key is never valid.
pub proof fn lemma_auto_id_on_non_primary_never_valid(fields: Seq<FieldSchema>, i: int)
    requires
        0 <= i < fields.len(),
        fields[i].is_auto_id,
        !fields[i].is_primary_key,
    ensures
        !schema_valid(fields),
{
    assert(!auto_id_on_primary_key(fields));
}

} // verus!
