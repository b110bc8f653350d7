//! The column codec: between an application's typed record batches and the
//! store's column-major wire field data.
//!
//! The encode path turns a batch of typed columns into wire columns,
//! flattening per-record vectors and enforcing the row-alignment invariant:
//! every column with a determinable length must report the same record
//! count, because the wire stores rows only implicitly through column
//! length. The decode path turns wire columns from a query response back
//! into row-major records, tolerating absent fields (partial projections)
//! and surfacing unknown ones as extra columns.
//!
//! Floating-point columns are carried as raw IEEE bit patterns (`u32` for
//! 32-bit, `u64` for 64-bit values); the codec never computes on them.

use vstd::arithmetic::div_mod::lemma_fundamental_div_mod;
use vstd::arithmetic::mul::lemma_mul_inequality;
use vstd::prelude::*;

use crate::schema::{
    dimension_ok, field_type_to_i32, field_type_wire_value, FieldSchema, FieldType,
    ValidatedSchema,
};

verus! {

/// Local encode/decode violations. Raised before any request is sent on
/// the encode path, and while a response is interpreted on the decode
/// path; each carries the name of the offending field where one exists.
#[derive(Debug, Clone, PartialEq, Eq)]
pub enum CodecError {
    KindMismatch(String),
    DimensionMismatch(String),
    RowCountMisaligned,
}

/// One application-side column of an insert batch: per-record values,
/// still row-structured for the vector kinds (one inner vector per
/// record).
#[derive(Debug, Clone, PartialEq, Eq)]
pub enum ColumnValues {
    Bool(Vec<bool>),
    Int8(Vec<i8>),
    Int16(Vec<i16>),
    Int32(Vec<i32>),
    Int64(Vec<i64>),
    Float(Vec<u32>),
    Double(Vec<u64>),
    VarChar(Vec<String>),
    Bytes(Vec<Vec<u8>>),
    FloatVector(Vec<Vec<u32>>),
    BinaryVector(Vec<Vec<u8>>),
}

/// A named application-side column.
#[derive(Debug, Clone, PartialEq, Eq)]
pub struct InsertColumn {
    pub field_name: String,
    pub values: ColumnValues,
}

/// A batch of records in column-major form, as the caller hands it to the
/// encoder. A schema field with no matching column here is simply absent
/// (legal, e.g. for an auto-id primary key).
#[derive(Debug, Clone, PartialEq, Eq)]
pub struct RecordBatch {
    pub columns: Vec<InsertColumn>,
}

/// One wire-format column: scalar kinds hold one value per record, vector
/// kinds hold the declared dimension and one flattened buffer whose length
/// is `dimension * row_count`.
#[derive(Debug, Clone, PartialEq, Eq)]
pub enum ColumnData {
    Bool(Vec<bool>),
    Int8(Vec<i8>),
    Int16(Vec<i16>),
    Int32(Vec<i32>),
    Int64(Vec<i64>),
    Float(Vec<u32>),
    Double(Vec<u64>),
    VarChar(Vec<String>),
    Bytes(Vec<Vec<u8>>),
    FloatVector { dim: u64, data: Vec<u32> },
    BinaryVector { dim: u64, data: Vec<u8> },
}

/// A named wire-format column, one per schema field in an insert request
/// or a query response.
#[derive(Debug, Clone, PartialEq, Eq)]
pub struct FieldData {
    pub field_name: String,
    pub column: ColumnData,
}

/// The field type an application-side column claims to hold.
pub open spec fn values_kind(v: ColumnValues) -> FieldType {
    match v {
        ColumnValues::Bool(_) => FieldType::Bool,
        ColumnValues::Int8(_) => FieldType::Int8,
        ColumnValues::Int16(_) => FieldType::Int16,
        ColumnValues::Int32(_) => FieldType::Int32,
        ColumnValues::Int64(_) => FieldType::Int64,
        ColumnValues::Float(_) => FieldType::Float,
        ColumnValues::Double(_) => FieldType::Double,
        ColumnValues::VarChar(_) => FieldType::VarChar,
        ColumnValues::Bytes(_) => FieldType::Bytes,
        ColumnValues::FloatVector(_) => FieldType::FloatVector,
        ColumnValues::BinaryVector(_) => FieldType::BinaryVector,
    }
}

/// How many records an application-side column holds.
pub open spec fn values_rows(v: ColumnValues) -> nat {
    match v {
        ColumnValues::Bool(x) => x@.len(),
        ColumnValues::Int8(x) => x@.len(),
        ColumnValues::Int16(x) => x@.len(),
        ColumnValues::Int32(x) => x@.len(),
        ColumnValues::Int64(x) => x@.len(),
        ColumnValues::Float(x) => x@.len(),
        ColumnValues::Double(x) => x@.len(),
        ColumnValues::VarChar(x) => x@.len(),
        ColumnValues::Bytes(x) => x@.len(),
        ColumnValues::FloatVector(x) => x@.len(),
        ColumnValues::BinaryVector(x) => x@.len(),
    }
}

/// A vector field's declared dimension, zero where none is declared.
pub open spec fn field_dim(f: FieldSchema) -> nat {
    match f.dimension {
        Some(d) => d as nat,
        None => 0,
    }
}

/// Record-order concatenation of per-record sequences into one flat
/// buffer.
pub open spec fn flat<T>(rows: Seq<Seq<T>>) -> Seq<T>
    decreases rows.len(),
{
    if rows.len() == 0 {
        Seq::empty()
    } else {
        flat(rows.drop_last()) + rows.last()
    }
}

/// Law: flattening R records of uniform width D yields a buffer of length
/// `R * D`.
pub proof fn lemma_flat_len<T>(rows: Seq<Seq<T>>, d: nat)
    requires
        forall|i: int| 0 <= i < rows.len() ==> (#[trigger] rows[i]).len() == d,
    ensures
        flat(rows).len() == rows.len() * d,
    decreases rows.len(),
{
    if rows.len() == 0 {
    } else {
        lemma_flat_len(rows.drop_last(), d);
        assert(flat(rows).len() == (rows.len() - 1) * d + d);
        assert((rows.len() - 1) * d + d == rows.len() * d) by (nonlinear_arith);
    }
}

/// Law: the round trip through the flat buffer is exact. Record `i` of a
/// uniform-width flattening is recovered, element for element, as the
/// slice `[i*d, (i+1)*d)`.
pub proof fn lemma_flat_roundtrip<T>(rows: Seq<Seq<T>>, d: nat, i: int)
    requires
        forall|k: int| 0 <= k < rows.len() ==> (#[trigger] rows[k]).len() == d,
        0 <= i < rows.len(),
    ensures
        flat(rows).subrange(i * d, (i + 1) * d) == rows[i],
    decreases rows.len(),
{
    lemma_flat_len(rows, d);
    assert((i + 1) * d == i * d + d) by (nonlinear_arith);
    lemma_mul_inequality(i + 1, rows.len() as int, d as int);
    if i == rows.len() - 1 {
        lemma_flat_len(rows.drop_last(), d);
        assert(i * d == (rows.len() - 1) * d);
        assert(flat(rows).subrange(i * d, (i + 1) * d) =~= rows[i]);
    } else {
        lemma_flat_roundtrip(rows.drop_last(), d, i);
        lemma_flat_len(rows.drop_last(), d);
        lemma_mul_inequality(i + 1, rows.len() as int - 1, d as int);
        assert(flat(rows).subrange(i * d, (i + 1) * d) =~= flat(rows.drop_last()).subrange(
            i * d,
            (i + 1) * d,
        ));
    }
}

/// Law: the vector round trip is exact end to end. A wire column holding
/// the flattening of `R` records of uniform width `dim` carries `R * dim`
/// values, reports `R` rows, and its row `i` reads back as exactly the
/// `i`-th original vector — so decoding what encode produced recovers
/// every record unchanged.
pub proof fn lemma_vector_column_roundtrip(c: ColumnData, rows: Seq<Seq<u32>>, i: int)
    requires
        c matches ColumnData::FloatVector { dim, data } && dim > 0 && data@ == flat(rows) && (
        forall|k: int| 0 <= k < rows.len() ==> (#[trigger] rows[k]).len() == dim as nat),
        0 <= i < rows.len(),
    ensures
        column_rows(c) == rows.len(),
        c matches ColumnData::FloatVector { dim, data } ==> data@.len() == rows.len() * dim as nat,
        forall|v: Value|
            #[trigger] is_value_at(c, i, v) <==> (v matches Value::FloatVector(w) && w@ == rows[i]),
{
    match c {
        ColumnData::FloatVector { dim, data } => {
            lemma_flat_len(rows, dim as nat);
            assert((rows.len() * dim as nat) / dim as nat == rows.len()) by (nonlinear_arith)
                requires
                    dim as nat > 0,
            ;
            lemma_flat_roundtrip(rows, dim as nat, i);
            assert(forall|v: Value|
                #[trigger] is_value_at(c, i, v) <==> (v matches Value::FloatVector(w) && w@
                    == rows[i])) by {
                assert(data@.subrange(i * dim as int, (i + 1) * dim as int) == rows[i]);
            }
        },
        _ => {
            assert(false);
        },
    }
}

/// For the vector kinds, every per-record vector matches the field's
/// declared dimension; trivially true for scalar kinds.
pub open spec fn vector_dims_ok(f: FieldSchema, v: ColumnValues) -> bool {
    match v {
        ColumnValues::FloatVector(rows) => forall|i: int|
            0 <= i < rows@.len() ==> (#[trigger] rows@[i])@.len() == field_dim(f),
        ColumnValues::BinaryVector(rows) => forall|i: int|
            0 <= i < rows@.len() ==> (#[trigger] rows@[i])@.len() == field_dim(f),
        _ => true,
    }
}

/// The first column of the batch carrying the given field name, if any.
pub open spec fn spec_find_column(cols: Seq<InsertColumn>, name: Seq<char>) -> Option<ColumnValues>
    decreases cols.len(),
{
    if cols.len() == 0 {
        None
    } else if cols[0].field_name@ == name {
        Some(cols[0].values)
    } else {
        spec_find_column(cols.drop_first(), name)
    }
}

/// A schema field either has no column in the batch, or its column's kind
/// and per-record vector widths agree with the field.
pub open spec fn field_input_ok(f: FieldSchema, cols: Seq<InsertColumn>) -> bool {
    match spec_find_column(cols, f.name@) {
        None => true,
        Some(v) => values_kind(v) == f.field_type && vector_dims_ok(f, v),
    }
}

/// Every schema field's batch column (where one exists) is well-formed.
pub open spec fn batch_wf(fields: Seq<FieldSchema>, cols: Seq<InsertColumn>) -> bool {
    forall|i: int| 0 <= i < fields.len() ==> field_input_ok(#[trigger] fields[i], cols)
}

/// The batch column for a field supplies this many records (zero where
/// the field has no column).
pub open spec fn field_rows(f: FieldSchema, cols: Seq<InsertColumn>) -> nat {
    match spec_find_column(cols, f.name@) {
        Some(v) => values_rows(v),
        None => 0,
    }
}

/// The row-alignment invariant over a batch: any two schema fields whose
/// columns both have a determinable (non-zero) length agree on the record
/// count. Absent and empty columns are skipped.
pub open spec fn rows_aligned(fields: Seq<FieldSchema>, cols: Seq<InsertColumn>) -> bool {
    forall|i: int, j: int|
        0 <= i < fields.len() && 0 <= j < fields.len() && field_rows(#[trigger] fields[i], cols)
            > 0 && field_rows(#[trigger] fields[j], cols) > 0 ==> field_rows(fields[i], cols)
            == field_rows(fields[j], cols)
}

/// The record count a batch resolves to: the common non-zero row count of
/// the supplied columns, or zero when every supplied column is absent or
/// empty.
pub open spec fn batch_row_count(fields: Seq<FieldSchema>, cols: Seq<InsertColumn>) -> nat {
    if exists|j: int| 0 <= j < fields.len() && field_rows(#[trigger] fields[j], cols) > 0 {
        field_rows(
            fields[choose|j: int|
                0 <= j < fields.len() && field_rows(#[trigger] fields[j], cols) > 0],
            cols,
        )
    } else {
        0
    }
}

/// Whether wire column `c` is the encoding of application column `v` for
/// field `f`: scalar payloads carried over unchanged, vector payloads
/// flattened in record order under the field's declared dimension.
pub open spec fn column_encodes(f: FieldSchema, v: ColumnValues, c: ColumnData) -> bool {
    match v {
        ColumnValues::Bool(x) => c matches ColumnData::Bool(y) && y@ == x@,
        ColumnValues::Int8(x) => c matches ColumnData::Int8(y) && y@ == x@,
        ColumnValues::Int16(x) => c matches ColumnData::Int16(y) && y@ == x@,
        ColumnValues::Int32(x) => c matches ColumnData::Int32(y) && y@ == x@,
        ColumnValues::Int64(x) => c matches ColumnData::Int64(y) && y@ == x@,
        ColumnValues::Float(x) => c matches ColumnData::Float(y) && y@ == x@,
        ColumnValues::Double(x) => c matches ColumnData::Double(y) && y@ == x@,
        ColumnValues::VarChar(x) => c matches ColumnData::VarChar(y) && y.deep_view()
            == x.deep_view(),
        ColumnValues::Bytes(x) => c matches ColumnData::Bytes(y) && y.deep_view() == x.deep_view(),
        ColumnValues::FloatVector(rows) => c matches ColumnData::FloatVector { dim, data } && dim
            as nat == field_dim(f) && data@ == flat(rows_views(rows@)),
        ColumnValues::BinaryVector(rows) => c matches ColumnData::BinaryVector { dim, data } && dim
            as nat == field_dim(f) && data@ == flat(rows_views(rows@)),
    }
}

/// Whether a schema field is supplied by the batch at all.
pub open spec fn field_present(f: FieldSchema, cols: Seq<InsertColumn>) -> bool {
    spec_find_column(cols, f.name@) is Some
}

/// Whether `out` is exactly the encoding of the batch against the schema:
/// one wire column per supplied schema field, in schema field order,
/// absent fields skipped.
pub open spec fn encode_output_ok(
    fields: Seq<FieldSchema>,
    cols: Seq<InsertColumn>,
    out: Seq<FieldData>,
) -> bool {
    let supplied = supplied_fields(fields, cols);
    &&& out.len() == supplied.len()
    &&& forall|k: int|
        0 <= k < out.len() ==> (#[trigger] out[k]).field_name@ == supplied[k].name@
            && column_encodes(
            supplied[k],
            spec_find_column(cols, supplied[k].name@).unwrap(),
            out[k].column,
        )
}

/// The views of a sequence of per-record vectors.
pub open spec fn rows_views<T>(rows: Seq<Vec<T>>) -> Seq<Seq<T>> {
    rows.map_values(|rv: Vec<T>| rv@)
}

/// The supplied fields of a schema against a batch: the schema fields, in
/// order, that have a column in the batch.
pub open spec fn supplied_fields(
    fields: Seq<FieldSchema>,
    cols: Seq<InsertColumn>,
) -> Seq<FieldSchema> {
    fields.filter(|f: FieldSchema| field_present(f, cols))
}

/// Field index `k` is the first whose batch column is malformed.
pub open spec fn first_bad_field(
    fields: Seq<FieldSchema>,
    cols: Seq<InsertColumn>,
    k: int,
) -> bool {
    &&& 0 <= k < fields.len()
    &&& !field_input_ok(fields[k], cols)
    &&& forall|i: int| 0 <= i < k ==> field_input_ok(#[trigger] fields[i], cols)
}

/// Extending the supplied prefix by one field extends the supplied-field
/// list exactly when the new field has a batch column.
proof fn lemma_supplied_fields_extend(fields: Seq<FieldSchema>, cols: Seq<InsertColumn>, fi: int)
    requires
        0 <= fi < fields.len(),
    ensures
        supplied_fields(fields.subrange(0, fi + 1), cols) == if field_present(fields[fi], cols) {
            supplied_fields(fields.subrange(0, fi), cols).push(fields[fi])
        } else {
            supplied_fields(fields.subrange(0, fi), cols)
        },
{
    reveal(Seq::filter);
    let s = fields.subrange(0, fi + 1);
    assert(s.drop_last() =~= fields.subrange(0, fi));
    assert(s.last() == fields[fi]);
}

/// An empty schema prefix supplies no fields.
proof fn lemma_supplied_fields_empty(fields: Seq<FieldSchema>, cols: Seq<InsertColumn>)
    requires
        fields.len() == 0,
    ensures
        supplied_fields(fields, cols) == Seq::<FieldSchema>::empty(),
{
    reveal(Seq::filter);
    assert(supplied_fields(fields, cols) =~= Seq::<FieldSchema>::empty());
}

/// Wire values are distinct across field types, so they decide equality.
proof fn lemma_field_type_value_injective(a: FieldType, b: FieldType)
    requires
        field_type_wire_value(a) == field_type_wire_value(b),
    ensures
        a == b,
{
}

/// Equality of field types, decided through their wire values.
pub fn field_type_eq(a: FieldType, b: FieldType) -> (r: bool)
    ensures
        r == (a == b),
{
    let x = field_type_to_i32(a);
    let y = field_type_to_i32(b);
    proof {
        if x == y {
            lemma_field_type_value_injective(a, b);
        }
    }
    x == y
}

/// The field type an application-side column claims to hold.
pub fn values_field_type(v: &ColumnValues) -> (r: FieldType)
    ensures
        r == values_kind(*v),
{
    match v {
        ColumnValues::Bool(_) => FieldType::Bool,
        ColumnValues::Int8(_) => FieldType::Int8,
        ColumnValues::Int16(_) => FieldType::Int16,
        ColumnValues::Int32(_) => FieldType::Int32,
        ColumnValues::Int64(_) => FieldType::Int64,
        ColumnValues::Float(_) => FieldType::Float,
        ColumnValues::Double(_) => FieldType::Double,
        ColumnValues::VarChar(_) => FieldType::VarChar,
        ColumnValues::Bytes(_) => FieldType::Bytes,
        ColumnValues::FloatVector(_) => FieldType::FloatVector,
        ColumnValues::BinaryVector(_) => FieldType::BinaryVector,
    }
}

/// How many records an application-side column holds.
pub fn values_rows_count(v: &ColumnValues) -> (r: usize)
    ensures
        r as nat == values_rows(*v),
{
    match v {
        ColumnValues::Bool(x) => x.len(),
        ColumnValues::Int8(x) => x.len(),
        ColumnValues::Int16(x) => x.len(),
        ColumnValues::Int32(x) => x.len(),
        ColumnValues::Int64(x) => x.len(),
        ColumnValues::Float(x) => x.len(),
        ColumnValues::Double(x) => x.len(),
        ColumnValues::VarChar(x) => x.len(),
        ColumnValues::Bytes(x) => x.len(),
        ColumnValues::FloatVector(x) => x.len(),
        ColumnValues::BinaryVector(x) => x.len(),
    }
}

/// An owned copy of a column of plain values.
fn copy_plain<T: Copy>(x: &Vec<T>) -> (r: Vec<T>)
    ensures
        r@ == x@,
{
    vstd::slice::slice_to_vec(x.as_slice())
}

/// An owned copy of a string column, character-for-character equal.
fn copy_strings(x: &Vec<String>) -> (r: Vec<String>)
    ensures
        r.deep_view() == x.deep_view(),
        r@.len() == x@.len(),
{
    let mut r: Vec<String> = Vec::new();
    let mut i: usize = 0;
    while i < x.len()
        invariant
            i <= x@.len(),
            r@.len() == i,
            forall|k: int| 0 <= k < i ==> r@[k] == x@[k],
        decreases x@.len() - i,
    {
        r.push(x[i].clone());
        i += 1;
    }
    proof {
        assert(r@ =~= x@);
        assert(r.deep_view() =~= x.deep_view());
    }
    r
}

/// An owned copy of a byte-rows column, byte-for-byte equal.
fn copy_byte_rows(x: &Vec<Vec<u8>>) -> (r: Vec<Vec<u8>>)
    ensures
        r.deep_view() == x.deep_view(),
        r@.len() == x@.len(),
{
    let mut r: Vec<Vec<u8>> = Vec::new();
    let mut i: usize = 0;
    while i < x.len()
        invariant
            i <= x@.len(),
            r@.len() == i,
            forall|k: int| 0 <= k < i ==> (#[trigger] r@[k])@ == x@[k]@,
        decreases x@.len() - i,
    {
        r.push(copy_plain(&x[i]));
        i += 1;
    }
    proof {
        assert(r.deep_view() =~= x.deep_view());
    }
    r
}

/// Flatten per-record vectors into one buffer in record order, verifying
/// each record against the declared dimension.
fn flatten_rows<T: Copy>(name: &String, dim: u64, rows: &Vec<Vec<T>>) -> (r: Result<
    Vec<T>,
    CodecError,
>)
    ensures
        r is Ok <==> (forall|i: int|
            0 <= i < rows@.len() ==> (#[trigger] rows@[i])@.len() == dim as nat),
        r matches Ok(data) ==> data@ == flat(rows_views(rows@)),
        r matches Err(e) ==> e matches CodecError::DimensionMismatch(n) && n@ == name@,
{
    let ghost rv = rows_views(rows@);
    let mut data: Vec<T> = Vec::new();
    let mut k: usize = 0;
    while k < rows.len()
        invariant
            k <= rows@.len(),
            rv == rows_views(rows@),
            forall|i: int| 0 <= i < k ==> (#[trigger] rows@[i])@.len() == dim as nat,
            data@ == flat(rv.subrange(0, k as int)),
        decreases rows@.len() - k,
    {
        let row = &rows[k];
        if row.len() as u64 != dim {
            proof {
                assert(rows@[k as int]@.len() != dim as nat);
            }
            return Err(CodecError::DimensionMismatch(name.clone()));
        }
        let mut t: usize = 0;
        while t < row.len()
            invariant
                t <= row@.len(),
                k < rows@.len(),
                rv == rows_views(rows@),
                row@ == rows@[k as int]@,
                data@ == flat(rv.subrange(0, k as int)) + row@.subrange(0, t as int),
            decreases row@.len() - t,
        {
            data.push(row[t]);
            proof {
                assert(row@.subrange(0, t + 1) =~= row@.subrange(0, t as int).push(row@[t as int]));
                assert(flat(rv.subrange(0, k as int)) + row@.subrange(0, t + 1) =~= (flat(
                    rv.subrange(0, k as int),
                ) + row@.subrange(0, t as int)).push(row@[t as int]));
            }
            t += 1;
        }
        proof {
            let s = rv.subrange(0, k + 1);
            assert(s.drop_last() =~= rv.subrange(0, k as int));
            assert(s.last() == rows@[k as int]@);
            assert(row@.subrange(0, row@.len() as int) =~= row@);
            assert(data@ == flat(rv.subrange(0, k + 1)));
        }
        k += 1;
    }
    proof {
        assert(rv.subrange(0, rows@.len() as int) =~= rv);
    }
    Ok(data)
}

/// Build one wire column from one supplied application column whose kind
/// already matches the field. Fails exactly when a per-record vector does
/// not match the field's declared dimension.
fn encode_column(f: &FieldSchema, v: &ColumnValues) -> (r: Result<ColumnData, CodecError>)
    requires
        values_kind(*v) == f.field_type,
        dimension_ok(*f),
    ensures
        r is Ok <==> vector_dims_ok(*f, *v),
        r matches Ok(c) ==> column_encodes(*f, *v, c),
        r matches Err(e) ==> e matches CodecError::DimensionMismatch(n) && n@ == f.name@,
{
    match v {
        ColumnValues::Bool(x) => Ok(ColumnData::Bool(copy_plain(x))),
        ColumnValues::Int8(x) => Ok(ColumnData::Int8(copy_plain(x))),
        ColumnValues::Int16(x) => Ok(ColumnData::Int16(copy_plain(x))),
        ColumnValues::Int32(x) => Ok(ColumnData::Int32(copy_plain(x))),
        ColumnValues::Int64(x) => Ok(ColumnData::Int64(copy_plain(x))),
        ColumnValues::Float(x) => Ok(ColumnData::Float(copy_plain(x))),
        ColumnValues::Double(x) => Ok(ColumnData::Double(copy_plain(x))),
        ColumnValues::VarChar(x) => Ok(ColumnData::VarChar(copy_strings(x))),
        ColumnValues::Bytes(x) => Ok(ColumnData::Bytes(copy_byte_rows(x))),
        ColumnValues::FloatVector(rows) => {
            let dim = f.dimension.unwrap();
            match flatten_rows(&f.name, dim, rows) {
                Ok(data) => Ok(ColumnData::FloatVector { dim, data }),
                Err(e) => Err(e),
            }
        },
        ColumnValues::BinaryVector(rows) => {
            let dim = f.dimension.unwrap();
            match flatten_rows(&f.name, dim, rows) {
                Ok(data) => Ok(ColumnData::BinaryVector { dim, data }),
                Err(e) => Err(e),
            }
        },
    }
}

/// The first batch column carrying the given field name, if any.
fn find_column<'a>(cols: &'a Vec<InsertColumn>, name: &String) -> (r: Option<&'a ColumnValues>)
    ensures
        r matches Some(v) ==> spec_find_column(cols@, name@) == Some(*v),
        r is None ==> spec_find_column(cols@, name@) is None,
{
    let n = cols.len();
    proof {
        assert(cols@.subrange(0, n as int) =~= cols@);
    }
    let mut k: usize = 0;
    while k < n
        invariant
            k <= n,
            n == cols@.len(),
            spec_find_column(cols@, name@) == spec_find_column(
                cols@.subrange(k as int, n as int),
                name@,
            ),
        decreases n - k,
    {
        let c = &cols[k];
        proof {
            let s = cols@.subrange(k as int, n as int);
            assert(s[0] == cols@[k as int]);
            assert(s.drop_first() =~= cols@.subrange(k as int + 1, n as int));
        }
        if c.field_name == *name {
            return Some(&c.values);
        }
        k += 1;
    }
    None
}

/// The record count a batch resolves to under the row-alignment
/// invariant: the common non-zero row count of the supplied columns
/// (zero when all are absent or empty), or the misalignment error.
pub fn resolved_row_count(schema: &ValidatedSchema, batch: &RecordBatch) -> (r: Result<
    usize,
    CodecError,
>)
    requires
        schema.wf(),
    ensures
        ({
            let fields = schema.spec_schema().fields@;
            let cols = batch.columns@;
            &&& (r is Ok <==> rows_aligned(fields, cols))
            &&& (r matches Ok(n) ==> n as nat == batch_row_count(fields, cols))
            &&& (r matches Err(e) ==> e == CodecError::RowCountMisaligned)
        }),
{
    let fields = &schema.schema().fields;
    let flen = fields.len();
    let mut expected: Option<usize> = None;
    let mut fi: usize = 0;
    while fi < flen
        invariant
            fi <= flen,
            flen == fields@.len(),
            fields@ == schema.spec_schema().fields@,
            expected is None ==> forall|i: int|
                0 <= i < fi ==> field_rows(#[trigger] fields@[i], batch.columns@) == 0,
            expected matches Some(e) ==> e > 0 && (exists|w: int|
                0 <= w < fi && field_rows(#[trigger] fields@[w], batch.columns@) == e as nat) && (
            forall|i: int|
                0 <= i < fi && field_rows(#[trigger] fields@[i], batch.columns@) > 0 ==> field_rows(
                    fields@[i],
                    batch.columns@,
                ) == e as nat),
        decreases flen - fi,
    {
        let f = &fields[fi];
        match find_column(&batch.columns, &f.name) {
            None => {},
            Some(v) => {
                let rows = values_rows_count(v);
                if rows > 0 {
                    match expected {
                        None => {
                            expected = Some(rows);
                        },
                        Some(e) => {
                            if e != rows {
                                return Err(CodecError::RowCountMisaligned);
                            }
                        },
                    }
                }
            },
        }
        fi += 1;
    }
    match expected {
        Some(e) => Ok(e),
        None => Ok(0),
    }
}

/// Encode a batch of typed records into wire columns, in schema field
/// order: project each supplied field's column, carry scalars over,
/// flatten vectors under the declared dimension, and enforce the
/// row-alignment invariant across all supplied columns. Pure; fails
/// before anything is sent.
pub fn encode(schema: &ValidatedSchema, batch: &RecordBatch) -> (r: Result<
    Vec<FieldData>,
    CodecError,
>)
    requires
        schema.wf(),
    ensures
        ({
            let fields = schema.spec_schema().fields@;
            let cols = batch.columns@;
            &&& (r is Ok <==> batch_wf(fields, cols) && rows_aligned(fields, cols))
            &&& (r matches Ok(out) ==> encode_output_ok(fields, cols, out@))
            &&& ((r matches Err(CodecError::RowCountMisaligned)) <==> (batch_wf(fields, cols)
                && !rows_aligned(fields, cols)))
            &&& (r matches Err(CodecError::KindMismatch(n)) ==> exists|k: int|
                first_bad_field(fields, cols, k) && #[trigger] fields[k].name@ == n@
                    && (spec_find_column(cols, n@) matches Some(v) && values_kind(v)
                    != fields[k].field_type))
            &&& (r matches Err(CodecError::DimensionMismatch(n)) ==> exists|k: int|
                first_bad_field(fields, cols, k) && #[trigger] fields[k].name@ == n@
                    && (spec_find_column(cols, n@) matches Some(v) && values_kind(v)
                    == fields[k].field_type && !vector_dims_ok(fields[k], v)))
        }),
{
    let fields = &schema.schema().fields;
    let flen = fields.len();
    let mut out: Vec<FieldData> = Vec::new();
    proof {
        assert(fields@.subrange(0, 0) =~= Seq::<FieldSchema>::empty());
        lemma_supplied_fields_empty(fields@.subrange(0, 0), batch.columns@);
    }
    let mut fi: usize = 0;
    while fi < flen
        invariant
            fi <= flen,
            flen == fields@.len(),
            fields@ == schema.spec_schema().fields@,
            schema.wf(),
            forall|i: int| 0 <= i < fi ==> field_input_ok(#[trigger] fields@[i], batch.columns@),
            encode_output_ok(fields@.subrange(0, fi as int), batch.columns@, out@),
        decreases flen - fi,
    {
        let f = &fields[fi];
        match find_column(&batch.columns, &f.name) {
            None => {
                proof {
                    lemma_supplied_fields_extend(fields@, batch.columns@, fi as int);
                }
            },
            Some(v) => {
                if !field_type_eq(values_field_type(v), f.field_type) {
                    return Err(CodecError::KindMismatch(f.name.clone()));
                }
                match encode_column(f, v) {
                    Err(e) => {
                        return Err(e);
                    },
                    Ok(c) => {
                        out.push(FieldData { field_name: f.name.clone(), column: c });
                        proof {
                            lemma_supplied_fields_extend(fields@, batch.columns@, fi as int);
                        }
                    },
                }
            },
        }
        fi += 1;
    }
    proof {
        assert(fields@.subrange(0, flen as int) =~= fields@);
    }
    match resolved_row_count(schema, batch) {
        Err(e) => Err(e),
        Ok(_) => Ok(out),
    }
}

/// One decoded value of a single field in a single record.
#[derive(Debug, Clone, PartialEq, Eq)]
pub enum Value {
    Bool(bool),
    Int8(i8),
    Int16(i16),
    Int32(i32),
    Int64(i64),
    Float(u32),
    Double(u64),
    VarChar(String),
    Bytes(Vec<u8>),
    FloatVector(Vec<u32>),
    BinaryVector(Vec<u8>),
}

/// One decoded record: one optional value per schema field, in schema
/// field order; `None` marks a field the response did not supply.
#[derive(Debug, Clone, PartialEq, Eq)]
pub struct DecodedRecord {
    pub values: Vec<Option<Value>>,
}

/// A decoded query response: row-major records over the schema's fields,
/// plus any response columns whose names the schema does not know,
/// surfaced untouched rather than discarded.
#[derive(Debug, Clone, PartialEq, Eq)]
pub struct DecodedBatch {
    pub records: Vec<DecodedRecord>,
    pub extra_columns: Vec<FieldData>,
}

/// The field type a wire column claims to hold.
pub open spec fn column_kind(c: ColumnData) -> FieldType {
    match c {
        ColumnData::Bool(_) => FieldType::Bool,
        ColumnData::Int8(_) => FieldType::Int8,
        ColumnData::Int16(_) => FieldType::Int16,
        ColumnData::Int32(_) => FieldType::Int32,
        ColumnData::Int64(_) => FieldType::Int64,
        ColumnData::Float(_) => FieldType::Float,
        ColumnData::Double(_) => FieldType::Double,
        ColumnData::VarChar(_) => FieldType::VarChar,
        ColumnData::Bytes(_) => FieldType::Bytes,
        ColumnData::FloatVector { .. } => FieldType::FloatVector,
        ColumnData::BinaryVector { .. } => FieldType::BinaryVector,
    }
}

/// How many records a wire column holds: the element count for scalar
/// kinds, the buffer length divided by the dimension for vector kinds.
pub open spec fn column_rows(c: ColumnData) -> nat {
    match c {
        ColumnData::Bool(x) => x@.len(),
        ColumnData::Int8(x) => x@.len(),
        ColumnData::Int16(x) => x@.len(),
        ColumnData::Int32(x) => x@.len(),
        ColumnData::Int64(x) => x@.len(),
        ColumnData::Float(x) => x@.len(),
        ColumnData::Double(x) => x@.len(),
        ColumnData::VarChar(x) => x@.len(),
        ColumnData::Bytes(x) => x@.len(),
        ColumnData::FloatVector { dim, data } => if dim == 0 {
            0
        } else {
            data@.len() / dim as nat
        },
        ColumnData::BinaryVector { dim, data } => if dim == 0 {
            0
        } else {
            data@.len() / dim as nat
        },
    }
}

/// The first response column carrying the given field name, if any.
pub open spec fn spec_find_field_data(cols: Seq<FieldData>, name: Seq<char>) -> Option<FieldData>
    decreases cols.len(),
{
    if cols.len() == 0 {
        None
    } else if cols[0].field_name@ == name {
        Some(cols[0])
    } else {
        spec_find_field_data(cols.drop_first(), name)
    }
}

/// Whether some schema field carries the given name.
pub open spec fn known_name(fields: Seq<FieldSchema>, name: Seq<char>) -> bool {
    exists|j: int| 0 <= j < fields.len() && #[trigger] fields[j].name@ == name
}

/// A response column matched to a schema field must carry the field's
/// kind; a vector column must also carry the field's declared dimension
/// and a buffer that is a whole number of rows.
pub open spec fn response_column_ok(f: FieldSchema, c: ColumnData) -> bool {
    &&& column_kind(c) == f.field_type
    &&& match c {
        ColumnData::FloatVector { dim, data } => dim > 0 && dim as nat == field_dim(f)
            && data@.len() % (dim as nat) == 0,
        ColumnData::BinaryVector { dim, data } => dim > 0 && dim as nat == field_dim(f)
            && data@.len() % (dim as nat) == 0,
        _ => true,
    }
}

/// A schema field either has no column in the response, or its column is
/// well-formed for it.
pub open spec fn field_response_ok(f: FieldSchema, cols: Seq<FieldData>) -> bool {
    match spec_find_field_data(cols, f.name@) {
        None => true,
        Some(fd) => response_column_ok(f, fd.column),
    }
}

/// Every schema field's response column (where one exists) is well-formed.
pub open spec fn response_wf(fields: Seq<FieldSchema>, cols: Seq<FieldData>) -> bool {
    forall|j: int| 0 <= j < fields.len() ==> field_response_ok(#[trigger] fields[j], cols)
}

/// The record count the response supplies for a field (zero where the
/// field has no column).
pub open spec fn resp_rows(f: FieldSchema, cols: Seq<FieldData>) -> nat {
    match spec_find_field_data(cols, f.name@) {
        Some(fd) => column_rows(fd.column),
        None => 0,
    }
}

/// The row-alignment invariant over a response: any two schema fields
/// whose columns both have a determinable (non-zero) length agree on the
/// record count.
pub open spec fn response_aligned(fields: Seq<FieldSchema>, cols: Seq<FieldData>) -> bool {
    forall|i: int, j: int|
        0 <= i < fields.len() && 0 <= j < fields.len() && resp_rows(#[trigger] fields[i], cols) > 0
            && resp_rows(#[trigger] fields[j], cols) > 0 ==> resp_rows(fields[i], cols)
            == resp_rows(fields[j], cols)
}

/// The record count of a decoded response: the common non-zero row count
/// of the supplied columns, or zero when every supplied column is empty.
pub open spec fn decoded_row_count(fields: Seq<FieldSchema>, cols: Seq<FieldData>) -> nat {
    if exists|j: int| 0 <= j < fields.len() && resp_rows(#[trigger] fields[j], cols) > 0 {
        resp_rows(
            fields[choose|j: int| 0 <= j < fields.len() && resp_rows(#[trigger] fields[j], cols) > 0],
            cols,
        )
    } else {
        0
    }
}

/// Whether the response supplies values of field `f` for all `n` records.
pub open spec fn field_supplies(f: FieldSchema, cols: Seq<FieldData>, n: nat) -> bool {
    n > 0 && (spec_find_field_data(cols, f.name@) matches Some(fd) && column_rows(fd.column) == n)
}

/// Whether `v` is row `i` of wire column `c`: the element at `i` for
/// scalar kinds, the slice `[i*dim, (i+1)*dim)` of the flat buffer for
/// vector kinds.
pub open spec fn is_value_at(c: ColumnData, i: int, v: Value) -> bool {
    match c {
        ColumnData::Bool(x) => v matches Value::Bool(b) && b == x@[i],
        ColumnData::Int8(x) => v matches Value::Int8(b) && b == x@[i],
        ColumnData::Int16(x) => v matches Value::Int16(b) && b == x@[i],
        ColumnData::Int32(x) => v matches Value::Int32(b) && b == x@[i],
        ColumnData::Int64(x) => v matches Value::Int64(b) && b == x@[i],
        ColumnData::Float(x) => v matches Value::Float(b) && b == x@[i],
        ColumnData::Double(x) => v matches Value::Double(b) && b == x@[i],
        ColumnData::VarChar(x) => v matches Value::VarChar(s) && s@ == x@[i]@,
        ColumnData::Bytes(x) => v matches Value::Bytes(b) && b@ == x@[i]@,
        ColumnData::FloatVector { dim, data } => v matches Value::FloatVector(w) && w@
            == data@.subrange(i * dim as int, (i + 1) * dim as int),
        ColumnData::BinaryVector { dim, data } => v matches Value::BinaryVector(w) && w@
            == data@.subrange(i * dim as int, (i + 1) * dim as int),
    }
}

/// How one decoded cell relates to the response: a value of the bound
/// column's row `i` where the field is supplied for all `n` records,
/// absent otherwise.
pub open spec fn cell_ok(
    fields: Seq<FieldSchema>,
    cols: Seq<FieldData>,
    n: nat,
    i: int,
    j: int,
    cell: Option<Value>,
) -> bool {
    if field_supplies(fields[j], cols, n) {
        cell matches Some(v) && is_value_at(
            spec_find_field_data(cols, fields[j].name@).unwrap().column,
            i,
            v,
        )
    } else {
        cell is None
    }
}

/// The response columns whose names the schema does not know, in response
/// order.
pub open spec fn extra_columns_of(
    fields: Seq<FieldSchema>,
    cols: Seq<FieldData>,
) -> Seq<FieldData> {
    cols.filter(|c: FieldData| !known_name(fields, c.field_name@))
}

/// Whether `b` is exactly the decoding of the response against the
/// schema: the common row count, one optional value per field per record
/// as `cell_ok` states it, and the unknown-named columns surfaced in
/// order.
pub open spec fn decode_output_ok(
    fields: Seq<FieldSchema>,
    cols: Seq<FieldData>,
    b: DecodedBatch,
) -> bool {
    let n = decoded_row_count(fields, cols);
    &&& b.records@.len() == n
    &&& forall|i: int| 0 <= i < n ==> (#[trigger] b.records@[i]).values@.len() == fields.len()
    &&& forall|i: int, j: int|
        0 <= i < n && 0 <= j < fields.len() ==> cell_ok(
            fields,
            cols,
            n,
            i,
            j,
            #[trigger] b.records@[i].values@[j],
        )
    &&& b.extra_columns@ == extra_columns_of(fields, cols)
}

/// Field index `k` is the first whose response column is malformed.
pub open spec fn first_bad_response(
    fields: Seq<FieldSchema>,
    cols: Seq<FieldData>,
    k: int,
) -> bool {
    &&& 0 <= k < fields.len()
    &&& !field_response_ok(fields[k], cols)
    &&& forall|i: int| 0 <= i < k ==> field_response_ok(#[trigger] fields[i], cols)
}

/// Extending the scanned response prefix by one column extends the extra
/// list exactly when the column's name is unknown to the schema.
proof fn lemma_extra_columns_extend(fields: Seq<FieldSchema>, cols: Seq<FieldData>, ci: int)
    requires
        0 <= ci < cols.len(),
    ensures
        extra_columns_of(fields, cols.subrange(0, ci + 1)) == if !known_name(
            fields,
            cols[ci].field_name@,
        ) {
            extra_columns_of(fields, cols.subrange(0, ci)).push(cols[ci])
        } else {
            extra_columns_of(fields, cols.subrange(0, ci))
        },
{
    reveal(Seq::filter);
    let s = cols.subrange(0, ci + 1);
    assert(s.drop_last() =~= cols.subrange(0, ci));
    assert(s.last() == cols[ci]);
}

/// A row slice of a uniform-width buffer lies within the buffer.
proof fn lemma_row_slice_bounds(len: nat, d: nat, i: nat)
    requires
        d > 0,
        i < len / d,
    ensures
        i * d + d <= len,
{
    lemma_fundamental_div_mod(len as int, d as int);
    lemma_mul_inequality(i as int + 1, (len / d) as int, d as int);
    assert((i + 1) * d == i * d + d) by (nonlinear_arith);
}

/// The first response column carrying the given field name, if any.
fn find_field_data<'a>(cols: &'a Vec<FieldData>, name: &String) -> (r: Option<&'a FieldData>)
    ensures
        r matches Some(fd) ==> spec_find_field_data(cols@, name@) == Some(*fd),
        r is None ==> spec_find_field_data(cols@, name@) is None,
{
    let n = cols.len();
    proof {
        assert(cols@.subrange(0, n as int) =~= cols@);
    }
    let mut k: usize = 0;
    while k < n
        invariant
            k <= n,
            n == cols@.len(),
            spec_find_field_data(cols@, name@) == spec_find_field_data(
                cols@.subrange(k as int, n as int),
                name@,
            ),
        decreases n - k,
    {
        let c = &cols[k];
        proof {
            let s = cols@.subrange(k as int, n as int);
            assert(s[0] == cols@[k as int]);
            assert(s.drop_first() =~= cols@.subrange(k as int + 1, n as int));
        }
        if c.field_name == *name {
            return Some(c);
        }
        k += 1;
    }
    None
}

/// Whether some schema field carries the given name.
fn name_in_fields(fields: &Vec<FieldSchema>, name: &String) -> (r: bool)
    ensures
        r == known_name(fields@, name@),
{
    let n = fields.len();
    let mut k: usize = 0;
    while k < n
        invariant
            k <= n,
            n == fields@.len(),
            forall|t: int| 0 <= t < k ==> #[trigger] fields@[t].name@ != name@,
        decreases n - k,
    {
        if fields[k].name == *name {
            return true;
        }
        k += 1;
    }
    false
}

/// The field type a wire column claims to hold.
pub fn column_field_type(c: &ColumnData) -> (r: FieldType)
    ensures
        r == column_kind(*c),
{
    match c {
        ColumnData::Bool(_) => FieldType::Bool,
        ColumnData::Int8(_) => FieldType::Int8,
        ColumnData::Int16(_) => FieldType::Int16,
        ColumnData::Int32(_) => FieldType::Int32,
        ColumnData::Int64(_) => FieldType::Int64,
        ColumnData::Float(_) => FieldType::Float,
        ColumnData::Double(_) => FieldType::Double,
        ColumnData::VarChar(_) => FieldType::VarChar,
        ColumnData::Bytes(_) => FieldType::Bytes,
        ColumnData::FloatVector { .. } => FieldType::FloatVector,
        ColumnData::BinaryVector { .. } => FieldType::BinaryVector,
    }
}

/// How many records a wire column holds.
pub fn column_rows_count(c: &ColumnData) -> (r: usize)
    ensures
        r as nat == column_rows(*c),
{
    match c {
        ColumnData::Bool(x) => x.len(),
        ColumnData::Int8(x) => x.len(),
        ColumnData::Int16(x) => x.len(),
        ColumnData::Int32(x) => x.len(),
        ColumnData::Int64(x) => x.len(),
        ColumnData::Float(x) => x.len(),
        ColumnData::Double(x) => x.len(),
        ColumnData::VarChar(x) => x.len(),
        ColumnData::Bytes(x) => x.len(),
        ColumnData::FloatVector { dim, data } => {
            if *dim == 0 || *dim > data.len() as u64 {
                proof {
                    if *dim != 0 {
                        assert(data@.len() / (*dim as nat) == 0) by (nonlinear_arith)
                            requires *dim as nat > data@.len();
                    }
                }
                0
            } else {
                data.len() / (*dim as usize)
            }
        },
        ColumnData::BinaryVector { dim, data } => {
            if *dim == 0 || *dim > data.len() as u64 {
                proof {
                    if *dim != 0 {
                        assert(data@.len() / (*dim as nat) == 0) by (nonlinear_arith)
                            requires *dim as nat > data@.len();
                    }
                }
                0
            } else {
                data.len() / (*dim as usize)
            }
        },
    }
}

/// Check a kind-matched response column's vector shape against its field.
fn check_response_column(f: &FieldSchema, c: &ColumnData) -> (r: Result<(), CodecError>)
    requires
        column_kind(*c) == f.field_type,
    ensures
        r is Ok <==> response_column_ok(*f, *c),
        r matches Err(e) ==> e matches CodecError::DimensionMismatch(n) && n@ == f.name@,
{
    match c {
        ColumnData::FloatVector { dim, data } => {
            let want: u64 = match f.dimension {
                Some(d) => d,
                None => 0,
            };
            if *dim != want || *dim == 0 {
                return Err(CodecError::DimensionMismatch(f.name.clone()));
            }
            if *dim > data.len() as u64 {
                if data.len() != 0 {
                    proof {
                        assert(data@.len() % (*dim as nat) != 0) by (nonlinear_arith)
                            requires 0 < data@.len() < *dim as nat;
                    }
                    return Err(CodecError::DimensionMismatch(f.name.clone()));
                }
                proof {
                    assert(data@.len() % (*dim as nat) == 0) by (nonlinear_arith)
                        requires data@.len() == 0, *dim as nat > 0;
                }
                return Ok(());
            }
            if data.len() % (*dim as usize) != 0 {
                return Err(CodecError::DimensionMismatch(f.name.clone()));
            }
            Ok(())
        },
        ColumnData::BinaryVector { dim, data } => {
            let want: u64 = match f.dimension {
                Some(d) => d,
                None => 0,
            };
            if *dim != want || *dim == 0 {
                return Err(CodecError::DimensionMismatch(f.name.clone()));
            }
            if *dim > data.len() as u64 {
                if data.len() != 0 {
                    proof {
                        assert(data@.len() % (*dim as nat) != 0) by (nonlinear_arith)
                            requires 0 < data@.len() < *dim as nat;
                    }
                    return Err(CodecError::DimensionMismatch(f.name.clone()));
                }
                proof {
                    assert(data@.len() % (*dim as nat) == 0) by (nonlinear_arith)
                        requires data@.len() == 0, *dim as nat > 0;
                }
                return Ok(());
            }
            if data.len() % (*dim as usize) != 0 {
                return Err(CodecError::DimensionMismatch(f.name.clone()));
            }
            Ok(())
        },
        _ => Ok(()),
    }
}

/// Extract row `i` of a wire column as one owned value.
fn extract_value(c: &ColumnData, i: usize) -> (v: Value)
    requires
        (i as nat) < column_rows(*c),
    ensures
        is_value_at(*c, i as int, v),
{
    match c {
        ColumnData::Bool(x) => Value::Bool(x[i]),
        ColumnData::Int8(x) => Value::Int8(x[i]),
        ColumnData::Int16(x) => Value::Int16(x[i]),
        ColumnData::Int32(x) => Value::Int32(x[i]),
        ColumnData::Int64(x) => Value::Int64(x[i]),
        ColumnData::Float(x) => Value::Float(x[i]),
        ColumnData::Double(x) => Value::Double(x[i]),
        ColumnData::VarChar(x) => Value::VarChar(x[i].clone()),
        ColumnData::Bytes(x) => Value::Bytes(copy_plain(&x[i])),
        ColumnData::FloatVector { dim, data } => {
            proof {
                assert(data@.len() == data.len());
                assert(*dim as nat > 0);
                assert(data@.len() / (*dim as nat) > 0);
                assert(*dim as nat <= data@.len()) by (nonlinear_arith)
                    requires
                        *dim as nat > 0,
                        data@.len() / (*dim as nat) > 0,
                ;
                lemma_row_slice_bounds(data@.len(), *dim as nat, i as nat);
                assert((i + 1) * (*dim as int) == i * (*dim as int) + (*dim as int))
                    by (nonlinear_arith);
            }
            let d = *dim as usize;
            let s = vstd::slice::slice_subrange(data.as_slice(), i * d, i * d + d);
            Value::FloatVector(vstd::slice::slice_to_vec(s))
        },
        ColumnData::BinaryVector { dim, data } => {
            proof {
                assert(data@.len() == data.len());
                assert(*dim as nat > 0);
                assert(data@.len() / (*dim as nat) > 0);
                assert(*dim as nat <= data@.len()) by (nonlinear_arith)
                    requires
                        *dim as nat > 0,
                        data@.len() / (*dim as nat) > 0,
                ;
                lemma_row_slice_bounds(data@.len(), *dim as nat, i as nat);
                assert((i + 1) * (*dim as int) == i * (*dim as int) + (*dim as int))
                    by (nonlinear_arith);
            }
            let d = *dim as usize;
            let s = vstd::slice::slice_subrange(data.as_slice(), i * d, i * d + d);
            Value::BinaryVector(vstd::slice::slice_to_vec(s))
        },
    }
}

/// Decode a query/search response against a schema: bind each response
/// column to its schema field by name, check kinds, dimensions and row
/// alignment, and materialize row-major records. Fields the response does
/// not supply decode as absent values; response columns the schema does
/// not know are surfaced as extra columns.
pub fn decode(schema: &ValidatedSchema, cols: Vec<FieldData>) -> (r: Result<
    DecodedBatch,
    CodecError,
>)
    requires
        schema.wf(),
    ensures
        ({
            let fields = schema.spec_schema().fields@;
            &&& (r is Ok <==> response_wf(fields, cols@) && response_aligned(fields, cols@))
            &&& (r matches Ok(b) ==> decode_output_ok(fields, cols@, b))
            &&& ((r matches Err(CodecError::RowCountMisaligned)) <==> (response_wf(fields, cols@)
                && !response_aligned(fields, cols@)))
            &&& (r matches Err(CodecError::KindMismatch(n)) ==> exists|k: int|
                first_bad_response(fields, cols@, k) && #[trigger] fields[k].name@ == n@
                    && (spec_find_field_data(cols@, n@) matches Some(fd) && column_kind(fd.column)
                    != fields[k].field_type))
            &&& (r matches Err(CodecError::DimensionMismatch(n)) ==> exists|k: int|
                first_bad_response(fields, cols@, k) && #[trigger] fields[k].name@ == n@
                    && (spec_find_field_data(cols@, n@) matches Some(fd) && column_kind(fd.column)
                    == fields[k].field_type && !response_column_ok(fields[k], fd.column)))
        }),
{
    let ghost gcols = cols@;
    let fields = &schema.schema().fields;
    let flen = fields.len();
    let mut j: usize = 0;
    while j < flen
        invariant
            j <= flen,
            flen == fields@.len(),
            fields@ == schema.spec_schema().fields@,
            gcols == cols@,
            forall|t: int| 0 <= t < j ==> field_response_ok(#[trigger] fields@[t], cols@),
        decreases flen - j,
    {
        let f = &fields[j];
        match find_field_data(&cols, &f.name) {
            None => {},
            Some(fd) => {
                if !field_type_eq(column_field_type(&fd.column), f.field_type) {
                    return Err(CodecError::KindMismatch(f.name.clone()));
                }
                match check_response_column(f, &fd.column) {
                    Err(e) => {
                        return Err(e);
                    },
                    Ok(()) => {},
                }
            },
        }
        j += 1;
    }
    let mut expected: Option<usize> = None;
    let mut j2: usize = 0;
    while j2 < flen
        invariant
            j2 <= flen,
            flen == fields@.len(),
            fields@ == schema.spec_schema().fields@,
            gcols == cols@,
            response_wf(fields@, cols@),
            expected is None ==> forall|i: int|
                0 <= i < j2 ==> resp_rows(#[trigger] fields@[i], cols@) == 0,
            expected matches Some(e) ==> e > 0 && (exists|w: int|
                0 <= w < j2 && resp_rows(#[trigger] fields@[w], cols@) == e as nat) && (forall|
                i: int,
            |
                0 <= i < j2 && resp_rows(#[trigger] fields@[i], cols@) > 0 ==> resp_rows(
                    fields@[i],
                    cols@,
                ) == e as nat),
        decreases flen - j2,
    {
        let f = &fields[j2];
        match find_field_data(&cols, &f.name) {
            None => {},
            Some(fd) => {
                let rows = column_rows_count(&fd.column);
                if rows > 0 {
                    match expected {
                        None => {
                            expected = Some(rows);
                        },
                        Some(e) => {
                            if e != rows {
                                return Err(CodecError::RowCountMisaligned);
                            }
                        },
                    }
                }
            },
        }
        j2 += 1;
    }
    let n_rows: usize = match expected {
        Some(e) => e,
        None => 0,
    };
    proof {
        assert(n_rows as nat == decoded_row_count(fields@, cols@));
    }
    let mut records: Vec<DecodedRecord> = Vec::new();
    let mut i: usize = 0;
    while i < n_rows
        invariant
            i <= n_rows,
            flen == fields@.len(),
            fields@ == schema.spec_schema().fields@,
            gcols == cols@,
            response_wf(fields@, cols@),
            response_aligned(fields@, cols@),
            n_rows as nat == decoded_row_count(fields@, cols@),
            records@.len() == i,
            forall|ii: int|
                0 <= ii < i ==> (#[trigger] records@[ii]).values@.len() == fields@.len(),
            forall|ii: int, jj: int|
                0 <= ii < i && 0 <= jj < fields@.len() ==> cell_ok(
                    fields@,
                    cols@,
                    n_rows as nat,
                    ii,
                    jj,
                    #[trigger] records@[ii].values@[jj],
                ),
        decreases n_rows - i,
    {
        let mut vals: Vec<Option<Value>> = Vec::new();
        let mut jc: usize = 0;
        while jc < flen
            invariant
                jc <= flen,
                i < n_rows,
                flen == fields@.len(),
                fields@ == schema.spec_schema().fields@,
                gcols == cols@,
                response_wf(fields@, cols@),
                response_aligned(fields@, cols@),
                n_rows as nat == decoded_row_count(fields@, cols@),
                vals@.len() == jc,
                forall|t: int|
                    0 <= t < jc ==> cell_ok(
                        fields@,
                        cols@,
                        n_rows as nat,
                        i as int,
                        t,
                        #[trigger] vals@[t],
                    ),
            decreases flen - jc,
        {
            let f = &fields[jc];
            match find_field_data(&cols, &f.name) {
                None => {
                    vals.push(None);
                },
                Some(fd) => {
                    let rows = column_rows_count(&fd.column);
                    if rows == n_rows {
                        let v = extract_value(&fd.column, i);
                        vals.push(Some(v));
                    } else {
                        vals.push(None);
                    }
                },
            }
            jc += 1;
        }
        records.push(DecodedRecord { values: vals });
        i += 1;
    }
    let mut rest = cols;
    let mut extras: Vec<FieldData> = Vec::new();
    let ghost mut done: int = 0;
    proof {
        assert(gcols.subrange(0, 0) =~= Seq::<FieldData>::empty());
        reveal(Seq::filter);
        assert(extra_columns_of(fields@, gcols.subrange(0, 0)) =~= Seq::<FieldData>::empty());
    }
    while rest.len() > 0
        invariant
            0 <= done <= gcols.len(),
            flen == fields@.len(),
            fields@ == schema.spec_schema().fields@,
            rest@ == gcols.subrange(done, gcols.len() as int),
            extras@ == extra_columns_of(fields@, gcols.subrange(0, done)),
        decreases rest@.len(),
    {
        proof {
            assert(rest@[0] == gcols[done]);
        }
        let c = rest.remove(0);
        proof {
            assert(gcols.subrange(done, gcols.len() as int).remove(0) =~= gcols.subrange(
                done + 1,
                gcols.len() as int,
            ));
            lemma_extra_columns_extend(fields@, gcols, done);
        }
        if !name_in_fields(fields, &c.field_name) {
            extras.push(c);
        }
        proof {
            done = done + 1;
        }
    }
    proof {
        assert(gcols.subrange(0, gcols.len() as int) =~= gcols);
    }
    Ok(DecodedBatch { records, extra_columns: extras })
}

} // verus!
