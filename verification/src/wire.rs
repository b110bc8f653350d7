//! The schema wire framing: the store expects the collection schema inside
//! a create-collection request as one length-prefixed structured message
//! (base-128 varints, tagged fields, length-delimited payloads). This
//! module states that framing as spec functions over byte sequences and
//! proves the emitter against them, byte for byte.
//!
//! Field tags: a collection message carries its name (1), description (2)
//! and one embedded message per field (4); a field message carries its
//! name (2), primary-key flag (3), data-type value (5), its dimension as a
//! key/value parameter pair (6, key `dim`, decimal value) and the auto-id
//! flag (8). Flags and empty strings are omitted, as the framing's
//! default-skipping rule asks.

use vstd::prelude::*;
use vstd::string::StringSliceAdditionalSpecFns;
use vstd::utf8::encode_utf8;

use crate::schema::{field_type_to_i32, field_type_wire_value, CollectionSchema, FieldSchema};

verus! {

/// Little-endian base-128 varint encoding: seven value bits per byte, the
/// high bit marking continuation.
pub open spec fn varint_bytes(n: nat) -> Seq<u8>
    decreases n,
{
    if n < 128 {
        seq![n as u8]
    } else {
        seq![((n % 128) + 128) as u8] + varint_bytes(n / 128)
    }
}

/// The key that opens a field: field number and wire type packed into one
/// varint.
pub open spec fn key_bytes(field: nat, wire_type: nat) -> Seq<u8> {
    varint_bytes(field * 8 + wire_type)
}

/// A varint-valued field.
pub open spec fn varint_field(field: nat, n: nat) -> Seq<u8> {
    key_bytes(field, 0) + varint_bytes(n)
}

/// A flag field: emitted as varint 1 when set, omitted when clear.
pub open spec fn bool_field(field: nat, b: bool) -> Seq<u8> {
    if b {
        varint_field(field, 1)
    } else {
        Seq::empty()
    }
}

/// A length-delimited field: key, payload length, payload.
pub open spec fn len_field(field: nat, payload: Seq<u8>) -> Seq<u8> {
    key_bytes(field, 2) + varint_bytes(payload.len()) + payload
}

/// A string field: UTF-8 payload, omitted when empty.
pub open spec fn string_field(field: nat, s: Seq<char>) -> Seq<u8> {
    if encode_utf8(s).len() == 0 {
        Seq::empty()
    } else {
        len_field(field, encode_utf8(s))
    }
}

/// ASCII decimal digits of `n`, most significant first.
pub open spec fn dec_bytes(n: nat) -> Seq<u8>
    decreases n,
{
    if n < 10 {
        seq![(48 + n) as u8]
    } else {
        dec_bytes(n / 10) + seq![(48 + n % 10) as u8]
    }
}

/// The key/value parameter pair carrying a vector field's dimension:
/// key `dim` (1), decimal value (2).
pub open spec fn dim_param_bytes(d: nat) -> Seq<u8> {
    len_field(1, seq![100u8, 105u8, 109u8]) + len_field(2, dec_bytes(d))
}

/// One field message of the schema message.
pub open spec fn field_schema_bytes(f: FieldSchema) -> Seq<u8> {
    string_field(2, f.name@) + bool_field(3, f.is_primary_key) + varint_field(
        5,
        field_type_wire_value(f.field_type) as nat,
    ) + (match f.dimension {
        Some(d) => len_field(6, dim_param_bytes(d as nat)),
        None => Seq::empty(),
    }) + bool_field(8, f.is_auto_id)
}

/// The embedded field messages, in schema field order.
pub open spec fn fields_bytes(fs: Seq<FieldSchema>) -> Seq<u8>
    decreases fs.len(),
{
    if fs.len() == 0 {
        Seq::empty()
    } else {
        fields_bytes(fs.drop_last()) + len_field(4, field_schema_bytes(fs.last()))
    }
}

/// The whole schema message the create-collection request embeds.
pub open spec fn spec_schema_bytes(s: CollectionSchema) -> Seq<u8> {
    string_field(1, s.name@) + string_field(2, s.description@) + fields_bytes(s.fields@)
}

/// Append the varint encoding of `n`.
pub fn push_varint(out: &mut Vec<u8>, n: u64)
    ensures
        final(out)@ == old(out)@ + varint_bytes(n as nat),
{
    let mut x: u64 = n;
    while x >= 128
        invariant
            out@ + varint_bytes(x as nat) == old(out)@ + varint_bytes(n as nat),
        decreases x,
    {
        let ghost pre = out@;
        let ghost xo = x as nat;
        out.push(((x % 128) + 128) as u8);
        x = x / 128;
        proof {
            assert(varint_bytes(xo) == seq![((xo % 128) + 128) as u8] + varint_bytes(xo / 128));
            assert(pre.push(((xo % 128) + 128) as u8) + varint_bytes(xo / 128) =~= pre
                + varint_bytes(xo));
        }
    }
    let ghost pre = out@;
    out.push(x as u8);
    proof {
        assert(varint_bytes(x as nat) =~= seq![x as u8]);
        assert(pre.push(x as u8) =~= pre + varint_bytes(x as nat));
        assert(out@ =~= old(out)@ + varint_bytes(n as nat));
    }
}

/// Append a field key.
pub fn push_key(out: &mut Vec<u8>, field: u64, wire_type: u64)
    requires
        field <= 1000,
        wire_type <= 7,
    ensures
        final(out)@ == old(out)@ + key_bytes(field as nat, wire_type as nat),
{
    push_varint(out, field * 8 + wire_type);
}

/// Append the ASCII decimal digits of `n`.
pub fn push_decimal(out: &mut Vec<u8>, n: u64)
    ensures
        final(out)@ == old(out)@ + dec_bytes(n as nat),
{
    let mut digits: Vec<u8> = Vec::new();
    let mut x: u64 = n;
    loop
        invariant_except_break
            dec_bytes(n as nat) == dec_bytes(x as nat) + digits@.reverse(),
        ensures
            digits@.reverse() == dec_bytes(n as nat),
            digits@.len() > 0,
        decreases x,
    {
        let ghost dpre = digits@;
        let ghost xo = x as nat;
        let d: u8 = (x % 10) as u8;
        digits.push(48 + d);
        proof {
            assert(dpre.push((48 + xo % 10) as u8).reverse() =~= seq![(48 + xo % 10) as u8]
                + dpre.reverse());
        }
        if x < 10 {
            proof {
                assert(dec_bytes(xo) == seq![(48 + xo) as u8]);
                assert(dec_bytes(n as nat) =~= digits@.reverse());
            }
            break;
        }
        x = x / 10;
        proof {
            assert(dec_bytes(xo) == dec_bytes(xo / 10) + seq![(48 + xo % 10) as u8]);
            assert(dec_bytes(xo / 10) + (seq![(48 + xo % 10) as u8] + dpre.reverse()) =~= dec_bytes(
                xo,
            ) + dpre.reverse());
        }
    }
    let dn = digits.len();
    let mut k: usize = dn;
    while k > 0
        invariant
            k <= dn,
            dn == digits@.len(),
            digits@.reverse() == dec_bytes(n as nat),
            out@ == old(out)@ + dec_bytes(n as nat).subrange(0, dn - k),
        decreases k,
    {
        k = k - 1;
        let ghost pre = out@;
        out.push(digits[k]);
        proof {
            assert(digits@[k as int] == digits@.reverse()[dn - 1 - k]);
            assert(dec_bytes(n as nat).subrange(0, dn - k) =~= dec_bytes(n as nat).subrange(
                0,
                dn - k - 1,
            ).push(dec_bytes(n as nat)[dn - 1 - k]));
            assert(out@ =~= old(out)@ + dec_bytes(n as nat).subrange(0, dn - k));
        }
    }
    proof {
        assert(dec_bytes(n as nat).subrange(0, dn as int) =~= dec_bytes(n as nat));
    }
}

/// Append a byte slice.
fn push_bytes(out: &mut Vec<u8>, payload: &[u8])
    ensures
        final(out)@ == old(out)@ + payload@,
{
    let n = payload.len();
    let mut t: usize = 0;
    while t < n
        invariant
            t <= n,
            n == payload@.len(),
            out@ == old(out)@ + payload@.subrange(0, t as int),
        decreases n - t,
    {
        let ghost pre = out@;
        out.push(*vstd::slice::slice_index_get(payload, t));
        proof {
            assert(payload@.subrange(0, t + 1) =~= payload@.subrange(0, t as int).push(
                payload@[t as int],
            ));
            assert(pre.push(payload@[t as int]) =~= old(out)@ + payload@.subrange(0, t + 1));
        }
        t += 1;
    }
    proof {
        assert(payload@.subrange(0, n as int) =~= payload@);
    }
}

/// Append a length-delimited field.
fn push_len_field(out: &mut Vec<u8>, field: u64, payload: &[u8])
    requires
        field <= 1000,
    ensures
        final(out)@ == old(out)@ + len_field(field as nat, payload@),
{
    push_key(out, field, 2);
    push_varint(out, payload.len() as u64);
    push_bytes(out, payload);
    proof {
        assert(out@ =~= old(out)@ + len_field(field as nat, payload@));
    }
}

/// Append a string field, omitting it when the string is empty.
fn push_string_field(out: &mut Vec<u8>, field: u64, s: &String)
    requires
        field <= 1000,
    ensures
        final(out)@ == old(out)@ + string_field(field as nat, s@),
{
    let b = s.as_str().as_bytes();
    if b.len() == 0 {
        proof {
            assert(out@ =~= old(out)@ + string_field(field as nat, s@));
        }
    } else {
        push_len_field(out, field, b);
    }
}

/// Append one embedded field message.
#[verifier::rlimit(60)]
fn push_field_schema(out: &mut Vec<u8>, f: &FieldSchema)
    ensures
        final(out)@ == old(out)@ + field_schema_bytes(*f),
{
    push_string_field(out, 2, &f.name);
    if f.is_primary_key {
        push_key(out, 3, 0);
        push_varint(out, 1);
    }
    push_key(out, 5, 0);
    let code = field_type_to_i32(f.field_type);
    push_varint(out, code as u64);
    match f.dimension {
        Some(d) => {
            let mut param: Vec<u8> = Vec::new();
            let key: Vec<u8> = vec![100u8, 105u8, 109u8];
            proof {
                assert(key@ =~= seq![100u8, 105u8, 109u8]);
            }
            push_len_field(&mut param, 1, key.as_slice());
            let mut val: Vec<u8> = Vec::new();
            push_decimal(&mut val, d);
            push_len_field(&mut param, 2, val.as_slice());
            proof {
                assert(param@ =~= dim_param_bytes(d as nat));
            }
            push_len_field(out, 6, param.as_slice());
        },
        None => {},
    }
    if f.is_auto_id {
        push_key(out, 8, 0);
        push_varint(out, 1);
    }
    proof {
        assert(out@ =~= old(out)@ + field_schema_bytes(*f));
    }
}

/// Serialize a collection schema into the byte buffer the create-collection
/// request embeds, exactly as `spec_schema_bytes` states it.
pub fn schema_to_bytes(schema: &CollectionSchema) -> (r: Vec<u8>)
    ensures
        r@ == spec_schema_bytes(*schema),
{
    let mut out: Vec<u8> = Vec::new();
    push_string_field(&mut out, 1, &schema.name);
    push_string_field(&mut out, 2, &schema.description);
    let ghost head = string_field(1, schema.name@) + string_field(2, schema.description@);
    proof {
        assert(fields_bytes(schema.fields@.subrange(0, 0)) =~= Seq::<u8>::empty());
        assert(out@ =~= head + fields_bytes(schema.fields@.subrange(0, 0)));
    }
    let n = schema.fields.len();
    let mut k: usize = 0;
    while k < n
        invariant
            k <= n,
            n == schema.fields@.len(),
            head == string_field(1, schema.name@) + string_field(2, schema.description@),
            out@ == head + fields_bytes(schema.fields@.subrange(0, k as int)),
        decreases n - k,
    {
        let mut fb: Vec<u8> = Vec::new();
        push_field_schema(&mut fb, &schema.fields[k]);
        push_len_field(&mut out, 4, fb.as_slice());
        proof {
            let s = schema.fields@.subrange(0, k + 1);
            assert(s.drop_last() =~= schema.fields@.subrange(0, k as int));
            assert(s.last() == schema.fields@[k as int]);
            assert(out@ =~= head + fields_bytes(s));
        }
        k += 1;
    }
    proof {
        assert(schema.fields@.subrange(0, n as int) =~= schema.fields@);
    }
    out
}

} // verus!
