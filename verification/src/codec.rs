//! The fixed, versionless binary encoding of instruction arguments: fields
//! in declared order, little-endian, no padding.

use vstd::prelude::*;

verus! {

/// One typed field of an argument schema.
#[derive(Clone, Copy, Debug, PartialEq, Eq, Structural)]
pub enum FieldType {
    Bool,
    U8,
    U32,
    U64,
}

/// One decoded argument value.
#[derive(Clone, Copy, Debug, PartialEq, Eq, Structural)]
pub enum ArgValue {
    Bool(bool),
    U8(u8),
    U32(u32),
    U64(u64),
}

/// How many bytes a field of type `t` occupies.
pub open spec fn field_width(t: FieldType) -> int {
    match t {
        FieldType::Bool => 1,
        FieldType::U8 => 1,
        FieldType::U32 => 4,
        FieldType::U64 => 8,
    }
}

/// Whether value `v` has field type `t`.
pub open spec fn value_has_type(v: ArgValue, t: FieldType) -> bool {
    match (v, t) {
        (ArgValue::Bool(_), FieldType::Bool) => true,
        (ArgValue::U8(_), FieldType::U8) => true,
        (ArgValue::U32(_), FieldType::U32) => true,
        (ArgValue::U64(_), FieldType::U64) => true,
        _ => false,
    }
}

/// Whether each value in `values` has the type declared at its position in
/// `schema`.
pub open spec fn values_match_schema(schema: Seq<FieldType>, values: Seq<ArgValue>) -> bool {
    &&& values.len() == schema.len()
    &&& forall|i: int| 0 <= i < values.len() ==> value_has_type(values[i], schema[i])
}

/// The four little-endian bytes of a 32-bit value.
pub open spec fn le_bytes_u32(x: u32) -> Seq<u8> {
    seq![
        (x & 0xff) as u8,
        ((x >> 8) & 0xff) as u8,
        ((x >> 16) & 0xff) as u8,
        ((x >> 24) & 0xff) as u8,
    ]
}

/// The eight little-endian bytes of a 64-bit value.
pub open spec fn le_bytes_u64(x: u64) -> Seq<u8> {
    seq![
        (x & 0xff) as u8,
        ((x >> 8) & 0xff) as u8,
        ((x >> 16) & 0xff) as u8,
        ((x >> 24) & 0xff) as u8,
        ((x >> 32) & 0xff) as u8,
        ((x >> 40) & 0xff) as u8,
        ((x >> 48) & 0xff) as u8,
        ((x >> 56) & 0xff) as u8,
    ]
}

/// The 32-bit value read from four little-endian bytes.
pub open spec fn u32_from_le(b: Seq<u8>) -> u32 {
    (b[0] as u32) | ((b[1] as u32) << 8) | ((b[2] as u32) << 16) | ((b[3] as u32) << 24)
}

/// The 64-bit value read from eight little-endian bytes.
pub open spec fn u64_from_le(b: Seq<u8>) -> u64 {
    (b[0] as u64) | ((b[1] as u64) << 8) | ((b[2] as u64) << 16) | ((b[3] as u64) << 24) | (
    (b[4] as u64) << 32) | ((b[5] as u64) << 40) | ((b[6] as u64) << 48) | ((b[7] as u64) << 56)
}

/// The encoded bytes of one value.
pub open spec fn encoded_value(v: ArgValue) -> Seq<u8> {
    match v {
        ArgValue::Bool(b) => seq![
            if b {
                1u8
            } else {
                0u8
            },
        ],
        ArgValue::U8(x) => seq![x],
        ArgValue::U32(x) => le_bytes_u32(x),
        ArgValue::U64(x) => le_bytes_u64(x),
    }
}

/// The value of type `t` read from exactly `field_width(t)` bytes, or
/// nothing where the bytes are not a valid encoding (a boolean byte other
/// than 0 or 1).
pub open spec fn decoded_value(t: FieldType, b: Seq<u8>) -> Option<ArgValue> {
    match t {
        FieldType::Bool => if b[0] == 0 {
            Option::Some(ArgValue::Bool(false))
        } else if b[0] == 1 {
            Option::Some(ArgValue::Bool(true))
        } else {
            Option::None
        },
        FieldType::U8 => Option::Some(ArgValue::U8(b[0])),
        FieldType::U32 => Option::Some(ArgValue::U32(u32_from_le(b))),
        FieldType::U64 => Option::Some(ArgValue::U64(u64_from_le(b))),
    }
}

/// The encoded bytes of a value list: each value's bytes in order.
pub open spec fn encoded_args(values: Seq<ArgValue>) -> Seq<u8>
    decreases values.len(),
{
    if values.len() == 0 {
        Seq::empty()
    } else {
        encoded_value(values[0]) + encoded_args(values.skip(1))
    }
}

/// The value list decoded from `bytes` against `schema`, or nothing where
/// the bytes are truncated, over-long, or hold an invalid field encoding.
pub open spec fn decoded_args(schema: Seq<FieldType>, bytes: Seq<u8>) -> Option<Seq<ArgValue>>
    decreases schema.len(),
{
    if schema.len() == 0 {
        if bytes.len() == 0 {
            Option::Some(Seq::empty())
        } else {
            Option::None
        }
    } else if bytes.len() < field_width(schema[0]) {
        Option::None
    } else {
        match decoded_value(schema[0], bytes.take(field_width(schema[0]))) {
            Option::None => Option::None,
            Option::Some(v) => match decoded_args(
                schema.skip(1),
                bytes.skip(field_width(schema[0])),
            ) {
                Option::None => Option::None,
                Option::Some(rest) => Option::Some(seq![v] + rest),
            },
        }
    }
}

/// Pushes the encoded bytes of one value.
fn push_encoded_value(out: &mut Vec<u8>, v: &ArgValue)
    ensures
        final(out)@ == old(out)@ + encoded_value(*v),
{
    let ghost base = out@;
    match v {
        ArgValue::Bool(b) => {
            if *b {
                out.push(1u8);
            } else {
                out.push(0u8);
            }
        },
        ArgValue::U8(x) => {
            out.push(*x);
        },
        ArgValue::U32(xr) => {
            let x: u32 = *xr;
            out.push((x & 0xff) as u8);
            out.push(((x >> 8) & 0xff) as u8);
            out.push(((x >> 16) & 0xff) as u8);
            out.push(((x >> 24) & 0xff) as u8);
        },
        ArgValue::U64(xr) => {
            let x: u64 = *xr;
            out.push((x & 0xff) as u8);
            out.push(((x >> 8) & 0xff) as u8);
            out.push(((x >> 16) & 0xff) as u8);
            out.push(((x >> 24) & 0xff) as u8);
            out.push(((x >> 32) & 0xff) as u8);
            out.push(((x >> 40) & 0xff) as u8);
            out.push(((x >> 48) & 0xff) as u8);
            out.push(((x >> 56) & 0xff) as u8);
        },
    }
    assert(out@ =~= base + encoded_value(*v));
}

/// Encodes a value list into its fixed binary layout: each field's bytes in
/// declared order, little-endian, no padding.
pub fn encode_arguments(values: &Vec<ArgValue>) -> (r: Vec<u8>)
    ensures
        r@ == encoded_args(values@),
{
    assert(values@.skip(0) =~= values@);
    encode_from(values, 0)
}

/// Encodes the values from position `i` on.
fn encode_from(values: &Vec<ArgValue>, i: usize) -> (r: Vec<u8>)
    requires
        i <= values@.len(),
    ensures
        r@ == encoded_args(values@.skip(i as int)),
    decreases values@.len() - i,
{
    let mut out: Vec<u8> = Vec::new();
    if i == values.len() {
        assert(values@.skip(i as int) =~= Seq::<ArgValue>::empty());
        return out;
    }
    push_encoded_value(&mut out, &values[i]);
    let mut rest = encode_from(values, i + 1);
    out.append(&mut rest);
    assert(values@.skip(i as int)[0] == values@[i as int]);
    assert(values@.skip(i as int).skip(1) =~= values@.skip(i + 1 as int));
    out
}

/// Decodes `bytes` against `schema`; the whole byte string must be consumed
/// exactly.
pub fn decode_arguments(schema: &Vec<FieldType>, bytes: &Vec<u8>) -> (r: Option<Vec<ArgValue>>)
    ensures
        match r {
            Option::Some(vals) => decoded_args(schema@, bytes@) == Option::Some(vals@),
            Option::None => decoded_args(schema@, bytes@) is None,
        },
{
    assert(schema@.skip(0) =~= schema@);
    assert(bytes@.skip(0) =~= bytes@);
    decode_from(schema, 0, bytes, 0)
}

/// Decodes the schema fields from position `si` on against the bytes from
/// position `pos` on.
fn decode_from(schema: &Vec<FieldType>, si: usize, bytes: &Vec<u8>, pos: usize) -> (r: Option<
    Vec<ArgValue>,
>)
    requires
        si <= schema@.len(),
        pos <= bytes@.len(),
    ensures
        match r {
            Option::Some(vals) => decoded_args(schema@.skip(si as int), bytes@.skip(pos as int))
                == Option::Some(vals@),
            Option::None => decoded_args(schema@.skip(si as int), bytes@.skip(pos as int)) is None,
        },
    decreases schema@.len() - si,
{
    let ghost gschema = schema@.skip(si as int);
    let ghost gbytes = bytes@.skip(pos as int);
    if si == schema.len() {
        assert(gschema =~= Seq::<FieldType>::empty());
        if pos == bytes.len() {
            assert(gbytes =~= Seq::<u8>::empty());
            let empty: Vec<ArgValue> = Vec::new();
            return Option::Some(empty);
        }
        assert(gbytes.len() > 0);
        return Option::None;
    }
    let t = schema[si];
    assert(gschema[0] == schema@[si as int]);
    let width: usize = match t {
        FieldType::Bool => 1,
        FieldType::U8 => 1,
        FieldType::U32 => 4,
        FieldType::U64 => 8,
    };
    if bytes.len() - pos < width {
        assert(gbytes.len() < field_width(gschema[0]));
        return Option::None;
    }
    let ghost head = gbytes.take(field_width(gschema[0]));
    assert(forall|k: int| 0 <= k < field_width(gschema[0]) ==> head[k] == bytes@[pos + k]);
    let v: Option<ArgValue> = match t {
        FieldType::Bool => {
            let b = bytes[pos];
            if b == 0 {
                Option::Some(ArgValue::Bool(false))
            } else if b == 1 {
                Option::Some(ArgValue::Bool(true))
            } else {
                Option::None
            }
        },
        FieldType::U8 => Option::Some(ArgValue::U8(bytes[pos])),
        FieldType::U32 => {
            let x: u32 = (bytes[pos] as u32) | ((bytes[pos + 1] as u32) << 8) | ((bytes[pos
                + 2] as u32) << 16) | ((bytes[pos + 3] as u32) << 24);
            Option::Some(ArgValue::U32(x))
        },
        FieldType::U64 => {
            let x: u64 = (bytes[pos] as u64) | ((bytes[pos + 1] as u64) << 8) | ((bytes[pos
                + 2] as u64) << 16) | ((bytes[pos + 3] as u64) << 24) | ((bytes[pos + 4] as u64)
                << 32) | ((bytes[pos + 5] as u64) << 40) | ((bytes[pos + 6] as u64) << 48) | ((
            bytes[pos + 7] as u64) << 56);
            Option::Some(ArgValue::U64(x))
        },
    };
    match v {
        Option::None => {
            assert(decoded_value(gschema[0], head) is None);
            Option::None
        },
        Option::Some(val) => {
            assert(decoded_value(gschema[0], head) == Option::Some(val));
            let rest = decode_from(schema, si + 1, bytes, pos + width);
            assert(gschema.skip(1) =~= schema@.skip(si + 1 as int));
            assert(gbytes.skip(field_width(gschema[0])) =~= bytes@.skip((pos + width) as int));
            match rest {
                Option::None => Option::None,
                Option::Some(mut vals) => {
                    let ghost grest = vals@;
                    vals.insert(0, val);
                    assert(vals@ =~= seq![val] + grest);
                    Option::Some(vals)
                },
            }
        },
    }
}

/// Checks that each value has the type declared at its position.
pub fn arguments_match_schema(schema: &Vec<FieldType>, values: &Vec<ArgValue>) -> (r: bool)
    ensures
        r == values_match_schema(schema@, values@),
{
    if values.len() != schema.len() {
        return false;
    }
    let mut i: usize = 0;
    while i < values.len()
        invariant
            0 <= i <= values@.len(),
            values@.len() == schema@.len(),
            forall|j: int| 0 <= j < i ==> value_has_type(values@[j], schema@[j]),
        decreases values@.len() - i,
    {
        let ok = match (&values[i], &schema[i]) {
            (ArgValue::Bool(_), FieldType::Bool) => true,
            (ArgValue::U8(_), FieldType::U8) => true,
            (ArgValue::U32(_), FieldType::U32) => true,
            (ArgValue::U64(_), FieldType::U64) => true,
            _ => false,
        };
        if !ok {
            return false;
        }
        i += 1;
    }
    true
}

/// A value's encoding is exactly as wide as its declared field, and decoding
/// it yields the value back.
proof fn lemma_value_round_trip(v: ArgValue, t: FieldType)
    requires
        value_has_type(v, t),
    ensures
        encoded_value(v).len() == field_width(t),
        decoded_value(t, encoded_value(v)) == Option::Some(v),
{
    match v {
        ArgValue::Bool(_) => {
        },
        ArgValue::U8(_) => {
        },
        ArgValue::U32(x) => {
            assert((((x & 0xff) as u8) as u32) | (((((x >> 8) & 0xff) as u8) as u32) << 8) | (((((x
                >> 16) & 0xff) as u8) as u32) << 16) | (((((x >> 24) & 0xff) as u8) as u32) << 24)
                == x) by (bit_vector);
        },
        ArgValue::U64(x) => {
            assert((((x & 0xff) as u8) as u64) | (((((x >> 8) & 0xff) as u8) as u64) << 8) | (((((x
                >> 16) & 0xff) as u8) as u64) << 16) | (((((x >> 24) & 0xff) as u8) as u64) << 24)
                | (((((x >> 32) & 0xff) as u8) as u64) << 32) | (((((x >> 40) & 0xff) as u8) as u64)
                << 40) | (((((x >> 48) & 0xff) as u8) as u64) << 48) | (((((x >> 56)
                & 0xff) as u8) as u64) << 56) == x) by (bit_vector);
        },
    }
}

/// Law: encoding a value list against its declared schema and decoding the
/// bytes back reproduces the original values exactly, for every typed value
/// list.
pub proof fn lemma_codec_round_trip(schema: Seq<FieldType>, values: Seq<ArgValue>)
    requires
        values_match_schema(schema, values),
    ensures
        decoded_args(schema, encoded_args(values)) == Option::Some(values),
    decreases schema.len(),
{
    if schema.len() == 0 {
        assert(values =~= Seq::<ArgValue>::empty());
    } else {
        lemma_value_round_trip(values[0], schema[0]);
        let head = encoded_value(values[0]);
        let tail = encoded_args(values.skip(1));
        let w = field_width(schema[0]);
        assert(encoded_args(values) == head + tail);
        assert((head + tail).take(w) =~= head);
        assert((head + tail).skip(w) =~= tail);
        assert(values_match_schema(schema.skip(1), values.skip(1))) by {
            assert(forall|i: int|
                0 <= i < values.skip(1).len() ==> values.skip(1)[i] == values[i + 1]
                    && schema.skip(1)[i] == schema[i + 1]);
        }
        lemma_codec_round_trip(schema.skip(1), values.skip(1));
        assert(seq![values[0]] + values.skip(1) =~= values);
    }
}

} // verus!
