use vstd::prelude::*;

use crate::model::{as_i64, as_u32, as_u64, spec_decode, spec_encode, KindTag};
use crate::value::{ShapeM, ValM, VariantShapeM};

verus! {

/// Whether a typed value is one of the primitives the converter round-trips
/// exactly: booleans, every integer width, the bit pattern of a 64-bit
/// float, a float carried as the native integer it was requested from,
/// text, valid-text byte sequences, the absent optional, and the unit.
pub open spec fn primitive_round_trippable(v: ValM) -> bool {
    match v {
        ValM::Bool(_) => true,
        ValM::I64(i) => i64::MIN <= i <= i64::MAX,
        ValM::U32(_) => true,
        ValM::U64(_) => true,
        ValM::F64(_) => true,
        ValM::F64FromInt(i) => i64::MIN <= i <= i64::MAX,
        ValM::Str(_) => true,
        ValM::Bytes(b) => vstd::utf8::valid_utf8(b),
        ValM::Missing => true,
        ValM::Unit => true,
        _ => false,
    }
}

/// The requested shape under which a round-tripped primitive comes back.
pub open spec fn primitive_shape(v: ValM) -> ShapeM {
    match v {
        ValM::Bool(_) => ShapeM::Bool,
        ValM::I64(_) => ShapeM::I64,
        ValM::U32(_) => ShapeM::U32,
        ValM::U64(_) => ShapeM::U64,
        ValM::F64(_) => ShapeM::F64,
        ValM::F64FromInt(_) => ShapeM::F64,
        ValM::Str(_) => ShapeM::Str,
        ValM::Bytes(_) => ShapeM::Bytes,
        ValM::Missing => ShapeM::Optional(Box::new(ShapeM::Any)),
        _ => ShapeM::Unit,
    }
}

/// Encoding a supported primitive always builds a host value, and decoding
/// that host value back under the primitive's own shape returns the value
/// unchanged.
pub proof fn lemma_primitive_round_trip(v: ValM)
    requires
        primitive_round_trippable(v),
    ensures
        spec_encode(v) is Ok,
        spec_decode(spec_encode(v).unwrap(), primitive_shape(v)) == Ok::<ValM, KindTag>(v),
{
    match v {
        ValM::U32(u) => {
            assert(as_u64(u as int) == u as u64);
            assert(as_u32(u as int) == u) by {
                assert((u as u64) % 0x1_0000_0000 == u as u64) by (nonlinear_arith)
                    requires
                        u < 0x1_0000_0000u64,
                ;
            }
        },
        ValM::U64(u) => {
            assert(as_u64(as_i64(u)) == u);
        },
        ValM::Bytes(b) => {
            vstd::utf8::decode_utf8_encode_utf8(b);
            assert(vstd::utf8::encode_utf8(vstd::utf8::decode_utf8(b)) == b);
        },
        _ => {},
    }
}

/// An externally tagged variant round-trips: a unit variant travels as the
/// bare tag string, a newtype variant whose payload is a supported primitive
/// travels as a single-entry container keyed by the tag, and each decodes
/// back to the same variant under an enum that declares it.
pub proof fn lemma_variant_round_trip(v: ValM, variants: Seq<(Seq<char>, VariantShapeM)>)
    requires
        match v {
            ValM::UnitVariant(tag) => crate::value::find_variant(variants, tag) == Some(
                VariantShapeM::Unit,
            ),
            ValM::NewtypeVariant(tag, payload) => payload.len() == 1
                && primitive_round_trippable(payload[0]) && crate::value::find_variant(
                variants,
                tag,
            ) == Some(VariantShapeM::Newtype(Box::new(primitive_shape(payload[0])))),
            _ => false,
        },
    ensures
        spec_encode(v) is Ok,
        spec_decode(spec_encode(v).unwrap(), ShapeM::Enum(variants)) == Ok::<ValM, KindTag>(v),
{
    match v {
        ValM::UnitVariant(tag) => {
            let h = spec_encode(v).unwrap();
            assert(h == crate::host::HostM::Str(tag));
            assert(crate::host::spec_to_s(h) == Some(tag));
            assert(crate::model::dec_enum(h, variants) == Ok::<ValM, KindTag>(
                ValM::UnitVariant(tag),
            ));
            assert(spec_decode(h, ShapeM::Enum(variants)) == crate::model::dec_enum(h, variants));
        },
        ValM::NewtypeVariant(tag, payload) => {
            lemma_primitive_round_trip(payload[0]);
            let ph = spec_encode(payload[0]).unwrap();
            let h = spec_encode(v).unwrap();
            assert(h == crate::host::HostM::Hash(
                seq![(crate::host::HostM::Sym(tag), ph)],
            ));
            let pairs = seq![(crate::host::HostM::Sym(tag), ph)];
            assert(pairs[0] == (crate::host::HostM::Sym(tag), ph));
            assert(crate::host::spec_to_s(pairs[0].0) == Some(tag));
            assert(spec_decode(pairs[0].1, primitive_shape(payload[0])) == Ok::<ValM, KindTag>(
                payload[0],
            ));
            assert(seq![payload[0]] =~= payload);
            assert(crate::model::dec_enum(h, variants) == Ok::<ValM, KindTag>(
                ValM::NewtypeVariant(tag, payload),
            ));
            assert(spec_decode(h, ShapeM::Enum(variants)) == crate::model::dec_enum(h, variants));
        },
        _ => {},
    }
}

} // verus!
