use vstd::prelude::*;

use crate::error::ErrorKindM;
use crate::host::{fetch_by_name, spec_call, spec_fetch, spec_to_s, store_all, HostM};
use crate::value::{find_variant, ShapeM, ValM, VariantShapeM};

verus! {

/// Which of the three failure kinds an outcome carries; the codec's
/// contracts classify every failure by this tag.
#[derive(Debug)]
pub enum KindTag {
    Msg,
    Foreign,
    NotImpl,
}

/// The tag of an error kind.
pub open spec fn kind_tag(k: ErrorKindM) -> KindTag {
    match k {
        ErrorKindM::Message(_) => KindTag::Msg,
        ErrorKindM::RutieException(_) => KindTag::Foreign,
        ErrorKindM::NotImplemented(_) => KindTag::NotImpl,
    }
}

/// The unsigned reinterpretation of a signed 64-bit value.
pub open spec fn as_u64(i: int) -> u64 {
    if i >= 0 {
        i as u64
    } else {
        (i + 0x1_0000_0000_0000_0000) as u64
    }
}

/// The low 32 bits of a signed 64-bit value, as the narrow unsigned decode
/// takes them.
pub open spec fn as_u32(i: int) -> u32 {
    (as_u64(i) % 0x1_0000_0000) as u32
}

/// The signed reinterpretation of an unsigned 64-bit value, as the encode of
/// a 64-bit unsigned value truncates it.
pub open spec fn as_i64(u: u64) -> int {
    if u <= 0x7fff_ffff_ffff_ffff {
        u as int
    } else {
        u - 0x1_0000_0000_0000_0000
    }
}

broadcast use {
    crate::host::lemma_fetch_smaller,
    crate::host::lemma_fetch_by_name_smaller,
    crate::host::lemma_call_smaller,
    crate::value::lemma_find_variant_smaller,
};

/// The declared shape of the named field, if the struct declares one.
pub open spec fn find_field(fields: Seq<(Seq<char>, ShapeM)>, name: Seq<char>) -> Option<ShapeM>
    decreases fields.len(),
{
    if fields.len() == 0 {
        None
    } else if fields[0].0 == name {
        Some(fields[0].1)
    } else {
        find_field(fields.drop_first(), name)
    }
}

/// What decoding a host value against a requested shape yields: the typed
/// value, or the kind of failure. This is the reference meaning of the
/// deserializer.
pub open spec fn spec_decode(h: HostM, s: ShapeM) -> Result<ValM, KindTag>
    decreases h, s, 2int,
{
    match s {
        ShapeM::Any => match h {
            HostM::Nil => Ok(ValM::Unit),
            HostM::Array(elems) => match dec_elems(elems, ShapeM::Any, 0) {
                Ok(vs) => Ok(ValM::Sequence(vs)),
                Err(t) => Err(t),
            },
            HostM::Int(i) => Ok(ValM::I64(i)),
            HostM::Float(bits) => Ok(ValM::F64(bits)),
            HostM::Hash(pairs) => match dec_map_pairs(pairs, ShapeM::Any, ShapeM::Any, 0) {
                Ok(ps) => Ok(ValM::Mapping(ps)),
                Err(t) => Err(t),
            },
            HostM::Str(str0) => Ok(ValM::Str(str0)),
            HostM::Bool(b) => Ok(ValM::Bool(b)),
            _ => Err(KindTag::Msg),
        },
        ShapeM::Bool => match h {
            HostM::Bool(b) => Ok(ValM::Bool(b)),
            _ => Err(KindTag::Msg),
        },
        ShapeM::I8 => dec_i64(h),
        ShapeM::I16 => dec_i64(h),
        ShapeM::I32 => dec_i64(h),
        ShapeM::I64 => dec_i64(h),
        ShapeM::U8 => dec_u32(h),
        ShapeM::U16 => dec_u32(h),
        ShapeM::U32 => dec_u32(h),
        ShapeM::U64 => match h {
            HostM::Int(i) => Ok(ValM::U64(as_u64(i))),
            _ => Err(KindTag::Msg),
        },
        ShapeM::F32 => dec_f64(h),
        ShapeM::F64 => dec_f64(h),
        ShapeM::Char => match spec_to_s(h) {
            Some(str0) => if str0.len() == 1 {
                Ok(ValM::Str(str0))
            } else {
                Err(KindTag::Msg)
            },
            None => Err(KindTag::Msg),
        },
        ShapeM::Str => match spec_to_s(h) {
            Some(str0) => Ok(ValM::Str(str0)),
            None => Err(KindTag::Msg),
        },
        ShapeM::Identifier => match spec_to_s(h) {
            Some(str0) => Ok(ValM::Str(str0)),
            None => Err(KindTag::Msg),
        },
        ShapeM::Bytes => match h {
            HostM::Str(str0) => Ok(ValM::Bytes(vstd::utf8::encode_utf8(str0))),
            _ => Err(KindTag::Msg),
        },
        ShapeM::ByteBuf => match h {
            HostM::Str(str0) => Ok(ValM::Bytes(vstd::utf8::encode_utf8(str0))),
            _ => Err(KindTag::Msg),
        },
        ShapeM::Optional(inner) => match h {
            HostM::Nil => Ok(ValM::Missing),
            _ => match spec_decode(h, *inner) {
                Ok(v) => Ok(ValM::Present(seq![v])),
                Err(t) => Err(t),
            },
        },
        ShapeM::Unit => match h {
            HostM::Nil => Ok(ValM::Unit),
            _ => Err(KindTag::Msg),
        },
        ShapeM::UnitStruct => Ok(ValM::Unit),
        ShapeM::NewtypeStruct(inner) => spec_decode(h, *inner),
        ShapeM::Sequence(elem) => match h {
            HostM::Array(elems) => match dec_elems(elems, *elem, 0) {
                Ok(vs) => Ok(ValM::Sequence(vs)),
                Err(t) => Err(t),
            },
            _ => Err(KindTag::Foreign),
        },
        ShapeM::Tuple(shapes) => match h {
            HostM::Array(elems) => match dec_tuple(elems, shapes, 0) {
                Ok(vs) => Ok(ValM::Tuple(vs)),
                Err(t) => Err(t),
            },
            _ => Err(KindTag::Foreign),
        },
        ShapeM::TupleStruct(shapes) => match h {
            HostM::Array(elems) => match dec_tuple(elems, shapes, 0) {
                Ok(vs) => Ok(ValM::Tuple(vs)),
                Err(t) => Err(t),
            },
            _ => Err(KindTag::Foreign),
        },
        ShapeM::Mapping(ks, vs) => match h {
            HostM::Hash(pairs) => match dec_map_pairs(pairs, *ks, *vs, 0) {
                Ok(ps) => Ok(ValM::Mapping(ps)),
                Err(t) => Err(t),
            },
            _ => Err(KindTag::Foreign),
        },
        ShapeM::Struct(fields) => match h {
            HostM::Hash(pairs) => match walk_struct_pairs(pairs, fields, 0, Seq::empty()) {
                Ok(_) => match build_struct(pairs, fields, 0) {
                    Ok(fs) => Ok(ValM::Struct(fs)),
                    Err(t) => Err(t),
                },
                Err(t) => Err(t),
            },
            _ => match dec_obj_fields(h, fields, 0) {
                Ok(fs) => Ok(ValM::Struct(fs)),
                Err(t) => Err(t),
            },
        },
        ShapeM::Enum(variants) => dec_enum(h, variants),
        ShapeM::IgnoredAny => Ok(ValM::Missing),
    }
}

/// Decoding against any signed integer width: every width takes the host's
/// one native integer whole.
pub open spec fn dec_i64(h: HostM) -> Result<ValM, KindTag> {
    match h {
        HostM::Int(i) => Ok(ValM::I64(i)),
        _ => Err(KindTag::Msg),
    }
}

/// Decoding against a narrow unsigned width: the native integer's low 32
/// bits, reinterpreted.
pub open spec fn dec_u32(h: HostM) -> Result<ValM, KindTag> {
    match h {
        HostM::Int(i) => Ok(ValM::U32(as_u32(i))),
        _ => Err(KindTag::Msg),
    }
}

/// Decoding against a float width: a native float's bit pattern is carried
/// through unchanged; as a fallback a native integer is accepted and carried
/// as itself, for the host edge to coerce to 64-bit floating point.
pub open spec fn dec_f64(h: HostM) -> Result<ValM, KindTag> {
    match h {
        HostM::Float(bits) => Ok(ValM::F64(bits)),
        HostM::Int(i) => Ok(ValM::F64FromInt(i)),
        _ => Err(KindTag::Msg),
    }
}

/// Decoding the elements of a host array in order against one element shape;
/// the first failure wins.
pub open spec fn dec_elems(elems: Seq<HostM>, s: ShapeM, i: int) -> Result<Seq<ValM>, KindTag>
    decreases elems, s, elems.len() - i,
{
    if i < 0 || i >= elems.len() {
        Ok(Seq::empty())
    } else {
        match spec_decode(elems[i], s) {
            Ok(v) => match dec_elems(elems, s, i + 1) {
                Ok(vs) => Ok(seq![v] + vs),
                Err(t) => Err(t),
            },
            Err(t) => Err(t),
        }
    }
}

/// Decoding a tuple: element k of the host array against shape k; a host
/// array shorter than the tuple fails, extra elements are left unread.
pub open spec fn dec_tuple(elems: Seq<HostM>, shapes: Seq<ShapeM>, i: int) -> Result<
    Seq<ValM>,
    KindTag,
>
    decreases elems, shapes, shapes.len() - i,
{
    if i < 0 || i >= shapes.len() {
        Ok(Seq::empty())
    } else if i >= elems.len() {
        Err(KindTag::Msg)
    } else {
        match spec_decode(elems[i], shapes[i]) {
            Ok(v) => match dec_tuple(elems, shapes, i + 1) {
                Ok(vs) => Ok(seq![v] + vs),
                Err(t) => Err(t),
            },
            Err(t) => Err(t),
        }
    }
}

/// Decoding the entries of a host keyed container in enumeration order: each
/// key is decoded as a typed value, then the entry's value is looked up by
/// that key and decoded; a key whose lookup finds no entry fails as a failed
/// host dispatch does.
pub open spec fn dec_map_pairs(
    pairs: Seq<(HostM, HostM)>,
    ks: ShapeM,
    vs: ShapeM,
    i: int,
) -> Result<Seq<(ValM, ValM)>, KindTag>
    decreases pairs, vs, pairs.len() - i,
{
    if i < 0 || i >= pairs.len() {
        Ok(Seq::empty())
    } else {
        match spec_decode(pairs[i].0, ks) {
            Ok(kv) => match spec_fetch(pairs, pairs[i].0) {
                Some(hv) => match spec_decode(hv, vs) {
                    Ok(vv) => match dec_map_pairs(pairs, ks, vs, i + 1) {
                        Ok(rest) => Ok(seq![(kv, vv)] + rest),
                        Err(t) => Err(t),
                    },
                    Err(t) => Err(t),
                },
                None => Err(KindTag::Foreign),
            },
            Err(t) => Err(t),
        }
    }
}

/// The validity walk of a keyed container decoded as a struct: every key
/// must stringify; a key that names a declared field must be distinct among
/// those and its entry's value must decode against the field's shape; a key
/// that names no declared field has its entry looked up and then ignored.
/// At the end every declared field must have appeared.
pub open spec fn walk_struct_pairs(
    pairs: Seq<(HostM, HostM)>,
    fields: Seq<(Seq<char>, ShapeM)>,
    i: int,
    seen: Seq<Seq<char>>,
) -> Result<(), KindTag>
    decreases pairs, fields, pairs.len() - i,
{
    if i < 0 || i >= pairs.len() {
        if forall|k: int| 0 <= k < fields.len() ==> seen.contains(#[trigger] fields[k].0) {
            Ok(())
        } else {
            Err(KindTag::Msg)
        }
    } else {
        match spec_to_s(pairs[i].0) {
            Some(name) => match find_field(fields, name) {
                Some(fshape) => if seen.contains(name) {
                    Err(KindTag::Msg)
                } else {
                    match spec_fetch(pairs, pairs[i].0) {
                        Some(hv) => match spec_decode(hv, fshape) {
                            Ok(_) => walk_struct_pairs(pairs, fields, i + 1, seen.push(name)),
                            Err(t) => Err(t),
                        },
                        None => Err(KindTag::Foreign),
                    }
                },
                None => match spec_fetch(pairs, pairs[i].0) {
                    Some(_) => walk_struct_pairs(pairs, fields, i + 1, seen),
                    None => Err(KindTag::Foreign),
                },
            },
            None => Err(KindTag::Msg),
        }
    }
}

/// The declared field whose entry's value is the first failure of the
/// struct walk, if the first failure is such a value; the other failure
/// modes (a key that does not stringify, a failed lookup, a duplicate or a
/// missing field) carry no field name.
pub open spec fn walk_fail_field(
    pairs: Seq<(HostM, HostM)>,
    fields: Seq<(Seq<char>, ShapeM)>,
    i: int,
    seen: Seq<Seq<char>>,
) -> Option<Seq<char>>
    decreases pairs, fields, pairs.len() - i,
{
    if i < 0 || i >= pairs.len() {
        None
    } else {
        match spec_to_s(pairs[i].0) {
            Some(name) => match find_field(fields, name) {
                Some(fshape) => if seen.contains(name) {
                    None
                } else {
                    match spec_fetch(pairs, pairs[i].0) {
                        Some(hv) => match spec_decode(hv, fshape) {
                            Ok(_) => walk_fail_field(pairs, fields, i + 1, seen.push(name)),
                            Err(_) => Some(name),
                        },
                        None => None,
                    }
                },
                None => match spec_fetch(pairs, pairs[i].0) {
                    Some(_) => walk_fail_field(pairs, fields, i + 1, seen),
                    None => None,
                },
            },
            None => None,
        }
    }
}

/// The struct assembled from a keyed container: each declared field, in
/// declaration order, takes the decoded value of the first entry whose key
/// stringifies to its name.
pub open spec fn build_struct(
    pairs: Seq<(HostM, HostM)>,
    fields: Seq<(Seq<char>, ShapeM)>,
    i: int,
) -> Result<Seq<(Seq<char>, ValM)>, KindTag>
    decreases pairs, fields, fields.len() - i,
{
    if i < 0 || i >= fields.len() {
        Ok(Seq::empty())
    } else {
        match fetch_by_name(pairs, fields[i].0) {
            Some(hv) => match spec_decode(hv, fields[i].1) {
                Ok(v) => match build_struct(pairs, fields, i + 1) {
                    Ok(rest) => Ok(seq![(fields[i].0, v)] + rest),
                    Err(t) => Err(t),
                },
                Err(t) => Err(t),
            },
            None => Err(KindTag::Msg),
        }
    }
}

/// Decoding a struct from a plain object: each declared field name, in
/// order, is dispatched as a method on the object and the result decoded
/// against the field's shape; an object that does not answer fails as a
/// failed host dispatch does.
pub open spec fn dec_obj_fields(h: HostM, fields: Seq<(Seq<char>, ShapeM)>, i: int) -> Result<
    Seq<(Seq<char>, ValM)>,
    KindTag,
>
    decreases h, fields, fields.len() - i,
{
    if i < 0 || i >= fields.len() {
        Ok(Seq::empty())
    } else {
        match h {
            HostM::Object { methods, .. } => match spec_call(methods, fields[i].0) {
                Some(hv) => match spec_decode(hv, fields[i].1) {
                    Ok(v) => match dec_obj_fields(h, fields, i + 1) {
                        Ok(rest) => Ok(seq![(fields[i].0, v)] + rest),
                        Err(t) => Err(t),
                    },
                    Err(t) => Err(t),
                },
                None => Err(KindTag::Foreign),
            },
            _ => Err(KindTag::Foreign),
        }
    }
}

/// The tag and payload an externally tagged enum reading takes from a host
/// value: a keyed container carries the tag as its first key, stringified,
/// and the payload as the first value; any other host value is its own tag
/// and its own payload. An empty container carries no tag.
pub open spec fn spec_enum_parts(h: HostM) -> Option<(Seq<char>, HostM)> {
    match h {
        HostM::Hash(pairs) => if pairs.len() == 0 {
            None
        } else {
            match spec_to_s(pairs[0].0) {
                Some(tag) => Some((tag, pairs[0].1)),
                None => None,
            }
        },
        _ => match spec_to_s(h) {
            Some(tag) => Some((tag, h)),
            None => None,
        },
    }
}

/// Decoding an externally tagged enum: a keyed container carries the tag as
/// its first key (stringified) and the payload as the first value; any other
/// host value is its own tag and its own payload. The tag picks the declared
/// variant; tuple and struct payloads are not implemented.
pub open spec fn dec_enum(h: HostM, variants: Seq<(Seq<char>, VariantShapeM)>) -> Result<
    ValM,
    KindTag,
>
    decreases h, variants, 1int,
{
    match h {
        HostM::Hash(pairs) => if pairs.len() == 0 {
            Err(KindTag::Msg)
        } else {
            let tag_src = pairs[0].0;
            let content = pairs[0].1;
            match spec_to_s(tag_src) {
                Some(tag) => match find_variant(variants, tag) {
                    Some(VariantShapeM::Unit) => Ok(ValM::UnitVariant(tag)),
                    Some(VariantShapeM::Newtype(inner)) => match spec_decode(content, *inner) {
                        Ok(v) => Ok(ValM::NewtypeVariant(tag, seq![v])),
                        Err(t) => Err(t),
                    },
                    Some(VariantShapeM::Tuple(_)) => Err(KindTag::NotImpl),
                    Some(VariantShapeM::Struct(_)) => Err(KindTag::NotImpl),
                    None => Err(KindTag::Msg),
                },
                None => Err(KindTag::Msg),
            }
        },
        _ => match spec_to_s(h) {
            Some(tag) => match find_variant(variants, tag) {
                Some(VariantShapeM::Unit) => Ok(ValM::UnitVariant(tag)),
                Some(VariantShapeM::Newtype(inner)) => match spec_decode(h, *inner) {
                    Ok(v) => Ok(ValM::NewtypeVariant(tag, seq![v])),
                    Err(t) => Err(t),
                },
                Some(VariantShapeM::Tuple(_)) => Err(KindTag::NotImpl),
                Some(VariantShapeM::Struct(_)) => Err(KindTag::NotImpl),
                None => Err(KindTag::Msg),
            },
            None => Err(KindTag::Msg),
        },
    }
}

/// The first position at or after `i` whose element fails to decode against
/// the element shape; meaningful only when some element fails.
pub open spec fn first_elem_err(elems: Seq<HostM>, s: ShapeM, i: int) -> int
    decreases elems, s, elems.len() - i,
{
    if i < 0 || i >= elems.len() {
        i
    } else if spec_decode(elems[i], s) is Err {
        i
    } else {
        first_elem_err(elems, s, i + 1)
    }
}

/// The first tuple position at or after `i` that fails: its element is
/// missing or fails to decode against its shape; meaningful only when the
/// tuple decoding fails.
pub open spec fn first_tuple_err(elems: Seq<HostM>, shapes: Seq<ShapeM>, i: int) -> int
    decreases elems, shapes, shapes.len() - i,
{
    if i < 0 || i >= shapes.len() {
        i
    } else if i >= elems.len() {
        i
    } else if spec_decode(elems[i], shapes[i]) is Err {
        i
    } else {
        first_tuple_err(elems, shapes, i + 1)
    }
}

/// The first declared field at or after `i` that fails in object mode: the
/// object does not answer its name, or the answer fails to decode;
/// meaningful only when the object-mode decoding fails.
pub open spec fn first_obj_err(h: HostM, fields: Seq<(Seq<char>, ShapeM)>, i: int) -> int
    decreases h, fields, fields.len() - i,
{
    if i < 0 || i >= fields.len() {
        i
    } else {
        match h {
            HostM::Object { methods, .. } => match spec_call(methods, fields[i].0) {
                Some(hv) => if spec_decode(hv, fields[i].1) is Err {
                    i
                } else {
                    first_obj_err(h, fields, i + 1)
                },
                None => i,
            },
            _ => i,
        }
    }
}

/// What encoding a typed value yields: the built host value, or the kind of
/// failure. This is the reference meaning of the serializer.
pub open spec fn spec_encode(v: ValM) -> Result<HostM, KindTag>
    decreases v, 1int, 0int,
{
    match v {
        ValM::Bool(b) => Ok(HostM::Bool(b)),
        ValM::I64(i) => Ok(HostM::Int(i)),
        ValM::U32(u) => Ok(HostM::Int(u as int)),
        ValM::U64(u) => Ok(HostM::Int(as_i64(u))),
        ValM::F64(bits) => Ok(HostM::Float(bits)),
        ValM::F64FromInt(i) => Ok(HostM::Int(i)),
        ValM::Str(s) => Ok(HostM::Str(s)),
        ValM::Bytes(b) => if vstd::utf8::valid_utf8(b) {
            Ok(HostM::Str(vstd::utf8::decode_utf8(b)))
        } else {
            Err(KindTag::Msg)
        },
        ValM::Missing => Ok(HostM::Nil),
        ValM::Present(inner) => if inner.len() == 1 {
            spec_encode(inner[0])
        } else {
            Err(KindTag::Msg)
        },
        ValM::Unit => Ok(HostM::Nil),
        ValM::Sequence(vs) => match enc_elems(vs, 0) {
            Ok(hs) => Ok(HostM::Array(hs)),
            Err(t) => Err(t),
        },
        ValM::Tuple(vs) => match enc_elems(vs, 0) {
            Ok(hs) => Ok(HostM::Array(hs)),
            Err(t) => Err(t),
        },
        ValM::Mapping(ps) => match enc_pairs(ps, 0) {
            Ok(entries) => Ok(HostM::Hash(store_all(entries, 0, Seq::empty()))),
            Err(t) => Err(t),
        },
        ValM::Struct(fs) => match enc_fields(fs, 0) {
            Ok(entries) => Ok(HostM::Hash(store_all(entries, 0, Seq::empty()))),
            Err(t) => Err(t),
        },
        ValM::UnitVariant(n) => Ok(HostM::Str(n)),
        ValM::NewtypeVariant(n, inner) => if inner.len() == 1 {
            match spec_encode(inner[0]) {
                Ok(hv) => Ok(HostM::Hash(seq![(HostM::Sym(n), hv)])),
                Err(t) => Err(t),
            }
        } else {
            Err(KindTag::Msg)
        },
        ValM::TupleVariant(_, _) => Err(KindTag::NotImpl),
        ValM::StructVariant(_, _) => Err(KindTag::NotImpl),
    }
}

/// Encoding the elements of a sequence or tuple in order; the first failure
/// wins.
pub open spec fn enc_elems(vs: Seq<ValM>, i: int) -> Result<Seq<HostM>, KindTag>
    decreases vs, 0int, vs.len() - i,
{
    if i < 0 || i >= vs.len() {
        Ok(Seq::empty())
    } else {
        match spec_encode(vs[i]) {
            Ok(h) => match enc_elems(vs, i + 1) {
                Ok(hs) => Ok(seq![h] + hs),
                Err(t) => Err(t),
            },
            Err(t) => Err(t),
        }
    }
}

/// Encoding the entries of a map in order, key then value, as the raw entry
/// list before keyed storage; the first failure wins.
pub open spec fn enc_pairs(ps: Seq<(ValM, ValM)>, i: int) -> Result<Seq<(HostM, HostM)>, KindTag>
    decreases ps, 0int, ps.len() - i,
{
    if i < 0 || i >= ps.len() {
        Ok(Seq::empty())
    } else {
        match spec_encode(ps[i].0) {
            Ok(hk) => match spec_encode(ps[i].1) {
                Ok(hv) => match enc_pairs(ps, i + 1) {
                    Ok(hs) => Ok(seq![(hk, hv)] + hs),
                    Err(t) => Err(t),
                },
                Err(t) => Err(t),
            },
            Err(t) => Err(t),
        }
    }
}

/// Encoding a struct's fields in order, as the raw entry list before keyed
/// storage: each field name becomes a symbolic key, each value is encoded;
/// the first failure wins.
pub open spec fn enc_fields(fs: Seq<(Seq<char>, ValM)>, i: int) -> Result<
    Seq<(HostM, HostM)>,
    KindTag,
>
    decreases fs, 0int, fs.len() - i,
{
    if i < 0 || i >= fs.len() {
        Ok(Seq::empty())
    } else {
        match spec_encode(fs[i].1) {
            Ok(hv) => match enc_fields(fs, i + 1) {
                Ok(hs) => Ok(seq![(HostM::Sym(fs[i].0), hv)] + hs),
                Err(t) => Err(t),
            },
            Err(t) => Err(t),
        }
    }
}

} // verus!
