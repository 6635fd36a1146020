use vstd::prelude::*;

use crate::error::{Error, ErrorKind, ErrorKindM};
use crate::host::{
    hash_store, host_dup, lemma_store_all_push, spec_store, store_all, view_pairs, HostM,
    HostValue,
};
use crate::model::{enc_elems, enc_fields, enc_pairs, kind_tag, spec_encode, KindTag};
use crate::strutil::string_from_utf8;
use crate::value::{view_named_vals, view_val_pairs, view_vals, Value};

verus! {

/// The stateless entry adapter of the serialization side: every typed value
/// goes through `new_ruby_object`.
pub struct Serializer;


impl Serializer {
    /// A boolean maps onto the native host boolean.
    pub fn serialize_bool(&self, v: bool) -> (r: Result<HostValue, Error>)
        ensures
            r matches Ok(h) && h@ == HostM::Bool(v),
    {
        Ok(HostValue::Bool(v))
    }

    /// Every signed width maps onto the one native host integer.
    pub fn serialize_i8(&self, v: i8) -> (r: Result<HostValue, Error>)
        ensures
            r matches Ok(h) && h@ == HostM::Int(v as int),
    {
        self.serialize_i64(v as i64)
    }

    pub fn serialize_i16(&self, v: i16) -> (r: Result<HostValue, Error>)
        ensures
            r matches Ok(h) && h@ == HostM::Int(v as int),
    {
        self.serialize_i64(v as i64)
    }

    pub fn serialize_i32(&self, v: i32) -> (r: Result<HostValue, Error>)
        ensures
            r matches Ok(h) && h@ == HostM::Int(v as int),
    {
        self.serialize_i64(v as i64)
    }

    pub fn serialize_i64(&self, v: i64) -> (r: Result<HostValue, Error>)
        ensures
            r matches Ok(h) && h@ == HostM::Int(v as int),
    {
        Ok(HostValue::Int(v))
    }

    /// The narrow unsigned widths fit the native integer exactly.
    pub fn serialize_u8(&self, v: u8) -> (r: Result<HostValue, Error>)
        ensures
            r matches Ok(h) && h@ == HostM::Int(v as int),
    {
        self.serialize_i64(v as i64)
    }

    pub fn serialize_u16(&self, v: u16) -> (r: Result<HostValue, Error>)
        ensures
            r matches Ok(h) && h@ == HostM::Int(v as int),
    {
        self.serialize_i64(v as i64)
    }

    pub fn serialize_u32(&self, v: u32) -> (r: Result<HostValue, Error>)
        ensures
            r matches Ok(h) && h@ == HostM::Int(v as int),
    {
        self.serialize_i64(v as i64)
    }

    /// A 64-bit unsigned value above the signed range truncates into the
    /// signed host integer, a documented loss.
    pub fn serialize_u64(&self, v: u64) -> (r: Result<HostValue, Error>)
        ensures
            r matches Ok(h) && h@ == HostM::Int(crate::model::as_i64(v)),
    {
        if v <= 0x7fff_ffff_ffff_ffff {
            Ok(HostValue::Int(v as i64))
        } else {
            let x: i64 = (v - 0x8000_0000_0000_0000) as i64;
            Ok(HostValue::Int(x - i64::MAX - 1))
        }
    }

    /// Both float widths map onto the one native host float, carried by bit
    /// pattern.
    pub fn serialize_f64(&self, bits: u64) -> (r: Result<HostValue, Error>)
        ensures
            r matches Ok(h) && h@ == HostM::Float(bits),
    {
        Ok(HostValue::Float(bits))
    }

    /// A character maps onto a one-character host string.
    pub fn serialize_char(&self, c: char) -> (r: Result<HostValue, Error>)
        ensures
            r matches Ok(h) && h@ == HostM::Str(seq![c]),
    {
        let mut s = String::new();
        s.push(c);
        proof {
            assert(s@ =~= seq![c]);
        }
        Ok(HostValue::Str(s))
    }

    /// A string maps onto the native host string.
    pub fn serialize_str(&self, v: &str) -> (r: Result<HostValue, Error>)
        ensures
            r matches Ok(h) && h@ == HostM::Str(v@),
    {
        Ok(HostValue::Str(v.to_owned()))
    }

    /// A byte sequence maps onto the native host string, assuming valid text
    /// encoding; bytes that are not valid text fail.
    pub fn serialize_bytes(&self, v: &Vec<u8>) -> (r: Result<HostValue, Error>)
        ensures
            r is Ok <==> vstd::utf8::valid_utf8(v@),
            r matches Ok(h) ==> h@ == HostM::Str(vstd::utf8::decode_utf8(v@)),
            r matches Err(e) ==> e@.kind matches ErrorKindM::Message(_),
    {
        let copy = vstd::slice::slice_to_vec(v.as_slice());
        match string_from_utf8(copy) {
            Some(s) => Ok(HostValue::Str(s)),
            None => Err(
                Error::from_message("byte sequence is not valid text encoding".to_owned()),
            ),
        }
    }

    /// An absent optional maps onto the nil sentinel.
    pub fn serialize_none(&self) -> (r: Result<HostValue, Error>)
        ensures
            r matches Ok(h) && h@ == HostM::Nil,
    {
        Ok(HostValue::Nil)
    }

    /// A present optional is just its contained value, a documented loss of
    /// the wrapper.
    pub fn serialize_some(&self, value: &Value) -> (r: Result<HostValue, Error>)
        ensures
            r is Ok <==> spec_encode(value@) is Ok,
            r matches Ok(h) ==> spec_encode(value@) == Ok::<HostM, KindTag>(h@),
            r matches Err(e) ==> (spec_encode(value@) matches Err(t) && kind_tag(e@.kind) == t),
    {
        new_ruby_object(value)
    }

    /// The unit maps onto the nil sentinel.
    pub fn serialize_unit(&self) -> (r: Result<HostValue, Error>)
        ensures
            r matches Ok(h) && h@ == HostM::Nil,
    {
        self.serialize_none()
    }

    /// A unit struct carries no data and maps onto the nil sentinel too.
    pub fn serialize_unit_struct(&self) -> (r: Result<HostValue, Error>)
        ensures
            r matches Ok(h) && h@ == HostM::Nil,
    {
        self.serialize_unit()
    }

    /// A unit variant maps onto its own name as a string.
    pub fn serialize_unit_variant(&self, variant: &str) -> (r: Result<HostValue, Error>)
        ensures
            r matches Ok(h) && h@ == HostM::Str(variant@),
    {
        self.serialize_str(variant)
    }

    /// A newtype struct is a transparent wrapper around its value.
    pub fn serialize_newtype_struct(&self, value: &Value) -> (r: Result<HostValue, Error>)
        ensures
            r is Ok <==> spec_encode(value@) is Ok,
            r matches Ok(h) ==> spec_encode(value@) == Ok::<HostM, KindTag>(h@),
            r matches Err(e) ==> (spec_encode(value@) matches Err(t) && kind_tag(e@.kind) == t),
    {
        new_ruby_object(value)
    }

    /// A newtype variant maps onto a single-entry keyed container: the tag
    /// as a symbolic key, the serialized inner value as the entry.
    pub fn serialize_newtype_variant(&self, variant: &str, value: &Value) -> (r: Result<
        HostValue,
        Error,
    >)
        ensures
            r is Ok <==> spec_encode(value@) is Ok,
            r matches Ok(h) ==> (spec_encode(value@) matches Ok(hv) && h@ == HostM::Hash(
                seq![(HostM::Sym(variant@), hv)],
            )),
            r matches Err(e) ==> (spec_encode(value@) matches Err(t) && kind_tag(e@.kind) == t),
    {
        let hv = new_ruby_object(value)?;
        let mut pairs: Vec<(HostValue, HostValue)> = Vec::new();
        pairs.push((HostValue::Sym(variant.to_owned()), hv));
        proof {
            assert(view_pairs(pairs@) =~= seq![(HostM::Sym(variant@), hv@)]);
        }
        Ok(HostValue::Hash(pairs))
    }

    /// A sequence, tuple or tuple struct accumulates into an array builder.
    pub fn serialize_seq(&self) -> (r: SeqSerializer)
        ensures
            r.array@.len() == 0,
    {
        SeqSerializer::new()
    }

    pub fn serialize_tuple(&self) -> (r: SeqSerializer)
        ensures
            r.array@.len() == 0,
    {
        self.serialize_seq()
    }

    pub fn serialize_tuple_struct(&self) -> (r: SeqSerializer)
        ensures
            r.array@.len() == 0,
    {
        self.serialize_seq()
    }

    /// A tuple variant has no builder: the gap is reported at construction.
    pub fn serialize_tuple_variant(&self) -> (r: Result<TupleVariantSerializer, Error>)
        ensures
            r matches Err(e) && e@.kind == ErrorKindM::NotImplemented(
                "Serializer::serialize_tuple_variant"@,
            ) && e@.context == Seq::<Seq<char>>::empty(),
    {
        TupleVariantSerializer::new()
    }

    /// A map or struct accumulates into a keyed-container builder.
    pub fn serialize_map(&self) -> (r: MapSerializer)
        ensures
            r.hash@.len() == 0,
            r.current_key is None,
    {
        MapSerializer::new()
    }

    pub fn serialize_struct(&self) -> (r: MapSerializer)
        ensures
            r.hash@.len() == 0,
            r.current_key is None,
    {
        self.serialize_map()
    }

    /// A struct variant has no builder either: the same declared gap.
    pub fn serialize_struct_variant(&self) -> (r: Result<TupleStructSerializer, Error>)
        ensures
            r matches Err(e) && e@.kind == ErrorKindM::NotImplemented(
                "Serializer::serialize_struct_variant"@,
            ) && e@.context == Seq::<Seq<char>>::empty(),
    {
        TupleStructSerializer::new()
    }
}

/// Accumulates the elements of a sequence, tuple or tuple struct into a host
/// array.
pub struct SeqSerializer {
    pub array: Vec<HostValue>,
}

impl SeqSerializer {
    pub fn new() -> (r: SeqSerializer)
        ensures
            r.array@.len() == 0,
    {
        SeqSerializer { array: Vec::new() }
    }

    /// Serializes one element and appends it to the array being built.
    pub fn serialize_element(&mut self, value: &Value) -> (r: Result<(), Error>)
        ensures
            r is Ok <==> spec_encode(value@) is Ok,
            r is Ok ==> crate::host::view_elems(final(self).array@) == crate::host::view_elems(
                old(self).array@,
            ).push(spec_encode(value@)->Ok_0),
            r matches Err(e) ==> *final(self) == *old(self) && (spec_encode(value@) matches Err(t)
                && kind_tag(e@.kind) == t),
        decreases value, 1int, 0int,
    {
        let h = new_ruby_object(value)?;
        let ghost old_arr = self.array@;
        self.array.push(h);
        proof {
            assert(crate::host::view_elems(self.array@) =~= crate::host::view_elems(
                old_arr,
            ).push(h@));
        }
        Ok(())
    }

    /// Serializes one field of a tuple struct, exactly as an element.
    pub fn serialize_field(&mut self, value: &Value) -> (r: Result<(), Error>)
        ensures
            r is Ok <==> spec_encode(value@) is Ok,
            r is Ok ==> crate::host::view_elems(final(self).array@) == crate::host::view_elems(
                old(self).array@,
            ).push(spec_encode(value@)->Ok_0),
            r matches Err(e) ==> *final(self) == *old(self) && (spec_encode(value@) matches Err(t)
                && kind_tag(e@.kind) == t),
        decreases value, 1int, 0int,
    {
        self.serialize_element(value)
    }

    /// Hands back the built host array.
    pub fn end(self) -> (r: Result<HostValue, Error>)
        ensures
            r matches Ok(h) && h@ == HostM::Array(crate::host::view_elems(self.array@)),
    {
        Ok(HostValue::Array(self.array))
    }
}

/// Accumulates key/value entries into a host keyed container; generic map
/// entries arrive as a key-then-value call pair, struct fields arrive named
/// and take symbolic keys.
pub struct MapSerializer {
    pub hash: Vec<(HostValue, HostValue)>,
    pub current_key: Option<HostValue>,
}

impl MapSerializer {
    pub fn new() -> (r: MapSerializer)
        ensures
            r.hash@.len() == 0,
            r.current_key is None,
    {
        MapSerializer { hash: Vec::new(), current_key: None }
    }

    /// Serializes a map key and caches it for the paired value call.
    pub fn serialize_key(&mut self, key: &Value) -> (r: Result<(), Error>)
        ensures
            r is Ok <==> spec_encode(key@) is Ok,
            r is Ok ==> final(self).hash == old(self).hash && (final(self).current_key matches Some(
                k,
            ) && spec_encode(key@) == Ok::<HostM, KindTag>(k@)),
            r matches Err(e) ==> *final(self) == *old(self) && (spec_encode(key@) matches Err(t)
                && kind_tag(e@.kind) == t),
        decreases key, 1int, 0int,
    {
        let h = new_ruby_object(key)?;
        self.current_key = Some(h);
        Ok(())
    }

    /// Serializes a map value and stores it under the cached key, replacing
    /// an existing equal key's value as the host's keyed write does; a value
    /// with no key cached first is a protocol violation.
    pub fn serialize_value(&mut self, value: &Value) -> (r: Result<(), Error>)
        ensures
            r is Ok <==> (old(self).current_key is Some && spec_encode(value@) is Ok),
            r is Ok ==> final(self).current_key == old(self).current_key && (old(
                self,
            ).current_key matches Some(k) && view_pairs(final(self).hash@) == spec_store(
                view_pairs(old(self).hash@),
                k@,
                spec_encode(value@)->Ok_0,
            )),
            r matches Err(e) ==> *final(self) == *old(self) && (match old(self).current_key {
                Some(_) => spec_encode(value@) matches Err(t) && kind_tag(e@.kind) == t,
                None => e@.kind == ErrorKindM::Message("no key given"@) && e@.context == Seq::<
                    Seq<char>,
                >::empty(),
            }),
        decreases value, 1int, 0int,
    {
        match &self.current_key {
            Some(key) => {
                let h = new_ruby_object(value)?;
                let k = host_dup(key);
                hash_store(&mut self.hash, k, h);
                Ok(())
            },
            None => Err(Error::from_message("no key given".to_owned())),
        }
    }

    /// Serializes one struct field under a symbolic key, replacing an
    /// existing equal key's value as the host's keyed write does.
    pub fn serialize_field(&mut self, key: &str, value: &Value) -> (r: Result<(), Error>)
        ensures
            r is Ok <==> spec_encode(value@) is Ok,
            r is Ok ==> final(self).current_key == old(self).current_key && view_pairs(
                final(self).hash@,
            ) == spec_store(
                view_pairs(old(self).hash@),
                HostM::Sym(key@),
                spec_encode(value@)->Ok_0,
            ),
            r matches Err(e) ==> *final(self) == *old(self) && (spec_encode(value@) matches Err(t)
                && kind_tag(e@.kind) == t),
        decreases value, 1int, 0int,
    {
        let h = new_ruby_object(value)?;
        let k = HostValue::Sym(key.to_owned());
        hash_store(&mut self.hash, k, h);
        Ok(())
    }

    /// Hands back the built host keyed container.
    pub fn end(self) -> (r: Result<HostValue, Error>)
        ensures
            r matches Ok(h) && h@ == HostM::Hash(view_pairs(self.hash@)),
    {
        Ok(HostValue::Hash(self.hash))
    }
}

/// The tuple-variant accumulator: the data model declares the shape, but
/// building one is not implemented, so construction reports the gap.
#[derive(Debug)]
pub struct TupleVariantSerializer {
    pub object: HostValue,
}

impl TupleVariantSerializer {
    pub fn new() -> (r: Result<TupleVariantSerializer, Error>)
        ensures
            r matches Err(e) && e@.kind == ErrorKindM::NotImplemented(
                "Serializer::serialize_tuple_variant"@,
            ) && e@.context == Seq::<Seq<char>>::empty(),
    {
        Err(
            Error::from_kind(
                ErrorKind::NotImplemented("Serializer::serialize_tuple_variant".to_owned()),
            ),
        )
    }

    pub fn serialize_field(&mut self, _value: &Value) -> (r: Result<(), Error>)
        ensures
            r matches Err(e) && e@.kind == ErrorKindM::NotImplemented(
                "SerializeTupleVariant::serialize_field"@,
            ) && e@.context == Seq::<Seq<char>>::empty(),
            *final(self) == *old(self),
    {
        Err(
            Error::from_kind(
                ErrorKind::NotImplemented("SerializeTupleVariant::serialize_field".to_owned()),
            ),
        )
    }

    pub fn end(self) -> (r: Result<HostValue, Error>)
        ensures
            r matches Ok(h) && h@ == self.object@,
    {
        Ok(self.object)
    }
}

/// The struct-variant accumulator: the same declared gap as the tuple
/// variant.
#[derive(Debug)]
pub struct TupleStructSerializer {
    pub object: HostValue,
}

impl TupleStructSerializer {
    pub fn new() -> (r: Result<TupleStructSerializer, Error>)
        ensures
            r matches Err(e) && e@.kind == ErrorKindM::NotImplemented(
                "Serializer::serialize_struct_variant"@,
            ) && e@.context == Seq::<Seq<char>>::empty(),
    {
        Err(
            Error::from_kind(
                ErrorKind::NotImplemented("Serializer::serialize_struct_variant".to_owned()),
            ),
        )
    }

    pub fn serialize_field(&mut self, _value: &Value) -> (r: Result<(), Error>)
        ensures
            r matches Err(e) && e@.kind == ErrorKindM::NotImplemented(
                "SerializeStructVariant::serialize_field"@,
            ) && e@.context == Seq::<Seq<char>>::empty(),
            *final(self) == *old(self),
    {
        Err(
            Error::from_kind(
                ErrorKind::NotImplemented("SerializeStructVariant::serialize_field".to_owned()),
            ),
        )
    }

    pub fn end(self) -> (r: Result<HostValue, Error>)
        ensures
            r matches Ok(h) && h@ == self.object@,
    {
        Ok(self.object)
    }
}

/// Builds a host object for a typed value: primitives map onto the native
/// host primitives, absent values and units onto the nil sentinel, compounds
/// onto arrays and keyed containers, and variants onto the externally tagged
/// convention. Fails exactly where the reference encoding fails, with an
/// error of the same kind.
#[verifier::loop_isolation(false)]
pub fn new_ruby_object(value: &Value) -> (r: Result<HostValue, Error>)
    ensures
        r is Ok <==> spec_encode(value@) is Ok,
        r matches Ok(h) ==> spec_encode(value@) == Ok::<HostM, KindTag>(h@),
        r matches Err(e) ==> (spec_encode(value@) matches Err(t) && kind_tag(e@.kind) == t),
    decreases value, 0int, 0int,
{
    match value {
        Value::Bool(b) => Ok(HostValue::Bool(*b)),
        Value::I64(i) => Ok(HostValue::Int(*i)),
        Value::U32(u) => Ok(HostValue::Int(*u as i64)),
        Value::U64(u) => {
            if *u <= 0x7fff_ffff_ffff_ffff {
                Ok(HostValue::Int(*u as i64))
            } else {
                let x: i64 = (*u - 0x8000_0000_0000_0000) as i64;
                Ok(HostValue::Int(x - i64::MAX - 1))
            }
        },
        Value::F64(bits) => Ok(HostValue::Float(*bits)),
        Value::F64FromInt(i) => Ok(HostValue::Int(*i)),
        Value::Str(s) => Ok(HostValue::Str(s.clone())),
        Value::Bytes(b) => {
            let copy = vstd::slice::slice_to_vec(b.as_slice());
            match string_from_utf8(copy) {
                Some(s) => Ok(HostValue::Str(s)),
                None => Err(
                    Error::from_message("byte sequence is not valid text encoding".to_owned()),
                ),
            }
        },
        Value::Missing => Ok(HostValue::Nil),
        Value::Present(inner) => new_ruby_object(&**inner),
        Value::Unit => Ok(HostValue::Nil),
        Value::Sequence(vs) => serialize_all_elements(vs),
        Value::Tuple(vs) => serialize_all_elements(vs),
        Value::Mapping(ps) => {
            let mut ser = MapSerializer::new();
            let mut i: usize = 0;
            let ghost mut entries: Seq<(HostM, HostM)> = Seq::empty();
            proof {
                match enc_pairs(view_val_pairs(ps@), 0) {
                    Ok(rest) => {
                        assert(entries + rest =~= rest);
                    },
                    Err(_) => {},
                }
                assert(view_pairs(ser.hash@) =~= store_all(entries, 0, Seq::empty()));
            }
            while i < ps.len()
                invariant
                    i <= ps.len(),
                    match enc_pairs(view_val_pairs(ps@), i as int) {
                        Ok(rest) => enc_pairs(view_val_pairs(ps@), 0) == Ok::<
                            Seq<(HostM, HostM)>,
                            KindTag,
                        >(entries + rest),
                        Err(t) => enc_pairs(view_val_pairs(ps@), 0) == Err::<
                            Seq<(HostM, HostM)>,
                            KindTag,
                        >(t),
                    },
                    view_pairs(ser.hash@) == store_all(entries, 0, Seq::empty()),
                decreases ps.len() - i,
            {
                proof {
                    assert(decreases_to!(*value => *ps));
                    assert(decreases_to!(*ps => ps[i as int]));
                    assert(view_val_pairs(ps@)[i as int] == (ps@[i as int].0@, ps@[i as int].1@));
                }
                match ser.serialize_key(&ps[i].0) {
                    Ok(_) => {},
                    Err(e) => {
                        return Err(e);
                    },
                }
                match ser.serialize_value(&ps[i].1) {
                    Ok(_) => {},
                    Err(e) => {
                        return Err(e);
                    },
                }
                proof {
                    let psm = view_val_pairs(ps@);
                    let hk = spec_encode(psm[i as int].0)->Ok_0;
                    let hv = spec_encode(psm[i as int].1)->Ok_0;
                    lemma_store_all_push(entries, 0, Seq::empty(), hk, hv);
                    if enc_pairs(psm, i + 1) is Ok {
                        assert(entries.push((hk, hv)) + enc_pairs(psm, i + 1)->Ok_0 =~= entries + (
                        seq![(hk, hv)] + enc_pairs(psm, i + 1)->Ok_0));
                    }
                    entries = entries.push((hk, hv));
                }
                i += 1;
            }
            proof {
                assert(entries + Seq::<(HostM, HostM)>::empty() =~= entries);
            }
            ser.end()
        },
        Value::Struct(fs) => {
            let mut ser = MapSerializer::new();
            let mut i: usize = 0;
            let ghost mut entries: Seq<(HostM, HostM)> = Seq::empty();
            proof {
                match enc_fields(view_named_vals(fs@), 0) {
                    Ok(rest) => {
                        assert(entries + rest =~= rest);
                    },
                    Err(_) => {},
                }
                assert(view_pairs(ser.hash@) =~= store_all(entries, 0, Seq::empty()));
            }
            while i < fs.len()
                invariant
                    i <= fs.len(),
                    match enc_fields(view_named_vals(fs@), i as int) {
                        Ok(rest) => enc_fields(view_named_vals(fs@), 0) == Ok::<
                            Seq<(HostM, HostM)>,
                            KindTag,
                        >(entries + rest),
                        Err(t) => enc_fields(view_named_vals(fs@), 0) == Err::<
                            Seq<(HostM, HostM)>,
                            KindTag,
                        >(t),
                    },
                    view_pairs(ser.hash@) == store_all(entries, 0, Seq::empty()),
                decreases fs.len() - i,
            {
                proof {
                    assert(decreases_to!(*value => *fs));
                    assert(decreases_to!(*fs => fs[i as int]));
                    assert(view_named_vals(fs@)[i as int] == (fs@[i as int].0@, fs@[i as int].1@));
                }
                match ser.serialize_field(fs[i].0.as_str(), &fs[i].1) {
                    Ok(_) => {},
                    Err(e) => {
                        return Err(e);
                    },
                }
                proof {
                    let fsm = view_named_vals(fs@);
                    let hv = spec_encode(fsm[i as int].1)->Ok_0;
                    lemma_store_all_push(entries, 0, Seq::empty(), HostM::Sym(fsm[i as int].0), hv);
                    if enc_fields(fsm, i + 1) is Ok {
                        assert(entries.push((HostM::Sym(fsm[i as int].0), hv)) + enc_fields(
                            fsm,
                            i + 1,
                        )->Ok_0 =~= entries + (seq![(HostM::Sym(fsm[i as int].0), hv)] + enc_fields(
                            fsm,
                            i + 1,
                        )->Ok_0));
                    }
                    entries = entries.push((HostM::Sym(fsm[i as int].0), hv));
                }
                i += 1;
            }
            proof {
                assert(entries + Seq::<(HostM, HostM)>::empty() =~= entries);
            }
            ser.end()
        },
        Value::UnitVariant(n) => Ok(HostValue::Str(n.clone())),
        Value::NewtypeVariant(n, inner) => {
            let h = new_ruby_object(&**inner)?;
            let mut pairs: Vec<(HostValue, HostValue)> = Vec::new();
            pairs.push((HostValue::Sym(n.clone()), h));
            proof {
                assert(view_pairs(pairs@) =~= seq![(HostM::Sym(n@), h@)]);
            }
            Ok(HostValue::Hash(pairs))
        },
        Value::TupleVariant(_, _) => {
            match TupleVariantSerializer::new() {
                Ok(_) => Err(Error::from_message("unreachable".to_owned())),
                Err(e) => Err(e),
            }
        },
        Value::StructVariant(_, _) => {
            match TupleStructSerializer::new() {
                Ok(_) => Err(Error::from_message("unreachable".to_owned())),
                Err(e) => Err(e),
            }
        },
    }
}

/// Serializes every element of a sequence or tuple through one sequence
/// builder and hands back the built array.
#[verifier::loop_isolation(false)]
fn serialize_all_elements(vs: &Vec<Value>) -> (r: Result<HostValue, Error>)
    ensures
        r is Ok <==> enc_elems(view_vals(vs@), 0) is Ok,
        r matches Ok(h) ==> (enc_elems(view_vals(vs@), 0) matches Ok(hs) && h@ == HostM::Array(
            hs,
        )),
        r matches Err(e) ==> (enc_elems(view_vals(vs@), 0) matches Err(t) && kind_tag(e@.kind)
            == t),
    decreases vs, 0int, 0int,
{
    let mut ser = SeqSerializer::new();
    let mut i: usize = 0;
    proof {
        match enc_elems(view_vals(vs@), 0) {
            Ok(rest) => {
                assert(crate::host::view_elems(ser.array@) + rest =~= rest);
            },
            Err(_) => {},
        }
    }
    while i < vs.len()
        invariant
            i <= vs.len(),
            match enc_elems(view_vals(vs@), i as int) {
                Ok(rest) => enc_elems(view_vals(vs@), 0) == Ok::<Seq<HostM>, KindTag>(
                    crate::host::view_elems(ser.array@) + rest,
                ),
                Err(t) => enc_elems(view_vals(vs@), 0) == Err::<Seq<HostM>, KindTag>(t),
            },
        decreases vs.len() - i,
    {
        proof {
            assert(decreases_to!(*vs => vs[i as int]));
            assert(view_vals(vs@)[i as int] == vs@[i as int]@);
        }
        let ghost pre_arr = crate::host::view_elems(ser.array@);
        match ser.serialize_element(&vs[i]) {
            Ok(_) => {},
            Err(e) => {
                return Err(e);
            },
        }
        proof {
            let vsm = view_vals(vs@);
            let hv = spec_encode(vsm[i as int])->Ok_0;
            if enc_elems(vsm, i + 1) is Ok {
                assert(pre_arr.push(hv) + enc_elems(vsm, i + 1)->Ok_0 =~= pre_arr + (seq![hv]
                    + enc_elems(vsm, i + 1)->Ok_0));
            }
        }
        i += 1;
    }
    proof {
        assert(crate::host::view_elems(ser.array@) + Seq::<HostM>::empty()
            =~= crate::host::view_elems(ser.array@));
    }
    ser.end()
}

} // verus!
