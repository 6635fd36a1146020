use vstd::prelude::*;

use crate::error::{Error, ErrorKind, ErrorKindM};
use crate::host::{
    fetch_by_name, hash_fetch, object_call, spec_call, spec_class_name, spec_fetch, spec_to_s,
    view_pairs, HostM, HostValue,
};
use crate::model::{
    build_struct, dec_elems, dec_map_pairs, dec_obj_fields, dec_tuple, find_field,
    first_elem_err, first_obj_err, first_tuple_err, kind_tag, spec_decode, spec_enum_parts,
    walk_struct_pairs, KindTag,
};
use crate::strutil::{chars_of, spec_dec_digits, usize_to_string};
use crate::value::{
    find_variant, view_fields, view_named_vals, view_shapes, view_val_pairs, view_vals,
    view_variants, Shape, ShapeM, ValM, Value, VariantShape,
};

verus! {

/// The message a failed type coercion carries: the source object's runtime
/// class name and the requested target shape.
pub open spec fn spec_mismatch_msg(h: HostM, target: Seq<char>) -> Seq<char> {
    "cannot deserialize "@ + spec_class_name(h) + " as "@ + target
}

/// The shapes that decode through the one native integer.
pub open spec fn is_integer_shape(s: ShapeM) -> bool {
    ||| s == ShapeM::I8
    ||| s == ShapeM::I16
    ||| s == ShapeM::I32
    ||| s == ShapeM::I64
    ||| s == ShapeM::U8
    ||| s == ShapeM::U16
    ||| s == ShapeM::U32
    ||| s == ShapeM::U64
}

/// How a key renders in a failure context: its stringification where it has
/// one, else its class name.
pub open spec fn spec_key_desc(k: HostM) -> Seq<char> {
    match spec_to_s(k) {
        Some(s) => s,
        None => spec_class_name(k),
    }
}

/// A cursor over a host array during sequence decoding: hands out each
/// element once, in order, and reports exhaustion at the end.
pub struct SeqAccess<'a> {
    pub arr: &'a Vec<HostValue>,
    pub pos: usize,
}

impl<'a> SeqAccess<'a> {
    pub fn new(arr: &'a Vec<HostValue>) -> (r: Self)
        ensures
            r.arr == arr,
            r.pos == 0,
    {
        SeqAccess { arr, pos: 0 }
    }

    /// The next element, or nothing once the position has reached the
    /// length; an exhausted cursor stays exhausted and never re-visits an
    /// index.
    pub fn next_element(&mut self) -> (r: Option<&'a HostValue>)
        requires
            old(self).pos <= old(self).arr@.len(),
        ensures
            final(self).arr == old(self).arr,
            old(self).pos == old(self).arr@.len() ==> r is None && final(self).pos == old(
                self,
            ).pos,
            old(self).pos < old(self).arr@.len() ==> (r matches Some(v) && *v == old(
                self,
            ).arr@[old(self).pos as int] && final(self).pos == old(self).pos + 1),
    {
        if self.pos == self.arr.len() {
            None
        } else {
            let v = &self.arr[self.pos];
            self.pos = self.pos + 1;
            Some(v)
        }
    }

    /// How many elements are still to come.
    pub fn size_hint(&self) -> (r: usize)
        requires
            self.pos <= self.arr@.len(),
        ensures
            r == self.arr@.len() - self.pos,
    {
        self.arr.len() - self.pos
    }
}

/// A cursor over a host keyed container during map decoding: enumerates the
/// keys in order, and looks the current key up when its value is asked for.
pub struct HashAccess<'a> {
    pub pairs: &'a Vec<(HostValue, HostValue)>,
    pub current_key: Option<&'a HostValue>,
    pub pos: usize,
}

impl<'a> HashAccess<'a> {
    pub fn new(pairs: &'a Vec<(HostValue, HostValue)>) -> (r: Self)
        ensures
            r.pairs == pairs,
            r.pos == 0,
            r.current_key is None,
    {
        HashAccess { pairs, current_key: None, pos: 0 }
    }

    /// The key the next lookup uses: the current key where one has been
    /// handed out, else the nil sentinel the cursor starts with.
    pub open spec fn key_m(&self) -> HostM {
        match self.current_key {
            Some(k) => k@,
            None => HostM::Nil,
        }
    }

    /// The next key, or nothing once the position has reached the length; an
    /// exhausted cursor stays exhausted.
    pub fn next_key(&mut self) -> (r: Option<&'a HostValue>)
        requires
            old(self).pos <= old(self).pairs@.len(),
        ensures
            final(self).pairs == old(self).pairs,
            final(self).pos == old(self).pos,
            old(self).pos == old(self).pairs@.len() ==> r is None && *final(self) == *old(self),
            old(self).pos < old(self).pairs@.len() ==> (r matches Some(k) && *k == old(
                self,
            ).pairs@[old(self).pos as int].0 && final(self).current_key == Some(k)),
    {
        if self.pos == self.pairs.len() {
            None
        } else {
            let k = &self.pairs[self.pos].0;
            self.current_key = Some(k);
            Some(k)
        }
    }

    /// The value of the current key, looked up in the container; a key with
    /// no matching entry fails as a failed host dispatch does, with context
    /// naming the key — never a default or nil value, and the cursor does
    /// not advance. This holds of every cursor state, including a current
    /// key that the container no longer carries. On success the cursor
    /// advances.
    pub fn next_value(&mut self) -> (r: Result<&'a HostValue, Error>)
        requires
            old(self).pos < old(self).pairs@.len(),
        ensures
            final(self).pairs == old(self).pairs,
            final(self).current_key == old(self).current_key,
            match spec_fetch(view_pairs(old(self).pairs@), old(self).key_m()) {
                Some(hv) => r matches Ok(v) && v@ == hv && final(self).pos == old(self).pos + 1
                    && (exists|j: int|
                    0 <= j < old(self).pairs@.len() && *v == #[trigger] old(self).pairs@[j].1),
                None => r matches Err(e) && e@.kind matches ErrorKindM::RutieException(_)
                    && e@.context == seq!["While deserializing key "@ + spec_key_desc(
                    old(self).key_m(),
                )] && *final(self) == *old(self),
            },
    {
        let nil_key = HostValue::Nil;
        let key: &HostValue = match &self.current_key {
            Some(k) => *k,
            None => &nil_key,
        };
        match hash_fetch(self.pairs, key) {
            Some(v) => {
                let n = self.pairs.len();
                proof {
                    assert(self.pos < n);
                }
                self.pos = self.pos + 1;
                Ok(v)
            },
            None => {
                let mut desc = "While deserializing key ".to_owned();
                let key_text = match key.to_s() {
                    Ok(t) => t,
                    Err(_) => key.class_name(),
                };
                desc.append(key_text.as_str());
                let e = Error::from_kind(
                    ErrorKind::RutieException("key not found".to_owned()),
                ).with_context(desc);
                proof {
                    assert(e@.context =~= seq!["While deserializing key "@ + spec_key_desc(
                        old(self).key_m(),
                    )]);
                }
                Err(e)
            },
        }
    }

    /// How many entries are still to come.
    pub fn size_hint(&self) -> (r: usize)
        requires
            self.pos <= self.pairs@.len(),
        ensures
            r == self.pairs@.len() - self.pos,
    {
        self.pairs.len() - self.pos
    }
}

/// A cursor over a plain object during struct decoding: drives the declared
/// field-name list in order, dispatching each name as a method on the
/// object.
pub struct ObjectAccess<'a> {
    pub methods: &'a Vec<(String, HostValue)>,
    pub fields: &'a Vec<(String, Shape)>,
    pub pos: usize,
}

impl<'a> ObjectAccess<'a> {
    pub fn new(methods: &'a Vec<(String, HostValue)>, fields: &'a Vec<(String, Shape)>) -> (r:
        Self)
        ensures
            r.methods == methods,
            r.fields == fields,
            r.pos == 0,
    {
        ObjectAccess { methods, fields, pos: 0 }
    }

    /// The next declared field name, or nothing once every field has been
    /// visited; an exhausted cursor stays exhausted.
    pub fn next_key(&mut self) -> (r: Option<&'a String>)
        requires
            old(self).pos <= old(self).fields@.len(),
        ensures
            *final(self) == *old(self),
            old(self).pos == old(self).fields@.len() ==> r is None,
            old(self).pos < old(self).fields@.len() ==> (r matches Some(n) && *n == old(
                self,
            ).fields@[old(self).pos as int].0),
    {
        if self.pos == self.fields.len() {
            None
        } else {
            Some(&self.fields[self.pos].0)
        }
    }

    /// The current field's value: the field name dispatched as a method on
    /// the object; an object that does not answer fails as a failed host
    /// dispatch does, with context naming the field. On success the cursor
    /// advances.
    pub fn next_value(&mut self) -> (r: Result<&'a HostValue, Error>)
        requires
            old(self).pos < old(self).fields@.len(),
        ensures
            final(self).methods == old(self).methods,
            final(self).fields == old(self).fields,
            match spec_call(
                crate::host::view_methods(old(self).methods@),
                old(self).fields@[old(self).pos as int].0@,
            ) {
                Some(hv) => r matches Ok(v) && v@ == hv && final(self).pos == old(self).pos + 1
                    && (exists|j: int|
                    0 <= j < old(self).methods@.len() && *v == #[trigger] old(
                        self,
                    ).methods@[j].1),
                None => r matches Err(e) && e@.kind matches ErrorKindM::RutieException(_)
                    && e@.context == seq![
                    "While deserializing "@ + old(self).fields@[old(self).pos as int].0@,
                ] && final(self).pos == old(self).pos,
            },
    {
        let name = &self.fields[self.pos].0;
        match object_call(self.methods, name) {
            Some(v) => {
                let n = self.fields.len();
                proof {
                    assert(self.pos < n);
                }
                self.pos = self.pos + 1;
                Ok(v)
            },
            None => {
                let mut msg = "undefined method ".to_owned();
                msg.append(name.as_str());
                let mut ctx = "While deserializing ".to_owned();
                ctx.append(name.as_str());
                let e = Error::from_kind(ErrorKind::RutieException(msg)).with_context(ctx);
                proof {
                    assert(e@.context =~= seq![
                        "While deserializing "@ + old(self).fields@[old(self).pos as int].0@,
                    ]);
                }
                Err(e)
            },
        }
    }
}

/// A cursor over one host value read as an externally tagged enum: splits it
/// into the variant tag and the payload.
pub struct EnumAccess<'a> {
    pub object: &'a HostValue,
}

/// The payload of one read variant, handed on to the matching variant
/// shape's decoding.
pub struct VariantAccess<'a> {
    pub object: &'a HostValue,
}

impl<'a> EnumAccess<'a> {
    pub fn new(object: &'a HostValue) -> (r: Self)
        ensures
            r.object == object,
    {
        EnumAccess { object }
    }

    /// Reads the variant tag and payload: a keyed container carries the tag
    /// as its first key, stringified, and the payload as the first value;
    /// any other host value is its own tag and its own payload.
    pub fn variant(&self) -> (r: Result<(String, VariantAccess<'a>), Error>)
        ensures
            match spec_enum_parts(self.object@) {
                Some(parts) => r matches Ok(p) && p.0@ == parts.0 && p.1.object@ == parts.1,
                None => r matches Err(e) && e@.kind matches ErrorKindM::Message(_),
            },
            r matches Ok(p) ==> (*self.object matches HostValue::Hash(pairs) ==> *(p.1.object)
                == pairs@[0].1),
            r matches Ok(p) ==> (!(*self.object matches HostValue::Hash(_)) ==> p.1.object
                == self.object),
    {
        match self.object {
            HostValue::Hash(pairs) => {
                if pairs.len() == 0 {
                    Err(Error::from_message("cannot read a variant tag from an empty container".to_owned()))
                } else {
                    proof {
                        assert(view_pairs(pairs@)[0] == (pairs@[0].0@, pairs@[0].1@));
                    }
                    let tag = pairs[0].0.to_s()?;
                    Ok((tag, VariantAccess { object: &pairs[0].1 }))
                }
            },
            _ => {
                let tag = self.object.to_s()?;
                Ok((tag, VariantAccess { object: self.object }))
            },
        }
    }
}

impl<'a> VariantAccess<'a> {
    /// A unit variant carries nothing further.
    pub fn unit_variant(&self) -> (r: Result<(), Error>)
        ensures
            r is Ok,
    {
        Ok(())
    }

    /// A tuple-variant payload is a declared gap of the converter.
    pub fn tuple_variant(&self) -> (r: Result<Value, Error>)
        ensures
            r matches Err(e) && e@.kind == ErrorKindM::NotImplemented(
                "VariantAccess::tuple_variant"@,
            ) && e@.context == Seq::<Seq<char>>::empty(),
    {
        Err(
            Error::from_kind(
                ErrorKind::NotImplemented("VariantAccess::tuple_variant".to_owned()),
            ),
        )
    }

    /// A struct-variant payload is a declared gap of the converter.
    pub fn struct_variant(&self) -> (r: Result<Value, Error>)
        ensures
            r matches Err(e) && e@.kind == ErrorKindM::NotImplemented(
                "VariantAccess::struct_variant"@,
            ) && e@.context == Seq::<Seq<char>>::empty(),
    {
        Err(
            Error::from_kind(
                ErrorKind::NotImplemented("VariantAccess::struct_variant".to_owned()),
            ),
        )
    }
}

/// Whether one of the seen strings is this name.
fn contains_string(v: &Vec<String>, name: &String) -> (r: bool)
    ensures
        r == v.deep_view().contains(name@),
{
    let mut i: usize = 0;
    while i < v.len()
        invariant
            i <= v.len(),
            forall|j: int| 0 <= j < i ==> v.deep_view()[j] != name@,
        decreases v.len() - i,
    {
        if v[i] == *name {
            proof {
                assert(v.deep_view()[i as int] == name@);
            }
            return true;
        }
        proof {
            assert(v.deep_view()[i as int] == v@[i as int]@);
        }
        i += 1;
    }
    proof {
        if v.deep_view().contains(name@) {
            let j = choose|j: int| 0 <= j < v.deep_view().len() && v.deep_view()[j] == name@;
            assert(v.deep_view()[j] != name@);
        }
    }
    false
}

/// The first declared field with this name, if any.
fn find_field_index(fields: &Vec<(String, Shape)>, name: &String) -> (r: Option<usize>)
    ensures
        match r {
            Some(j) => 0 <= j < fields@.len() && fields@[j as int].0@ == name@ && find_field(
                view_fields(fields@),
                name@,
            ) == Some(fields@[j as int].1@),
            None => find_field(view_fields(fields@), name@) is None,
        },
{
    let mut i: usize = 0;
    proof {
        assert(view_fields(fields@).skip(0) =~= view_fields(fields@));
    }
    while i < fields.len()
        invariant
            i <= fields.len(),
            find_field(view_fields(fields@), name@) == find_field(
                view_fields(fields@).skip(i as int),
                name@,
            ),
        decreases fields.len() - i,
    {
        proof {
            assert(view_fields(fields@)[i as int] == (fields@[i as int].0@, fields@[i as int].1@));
            assert(view_fields(fields@).skip(i as int)[0] == view_fields(fields@)[i as int]);
        }
        if fields[i].0 == *name {
            return Some(i);
        }
        proof {
            assert(view_fields(fields@).skip(i as int).drop_first() =~= view_fields(
                fields@,
            ).skip(i + 1));
        }
        i += 1;
    }
    proof {
        assert(view_fields(fields@).skip(fields.len() as int).len() == 0);
    }
    None
}

/// The first declared variant with this tag, if any.
fn find_variant_index(variants: &Vec<(String, VariantShape)>, tag: &String) -> (r: Option<usize>)
    ensures
        match r {
            Some(j) => 0 <= j < variants@.len() && variants@[j as int].0@ == tag@ && find_variant(
                view_variants(variants@),
                tag@,
            ) == Some(variants@[j as int].1@),
            None => find_variant(view_variants(variants@), tag@) is None,
        },
{
    let mut i: usize = 0;
    proof {
        assert(view_variants(variants@).skip(0) =~= view_variants(variants@));
    }
    while i < variants.len()
        invariant
            i <= variants.len(),
            find_variant(view_variants(variants@), tag@) == find_variant(
                view_variants(variants@).skip(i as int),
                tag@,
            ),
        decreases variants.len() - i,
    {
        proof {
            assert(view_variants(variants@)[i as int] == (
                variants@[i as int].0@,
                variants@[i as int].1@,
            ));
            assert(view_variants(variants@).skip(i as int)[0] == view_variants(
                variants@,
            )[i as int]);
        }
        if variants[i].0 == *tag {
            return Some(i);
        }
        proof {
            assert(view_variants(variants@).skip(i as int).drop_first() =~= view_variants(
                variants@,
            ).skip(i + 1));
        }
        i += 1;
    }
    proof {
        assert(view_variants(variants@).skip(variants.len() as int).len() == 0);
    }
    None
}

/// The value of the first entry whose key stringifies to this name, if any.
fn fetch_by_name_exec<'a>(pairs: &'a Vec<(HostValue, HostValue)>, name: &String) -> (r: Option<
    &'a HostValue,
>)
    ensures
        match r {
            Some(v) => fetch_by_name(view_pairs(pairs@), name@) == Some(v@),
            None => fetch_by_name(view_pairs(pairs@), name@) is None,
        },
        r matches Some(v) ==> exists|j: int|
            0 <= j < pairs@.len() && *v == #[trigger] pairs@[j].1,
{
    let mut i: usize = 0;
    proof {
        assert(view_pairs(pairs@).skip(0) =~= view_pairs(pairs@));
    }
    while i < pairs.len()
        invariant
            i <= pairs.len(),
            fetch_by_name(view_pairs(pairs@), name@) == fetch_by_name(
                view_pairs(pairs@).skip(i as int),
                name@,
            ),
        decreases pairs.len() - i,
    {
        proof {
            assert(view_pairs(pairs@)[i as int] == (pairs@[i as int].0@, pairs@[i as int].1@));
            assert(view_pairs(pairs@).skip(i as int)[0] == view_pairs(pairs@)[i as int]);
        }
        let matches_name: bool = match pairs[i].0.to_s() {
            Ok(t) => t == *name,
            Err(_) => false,
        };
        if matches_name {
            return Some(&pairs[i].1);
        }
        proof {
            assert(view_pairs(pairs@).skip(i as int).drop_first() =~= view_pairs(pairs@).skip(
                i + 1,
            ));
        }
        i += 1;
    }
    proof {
        assert(view_pairs(pairs@).skip(pairs.len() as int).len() == 0);
    }
    None
}

/// A plain message error naming the host class and the requested shape.
fn mismatch_error(h: &HostValue, target: &str) -> (r: Error)
    ensures
        r@.kind == ErrorKindM::Message(spec_mismatch_msg(h@, target@)),
        r@.context == Seq::<Seq<char>>::empty(),
{
    let mut msg = "cannot deserialize ".to_owned();
    msg.append(h.class_name().as_str());
    msg.append(" as ");
    msg.append(target);
    proof {
        assert(msg@ =~= spec_mismatch_msg(h@, target@));
    }
    Error::from_message(msg)
}

/// Decodes one host value against one requested shape: the typed value the
/// reference decoding gives, or a failure of the same kind as the reference
/// decoding's.
#[verifier::loop_isolation(false)]
#[verifier::rlimit(60)]
pub fn decode_value(h: &HostValue, s: &Shape) -> (r: Result<Value, Error>)
    ensures
        r is Ok <==> spec_decode(h@, s@) is Ok,
        r matches Ok(v) ==> spec_decode(h@, s@) == Ok::<ValM, KindTag>(v@),
        r matches Err(e) ==> (spec_decode(h@, s@) matches Err(t) && kind_tag(e@.kind) == t),
        s@ == ShapeM::Unit ==> (r matches Err(e) ==> e@.kind == ErrorKindM::Message("not unit"@)
            && e@.context == Seq::<Seq<char>>::empty()),
        s@ == ShapeM::Bool ==> (r matches Err(e) ==> e@.kind == ErrorKindM::Message(
            spec_mismatch_msg(h@, "boolean"@),
        ) && e@.context == Seq::<Seq<char>>::empty()),
        is_integer_shape(s@) ==> (r matches Err(e) ==> e@.kind == ErrorKindM::Message(
            spec_mismatch_msg(h@, "integer"@),
        ) && e@.context == Seq::<Seq<char>>::empty()),
        s@ == ShapeM::F32 || s@ == ShapeM::F64 ==> (r matches Err(e) ==> e@.kind
            == ErrorKindM::Message(spec_mismatch_msg(h@, "float"@)) && e@.context == Seq::<
            Seq<char>,
        >::empty()),
        s@ == ShapeM::Bytes || s@ == ShapeM::ByteBuf ==> (r matches Err(e) ==> e@.kind
            == ErrorKindM::Message(spec_mismatch_msg(h@, "bytes"@)) && e@.context == Seq::<
            Seq<char>,
        >::empty()),
        (s@ == ShapeM::Any && (h@ matches HostM::Sym(_) || h@ matches HostM::Object { .. })) ==> (
        r matches Err(e) ==> e@.kind == ErrorKindM::Message(
            "No rules to deserialize "@ + spec_class_name(h@),
        ) && e@.context == Seq::<Seq<char>>::empty()),
        s@ matches ShapeM::Sequence(elem) ==> (h@ matches HostM::Array(elems) ==> (r matches Err(
            e,
        ) ==> e@.context.len() >= 1 && e@.context.last() == "While deserializing element "@
            + spec_dec_digits(first_elem_err(elems, *elem, 0) as nat))),
        s@ matches ShapeM::Tuple(shapes) ==> (h@ matches HostM::Array(elems) ==> (elems.len()
            >= shapes.len() ==> (r matches Err(e) ==> e@.context.len() >= 1 && e@.context.last()
            == "While deserializing element "@ + spec_dec_digits(
            first_tuple_err(elems, shapes, 0) as nat,
        )))),
        s@ matches ShapeM::TupleStruct(shapes) ==> (h@ matches HostM::Array(elems) ==> (
        elems.len() >= shapes.len() ==> (r matches Err(e) ==> e@.context.len() >= 1
            && e@.context.last() == "While deserializing element "@ + spec_dec_digits(
            first_tuple_err(elems, shapes, 0) as nat,
        )))),
        s@ matches ShapeM::Struct(fields) ==> (!(h@ matches HostM::Hash(_)) ==> (r matches Err(e)
            ==> e@.context.len() >= 1 && e@.context.last() == "While deserializing "@ + fields[
            first_obj_err(h@, fields, 0)
        ].0)),
        s@ matches ShapeM::Struct(fields) ==> (h@ matches HostM::Hash(pairs) ==> (
        crate::model::walk_fail_field(pairs, fields, 0, Seq::empty()) matches Some(name) ==> (
        r matches Err(e) ==> e@.context.len() >= 1 && e@.context.last()
            == "While deserializing "@ + name))),
    decreases h, s, 1int,
{
    match s {
        Shape::Any => match h {
            HostValue::Nil => Ok(Value::Unit),
            HostValue::Bool(b) => Ok(Value::Bool(*b)),
            HostValue::Int(i) => Ok(Value::I64(*i)),
            HostValue::Float(bits) => Ok(Value::F64(*bits)),
            HostValue::Str(st) => Ok(Value::Str(st.clone())),
            HostValue::Array(arr) => {
                let elem = Shape::Any;
                decode_elements(h, arr, &elem)
            },
            HostValue::Hash(pairs) => {
                let ks = Shape::Any;
                let vs = Shape::Any;
                decode_entries(h, pairs, &ks, &vs)
            },
            _ => {
                let mut msg = "No rules to deserialize ".to_owned();
                msg.append(h.class_name().as_str());
                proof {
                    assert(msg@ =~= "No rules to deserialize "@ + spec_class_name(h@));
                }
                Err(Error::from_message(msg))
            },
        },
        Shape::Bool => match h {
            HostValue::Bool(b) => Ok(Value::Bool(*b)),
            _ => Err(mismatch_error(h, "boolean")),
        },
        Shape::I8 => decode_i64(h),
        Shape::I16 => decode_i64(h),
        Shape::I32 => decode_i64(h),
        Shape::I64 => decode_i64(h),
        Shape::U8 => decode_u32(h),
        Shape::U16 => decode_u32(h),
        Shape::U32 => decode_u32(h),
        Shape::U64 => match h {
            HostValue::Int(i) => Ok(Value::U64(reinterpret_u64(*i))),
            _ => Err(mismatch_error(h, "integer")),
        },
        Shape::F32 => decode_f64(h),
        Shape::F64 => decode_f64(h),
        Shape::Char => {
            let st = h.to_s()?;
            let cs = chars_of(st.as_str());
            if cs.len() == 1 {
                Ok(Value::Str(st))
            } else {
                Err(mismatch_error(h, "a one-character string"))
            }
        },
        Shape::Str => {
            let st = h.to_s()?;
            Ok(Value::Str(st))
        },
        Shape::Identifier => {
            let st = h.to_s()?;
            Ok(Value::Str(st))
        },
        Shape::Bytes => decode_bytes(h),
        Shape::ByteBuf => decode_bytes(h),
        Shape::Optional(inner) => match h {
            HostValue::Nil => Ok(Value::Missing),
            _ => {
                let v = decode_value(h, &**inner)?;
                Ok(Value::Present(Box::new(v)))
            },
        },
        Shape::Unit => match h {
            HostValue::Nil => Ok(Value::Unit),
            _ => Err(Error::from_message("not unit".to_owned())),
        },
        Shape::UnitStruct => Ok(Value::Unit),
        Shape::NewtypeStruct(inner) => decode_value(h, &**inner),
        Shape::Sequence(elem) => match h {
            HostValue::Array(arr) => decode_elements(h, arr, &**elem),
            _ => Err(missing_capability_error(h, "length")),
        },
        Shape::Tuple(shapes) => match h {
            HostValue::Array(arr) => decode_tuple_elements(h, arr, shapes),
            _ => Err(missing_capability_error(h, "length")),
        },
        Shape::TupleStruct(shapes) => match h {
            HostValue::Array(arr) => decode_tuple_elements(h, arr, shapes),
            _ => Err(missing_capability_error(h, "length")),
        },
        Shape::Mapping(ks, vs) => match h {
            HostValue::Hash(pairs) => decode_entries(h, pairs, &**ks, &**vs),
            _ => Err(missing_capability_error(h, "keys")),
        },
        Shape::Struct(fields) => match h {
            HostValue::Hash(pairs) => decode_struct_from_hash(h, pairs, fields),
            _ => decode_struct_from_object(h, fields),
        },
        Shape::Enum(variants) => decode_enum(h, s, variants),
        Shape::IgnoredAny => Ok(Value::Missing),
    }
}

/// Decoding against any signed width takes the native integer whole.
fn decode_i64(h: &HostValue) -> (r: Result<Value, Error>)
    ensures
        r is Ok <==> crate::model::dec_i64(h@) is Ok,
        r matches Ok(v) ==> crate::model::dec_i64(h@) == Ok::<ValM, KindTag>(v@),
        r matches Err(e) ==> (crate::model::dec_i64(h@) matches Err(t) && kind_tag(e@.kind) == t),
        r matches Err(e) ==> e@.kind == ErrorKindM::Message(spec_mismatch_msg(h@, "integer"@))
            && e@.context == Seq::<Seq<char>>::empty(),
{
    match h {
        HostValue::Int(i) => Ok(Value::I64(*i)),
        _ => Err(mismatch_error(h, "integer")),
    }
}

/// The unsigned reinterpretation of the native integer.
fn reinterpret_u64(i: i64) -> (r: u64)
    ensures
        r == crate::model::as_u64(i as int),
{
    if i >= 0 {
        i as u64
    } else {
        (((i + i64::MAX) + 1) as u64) + 0x8000_0000_0000_0000
    }
}

/// Decoding against a narrow unsigned width takes the native integer's low
/// 32 bits.
fn decode_u32(h: &HostValue) -> (r: Result<Value, Error>)
    ensures
        r is Ok <==> crate::model::dec_u32(h@) is Ok,
        r matches Ok(v) ==> crate::model::dec_u32(h@) == Ok::<ValM, KindTag>(v@),
        r matches Err(e) ==> (crate::model::dec_u32(h@) matches Err(t) && kind_tag(e@.kind) == t),
        r matches Err(e) ==> e@.kind == ErrorKindM::Message(spec_mismatch_msg(h@, "integer"@))
            && e@.context == Seq::<Seq<char>>::empty(),
{
    match h {
        HostValue::Int(i) => {
            let m = reinterpret_u64(*i);
            Ok(Value::U32((m % 0x1_0000_0000) as u32))
        },
        _ => Err(mismatch_error(h, "integer")),
    }
}

/// Decoding against a float width takes a native float's bit pattern
/// unchanged; a native integer is accepted as the fallback and carried as
/// itself, for the host edge to coerce to 64-bit floating point.
fn decode_f64(h: &HostValue) -> (r: Result<Value, Error>)
    ensures
        r is Ok <==> crate::model::dec_f64(h@) is Ok,
        r matches Ok(v) ==> crate::model::dec_f64(h@) == Ok::<ValM, KindTag>(v@),
        r matches Err(e) ==> (crate::model::dec_f64(h@) matches Err(t) && kind_tag(e@.kind) == t),
        r matches Err(e) ==> e@.kind == ErrorKindM::Message(spec_mismatch_msg(h@, "float"@))
            && e@.context == Seq::<Seq<char>>::empty(),
{
    match h {
        HostValue::Float(bits) => Ok(Value::F64(*bits)),
        HostValue::Int(i) => Ok(Value::F64FromInt(*i)),
        _ => Err(mismatch_error(h, "float")),
    }
}

/// Byte decoding requires an already string-like value and takes its encoded
/// bytes.
fn decode_bytes(h: &HostValue) -> (r: Result<Value, Error>)
    ensures
        r is Ok <==> (h@ matches HostM::Str(_)),
        r matches Ok(v) ==> (h@ matches HostM::Str(str0) && v@ == ValM::Bytes(
            vstd::utf8::encode_utf8(str0),
        )),
        r matches Err(e) ==> e@.kind == ErrorKindM::Message(spec_mismatch_msg(h@, "bytes"@))
            && e@.context == Seq::<Seq<char>>::empty(),
{
    match h {
        HostValue::Str(st) => {
            let bytes = vstd::slice::slice_to_vec(st.as_str().as_bytes());
            Ok(Value::Bytes(bytes))
        },
        _ => Err(mismatch_error(h, "bytes")),
    }
}

/// A failed host dispatch on a value that lacks the needed capability.
fn missing_capability_error(h: &HostValue, method: &str) -> (r: Error)
    ensures
        r@.kind matches ErrorKindM::RutieException(_),
{
    let mut msg = "undefined method ".to_owned();
    msg.append(method);
    msg.append(" for an instance of ");
    msg.append(h.class_name().as_str());
    Error::from_kind(ErrorKind::RutieException(msg))
}

/// Decodes every element of a host array against one element shape, through
/// a sequence cursor; `h` is the array's own host value.
#[verifier::loop_isolation(false)]
fn decode_elements(h: &HostValue, arr: &Vec<HostValue>, elem: &Shape) -> (r: Result<
    Value,
    Error,
>)
    requires
        *h matches HostValue::Array(a) && a == arr,
    ensures
        r is Ok <==> dec_elems(crate::host::view_elems(arr@), elem@, 0) is Ok,
        r matches Ok(v) ==> (dec_elems(crate::host::view_elems(arr@), elem@, 0) matches Ok(vs)
            && v@ == ValM::Sequence(vs)),
        r matches Err(e) ==> (dec_elems(crate::host::view_elems(arr@), elem@, 0) matches Err(t)
            && kind_tag(e@.kind) == t),
        r matches Err(e) ==> e@.context.len() >= 1 && e@.context.last()
            == "While deserializing element "@ + spec_dec_digits(
            first_elem_err(crate::host::view_elems(arr@), elem@, 0) as nat,
        ),
    decreases h, elem, 0int,
{
    let ghost am = crate::host::view_elems(arr@);
    let mut out: Vec<Value> = Vec::new();
    let mut cur = SeqAccess::new(arr);
    proof {
        if dec_elems(am, elem@, 0) is Ok {
            assert(view_vals(out@) + dec_elems(am, elem@, 0)->Ok_0 =~= dec_elems(
                am,
                elem@,
                0,
            )->Ok_0);
        }
    }
    while cur.pos < arr.len()
        invariant
            cur.arr == arr,
            cur.pos <= arr@.len(),
            match dec_elems(am, elem@, cur.pos as int) {
                Ok(rest) => dec_elems(am, elem@, 0) == Ok::<Seq<ValM>, KindTag>(
                    view_vals(out@) + rest,
                ),
                Err(t) => dec_elems(am, elem@, 0) == Err::<Seq<ValM>, KindTag>(t),
            },
            first_elem_err(am, elem@, 0) == first_elem_err(am, elem@, cur.pos as int),
        decreases arr@.len() - cur.pos,
    {
        let ghost i = cur.pos as int;
        let idx = cur.pos;
        let next = cur.next_element();
        let eh = match next {
            Some(eh) => eh,
            None => {
                proof {
                    assert(false);
                }
                break ;
            },
        };
        proof {
            assert(decreases_to!(*h => *arr));
            assert(decreases_to!(*arr => arr[i]));
            assert(am[i] == arr@[i]@);
        }
        let ghost pre = view_vals(out@);
        match decode_value(eh, elem) {
            Ok(v) => {
                out.push(v);
                proof {
                    assert(view_vals(out@) =~= pre.push(spec_decode(am[i], elem@)->Ok_0));
                    if dec_elems(am, elem@, i + 1) is Ok {
                        assert(pre.push(spec_decode(am[i], elem@)->Ok_0) + dec_elems(
                            am,
                            elem@,
                            i + 1,
                        )->Ok_0 =~= pre + (seq![spec_decode(am[i], elem@)->Ok_0] + dec_elems(
                            am,
                            elem@,
                            i + 1,
                        )->Ok_0));
                    }
                }
            },
            Err(e) => {
                let mut ctx = "While deserializing element ".to_owned();
                ctx.append(usize_to_string(idx).as_str());
                proof {
                    assert(first_elem_err(am, elem@, i) == i);
                    assert(ctx@ =~= "While deserializing element "@ + spec_dec_digits(
                        first_elem_err(am, elem@, 0) as nat,
                    ));
                }
                return Err(e.with_context(ctx));
            },
        }
    }
    proof {
        assert(view_vals(out@) + Seq::<ValM>::empty() =~= view_vals(out@));
    }
    Ok(Value::Sequence(out))
}

/// Decodes element k of a host array against tuple shape k; a host array
/// shorter than the tuple fails, extra elements are left unread.
#[verifier::loop_isolation(false)]
fn decode_tuple_elements(h: &HostValue, arr: &Vec<HostValue>, shapes: &Vec<Shape>) -> (r: Result<
    Value,
    Error,
>)
    requires
        *h matches HostValue::Array(a) && a == arr,
    ensures
        r is Ok <==> dec_tuple(crate::host::view_elems(arr@), view_shapes(shapes@), 0) is Ok,
        r matches Ok(v) ==> (dec_tuple(crate::host::view_elems(arr@), view_shapes(shapes@), 0)
            matches Ok(vs) && v@ == ValM::Tuple(vs)),
        r matches Err(e) ==> (dec_tuple(crate::host::view_elems(arr@), view_shapes(shapes@), 0)
            matches Err(t) && kind_tag(e@.kind) == t),
        crate::host::view_elems(arr@).len() >= view_shapes(shapes@).len() ==> (r matches Err(e)
            ==> e@.context.len() >= 1 && e@.context.last() == "While deserializing element "@
            + spec_dec_digits(
            first_tuple_err(crate::host::view_elems(arr@), view_shapes(shapes@), 0) as nat,
        )),
    decreases h, shapes, 0int,
{
    let ghost am = crate::host::view_elems(arr@);
    let ghost sm = view_shapes(shapes@);
    let mut out: Vec<Value> = Vec::new();
    let mut k: usize = 0;
    proof {
        if dec_tuple(am, sm, 0) is Ok {
            assert(view_vals(out@) + dec_tuple(am, sm, 0)->Ok_0 =~= dec_tuple(am, sm, 0)->Ok_0);
        }
    }
    while k < shapes.len()
        invariant
            k <= shapes@.len(),
            match dec_tuple(am, sm, k as int) {
                Ok(rest) => dec_tuple(am, sm, 0) == Ok::<Seq<ValM>, KindTag>(
                    view_vals(out@) + rest,
                ),
                Err(t) => dec_tuple(am, sm, 0) == Err::<Seq<ValM>, KindTag>(t),
            },
            am.len() >= sm.len() ==> first_tuple_err(am, sm, 0) == first_tuple_err(
                am,
                sm,
                k as int,
            ),
        decreases shapes@.len() - k,
    {
        proof {
            assert(sm[k as int] == shapes@[k as int]@);
        }
        if k >= arr.len() {
            return Err(Error::from_message("invalid length".to_owned()));
        }
        proof {
            assert(decreases_to!(*h => *arr));
            assert(decreases_to!(*arr => arr[k as int]));
            assert(decreases_to!(*shapes => shapes[k as int]));
            assert(am[k as int] == arr@[k as int]@);
        }
        let ghost pre = view_vals(out@);
        match decode_value(&arr[k], &shapes[k]) {
            Ok(v) => {
                out.push(v);
                proof {
                    assert(view_vals(out@) =~= pre.push(spec_decode(am[k as int], sm[k as int])->Ok_0));
                    if dec_tuple(am, sm, k + 1) is Ok {
                        assert(pre.push(spec_decode(am[k as int], sm[k as int])->Ok_0) + dec_tuple(
                            am,
                            sm,
                            k + 1,
                        )->Ok_0 =~= pre + (seq![spec_decode(am[k as int], sm[k as int])->Ok_0]
                            + dec_tuple(am, sm, k + 1)->Ok_0));
                    }
                }
            },
            Err(e) => {
                let mut ctx = "While deserializing element ".to_owned();
                ctx.append(usize_to_string(k).as_str());
                proof {
                    if am.len() >= sm.len() {
                        assert(first_tuple_err(am, sm, k as int) == k as int);
                        assert(ctx@ =~= "While deserializing element "@ + spec_dec_digits(
                            first_tuple_err(am, sm, 0) as nat,
                        ));
                    }
                }
                return Err(e.with_context(ctx));
            },
        }
        k += 1;
    }
    proof {
        assert(view_vals(out@) + Seq::<ValM>::empty() =~= view_vals(out@));
    }
    Ok(Value::Tuple(out))
}

/// Decodes every entry of a host keyed container: each key as a typed value,
/// then the entry's value looked up by that key, through a map cursor; `h`
/// is the container's own host value.
#[verifier::loop_isolation(false)]
fn decode_entries(h: &HostValue, pairs: &Vec<(HostValue, HostValue)>, ks: &Shape, vs: &Shape) -> (r:
    Result<Value, Error>)
    requires
        *h matches HostValue::Hash(p) && p == pairs,
    ensures
        r is Ok <==> dec_map_pairs(view_pairs(pairs@), ks@, vs@, 0) is Ok,
        r matches Ok(v) ==> (dec_map_pairs(view_pairs(pairs@), ks@, vs@, 0) matches Ok(ps) && v@
            == ValM::Mapping(ps)),
        r matches Err(e) ==> (dec_map_pairs(view_pairs(pairs@), ks@, vs@, 0) matches Err(t)
            && kind_tag(e@.kind) == t),
    decreases h, vs, 0int,
{
    let ghost pm = view_pairs(pairs@);
    let mut out: Vec<(Value, Value)> = Vec::new();
    let mut cur = HashAccess::new(pairs);
    proof {
        if dec_map_pairs(pm, ks@, vs@, 0) is Ok {
            assert(view_val_pairs(out@) + dec_map_pairs(pm, ks@, vs@, 0)->Ok_0 =~= dec_map_pairs(
                pm,
                ks@,
                vs@,
                0,
            )->Ok_0);
        }
    }
    while cur.pos < pairs.len()
        invariant
            cur.pairs == pairs,
            cur.pos <= pairs@.len(),
            match dec_map_pairs(pm, ks@, vs@, cur.pos as int) {
                Ok(rest) => dec_map_pairs(pm, ks@, vs@, 0) == Ok::<Seq<(ValM, ValM)>, KindTag>(
                    view_val_pairs(out@) + rest,
                ),
                Err(t) => dec_map_pairs(pm, ks@, vs@, 0) == Err::<Seq<(ValM, ValM)>, KindTag>(t),
            },
        decreases pairs@.len() - cur.pos,
    {
        let ghost i = cur.pos as int;
        let next = cur.next_key();
        let kh = match next {
            Some(kh) => kh,
            None => {
                proof {
                    assert(false);
                }
                break ;
            },
        };
        proof {
            assert(decreases_to!(*h => *pairs));
            assert(decreases_to!(*pairs => pairs[i]));
            assert(pm[i] == (pairs@[i].0@, pairs@[i].1@));
        }
        let kv = match decode_value(kh, ks) {
            Ok(kv) => kv,
            Err(e) => {
                return Err(e);
            },
        };
        let vh = match cur.next_value() {
            Ok(vh) => vh,
            Err(e) => {
                return Err(e);
            },
        };
        proof {
            let j = choose|j: int| 0 <= j < pairs@.len() && *vh == pairs@[j].1;
            assert(decreases_to!(*pairs => pairs[j]));
        }
        let vv = match decode_value(vh, vs) {
            Ok(vv) => vv,
            Err(e) => {
                return Err(e);
            },
        };
        let ghost pre = view_val_pairs(out@);
        out.push((kv, vv));
        proof {
            let kvm = spec_decode(pm[i].0, ks@)->Ok_0;
            let vvm = spec_decode(spec_fetch(pm, pm[i].0).unwrap(), vs@)->Ok_0;
            assert(view_val_pairs(out@) =~= pre.push((kvm, vvm)));
            if dec_map_pairs(pm, ks@, vs@, i + 1) is Ok {
                assert(pre.push((kvm, vvm)) + dec_map_pairs(pm, ks@, vs@, i + 1)->Ok_0 =~= pre + (
                seq![(kvm, vvm)] + dec_map_pairs(pm, ks@, vs@, i + 1)->Ok_0));
            }
        }
    }
    proof {
        assert(view_val_pairs(out@) + Seq::<(ValM, ValM)>::empty() =~= view_val_pairs(out@));
    }
    Ok(Value::Mapping(out))
}

/// Decodes a keyed container as a struct: every key must stringify to a
/// distinct declared field name and every entry's value must decode against
/// that field's shape; then each declared field, in order, takes the decoded
/// value of the entry whose key stringifies to its name.
#[verifier::loop_isolation(false)]
#[verifier::rlimit(60)]
fn decode_struct_from_hash(
    h: &HostValue,
    pairs: &Vec<(HostValue, HostValue)>,
    fields: &Vec<(String, Shape)>,
) -> (r: Result<Value, Error>)
    requires
        *h matches HostValue::Hash(p) && p == pairs,
    ensures
        ({
            let outcome = match walk_struct_pairs(
                view_pairs(pairs@),
                view_fields(fields@),
                0,
                Seq::empty(),
            ) {
                Ok(_) => build_struct(view_pairs(pairs@), view_fields(fields@), 0),
                Err(t) => Err(t),
            };
            &&& (r is Ok <==> outcome is Ok)
            &&& (r matches Ok(v) ==> (outcome matches Ok(fs) && v@ == ValM::Struct(fs)))
            &&& (r matches Err(e) ==> (outcome matches Err(t) && kind_tag(e@.kind) == t))
        }),
        crate::model::walk_fail_field(
            view_pairs(pairs@),
            view_fields(fields@),
            0,
            Seq::empty(),
        ) matches Some(name) ==> (r matches Err(e) ==> e@.context.len() >= 1 && e@.context.last()
            == "While deserializing "@ + name),
    decreases h, fields, 0int,
{
    let ghost pm = view_pairs(pairs@);
    let ghost fm = view_fields(fields@);
    // validity walk over the entries
    let mut seen: Vec<String> = Vec::new();
    let mut cur = HashAccess::new(pairs);
    proof {
        assert(seen.deep_view() =~= Seq::<Seq<char>>::empty());
    }
    while cur.pos < pairs.len()
        invariant
            cur.pairs == pairs,
            cur.pos <= pairs@.len(),
            walk_struct_pairs(pm, fm, 0, Seq::empty()) == walk_struct_pairs(
                pm,
                fm,
                cur.pos as int,
                seen.deep_view(),
            ),
            crate::model::walk_fail_field(pm, fm, 0, Seq::empty())
                == crate::model::walk_fail_field(pm, fm, cur.pos as int, seen.deep_view()),
        decreases pairs@.len() - cur.pos,
    {
        let ghost i = cur.pos as int;
        let ghost seen0 = seen.deep_view();
        let next = cur.next_key();
        let kh = match next {
            Some(kh) => kh,
            None => {
                proof {
                    assert(false);
                }
                break ;
            },
        };
        proof {
            assert(pm[i] == (pairs@[i].0@, pairs@[i].1@));
        }
        let name = match kh.to_s() {
            Ok(name) => name,
            Err(e) => {
                return Err(e);
            },
        };
        match find_field_index(fields, &name) {
            Some(j) => {
                if contains_string(&seen, &name) {
                    let mut msg = "duplicate field ".to_owned();
                    msg.append(name.as_str());
                    return Err(Error::from_message(msg));
                }
                let vh = match cur.next_value() {
                    Ok(vh) => vh,
                    Err(e) => {
                        return Err(e);
                    },
                };
                proof {
                    assert(decreases_to!(*h => *pairs));
                    let jj = choose|jj: int| 0 <= jj < pairs@.len() && *vh == pairs@[jj].1;
                    assert(decreases_to!(*pairs => pairs[jj]));
                    assert(decreases_to!(*fields => fields[j as int]));
                }
                match decode_value(vh, &fields[j].1) {
                    Ok(_) => {},
                    Err(e) => {
                        let mut ctx = "While deserializing ".to_owned();
                        ctx.append(name.as_str());
                        proof {
                            assert(ctx@ =~= "While deserializing "@ + name@);
                        }
                        return Err(e.with_context(ctx));
                    },
                }
                seen.push(name);
                proof {
                    assert(seen.deep_view() =~= seen0.push(seen@[seen@.len() - 1]@));
                }
            },
            None => {
                // the entry names no declared field: its value is still
                // looked up, then ignored
                match cur.next_value() {
                    Ok(_) => {},
                    Err(e) => {
                        return Err(e);
                    },
                }
            },
        }
    }
    // every declared field must have appeared
    let mut k: usize = 0;
    while k < fields.len()
        invariant
            k <= fields@.len(),
            forall|k2: int| 0 <= k2 < k ==> seen.deep_view().contains(#[trigger] fm[k2].0),
        decreases fields@.len() - k,
    {
        proof {
            assert(fm[k as int] == (fields@[k as int].0@, fields@[k as int].1@));
        }
        if !contains_string(&seen, &fields[k].0) {
            proof {
                assert(view_pairs(pairs@).len() == pairs@.len());
                assert(view_fields(fields@).len() == fields@.len());
                assert(!seen.deep_view().contains(fm[k as int].0));
                assert(walk_struct_pairs(pm, fm, pairs@.len() as int, seen.deep_view())
                    == Err::<(), KindTag>(KindTag::Msg));
            }
            let mut msg = "missing field ".to_owned();
            msg.append(fields[k].0.as_str());
            return Err(Error::from_message(msg));
        }
        k += 1;
    }
    // assemble the declared fields in order
    let mut out: Vec<(String, Value)> = Vec::new();
    let mut k2: usize = 0;
    proof {
        if build_struct(pm, fm, 0) is Ok {
            assert(view_named_vals(out@) + build_struct(pm, fm, 0)->Ok_0 =~= build_struct(
                pm,
                fm,
                0,
            )->Ok_0);
        }
    }
    while k2 < fields.len()
        invariant
            k2 <= fields@.len(),
            match build_struct(pm, fm, k2 as int) {
                Ok(rest) => build_struct(pm, fm, 0) == Ok::<Seq<(Seq<char>, ValM)>, KindTag>(
                    view_named_vals(out@) + rest,
                ),
                Err(t) => build_struct(pm, fm, 0) == Err::<Seq<(Seq<char>, ValM)>, KindTag>(t),
            },
        decreases fields@.len() - k2,
    {
        proof {
            assert(fm[k2 as int] == (fields@[k2 as int].0@, fields@[k2 as int].1@));
        }
        let vh = match fetch_by_name_exec(pairs, &fields[k2].0) {
            Some(vh) => vh,
            None => {
                let mut msg = "missing field ".to_owned();
                msg.append(fields[k2].0.as_str());
                return Err(Error::from_message(msg));
            },
        };
        proof {
            assert(decreases_to!(*h => *pairs));
            let jj = choose|jj: int| 0 <= jj < pairs@.len() && *vh == pairs@[jj].1;
            assert(decreases_to!(*pairs => pairs[jj]));
            assert(decreases_to!(*fields => fields[k2 as int]));
        }
        let ghost pre = view_named_vals(out@);
        match decode_value(vh, &fields[k2].1) {
            Ok(v) => {
                out.push((fields[k2].0.clone(), v));
                proof {
                    let vm = spec_decode(fetch_by_name(pm, fm[k2 as int].0).unwrap(), fm[k2 as int].1)->Ok_0;
                    assert(view_named_vals(out@) =~= pre.push((fm[k2 as int].0, vm)));
                    if build_struct(pm, fm, k2 + 1) is Ok {
                        assert(pre.push((fm[k2 as int].0, vm)) + build_struct(pm, fm, k2 + 1)->Ok_0
                            =~= pre + (seq![(fm[k2 as int].0, vm)] + build_struct(
                            pm,
                            fm,
                            k2 + 1,
                        )->Ok_0));
                    }
                }
            },
            Err(e) => {
                let mut ctx = "While deserializing ".to_owned();
                ctx.append(fields[k2].0.as_str());
                return Err(e.with_context(ctx));
            },
        }
        k2 += 1;
    }
    proof {
        assert(view_named_vals(out@) + Seq::<(Seq<char>, ValM)>::empty() =~= view_named_vals(
            out@,
        ));
    }
    Ok(Value::Struct(out))
}

/// Decodes a plain object as a struct: each declared field name, in order,
/// is dispatched as a method on the object and the result decoded against
/// the field's shape.
#[verifier::loop_isolation(false)]
fn decode_struct_from_object(h: &HostValue, fields: &Vec<(String, Shape)>) -> (r: Result<
    Value,
    Error,
>)
    ensures
        r is Ok <==> dec_obj_fields(h@, view_fields(fields@), 0) is Ok,
        r matches Ok(v) ==> (dec_obj_fields(h@, view_fields(fields@), 0) matches Ok(fs) && v@
            == ValM::Struct(fs)),
        r matches Err(e) ==> (dec_obj_fields(h@, view_fields(fields@), 0) matches Err(t)
            && kind_tag(e@.kind) == t),
        r matches Err(e) ==> e@.context.len() >= 1 && e@.context.last() == "While deserializing "@
            + view_fields(fields@)[first_obj_err(h@, view_fields(fields@), 0)].0,
    decreases h, fields, 0int,
{
    let ghost fm = view_fields(fields@);
    let mut out: Vec<(String, Value)> = Vec::new();
    let mut k: usize = 0;
    proof {
        if dec_obj_fields(h@, fm, 0) is Ok {
            assert(view_named_vals(out@) + dec_obj_fields(h@, fm, 0)->Ok_0 =~= dec_obj_fields(
                h@,
                fm,
                0,
            )->Ok_0);
        }
    }
    while k < fields.len()
        invariant
            k <= fields@.len(),
            match dec_obj_fields(h@, fm, k as int) {
                Ok(rest) => dec_obj_fields(h@, fm, 0) == Ok::<Seq<(Seq<char>, ValM)>, KindTag>(
                    view_named_vals(out@) + rest,
                ),
                Err(t) => dec_obj_fields(h@, fm, 0) == Err::<Seq<(Seq<char>, ValM)>, KindTag>(t),
            },
            first_obj_err(h@, fm, 0) == first_obj_err(h@, fm, k as int),
        decreases fields@.len() - k,
    {
        proof {
            assert(fm[k as int] == (fields@[k as int].0@, fields@[k as int].1@));
        }
        let methods = match h {
            HostValue::Object { methods, .. } => methods,
            _ => {
                let mut msg = "undefined method ".to_owned();
                msg.append(fields[k].0.as_str());
                msg.append(" for an instance of ");
                msg.append(h.class_name().as_str());
                let mut ctx = "While deserializing ".to_owned();
                ctx.append(fields[k].0.as_str());
                let e = Error::from_kind(ErrorKind::RutieException(msg)).with_context(ctx);
                proof {
                    assert(first_obj_err(h@, fm, k as int) == k as int);
                    assert(e@.context =~= seq!["While deserializing "@ + fm[k as int].0]);
                }
                return Err(e);
            },
        };
        let vh = match object_call(methods, &fields[k].0) {
            Some(vh) => vh,
            None => {
                let mut msg = "undefined method ".to_owned();
                msg.append(fields[k].0.as_str());
                let mut ctx = "While deserializing ".to_owned();
                ctx.append(fields[k].0.as_str());
                let e = Error::from_kind(ErrorKind::RutieException(msg)).with_context(ctx);
                proof {
                    assert(first_obj_err(h@, fm, k as int) == k as int);
                    assert(e@.context =~= seq!["While deserializing "@ + fm[k as int].0]);
                }
                return Err(e);
            },
        };
        proof {
            assert(decreases_to!(*h => *methods));
            let jj = choose|jj: int| 0 <= jj < methods@.len() && *vh == methods@[jj].1;
            assert(decreases_to!(*methods => methods[jj]));
            assert(decreases_to!(*fields => fields[k as int]));
        }
        let ghost pre = view_named_vals(out@);
        match decode_value(vh, &fields[k].1) {
            Ok(v) => {
                out.push((fields[k].0.clone(), v));
                proof {
                    let vm = spec_decode(
                        spec_call(crate::host::view_methods(methods@), fm[k as int].0).unwrap(),
                        fm[k as int].1,
                    )->Ok_0;
                    assert(view_named_vals(out@) =~= pre.push((fm[k as int].0, vm)));
                    if dec_obj_fields(h@, fm, k + 1) is Ok {
                        assert(pre.push((fm[k as int].0, vm)) + dec_obj_fields(h@, fm, k + 1)->Ok_0
                            =~= pre + (seq![(fm[k as int].0, vm)] + dec_obj_fields(
                            h@,
                            fm,
                            k + 1,
                        )->Ok_0));
                    }
                }
            },
            Err(e) => {
                let mut ctx = "While deserializing ".to_owned();
                ctx.append(fields[k].0.as_str());
                proof {
                    assert(first_obj_err(h@, fm, k as int) == k as int);
                    assert(ctx@ =~= "While deserializing "@ + fm[k as int].0);
                }
                return Err(e.with_context(ctx));
            },
        }
        k += 1;
    }
    proof {
        assert(view_named_vals(out@) + Seq::<(Seq<char>, ValM)>::empty() =~= view_named_vals(
            out@,
        ));
    }
    Ok(Value::Struct(out))
}

/// Decodes an externally tagged enum through the enum and variant cursors.
#[verifier::loop_isolation(false)]
fn decode_enum(h: &HostValue, s: &Shape, variants: &Vec<(String, VariantShape)>) -> (r: Result<
    Value,
    Error,
>)
    requires
        *s matches Shape::Enum(vv) && vv == variants,
    ensures
        r is Ok <==> crate::model::dec_enum(h@, view_variants(variants@)) is Ok,
        r matches Ok(v) ==> crate::model::dec_enum(h@, view_variants(variants@)) == Ok::<
            ValM,
            KindTag,
        >(v@),
        r matches Err(e) ==> (crate::model::dec_enum(h@, view_variants(variants@)) matches Err(t)
            && kind_tag(e@.kind) == t),
    decreases h, s, 0int,
{
    let ea = EnumAccess::new(h);
    let (tag, va) = match ea.variant() {
        Ok(p) => p,
        Err(e) => {
            return Err(e);
        },
    };
    let j = match find_variant_index(variants, &tag) {
        Some(j) => j,
        None => {
            let mut msg = "unknown variant ".to_owned();
            msg.append(tag.as_str());
            return Err(Error::from_message(msg));
        },
    };
    let vshape = &variants[j].1;
    match vshape {
        VariantShape::Unit => {
            match va.unit_variant() {
                Ok(_) => Ok(Value::UnitVariant(tag)),
                Err(e) => Err(e),
            }
        },
        VariantShape::Newtype(inner) => {
            proof {
                assert(decreases_to!(*s => *variants));
                assert(decreases_to!(*variants => variants[j as int]));
                assert(decreases_to!(variants[j as int] => **inner));
                match h {
                    HostValue::Hash(pairs) => {
                        assert(decreases_to!(*h => *pairs));
                        assert(decreases_to!(*pairs => pairs[0]));
                    },
                    _ => {},
                }
            }
            match decode_value(va.object, &**inner) {
                Ok(v) => Ok(Value::NewtypeVariant(tag, Box::new(v))),
                Err(e) => Err(e),
            }
        },
        VariantShape::Tuple(_) => {
            match va.tuple_variant() {
                Ok(v) => Ok(v),
                Err(e) => Err(e),
            }
        },
        VariantShape::Struct(_) => {
            match va.struct_variant() {
                Ok(v) => Ok(v),
                Err(e) => Err(e),
            }
        },
    }
}

/// Wraps one host object reference and decodes it on demand; one instance is
/// created, often implicitly, for every recursive descent.
pub struct Deserializer {
    pub object: HostValue,
}

impl Deserializer {
    pub fn new(object: &HostValue) -> (r: Self)
        ensures
            r.object@ == object@,
    {
        Deserializer { object: crate::host::host_dup(object) }
    }

    /// Decodes the wrapped object as `Any`.
    pub fn deserialize_any(&self) -> (r: Result<Value, Error>)
        ensures
            r is Ok <==> spec_decode(self.object@, (Shape::Any)@) is Ok,
            r matches Ok(v) ==> spec_decode(self.object@, (Shape::Any)@) == Ok::<ValM, KindTag>(v@),
            r matches Err(e) ==> (spec_decode(self.object@, (Shape::Any)@) matches Err(t)
                && kind_tag(e@.kind) == t),
            (self.object@ matches HostM::Sym(_) || self.object@ matches HostM::Object {
                ..
            }) ==> (r matches Err(e) ==> e@.kind == ErrorKindM::Message(
                "No rules to deserialize "@ + spec_class_name(self.object@),
            ) && e@.context == Seq::<Seq<char>>::empty()),
    {
        decode_value(&self.object, &Shape::Any)
    }

    /// Decodes the wrapped object as `Bool`.
    pub fn deserialize_bool(&self) -> (r: Result<Value, Error>)
        ensures
            r is Ok <==> spec_decode(self.object@, (Shape::Bool)@) is Ok,
            r matches Ok(v) ==> spec_decode(self.object@, (Shape::Bool)@) == Ok::<ValM, KindTag>(v@),
            r matches Err(e) ==> (spec_decode(self.object@, (Shape::Bool)@) matches Err(t)
                && kind_tag(e@.kind) == t),
            r matches Err(e) ==> e@.kind == ErrorKindM::Message(
                spec_mismatch_msg(self.object@, "boolean"@),
            ) && e@.context == Seq::<Seq<char>>::empty(),
    {
        decode_value(&self.object, &Shape::Bool)
    }

    /// Decodes the wrapped object as `I8`.
    pub fn deserialize_i8(&self) -> (r: Result<Value, Error>)
        ensures
            r is Ok <==> spec_decode(self.object@, (Shape::I8)@) is Ok,
            r matches Ok(v) ==> spec_decode(self.object@, (Shape::I8)@) == Ok::<ValM, KindTag>(v@),
            r matches Err(e) ==> (spec_decode(self.object@, (Shape::I8)@) matches Err(t)
                && kind_tag(e@.kind) == t),
    {
        decode_value(&self.object, &Shape::I8)
    }

    /// Decodes the wrapped object as `I16`.
    pub fn deserialize_i16(&self) -> (r: Result<Value, Error>)
        ensures
            r is Ok <==> spec_decode(self.object@, (Shape::I16)@) is Ok,
            r matches Ok(v) ==> spec_decode(self.object@, (Shape::I16)@) == Ok::<ValM, KindTag>(v@),
            r matches Err(e) ==> (spec_decode(self.object@, (Shape::I16)@) matches Err(t)
                && kind_tag(e@.kind) == t),
    {
        decode_value(&self.object, &Shape::I16)
    }

    /// Decodes the wrapped object as `I32`.
    pub fn deserialize_i32(&self) -> (r: Result<Value, Error>)
        ensures
            r is Ok <==> spec_decode(self.object@, (Shape::I32)@) is Ok,
            r matches Ok(v) ==> spec_decode(self.object@, (Shape::I32)@) == Ok::<ValM, KindTag>(v@),
            r matches Err(e) ==> (spec_decode(self.object@, (Shape::I32)@) matches Err(t)
                && kind_tag(e@.kind) == t),
    {
        decode_value(&self.object, &Shape::I32)
    }

    /// Decodes the wrapped object as `I64`.
    pub fn deserialize_i64(&self) -> (r: Result<Value, Error>)
        ensures
            r is Ok <==> spec_decode(self.object@, (Shape::I64)@) is Ok,
            r matches Ok(v) ==> spec_decode(self.object@, (Shape::I64)@) == Ok::<ValM, KindTag>(v@),
            r matches Err(e) ==> (spec_decode(self.object@, (Shape::I64)@) matches Err(t)
                && kind_tag(e@.kind) == t),
            r matches Err(e) ==> e@.kind == ErrorKindM::Message(
                spec_mismatch_msg(self.object@, "integer"@),
            ) && e@.context == Seq::<Seq<char>>::empty(),
    {
        decode_value(&self.object, &Shape::I64)
    }

    /// Decodes the wrapped object as `U8`.
    pub fn deserialize_u8(&self) -> (r: Result<Value, Error>)
        ensures
            r is Ok <==> spec_decode(self.object@, (Shape::U8)@) is Ok,
            r matches Ok(v) ==> spec_decode(self.object@, (Shape::U8)@) == Ok::<ValM, KindTag>(v@),
            r matches Err(e) ==> (spec_decode(self.object@, (Shape::U8)@) matches Err(t)
                && kind_tag(e@.kind) == t),
    {
        decode_value(&self.object, &Shape::U8)
    }

    /// Decodes the wrapped object as `U16`.
    pub fn deserialize_u16(&self) -> (r: Result<Value, Error>)
        ensures
            r is Ok <==> spec_decode(self.object@, (Shape::U16)@) is Ok,
            r matches Ok(v) ==> spec_decode(self.object@, (Shape::U16)@) == Ok::<ValM, KindTag>(v@),
            r matches Err(e) ==> (spec_decode(self.object@, (Shape::U16)@) matches Err(t)
                && kind_tag(e@.kind) == t),
    {
        decode_value(&self.object, &Shape::U16)
    }

    /// Decodes the wrapped object as `U32`.
    pub fn deserialize_u32(&self) -> (r: Result<Value, Error>)
        ensures
            r is Ok <==> spec_decode(self.object@, (Shape::U32)@) is Ok,
            r matches Ok(v) ==> spec_decode(self.object@, (Shape::U32)@) == Ok::<ValM, KindTag>(v@),
            r matches Err(e) ==> (spec_decode(self.object@, (Shape::U32)@) matches Err(t)
                && kind_tag(e@.kind) == t),
    {
        decode_value(&self.object, &Shape::U32)
    }

    /// Decodes the wrapped object as `U64`.
    pub fn deserialize_u64(&self) -> (r: Result<Value, Error>)
        ensures
            r is Ok <==> spec_decode(self.object@, (Shape::U64)@) is Ok,
            r matches Ok(v) ==> spec_decode(self.object@, (Shape::U64)@) == Ok::<ValM, KindTag>(v@),
            r matches Err(e) ==> (spec_decode(self.object@, (Shape::U64)@) matches Err(t)
                && kind_tag(e@.kind) == t),
    {
        decode_value(&self.object, &Shape::U64)
    }

    /// Decodes the wrapped object as `F32`.
    pub fn deserialize_f32(&self) -> (r: Result<Value, Error>)
        ensures
            r is Ok <==> spec_decode(self.object@, (Shape::F32)@) is Ok,
            r matches Ok(v) ==> spec_decode(self.object@, (Shape::F32)@) == Ok::<ValM, KindTag>(v@),
            r matches Err(e) ==> (spec_decode(self.object@, (Shape::F32)@) matches Err(t)
                && kind_tag(e@.kind) == t),
    {
        decode_value(&self.object, &Shape::F32)
    }

    /// Decodes the wrapped object as `F64`.
    pub fn deserialize_f64(&self) -> (r: Result<Value, Error>)
        ensures
            r is Ok <==> spec_decode(self.object@, (Shape::F64)@) is Ok,
            r matches Ok(v) ==> spec_decode(self.object@, (Shape::F64)@) == Ok::<ValM, KindTag>(v@),
            r matches Err(e) ==> (spec_decode(self.object@, (Shape::F64)@) matches Err(t)
                && kind_tag(e@.kind) == t),
    {
        decode_value(&self.object, &Shape::F64)
    }

    /// Decodes the wrapped object as `Char`.
    pub fn deserialize_char(&self) -> (r: Result<Value, Error>)
        ensures
            r is Ok <==> spec_decode(self.object@, (Shape::Char)@) is Ok,
            r matches Ok(v) ==> spec_decode(self.object@, (Shape::Char)@) == Ok::<ValM, KindTag>(v@),
            r matches Err(e) ==> (spec_decode(self.object@, (Shape::Char)@) matches Err(t)
                && kind_tag(e@.kind) == t),
    {
        decode_value(&self.object, &Shape::Char)
    }

    /// Decodes the wrapped object as `Str`.
    pub fn deserialize_str(&self) -> (r: Result<Value, Error>)
        ensures
            r is Ok <==> spec_decode(self.object@, (Shape::Str)@) is Ok,
            r matches Ok(v) ==> spec_decode(self.object@, (Shape::Str)@) == Ok::<ValM, KindTag>(v@),
            r matches Err(e) ==> (spec_decode(self.object@, (Shape::Str)@) matches Err(t)
                && kind_tag(e@.kind) == t),
    {
        decode_value(&self.object, &Shape::Str)
    }

    /// Decodes the wrapped object as `Str`.
    pub fn deserialize_string(&self) -> (r: Result<Value, Error>)
        ensures
            r is Ok <==> spec_decode(self.object@, (Shape::Str)@) is Ok,
            r matches Ok(v) ==> spec_decode(self.object@, (Shape::Str)@) == Ok::<ValM, KindTag>(v@),
            r matches Err(e) ==> (spec_decode(self.object@, (Shape::Str)@) matches Err(t)
                && kind_tag(e@.kind) == t),
    {
        decode_value(&self.object, &Shape::Str)
    }

    /// Decodes the wrapped object as `Bytes`.
    pub fn deserialize_bytes(&self) -> (r: Result<Value, Error>)
        ensures
            r is Ok <==> spec_decode(self.object@, (Shape::Bytes)@) is Ok,
            r matches Ok(v) ==> spec_decode(self.object@, (Shape::Bytes)@) == Ok::<ValM, KindTag>(v@),
            r matches Err(e) ==> (spec_decode(self.object@, (Shape::Bytes)@) matches Err(t)
                && kind_tag(e@.kind) == t),
            r matches Err(e) ==> e@.kind == ErrorKindM::Message(
                spec_mismatch_msg(self.object@, "bytes"@),
            ) && e@.context == Seq::<Seq<char>>::empty(),
    {
        decode_value(&self.object, &Shape::Bytes)
    }

    /// Decodes the wrapped object as `ByteBuf`.
    pub fn deserialize_byte_buf(&self) -> (r: Result<Value, Error>)
        ensures
            r is Ok <==> spec_decode(self.object@, (Shape::ByteBuf)@) is Ok,
            r matches Ok(v) ==> spec_decode(self.object@, (Shape::ByteBuf)@) == Ok::<ValM, KindTag>(v@),
            r matches Err(e) ==> (spec_decode(self.object@, (Shape::ByteBuf)@) matches Err(t)
                && kind_tag(e@.kind) == t),
    {
        decode_value(&self.object, &Shape::ByteBuf)
    }

    /// Decodes the wrapped object as `Unit`.
    pub fn deserialize_unit(&self) -> (r: Result<Value, Error>)
        ensures
            r is Ok <==> spec_decode(self.object@, (Shape::Unit)@) is Ok,
            r matches Ok(v) ==> spec_decode(self.object@, (Shape::Unit)@) == Ok::<ValM, KindTag>(v@),
            r matches Err(e) ==> (spec_decode(self.object@, (Shape::Unit)@) matches Err(t)
                && kind_tag(e@.kind) == t),
            r matches Err(e) ==> e@.kind == ErrorKindM::Message("not unit"@) && e@.context
                == Seq::<Seq<char>>::empty(),
    {
        decode_value(&self.object, &Shape::Unit)
    }

    /// Decodes the wrapped object as `UnitStruct`.
    pub fn deserialize_unit_struct(&self) -> (r: Result<Value, Error>)
        ensures
            r is Ok <==> spec_decode(self.object@, (Shape::UnitStruct)@) is Ok,
            r matches Ok(v) ==> spec_decode(self.object@, (Shape::UnitStruct)@) == Ok::<ValM, KindTag>(v@),
            r matches Err(e) ==> (spec_decode(self.object@, (Shape::UnitStruct)@) matches Err(t)
                && kind_tag(e@.kind) == t),
    {
        decode_value(&self.object, &Shape::UnitStruct)
    }

    /// Decodes the wrapped object as `Identifier`.
    pub fn deserialize_identifier(&self) -> (r: Result<Value, Error>)
        ensures
            r is Ok <==> spec_decode(self.object@, (Shape::Identifier)@) is Ok,
            r matches Ok(v) ==> spec_decode(self.object@, (Shape::Identifier)@) == Ok::<ValM, KindTag>(v@),
            r matches Err(e) ==> (spec_decode(self.object@, (Shape::Identifier)@) matches Err(t)
                && kind_tag(e@.kind) == t),
    {
        decode_value(&self.object, &Shape::Identifier)
    }

    /// Decodes the wrapped object as `IgnoredAny`.
    pub fn deserialize_ignored_any(&self) -> (r: Result<Value, Error>)
        ensures
            r is Ok <==> spec_decode(self.object@, (Shape::IgnoredAny)@) is Ok,
            r matches Ok(v) ==> spec_decode(self.object@, (Shape::IgnoredAny)@) == Ok::<ValM, KindTag>(v@),
            r matches Err(e) ==> (spec_decode(self.object@, (Shape::IgnoredAny)@) matches Err(t)
                && kind_tag(e@.kind) == t),
    {
        decode_value(&self.object, &Shape::IgnoredAny)
    }

    /// Decodes the wrapped object as an optional of the inner shape.
    pub fn deserialize_option(&self, inner: &Shape) -> (r: Result<Value, Error>)
        ensures
            ({
                let s = ShapeM::Optional(Box::new(inner@));
                &&& (r is Ok <==> spec_decode(self.object@, s) is Ok)
                &&& (r matches Ok(v) ==> spec_decode(self.object@, s) == Ok::<ValM, KindTag>(v@))
                &&& (r matches Err(e) ==> (spec_decode(self.object@, s) matches Err(t)
                    && kind_tag(e@.kind) == t))
            }),
    {
        match &self.object {
            HostValue::Nil => Ok(Value::Missing),
            _ => match decode_value(&self.object, inner) {
                Ok(v) => Ok(Value::Present(Box::new(v))),
                Err(e) => Err(e),
            },
        }
    }

    /// Decodes the wrapped object transparently as a newtype struct.
    pub fn deserialize_newtype_struct(&self, inner: &Shape) -> (r: Result<Value, Error>)
        ensures
            r is Ok <==> spec_decode(self.object@, inner@) is Ok,
            r matches Ok(v) ==> spec_decode(self.object@, inner@) == Ok::<ValM, KindTag>(v@),
            r matches Err(e) ==> (spec_decode(self.object@, inner@) matches Err(t) && kind_tag(
                e@.kind,
            ) == t),
    {
        decode_value(&self.object, inner)
    }

    /// Decodes the wrapped object as a sequence of the element shape.
    pub fn deserialize_seq(&self, elem: &Shape) -> (r: Result<Value, Error>)
        ensures
            ({
                let s = ShapeM::Sequence(Box::new(elem@));
                &&& (r is Ok <==> spec_decode(self.object@, s) is Ok)
                &&& (r matches Ok(v) ==> spec_decode(self.object@, s) == Ok::<ValM, KindTag>(v@))
                &&& (r matches Err(e) ==> (spec_decode(self.object@, s) matches Err(t)
                    && kind_tag(e@.kind) == t))
            }),
    {
        match &self.object {
            HostValue::Array(arr) => decode_elements(&self.object, arr, elem),
            _ => Err(missing_capability_error(&self.object, "length")),
        }
    }

    /// Decodes the wrapped object as a tuple, elementwise.
    pub fn deserialize_tuple(&self, shapes: &Vec<Shape>) -> (r: Result<Value, Error>)
        ensures
            ({
                let s = ShapeM::Tuple(view_shapes(shapes@));
                &&& (r is Ok <==> spec_decode(self.object@, s) is Ok)
                &&& (r matches Ok(v) ==> spec_decode(self.object@, s) == Ok::<ValM, KindTag>(v@))
                &&& (r matches Err(e) ==> (spec_decode(self.object@, s) matches Err(t)
                    && kind_tag(e@.kind) == t))
            }),
    {
        match &self.object {
            HostValue::Array(arr) => decode_tuple_elements(&self.object, arr, shapes),
            _ => Err(missing_capability_error(&self.object, "length")),
        }
    }

    /// Decodes the wrapped object as a tuple struct: the identical mechanism
    /// as a tuple, elementwise over the host array.
    pub fn deserialize_tuple_struct(&self, shapes: &Vec<Shape>) -> (r: Result<Value, Error>)
        ensures
            ({
                let s = ShapeM::TupleStruct(view_shapes(shapes@));
                &&& (r is Ok <==> spec_decode(self.object@, s) is Ok)
                &&& (r matches Ok(v) ==> spec_decode(self.object@, s) == Ok::<ValM, KindTag>(v@))
                &&& (r matches Err(e) ==> (spec_decode(self.object@, s) matches Err(t)
                    && kind_tag(e@.kind) == t))
            }),
    {
        match &self.object {
            HostValue::Array(arr) => decode_tuple_elements(&self.object, arr, shapes),
            _ => Err(missing_capability_error(&self.object, "length")),
        }
    }

    /// Decodes the wrapped object as a map of the key and value shapes.
    pub fn deserialize_map(&self, ks: &Shape, vs: &Shape) -> (r: Result<Value, Error>)
        ensures
            ({
                let s = ShapeM::Mapping(Box::new(ks@), Box::new(vs@));
                &&& (r is Ok <==> spec_decode(self.object@, s) is Ok)
                &&& (r matches Ok(v) ==> spec_decode(self.object@, s) == Ok::<ValM, KindTag>(v@))
                &&& (r matches Err(e) ==> (spec_decode(self.object@, s) matches Err(t)
                    && kind_tag(e@.kind) == t))
            }),
    {
        match &self.object {
            HostValue::Hash(pairs) => decode_entries(&self.object, pairs, ks, vs),
            _ => Err(missing_capability_error(&self.object, "keys")),
        }
    }

    /// Decodes the wrapped object as a struct with the declared fields,
    /// choosing map mode or object mode by the keyed-container capability.
    pub fn deserialize_struct(&self, fields: &Vec<(String, Shape)>) -> (r: Result<Value, Error>)
        ensures
            ({
                let s = ShapeM::Struct(view_fields(fields@));
                &&& (r is Ok <==> spec_decode(self.object@, s) is Ok)
                &&& (r matches Ok(v) ==> spec_decode(self.object@, s) == Ok::<ValM, KindTag>(v@))
                &&& (r matches Err(e) ==> (spec_decode(self.object@, s) matches Err(t)
                    && kind_tag(e@.kind) == t))
            }),
    {
        match &self.object {
            HostValue::Hash(pairs) => decode_struct_from_hash(&self.object, pairs, fields),
            _ => decode_struct_from_object(&self.object, fields),
        }
    }

    /// Decodes the wrapped object against the given shape.
    pub fn deserialize(&self, shape: &Shape) -> (r: Result<Value, Error>)
        ensures
            r is Ok <==> spec_decode(self.object@, shape@) is Ok,
            r matches Ok(v) ==> spec_decode(self.object@, shape@) == Ok::<ValM, KindTag>(v@),
            r matches Err(e) ==> (spec_decode(self.object@, shape@) matches Err(t) && kind_tag(
                e@.kind,
            ) == t),
    {
        decode_value(&self.object, shape)
    }
}

/// Decodes a host object against a requested shape: the library's main
/// deserialization entry point.
pub fn from_object(object: &HostValue, shape: &Shape) -> (r: Result<Value, Error>)
    ensures
        r is Ok <==> spec_decode(object@, shape@) is Ok,
        r matches Ok(v) ==> spec_decode(object@, shape@) == Ok::<ValM, KindTag>(v@),
        r matches Err(e) ==> (spec_decode(object@, shape@) matches Err(t) && kind_tag(e@.kind)
            == t),
        shape@ == ShapeM::Unit ==> (r matches Err(e) ==> e@.kind == ErrorKindM::Message(
            "not unit"@,
        ) && e@.context == Seq::<Seq<char>>::empty()),
        is_integer_shape(shape@) ==> (r matches Err(e) ==> e@.kind == ErrorKindM::Message(
            spec_mismatch_msg(object@, "integer"@),
        ) && e@.context == Seq::<Seq<char>>::empty()),
        shape@ == ShapeM::Bytes || shape@ == ShapeM::ByteBuf ==> (r matches Err(e) ==> e@.kind
            == ErrorKindM::Message(spec_mismatch_msg(object@, "bytes"@)) && e@.context == Seq::<
            Seq<char>,
        >::empty()),
        (shape@ == ShapeM::Any && (object@ matches HostM::Sym(_)
            || object@ matches HostM::Object { .. })) ==> (r matches Err(e) ==> e@.kind
            == ErrorKindM::Message(
            "No rules to deserialize "@ + spec_class_name(object@),
        ) && e@.context == Seq::<Seq<char>>::empty()),
        shape@ matches ShapeM::Sequence(elem) ==> (object@ matches HostM::Array(elems) ==> (r matches Err(
            e,
        ) ==> e@.context.len() >= 1 && e@.context.last() == "While deserializing element "@
            + spec_dec_digits(first_elem_err(elems, *elem, 0) as nat))),
        shape@ matches ShapeM::Tuple(shapes) ==> (object@ matches HostM::Array(elems) ==> (elems.len()
            >= shapes.len() ==> (r matches Err(e) ==> e@.context.len() >= 1 && e@.context.last()
            == "While deserializing element "@ + spec_dec_digits(
            first_tuple_err(elems, shapes, 0) as nat,
        )))),
        shape@ matches ShapeM::TupleStruct(shapes) ==> (object@ matches HostM::Array(elems) ==> (
        elems.len() >= shapes.len() ==> (r matches Err(e) ==> e@.context.len() >= 1
            && e@.context.last() == "While deserializing element "@ + spec_dec_digits(
            first_tuple_err(elems, shapes, 0) as nat,
        )))),
        shape@ matches ShapeM::Struct(fields) ==> (!(object@ matches HostM::Hash(_)) ==> (r matches Err(e)
            ==> e@.context.len() >= 1 && e@.context.last() == "While deserializing "@ + fields[
            first_obj_err(object@, fields, 0)
        ].0)),
        shape@ matches ShapeM::Struct(fields) ==> (object@ matches HostM::Hash(pairs) ==> (
        crate::model::walk_fail_field(pairs, fields, 0, Seq::empty()) matches Some(name) ==> (
        r matches Err(e) ==> e@.context.len() >= 1 && e@.context.last()
            == "While deserializing "@ + name))),
{
    decode_value(object, shape)
}

/// Decoding from a host reference into either a typed value or a plain copy
/// of the reference itself, under one interface.
pub trait DeserializeWrapper<T>: Sized {
    /// What a finished deserialization must satisfy.
    spec fn decode_post(data: T, r: Result<Self, Error>) -> bool;

    fn deserialize(data: T) -> (r: Result<Self, Error>)
        ensures
            Self::decode_post(data, r),
    ;
}

impl<'a> DeserializeWrapper<(&'a HostValue, &'a Shape)> for Value {
    open spec fn decode_post(data: (&'a HostValue, &'a Shape), r: Result<Value, Error>) -> bool {
        &&& (r is Ok <==> spec_decode(data.0@, data.1@) is Ok)
        &&& (r matches Ok(v) ==> spec_decode(data.0@, data.1@) == Ok::<ValM, KindTag>(v@))
        &&& (r matches Err(e) ==> (spec_decode(data.0@, data.1@) matches Err(t) && kind_tag(
            e@.kind,
        ) == t))
    }

    fn deserialize(data: (&'a HostValue, &'a Shape)) -> (r: Result<Value, Error>) {
        from_object(data.0, data.1)
    }
}

impl<'a> DeserializeWrapper<&'a HostValue> for HostValue {
    open spec fn decode_post(data: &'a HostValue, r: Result<HostValue, Error>) -> bool {
        r matches Ok(h) && h@ == data@
    }

    fn deserialize(data: &'a HostValue) -> (r: Result<HostValue, Error>) {
        Ok(crate::host::host_dup(data))
    }
}

} // verus!
