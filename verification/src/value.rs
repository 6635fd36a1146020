use vstd::prelude::*;

verus! {

/// A requested shape of the abstract data model: what the caller statically
/// expects the host object to decode into. `Any` asks for the best-effort
/// inference used when no static expectation exists.
#[derive(Debug, PartialEq)]
pub enum Shape {
    Any,
    Bool,
    I8,
    I16,
    I32,
    I64,
    U8,
    U16,
    U32,
    U64,
    F32,
    F64,
    Char,
    Str,
    Bytes,
    ByteBuf,
    Optional(Box<Shape>),
    Unit,
    UnitStruct,
    NewtypeStruct(Box<Shape>),
    Sequence(Box<Shape>),
    Tuple(Vec<Shape>),
    TupleStruct(Vec<Shape>),
    Mapping(Box<Shape>, Box<Shape>),
    Struct(Vec<(String, Shape)>),
    Enum(Vec<(String, VariantShape)>),
    Identifier,
    IgnoredAny,
}

/// The payload shape of one enum variant under the externally-tagged
/// convention.
#[derive(Debug, PartialEq)]
pub enum VariantShape {
    Unit,
    Newtype(Box<Shape>),
    Tuple(Vec<Shape>),
    Struct(Vec<(String, Shape)>),
}

/// Mathematical model of a requested shape.
pub enum ShapeM {
    Any,
    Bool,
    I8,
    I16,
    I32,
    I64,
    U8,
    U16,
    U32,
    U64,
    F32,
    F64,
    Char,
    Str,
    Bytes,
    ByteBuf,
    Optional(Box<ShapeM>),
    Unit,
    UnitStruct,
    NewtypeStruct(Box<ShapeM>),
    Sequence(Box<ShapeM>),
    Tuple(Seq<ShapeM>),
    TupleStruct(Seq<ShapeM>),
    Mapping(Box<ShapeM>, Box<ShapeM>),
    Struct(Seq<(Seq<char>, ShapeM)>),
    Enum(Seq<(Seq<char>, VariantShapeM)>),
    Identifier,
    IgnoredAny,
}

/// Mathematical model of one variant's payload shape.
pub enum VariantShapeM {
    Unit,
    Newtype(Box<ShapeM>),
    Tuple(Seq<ShapeM>),
    Struct(Seq<(Seq<char>, ShapeM)>),
}

/// The models of a sequence of shapes, elementwise.
pub open spec fn view_shapes(v: Seq<Shape>) -> Seq<ShapeM>
    decreases v,
{
    Seq::new(v.len(), |i: int| if 0 <= i < v.len() { v[i]@ } else { ShapeM::Any })
}

/// The models of a sequence of named field shapes, elementwise.
pub open spec fn view_fields(v: Seq<(String, Shape)>) -> Seq<(Seq<char>, ShapeM)>
    decreases v,
{
    Seq::new(
        v.len(),
        |i: int|
            if 0 <= i < v.len() {
                (v[i].0@, v[i].1@)
            } else {
                (Seq::empty(), ShapeM::Any)
            },
    )
}

/// The models of a sequence of named variant shapes, elementwise.
pub open spec fn view_variants(v: Seq<(String, VariantShape)>) -> Seq<(Seq<char>, VariantShapeM)>
    decreases v,
{
    Seq::new(
        v.len(),
        |i: int|
            if 0 <= i < v.len() {
                (v[i].0@, v[i].1@)
            } else {
                (Seq::empty(), VariantShapeM::Unit)
            },
    )
}

impl View for Shape {
    type V = ShapeM;

    open spec fn view(&self) -> ShapeM
        decreases self,
    {
        match self {
            Shape::Any => ShapeM::Any,
            Shape::Bool => ShapeM::Bool,
            Shape::I8 => ShapeM::I8,
            Shape::I16 => ShapeM::I16,
            Shape::I32 => ShapeM::I32,
            Shape::I64 => ShapeM::I64,
            Shape::U8 => ShapeM::U8,
            Shape::U16 => ShapeM::U16,
            Shape::U32 => ShapeM::U32,
            Shape::U64 => ShapeM::U64,
            Shape::F32 => ShapeM::F32,
            Shape::F64 => ShapeM::F64,
            Shape::Char => ShapeM::Char,
            Shape::Str => ShapeM::Str,
            Shape::Bytes => ShapeM::Bytes,
            Shape::ByteBuf => ShapeM::ByteBuf,
            Shape::Optional(s) => ShapeM::Optional(Box::new((**s)@)),
            Shape::Unit => ShapeM::Unit,
            Shape::UnitStruct => ShapeM::UnitStruct,
            Shape::NewtypeStruct(s) => ShapeM::NewtypeStruct(Box::new((**s)@)),
            Shape::Sequence(s) => ShapeM::Sequence(Box::new((**s)@)),
            Shape::Tuple(v) => ShapeM::Tuple(view_shapes(v@)),
            Shape::TupleStruct(v) => ShapeM::TupleStruct(view_shapes(v@)),
            Shape::Mapping(k, v) => ShapeM::Mapping(Box::new((**k)@), Box::new((**v)@)),
            Shape::Struct(fields) => ShapeM::Struct(view_fields(fields@)),
            Shape::Enum(variants) => ShapeM::Enum(view_variants(variants@)),
            Shape::Identifier => ShapeM::Identifier,
            Shape::IgnoredAny => ShapeM::IgnoredAny,
        }
    }
}

impl View for VariantShape {
    type V = VariantShapeM;

    open spec fn view(&self) -> VariantShapeM
        decreases self,
    {
        match self {
            VariantShape::Unit => VariantShapeM::Unit,
            VariantShape::Newtype(s) => VariantShapeM::Newtype(Box::new((**s)@)),
            VariantShape::Tuple(v) => VariantShapeM::Tuple(view_shapes(v@)),
            VariantShape::Struct(fields) => VariantShapeM::Struct(view_fields(fields@)),
        }
    }
}

/// A typed value of the abstract data model, as the converter produces and
/// consumes it. All signed integer widths travel as one 64-bit value, the
/// narrow unsigned widths as one 32-bit value, and floats as their 64-bit
/// bit pattern, mirroring the single native integer and float types of the
/// host runtime. A float requested from a native integer travels as that
/// integer (`F64FromInt`), for the host edge to coerce: the coercion itself
/// is floating-point work and stays outside the converter.
#[derive(Debug, PartialEq)]
pub enum Value {
    Bool(bool),
    I64(i64),
    U32(u32),
    U64(u64),
    F64(u64),
    F64FromInt(i64),
    Str(String),
    Bytes(Vec<u8>),
    Missing,
    Present(Box<Value>),
    Unit,
    Sequence(Vec<Value>),
    Tuple(Vec<Value>),
    Mapping(Vec<(Value, Value)>),
    Struct(Vec<(String, Value)>),
    UnitVariant(String),
    NewtypeVariant(String, Box<Value>),
    TupleVariant(String, Vec<Value>),
    StructVariant(String, Vec<(String, Value)>),
}

/// Mathematical model of a typed value.
pub enum ValM {
    Bool(bool),
    I64(int),
    U32(u32),
    U64(u64),
    F64(u64),
    F64FromInt(int),
    Str(Seq<char>),
    Bytes(Seq<u8>),
    Missing,
    Present(Seq<ValM>),
    Unit,
    Sequence(Seq<ValM>),
    Tuple(Seq<ValM>),
    Mapping(Seq<(ValM, ValM)>),
    Struct(Seq<(Seq<char>, ValM)>),
    UnitVariant(Seq<char>),
    NewtypeVariant(Seq<char>, Seq<ValM>),
    TupleVariant(Seq<char>, Seq<ValM>),
    StructVariant(Seq<char>, Seq<(Seq<char>, ValM)>),
}

/// The models of a sequence of values, elementwise.
pub open spec fn view_vals(v: Seq<Value>) -> Seq<ValM>
    decreases v,
{
    Seq::new(v.len(), |i: int| if 0 <= i < v.len() { v[i]@ } else { ValM::Unit })
}

/// The models of a sequence of value pairs, elementwise.
pub open spec fn view_val_pairs(v: Seq<(Value, Value)>) -> Seq<(ValM, ValM)>
    decreases v,
{
    Seq::new(
        v.len(),
        |i: int|
            if 0 <= i < v.len() {
                (v[i].0@, v[i].1@)
            } else {
                (ValM::Unit, ValM::Unit)
            },
    )
}

/// The models of a sequence of named values, elementwise.
pub open spec fn view_named_vals(v: Seq<(String, Value)>) -> Seq<(Seq<char>, ValM)>
    decreases v,
{
    Seq::new(
        v.len(),
        |i: int|
            if 0 <= i < v.len() {
                (v[i].0@, v[i].1@)
            } else {
                (Seq::empty(), ValM::Unit)
            },
    )
}

impl View for Value {
    type V = ValM;

    open spec fn view(&self) -> ValM
        decreases self,
    {
        match self {
            Value::Bool(b) => ValM::Bool(*b),
            Value::I64(i) => ValM::I64(*i as int),
            Value::U32(u) => ValM::U32(*u),
            Value::U64(u) => ValM::U64(*u),
            Value::F64(bits) => ValM::F64(*bits),
            Value::F64FromInt(i) => ValM::F64FromInt(*i as int),
            Value::Str(s) => ValM::Str(s@),
            Value::Bytes(b) => ValM::Bytes(b@),
            Value::Missing => ValM::Missing,
            Value::Present(v) => ValM::Present(seq![(**v)@]),
            Value::Unit => ValM::Unit,
            Value::Sequence(v) => ValM::Sequence(view_vals(v@)),
            Value::Tuple(v) => ValM::Tuple(view_vals(v@)),
            Value::Mapping(v) => ValM::Mapping(view_val_pairs(v@)),
            Value::Struct(v) => ValM::Struct(view_named_vals(v@)),
            Value::UnitVariant(n) => ValM::UnitVariant(n@),
            Value::NewtypeVariant(n, v) => ValM::NewtypeVariant(n@, seq![(**v)@]),
            Value::TupleVariant(n, v) => ValM::TupleVariant(n@, view_vals(v@)),
            Value::StructVariant(n, v) => ValM::StructVariant(n@, view_named_vals(v@)),
        }
    }
}

/// The variant of the given name, if the enum declares one.
pub open spec fn find_variant(
    variants: Seq<(Seq<char>, VariantShapeM)>,
    tag: Seq<char>,
) -> Option<VariantShapeM>
    decreases variants.len(),
{
    if variants.len() == 0 {
        None
    } else if variants[0].0 == tag {
        Some(variants[0].1)
    } else {
        find_variant(variants.drop_first(), tag)
    }
}

/// A variant found by tag is structurally part of the variant list.
pub broadcast proof fn lemma_find_variant_smaller(
    variants: Seq<(Seq<char>, VariantShapeM)>,
    tag: Seq<char>,
)
    ensures
        (#[trigger] find_variant(variants, tag)) matches Some(v) ==> decreases_to!(variants => v),
    decreases variants.len(),
{
    if variants.len() == 0 {
    } else if variants[0].0 == tag {
        assert(decreases_to!(variants => variants[0]));
        assert(decreases_to!(variants[0] => variants[0].1));
    } else {
        lemma_find_variant_smaller(variants.drop_first(), tag);
        vstd::seq::axiom_seq_subrange_decreases(variants, 1, variants.len() as int);
        assert(variants.drop_first() == variants.subrange(1, variants.len() as int));
    }
}

} // verus!
