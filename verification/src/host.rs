use vstd::prelude::*;

use crate::error::{Error, ErrorKindM};
use crate::strutil::{int_to_string, spec_int_str};

verus! {

/// Model of one value in the host runtime's object graph, as far as the
/// converter reads it: the distinguished nil sentinel, the native primitives
/// (one integer type, one float type carried as its bit pattern, strings and
/// symbolic keys), ordered arrays, insertion-ordered key/value containers,
/// and reflective objects that answer dynamic method dispatch by name.
#[derive(Debug, PartialEq)]
pub enum HostValue {
    Nil,
    Bool(bool),
    Int(i64),
    Float(u64),
    Str(String),
    Sym(String),
    Array(Vec<HostValue>),
    Hash(Vec<(HostValue, HostValue)>),
    Object { class_name: String, methods: Vec<(String, HostValue)> },
}

/// Mathematical model of a host value: the same tree over `Seq` and `int`.
pub enum HostM {
    Nil,
    Bool(bool),
    Int(int),
    Float(u64),
    Str(Seq<char>),
    Sym(Seq<char>),
    Array(Seq<HostM>),
    Hash(Seq<(HostM, HostM)>),
    Object { class_name: Seq<char>, methods: Seq<(Seq<char>, HostM)> },
}

/// The models of a sequence of host values, elementwise.
pub open spec fn view_elems(v: Seq<HostValue>) -> Seq<HostM>
    decreases v,
{
    Seq::new(v.len(), |i: int| if 0 <= i < v.len() { v[i]@ } else { HostM::Nil })
}

/// The models of a sequence of key/value pairs, elementwise.
pub open spec fn view_pairs(pairs: Seq<(HostValue, HostValue)>) -> Seq<(HostM, HostM)>
    decreases pairs,
{
    Seq::new(
        pairs.len(),
        |i: int|
            if 0 <= i < pairs.len() {
                (pairs[i].0@, pairs[i].1@)
            } else {
                (HostM::Nil, HostM::Nil)
            },
    )
}

/// The models of a sequence of named methods, elementwise.
pub open spec fn view_methods(methods: Seq<(String, HostValue)>) -> Seq<(Seq<char>, HostM)>
    decreases methods,
{
    Seq::new(
        methods.len(),
        |i: int|
            if 0 <= i < methods.len() {
                (methods[i].0@, methods[i].1@)
            } else {
                (Seq::empty(), HostM::Nil)
            },
    )
}

impl View for HostValue {
    type V = HostM;

    open spec fn view(&self) -> HostM
        decreases self,
    {
        match self {
            HostValue::Nil => HostM::Nil,
            HostValue::Bool(b) => HostM::Bool(*b),
            HostValue::Int(i) => HostM::Int(*i as int),
            HostValue::Float(bits) => HostM::Float(*bits),
            HostValue::Str(s) => HostM::Str(s@),
            HostValue::Sym(s) => HostM::Sym(s@),
            HostValue::Array(v) => HostM::Array(view_elems(v@)),
            HostValue::Hash(pairs) => HostM::Hash(view_pairs(pairs@)),
            HostValue::Object { class_name, methods } => HostM::Object {
                class_name: class_name@,
                methods: view_methods(methods@),
            },
        }
    }
}

/// The runtime class name a host value reports.
pub open spec fn spec_class_name(h: HostM) -> Seq<char> {
    match h {
        HostM::Nil => "NilClass"@,
        HostM::Bool(b) => if b {
            "TrueClass"@
        } else {
            "FalseClass"@
        },
        HostM::Int(_) => "Integer"@,
        HostM::Float(_) => "Float"@,
        HostM::Str(_) => "String"@,
        HostM::Sym(_) => "Symbol"@,
        HostM::Array(_) => "Array"@,
        HostM::Hash(_) => "Hash"@,
        HostM::Object { class_name, .. } => class_name,
    }
}

/// What the host's generic stringify conversion returns, where the converter
/// can state it: nil renders empty, booleans render as their names, integers
/// render in decimal, strings and symbolic keys render as themselves, and a
/// reflective object answers through its own stringify method where it has
/// one that yields a string. A float's formatting is floating-point work and
/// an array's or container's rendering is the host's own computation, and
/// the host interface lets any dispatch raise, so for those stringification
/// reports a failure.
pub open spec fn spec_to_s(h: HostM) -> Option<Seq<char>> {
    match h {
        HostM::Nil => Some(Seq::<char>::empty()),
        HostM::Bool(b) => if b {
            Some("true"@)
        } else {
            Some("false"@)
        },
        HostM::Int(i) => Some(spec_int_str(i)),
        HostM::Str(s) => Some(s),
        HostM::Sym(s) => Some(s),
        HostM::Object { methods, .. } => match spec_call(methods, "to_s"@) {
            Some(HostM::Str(s)) => Some(s),
            _ => None,
        },
        _ => None,
    }
}

/// Keyed lookup in an insertion-ordered container: the value of the first
/// pair whose key equals the one sought, if any.
pub open spec fn spec_fetch(pairs: Seq<(HostM, HostM)>, key: HostM) -> Option<HostM>
    decreases pairs.len(),
{
    if pairs.len() == 0 {
        None
    } else if pairs[0].0 == key {
        Some(pairs[0].1)
    } else {
        spec_fetch(pairs.drop_first(), key)
    }
}

/// Dynamic method dispatch by name: the result of the first method with the
/// name sought, if the object answers it.
pub open spec fn spec_call(methods: Seq<(Seq<char>, HostM)>, name: Seq<char>) -> Option<HostM>
    decreases methods.len(),
{
    if methods.len() == 0 {
        None
    } else if methods[0].0 == name {
        Some(methods[0].1)
    } else {
        spec_call(methods.drop_first(), name)
    }
}

/// Storing under a key in an insertion-ordered container, as the host's
/// keyed write does: an existing equal key keeps its place and its key
/// object and takes the new value (the last write wins); a new key appends.
pub open spec fn spec_store(pairs: Seq<(HostM, HostM)>, key: HostM, value: HostM) -> Seq<
    (HostM, HostM),
>
    decreases pairs.len(),
{
    if pairs.len() == 0 {
        seq![(key, value)]
    } else if pairs[0].0 == key {
        seq![(pairs[0].0, value)] + pairs.drop_first()
    } else {
        seq![pairs[0]] + spec_store(pairs.drop_first(), key, value)
    }
}

/// Storing a list of entries one after the other, later writes winning.
pub open spec fn store_all(
    entries: Seq<(HostM, HostM)>,
    i: int,
    acc: Seq<(HostM, HostM)>,
) -> Seq<(HostM, HostM)>
    decreases entries.len() - i,
{
    if i < 0 || i >= entries.len() {
        acc
    } else {
        store_all(entries, i + 1, spec_store(acc, entries[i].0, entries[i].1))
    }
}

/// Appending one more entry to a store run stores it last.
pub proof fn lemma_store_all_push(
    entries: Seq<(HostM, HostM)>,
    i: int,
    acc: Seq<(HostM, HostM)>,
    key: HostM,
    value: HostM,
)
    requires
        0 <= i <= entries.len(),
    ensures
        store_all(entries.push((key, value)), i, acc) == spec_store(
            store_all(entries, i, acc),
            key,
            value,
        ),
    decreases entries.len() - i,
{
    let pushed = entries.push((key, value));
    assert(pushed.len() == entries.len() + 1);
    if i == entries.len() {
        assert(pushed[i] == (key, value));
        assert(store_all(pushed, i, acc) == store_all(pushed, i + 1, spec_store(acc, key, value)));
        assert(store_all(pushed, i + 1, spec_store(acc, key, value)) == spec_store(
            acc,
            key,
            value,
        ));
        assert(store_all(entries, i, acc) == acc);
    } else {
        assert(pushed[i] == entries[i]);
        lemma_store_all_push(
            entries,
            i + 1,
            spec_store(acc, entries[i].0, entries[i].1),
            key,
            value,
        );
        assert(store_all(pushed, i, acc) == store_all(
            pushed,
            i + 1,
            spec_store(acc, pushed[i].0, pushed[i].1),
        ));
    }
}

impl HostValue {
    /// The type test for the distinguished nil sentinel.
    pub fn is_nil(&self) -> (r: bool)
        ensures
            r == (self@ matches HostM::Nil),
    {
        match self {
            HostValue::Nil => true,
            _ => false,
        }
    }

    /// The runtime class name this value reports.
    pub fn class_name(&self) -> (r: String)
        ensures
            r@ == spec_class_name(self@),
    {
        match self {
            HostValue::Nil => "NilClass".to_owned(),
            HostValue::Bool(b) => if *b {
                "TrueClass".to_owned()
            } else {
                "FalseClass".to_owned()
            },
            HostValue::Int(_) => "Integer".to_owned(),
            HostValue::Float(_) => "Float".to_owned(),
            HostValue::Str(_) => "String".to_owned(),
            HostValue::Sym(_) => "Symbol".to_owned(),
            HostValue::Array(_) => "Array".to_owned(),
            HostValue::Hash(_) => "Hash".to_owned(),
            HostValue::Object { class_name, .. } => class_name.clone(),
        }
    }

    /// The host's generic stringify conversion, as far as it is modelled.
    pub fn to_s(&self) -> (r: Result<String, Error>)
        ensures
            r is Ok <==> spec_to_s(self@) is Some,
            r matches Ok(s) ==> Some(s@) == spec_to_s(self@),
            r matches Err(e) ==> e@.kind matches ErrorKindM::Message(_),
    {
        match self {
            HostValue::Nil => Ok(String::new()),
            HostValue::Bool(b) => if *b {
                Ok("true".to_owned())
            } else {
                Ok("false".to_owned())
            },
            HostValue::Int(i) => Ok(int_to_string(*i)),
            HostValue::Str(s) => Ok(s.clone()),
            HostValue::Sym(s) => Ok(s.clone()),
            HostValue::Object { methods, .. } => {
                let name = "to_s".to_owned();
                match object_call(methods, &name) {
                    Some(HostValue::Str(s)) => Ok(s.clone()),
                    _ => {
                        let mut msg = "cannot stringify instance of ".to_owned();
                        msg.append(self.class_name().as_str());
                        Err(Error::from_message(msg))
                    },
                }
            },
            _ => {
                let mut msg = "cannot stringify instance of ".to_owned();
                msg.append(self.class_name().as_str());
                Err(Error::from_message(msg))
            },
        }
    }
}

/// Structural equality of two host values, the equality the host's keyed
/// containers use for lookup. Floats compare by bit pattern.
#[verifier::loop_isolation(false)]
pub fn host_eq(a: &HostValue, b: &HostValue) -> (r: bool)
    ensures
        r == (a@ == b@),
    decreases a,
{
    match a {
        HostValue::Nil => b.is_nil(),
        HostValue::Bool(x) => match b {
            HostValue::Bool(y) => x == y,
            _ => false,
        },
        HostValue::Int(x) => match b {
            HostValue::Int(y) => x == y,
            _ => false,
        },
        HostValue::Float(x) => match b {
            HostValue::Float(y) => x == y,
            _ => false,
        },
        HostValue::Str(x) => match b {
            HostValue::Str(y) => *x == *y,
            _ => false,
        },
        HostValue::Sym(x) => match b {
            HostValue::Sym(y) => *x == *y,
            _ => false,
        },
        HostValue::Array(x) => match b {
            HostValue::Array(y) => {
                if x.len() != y.len() {
                    proof {
                        assert(view_elems(x@).len() == x@.len());
                        assert(view_elems(y@).len() == y@.len());
                    }
                    return false;
                }
                let mut i: usize = 0;
                while i < x.len()
                    invariant
                        i <= x.len(),
                        x.len() == y.len(),
                        forall|j: int| 0 <= j < i ==> view_elems(x@)[j] == view_elems(y@)[j],
                    decreases x.len() - i,
                {
                    proof {
                        assert(decreases_to!(*x => x[i as int]));
                        assert(view_elems(x@)[i as int] == x@[i as int]@);
                        assert(view_elems(y@)[i as int] == y@[i as int]@);
                    }
                    if !host_eq(&x[i], &y[i]) {
                        return false;
                    }
                    i += 1;
                }
                proof {
                    assert(view_elems(x@) =~= view_elems(y@));
                }
                true
            },
            _ => false,
        },
        HostValue::Hash(x) => match b {
            HostValue::Hash(y) => {
                if x.len() != y.len() {
                    proof {
                        assert(view_pairs(x@).len() == x@.len());
                        assert(view_pairs(y@).len() == y@.len());
                    }
                    return false;
                }
                let mut i: usize = 0;
                while i < x.len()
                    invariant
                        i <= x.len(),
                        x.len() == y.len(),
                        forall|j: int| 0 <= j < i ==> view_pairs(x@)[j] == view_pairs(y@)[j],
                    decreases x.len() - i,
                {
                    proof {
                        assert(decreases_to!(*x => x[i as int]));
                        assert(view_pairs(x@)[i as int] == (x@[i as int].0@, x@[i as int].1@));
                        assert(view_pairs(y@)[i as int] == (y@[i as int].0@, y@[i as int].1@));
                    }
                    if !host_eq(&x[i].0, &y[i].0) {
                        return false;
                    }
                    if !host_eq(&x[i].1, &y[i].1) {
                        return false;
                    }
                    i += 1;
                }
                proof {
                    assert(view_pairs(x@) =~= view_pairs(y@));
                }
                true
            },
            _ => false,
        },
        HostValue::Object { class_name: xc, methods: xm } => match b {
            HostValue::Object { class_name: yc, methods: ym } => {
                if *xc != *yc {
                    return false;
                }
                if xm.len() != ym.len() {
                    proof {
                        assert(view_methods(xm@).len() == xm@.len());
                        assert(view_methods(ym@).len() == ym@.len());
                    }
                    return false;
                }
                let mut i: usize = 0;
                while i < xm.len()
                    invariant
                        i <= xm.len(),
                        xm.len() == ym.len(),
                        forall|j: int| 0 <= j < i ==> view_methods(xm@)[j] == view_methods(ym@)[j],
                    decreases xm.len() - i,
                {
                    proof {
                        assert(decreases_to!(*xm => xm[i as int]));
                        assert(view_methods(xm@)[i as int] == (xm@[i as int].0@, xm@[i as int].1@));
                        assert(view_methods(ym@)[i as int] == (ym@[i as int].0@, ym@[i as int].1@));
                    }
                    if xm[i].0 != ym[i].0 {
                        return false;
                    }
                    if !host_eq(&xm[i].1, &ym[i].1) {
                        return false;
                    }
                    i += 1;
                }
                proof {
                    assert(view_methods(xm@) =~= view_methods(ym@));
                }
                true
            },
            _ => false,
        },
    }
}

/// Keyed lookup in an insertion-ordered container, by structural equality,
/// first match wins.
#[verifier::loop_isolation(false)]
pub fn hash_fetch<'a>(pairs: &'a Vec<(HostValue, HostValue)>, key: &HostValue) -> (r: Option<
    &'a HostValue,
>)
    ensures
        match r {
            Some(v) => spec_fetch(view_pairs(pairs@), key@) == Some(v@),
            None => spec_fetch(view_pairs(pairs@), key@) is None,
        },
        r matches Some(v) ==> exists|j: int|
            0 <= j < pairs@.len() && *v == #[trigger] pairs@[j].1,
{
    let mut i: usize = 0;
    proof {
        assert(view_pairs(pairs@).skip(0) =~= view_pairs(pairs@));
    }
    while i < pairs.len()
        invariant
            i <= pairs.len(),
            spec_fetch(view_pairs(pairs@), key@) == spec_fetch(
                view_pairs(pairs@).skip(i as int),
                key@,
            ),
        decreases pairs.len() - i,
    {
        proof {
            assert(view_pairs(pairs@)[i as int] == (pairs@[i as int].0@, pairs@[i as int].1@));
        }
        if host_eq(&pairs[i].0, key) {
            proof {
                assert(view_pairs(pairs@).skip(i as int)[0] == view_pairs(pairs@)[i as int]);
            }
            return Some(&pairs[i].1);
        }
        proof {
            assert(view_pairs(pairs@).skip(i as int)[0] == view_pairs(pairs@)[i as int]);
            assert(view_pairs(pairs@).skip(i as int).drop_first() =~= view_pairs(pairs@).skip(
                i + 1,
            ));
        }
        i += 1;
    }
    proof {
        assert(view_pairs(pairs@).skip(pairs.len() as int).len() == 0);
    }
    None
}

/// Dynamic method dispatch by name: the first method with the given name
/// answers, if the object has one.
#[verifier::loop_isolation(false)]
pub fn object_call<'a>(methods: &'a Vec<(String, HostValue)>, name: &String) -> (r: Option<
    &'a HostValue,
>)
    ensures
        match r {
            Some(v) => spec_call(view_methods(methods@), name@) == Some(v@),
            None => spec_call(view_methods(methods@), name@) is None,
        },
        r matches Some(v) ==> exists|j: int|
            0 <= j < methods@.len() && *v == #[trigger] methods@[j].1,
{
    let mut i: usize = 0;
    proof {
        assert(view_methods(methods@).skip(0) =~= view_methods(methods@));
    }
    while i < methods.len()
        invariant
            i <= methods.len(),
            spec_call(view_methods(methods@), name@) == spec_call(
                view_methods(methods@).skip(i as int),
                name@,
            ),
        decreases methods.len() - i,
    {
        proof {
            assert(view_methods(methods@)[i as int] == (methods@[i as int].0@, methods@[i as int].1@));
        }
        if methods[i].0 == *name {
            proof {
                assert(view_methods(methods@).skip(i as int)[0] == view_methods(methods@)[i as int]);
            }
            return Some(&methods[i].1);
        }
        proof {
            assert(view_methods(methods@).skip(i as int)[0] == view_methods(methods@)[i as int]);
            assert(view_methods(methods@).skip(i as int).drop_first() =~= view_methods(
                methods@,
            ).skip(i + 1));
        }
        i += 1;
    }
    proof {
        assert(view_methods(methods@).skip(methods.len() as int).len() == 0);
    }
    None
}

/// The value of the first pair whose key stringifies to the given name.
pub open spec fn fetch_by_name(pairs: Seq<(HostM, HostM)>, name: Seq<char>) -> Option<HostM>
    decreases pairs.len(),
{
    if pairs.len() == 0 {
        None
    } else if spec_to_s(pairs[0].0) == Some(name) {
        Some(pairs[0].1)
    } else {
        fetch_by_name(pairs.drop_first(), name)
    }
}

/// A value fetched out of a keyed container is structurally part of it.
pub broadcast proof fn lemma_fetch_smaller(pairs: Seq<(HostM, HostM)>, k: HostM)
    ensures
        (#[trigger] spec_fetch(pairs, k)) matches Some(v) ==> decreases_to!(pairs => v),
    decreases pairs.len(),
{
    if pairs.len() == 0 {
    } else if pairs[0].0 == k {
        assert(decreases_to!(pairs => pairs[0]));
        assert(decreases_to!(pairs[0] => pairs[0].1));
    } else {
        lemma_fetch_smaller(pairs.drop_first(), k);
        vstd::seq::axiom_seq_subrange_decreases(pairs, 1, pairs.len() as int);
        assert(pairs.drop_first() == pairs.subrange(1, pairs.len() as int));
    }
}

/// A value found by stringified key is structurally part of the container.
pub broadcast proof fn lemma_fetch_by_name_smaller(pairs: Seq<(HostM, HostM)>, name: Seq<char>)
    ensures
        (#[trigger] fetch_by_name(pairs, name)) matches Some(v) ==> decreases_to!(pairs => v),
    decreases pairs.len(),
{
    if pairs.len() == 0 {
    } else if spec_to_s(pairs[0].0) == Some(name) {
        assert(decreases_to!(pairs => pairs[0]));
        assert(decreases_to!(pairs[0] => pairs[0].1));
    } else {
        lemma_fetch_by_name_smaller(pairs.drop_first(), name);
        vstd::seq::axiom_seq_subrange_decreases(pairs, 1, pairs.len() as int);
        assert(pairs.drop_first() == pairs.subrange(1, pairs.len() as int));
    }
}

/// A method's result is structurally part of the method table.
pub broadcast proof fn lemma_call_smaller(methods: Seq<(Seq<char>, HostM)>, name: Seq<char>)
    ensures
        (#[trigger] spec_call(methods, name)) matches Some(v) ==> decreases_to!(methods => v),
    decreases methods.len(),
{
    if methods.len() == 0 {
    } else if methods[0].0 == name {
        assert(decreases_to!(methods => methods[0]));
        assert(decreases_to!(methods[0] => methods[0].1));
    } else {
        lemma_call_smaller(methods.drop_first(), name);
        vstd::seq::axiom_seq_subrange_decreases(methods, 1, methods.len() as int);
        assert(methods.drop_first() == methods.subrange(1, methods.len() as int));
    }
}

/// A structurally equal copy of a host value, as handing a reference back to
/// the host runtime yields.
#[verifier::loop_isolation(false)]
pub fn host_dup(h: &HostValue) -> (r: HostValue)
    ensures
        r@ == h@,
    decreases h,
{
    match h {
        HostValue::Nil => HostValue::Nil,
        HostValue::Bool(b) => HostValue::Bool(*b),
        HostValue::Int(i) => HostValue::Int(*i),
        HostValue::Float(bits) => HostValue::Float(*bits),
        HostValue::Str(s) => HostValue::Str(s.clone()),
        HostValue::Sym(s) => HostValue::Sym(s.clone()),
        HostValue::Array(v) => {
            let mut out: Vec<HostValue> = Vec::new();
            let mut i: usize = 0;
            while i < v.len()
                invariant
                    i <= v.len(),
                    out@.len() == i,
                    forall|j: int| 0 <= j < i ==> view_elems(out@)[j] == view_elems(v@)[j],
                decreases v.len() - i,
            {
                proof {
                    assert(decreases_to!(*v => v[i as int]));
                }
                let ghost old_out = out@;
                out.push(host_dup(&v[i]));
                proof {
                    assert forall|j: int| 0 <= j < i + 1 implies view_elems(out@)[j] == view_elems(
                        v@,
                    )[j] by {
                        if j < i {
                            assert(out@[j] == old_out[j]);
                        }
                    }
                }
                i += 1;
            }
            proof {
                assert(view_elems(out@) =~= view_elems(v@));
            }
            HostValue::Array(out)
        },
        HostValue::Hash(pairs) => {
            let mut out: Vec<(HostValue, HostValue)> = Vec::new();
            let mut i: usize = 0;
            while i < pairs.len()
                invariant
                    i <= pairs.len(),
                    out@.len() == i,
                    forall|j: int| 0 <= j < i ==> view_pairs(out@)[j] == view_pairs(pairs@)[j],
                decreases pairs.len() - i,
            {
                proof {
                    assert(decreases_to!(*pairs => pairs[i as int]));
                }
                let ghost old_out = out@;
                let k = host_dup(&pairs[i].0);
                let v = host_dup(&pairs[i].1);
                out.push((k, v));
                proof {
                    assert forall|j: int| 0 <= j < i + 1 implies view_pairs(out@)[j] == view_pairs(
                        pairs@,
                    )[j] by {
                        if j < i {
                            assert(out@[j] == old_out[j]);
                        }
                    }
                }
                i += 1;
            }
            proof {
                assert(view_pairs(out@) =~= view_pairs(pairs@));
            }
            HostValue::Hash(out)
        },
        HostValue::Object { class_name, methods } => {
            let mut out: Vec<(String, HostValue)> = Vec::new();
            let mut i: usize = 0;
            while i < methods.len()
                invariant
                    i <= methods.len(),
                    out@.len() == i,
                    forall|j: int| 0 <= j < i ==> view_methods(out@)[j] == view_methods(
                        methods@,
                    )[j],
                decreases methods.len() - i,
            {
                proof {
                    assert(decreases_to!(*methods => methods[i as int]));
                }
                let ghost old_out = out@;
                let n = methods[i].0.clone();
                let v = host_dup(&methods[i].1);
                out.push((n, v));
                proof {
                    assert forall|j: int| 0 <= j < i + 1 implies view_methods(out@)[j]
                        == view_methods(methods@)[j] by {
                        if j < i {
                            assert(out@[j] == old_out[j]);
                        }
                    }
                }
                i += 1;
            }
            proof {
                assert(view_methods(out@) =~= view_methods(methods@));
            }
            HostValue::Object { class_name: class_name.clone(), methods: out }
        },
    }
}

/// Keyed write into an insertion-ordered container, by structural equality:
/// an existing equal key keeps its place and takes the new value, a new key
/// appends.
#[verifier::loop_isolation(false)]
pub fn hash_store(pairs: &mut Vec<(HostValue, HostValue)>, key: HostValue, value: HostValue)
    ensures
        view_pairs(final(pairs)@) == spec_store(view_pairs(old(pairs)@), key@, value@),
{
    let ghost pv = view_pairs(pairs@);
    let mut i: usize = 0;
    proof {
        assert(pv.take(0) + spec_store(pv.skip(0), key@, value@) =~= spec_store(
            pv.skip(0),
            key@,
            value@,
        ));
        assert(pv.skip(0) =~= pv);
    }
    while i < pairs.len()
        invariant
            i <= pairs@.len(),
            pairs@ == old(pairs)@,
            spec_store(pv, key@, value@) == pv.take(i as int) + spec_store(
                pv.skip(i as int),
                key@,
                value@,
            ),
        decreases pairs.len() - i,
    {
        proof {
            assert(pv[i as int] == (pairs@[i as int].0@, pairs@[i as int].1@));
            assert(pv.skip(i as int)[0] == pv[i as int]);
        }
        if host_eq(&pairs[i].0, &key) {
            let kept = host_dup(&pairs[i].0);
            vstd::pervasive::VecAdditionalExecFns::set(pairs, i, (kept, value));
            proof {
                assert(pv.skip(i as int).drop_first() =~= pv.skip(i + 1));
                assert(spec_store(pv.skip(i as int), key@, value@) =~= seq![
                    (pv[i as int].0, value@),
                ] + pv.skip(i + 1));
                assert(view_pairs(pairs@) =~= pv.take(i as int) + (seq![(pv[i as int].0, value@)]
                    + pv.skip(i + 1)));
            }
            return ;
        }
        proof {
            assert(pv.skip(i as int).drop_first() =~= pv.skip(i + 1));
            assert(pv.take(i as int) + (seq![pv[i as int]] + spec_store(
                pv.skip(i + 1),
                key@,
                value@,
            )) =~= pv.take(i + 1) + spec_store(pv.skip(i + 1), key@, value@));
        }
        i += 1;
    }
    let ghost kv = key@;
    let ghost vv = value@;
    pairs.push((key, value));
    proof {
        assert(pv.skip(pv.len() as int).len() == 0);
        assert(spec_store(pv.skip(pv.len() as int), kv, vv) =~= seq![(kv, vv)]);
        assert(pv.take(pv.len() as int) =~= pv);
        assert(view_pairs(pairs@) =~= pv + seq![(kv, vv)]);
        assert(pv + seq![(kv, vv)] =~= pv.take(pv.len() as int) + spec_store(
            pv.skip(pv.len() as int),
            kv,
            vv,
        ));
    }
}

} // verus!
