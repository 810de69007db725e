//! A plain JSON tree.
//!
//! Every protocol payload in this crate is carried as a [`JsonValue`]: a value
//! tree of nulls, booleans, integers, strings, arrays and objects.  Object
//! members keep their insertion order, and a lookup returns the first member
//! with the requested key.  Numbers are modelled as signed 64-bit integers,
//! which covers every number the protocol itself produces (request ids, sizes,
//! error codes).

use vstd::prelude::*;

verus! {

/// A JSON value.
#[derive(Debug)]
pub enum JsonValue {
    Null,
    Bool(bool),
    Int(i64),
    Str(String),
    Arr(Vec<JsonValue>),
    Obj(Vec<(String, JsonValue)>),
}

/// Structural equality of two JSON values: same shape, equal scalars, equal
/// member keys in the same order.
pub open spec fn json_eq(a: JsonValue, b: JsonValue) -> bool
    decreases a,
{
    match (a, b) {
        (JsonValue::Null, JsonValue::Null) => true,
        (JsonValue::Bool(x), JsonValue::Bool(y)) => x == y,
        (JsonValue::Int(x), JsonValue::Int(y)) => x == y,
        (JsonValue::Str(x), JsonValue::Str(y)) => x@ == y@,
        (JsonValue::Arr(xs), JsonValue::Arr(ys)) => {
            &&& xs@.len() == ys@.len()
            &&& forall|i: int|
                0 <= i < xs@.len() ==> json_eq(#[trigger] xs@[i], ys@[i])
        },
        (JsonValue::Obj(xs), JsonValue::Obj(ys)) => {
            &&& xs@.len() == ys@.len()
            &&& forall|i: int|
                0 <= i < xs@.len() ==> (#[trigger] xs@[i]).0@ == ys@[i].0@ && json_eq(
                    xs@[i].1,
                    ys@[i].1,
                )
        },
        _ => false,
    }
}

/// The first member of `fields` whose key reads `key`, if any.
pub open spec fn obj_lookup(fields: Seq<(String, JsonValue)>, key: Seq<char>) -> Option<JsonValue>
    decreases fields.len(),
{
    if fields.len() == 0 {
        None
    } else if fields[0].0@ == key {
        Some(fields[0].1)
    } else {
        obj_lookup(fields.drop_first(), key)
    }
}

/// The member of `v` named `key`, when `v` is an object that has one.
pub open spec fn spec_get(v: JsonValue, key: Seq<char>) -> Option<JsonValue> {
    match v {
        JsonValue::Obj(fields) => obj_lookup(fields@, key),
        _ => None,
    }
}

/// A lookup passes over a prefix whose keys all differ from `key`.
pub proof fn lemma_obj_lookup_skip(fields: Seq<(String, JsonValue)>, key: Seq<char>, i: int)
    requires
        0 <= i <= fields.len(),
        forall|j: int| 0 <= j < i ==> (#[trigger] fields[j]).0@ != key,
    ensures
        obj_lookup(fields, key) == obj_lookup(fields.skip(i), key),
    decreases i,
{
    if i > 0 {
        lemma_obj_lookup_skip(fields, key, i - 1);
        let t = fields.skip(i - 1);
        assert(t[0] == fields[i - 1]);
        assert(t.drop_first() =~= fields.skip(i));
    } else {
        assert(fields.skip(0) =~= fields);
    }
}

/// A lookup finds the member at `i` when every earlier key differs.
pub proof fn lemma_obj_lookup_at(fields: Seq<(String, JsonValue)>, key: Seq<char>, i: int)
    requires
        0 <= i < fields.len(),
        fields[i].0@ == key,
        forall|j: int| 0 <= j < i ==> (#[trigger] fields[j]).0@ != key,
    ensures
        obj_lookup(fields, key) == Some(fields[i].1),
{
    lemma_obj_lookup_skip(fields, key, i);
    assert(fields.skip(i)[0] == fields[i]);
}

/// A lookup finds nothing when no key reads `key`.
pub proof fn lemma_obj_lookup_absent(fields: Seq<(String, JsonValue)>, key: Seq<char>)
    requires
        forall|j: int| 0 <= j < fields.len() ==> (#[trigger] fields[j]).0@ != key,
    ensures
        obj_lookup(fields, key) is None,
{
    lemma_obj_lookup_skip(fields, key, fields.len() as int);
    assert(fields.skip(fields.len() as int) =~= Seq::<(String, JsonValue)>::empty());
}

/// Equality of two JSON values is reflexive.
pub proof fn lemma_json_eq_refl(a: JsonValue)
    ensures
        json_eq(a, a),
    decreases a,
{
    match a {
        JsonValue::Arr(xs) => {
            assert forall|i: int| 0 <= i < xs@.len() implies json_eq(#[trigger] xs@[i], xs@[i]) by {
                lemma_json_eq_refl(xs@[i]);
            }
        },
        JsonValue::Obj(xs) => {
            assert forall|i: int|
                0 <= i < xs@.len() implies (#[trigger] xs@[i]).0@ == xs@[i].0@ && json_eq(
                xs@[i].1,
                xs@[i].1,
            ) by {
                lemma_json_eq_refl(xs@[i].1);
            }
        },
        _ => {},
    }
}

/// Equality of two JSON values is symmetric.
pub proof fn lemma_json_eq_symm(a: JsonValue, b: JsonValue)
    requires
        json_eq(a, b),
    ensures
        json_eq(b, a),
    decreases a,
{
    match (a, b) {
        (JsonValue::Arr(xs), JsonValue::Arr(ys)) => {
            assert forall|i: int| 0 <= i < ys@.len() implies json_eq(#[trigger] ys@[i], xs@[i]) by {
                assert(json_eq(xs@[i], ys@[i]));
                lemma_json_eq_symm(xs@[i], ys@[i]);
            }
        },
        (JsonValue::Obj(xs), JsonValue::Obj(ys)) => {
            assert forall|i: int|
                0 <= i < ys@.len() implies (#[trigger] ys@[i]).0@ == xs@[i].0@ && json_eq(
                ys@[i].1,
                xs@[i].1,
            ) by {
                assert(xs@[i].0@ == ys@[i].0@ && json_eq(xs@[i].1, ys@[i].1));
                lemma_json_eq_symm(xs@[i].1, ys@[i].1);
            }
        },
        _ => {},
    }
}

/// Equality of two JSON values is transitive.
pub proof fn lemma_json_eq_trans(a: JsonValue, b: JsonValue, c: JsonValue)
    requires
        json_eq(a, b),
        json_eq(b, c),
    ensures
        json_eq(a, c),
    decreases a,
{
    match (a, b) {
        (JsonValue::Arr(xs), JsonValue::Arr(ys)) => {
            let zs = c->Arr_0;
            assert forall|i: int| 0 <= i < xs@.len() implies json_eq(#[trigger] xs@[i], zs@[i]) by {
                assert(json_eq(xs@[i], ys@[i]));
                assert(json_eq(ys@[i], zs@[i]));
                lemma_json_eq_trans(xs@[i], ys@[i], zs@[i]);
            }
        },
        (JsonValue::Obj(xs), JsonValue::Obj(ys)) => {
            let zs = c->Obj_0;
            assert forall|i: int|
                0 <= i < xs@.len() implies (#[trigger] xs@[i]).0@ == zs@[i].0@ && json_eq(
                xs@[i].1,
                zs@[i].1,
            ) by {
                assert(xs@[i].0@ == ys@[i].0@ && json_eq(xs@[i].1, ys@[i].1));
                assert(ys@[i].0@ == zs@[i].0@ && json_eq(ys@[i].1, zs@[i].1));
                lemma_json_eq_trans(xs@[i].1, ys@[i].1, zs@[i].1);
            }
        },
        _ => {},
    }
}

impl Clone for JsonValue {
    /// A clone is structurally equal to its original.
    fn clone(&self) -> (r: Self)
        ensures
            json_eq(*self, r),
    {
        self.deep_clone()
    }
}

impl JsonValue {
    /// Whether this value is `null`.
    pub fn is_null(&self) -> (r: bool)
        ensures
            r == (self is Null),
    {
        matches!(self, JsonValue::Null)
    }

    /// The boolean carried by this value, if it is one.
    pub fn as_bool(&self) -> (r: Option<bool>)
        ensures
            match r {
                Some(b) => *self == JsonValue::Bool(b),
                None => !(self is Bool),
            },
    {
        match self {
            JsonValue::Bool(b) => Some(*b),
            _ => None,
        }
    }

    /// The integer carried by this value, if it is one.
    pub fn as_int(&self) -> (r: Option<i64>)
        ensures
            match r {
                Some(n) => *self == JsonValue::Int(n),
                None => !(self is Int),
            },
    {
        match self {
            JsonValue::Int(n) => Some(*n),
            _ => None,
        }
    }

    /// The string carried by this value, if it is one.
    pub fn as_str(&self) -> (r: Option<&String>)
        ensures
            match r {
                Some(s) => self matches JsonValue::Str(t) && t == s,
                None => !(self is Str),
            },
    {
        match self {
            JsonValue::Str(s) => Some(s),
            _ => None,
        }
    }

    /// Look up a member by key; `None` unless this value is an object with
    /// such a member.  Returns the first member with that key.
    pub fn get<'a>(&'a self, key: &str) -> (r: Option<&'a JsonValue>)
        ensures
            match r {
                Some(v) => spec_get(*self, key@) == Some(*v),
                None => spec_get(*self, key@) is None,
            },
    {
        match self {
            JsonValue::Obj(fields) => {
                let n = fields.len();
                proof {
                    assert(fields@.skip(0) =~= fields@);
                }
                let mut i: usize = 0;
                while i < n
                    invariant
                        0 <= i <= n,
                        n == fields@.len(),
                        self == JsonValue::Obj(*fields),
                        obj_lookup(fields@, key@) == obj_lookup(fields@.skip(i as int), key@),
                    decreases n - i,
                {
                    proof {
                        assert(fields@.skip(i as int)[0] == fields@[i as int]);
                    }
                    if crate::strutil::str_eq(fields[i].0.as_str(), key) {
                        proof {
                            assert(obj_lookup(fields@.skip(i as int), key@) == Some(
                                fields@[i as int].1,
                            ));
                        }
                        return Some(&fields[i].1);
                    }
                    proof {
                        assert(fields@.skip(i as int).drop_first() =~= fields@.skip(i + 1));
                    }
                    i = i + 1;
                }
                proof {
                    assert(fields@.skip(n as int) =~= Seq::<(String, JsonValue)>::empty());
                }
                None
            },
            _ => None,
        }
    }

    /// Structural equality, decided recursively.
    pub fn deep_eq(&self, other: &JsonValue) -> (r: bool)
        ensures
            r == json_eq(*self, *other),
        decreases *self,
    {
        match (self, other) {
            (JsonValue::Null, JsonValue::Null) => true,
            (JsonValue::Bool(a), JsonValue::Bool(b)) => *a == *b,
            (JsonValue::Int(a), JsonValue::Int(b)) => *a == *b,
            (JsonValue::Str(a), JsonValue::Str(b)) => *a == *b,
            (JsonValue::Arr(xs), JsonValue::Arr(ys)) => {
                if xs.len() != ys.len() {
                    return false;
                }
                let n = xs.len();
                let mut i: usize = 0;
                while i < n
                    invariant
                        0 <= i <= n,
                        n == xs@.len(),
                        n == ys@.len(),
                        self == JsonValue::Arr(*xs),
                        other == JsonValue::Arr(*ys),
                        forall|j: int| 0 <= j < i ==> json_eq(#[trigger] xs@[j], ys@[j]),
                    decreases n - i,
                {
                    proof {
                        assert(decreases_to!(*self => self->Arr_0));
                        assert(self->Arr_0 == *xs);
                        assert(decreases_to!(*xs => xs@));
                        assert(decreases_to!(xs@ => xs@[i as int]));
                    }
                    if !xs[i].deep_eq(&ys[i]) {
                        proof {
                            assert(!json_eq(*self, *other)) by {
                                if json_eq(*self, *other) {
                                    assert(json_eq(xs@[i as int], ys@[i as int]));
                                }
                            }
                        }
                        return false;
                    }
                    i = i + 1;
                }
                proof {
                    assert(json_eq(*self, *other));
                }
                true
            },
            (JsonValue::Obj(xs), JsonValue::Obj(ys)) => {
                if xs.len() != ys.len() {
                    return false;
                }
                let n = xs.len();
                let mut i: usize = 0;
                while i < n
                    invariant
                        0 <= i <= n,
                        n == xs@.len(),
                        n == ys@.len(),
                        self == JsonValue::Obj(*xs),
                        other == JsonValue::Obj(*ys),
                        forall|j: int|
                            0 <= j < i ==> (#[trigger] xs@[j]).0@ == ys@[j].0@ && json_eq(
                                xs@[j].1,
                                ys@[j].1,
                            ),
                    decreases n - i,
                {
                    if !(xs[i].0 == ys[i].0) {
                        proof {
                            assert(!json_eq(*self, *other)) by {
                                if json_eq(*self, *other) {
                                    assert((xs@[i as int]).0@ == ys@[i as int].0@);
                                }
                            }
                        }
                        return false;
                    }
                    proof {
                        assert(decreases_to!(*self => self->Obj_0));
                        assert(self->Obj_0 == *xs);
                        assert(decreases_to!(*xs => xs@));
                        assert(decreases_to!(xs@ => xs@[i as int]));
                        assert(decreases_to!(xs@[i as int] => xs@[i as int].1));
                    }
                    if !xs[i].1.deep_eq(&ys[i].1) {
                        proof {
                            assert(!json_eq(*self, *other)) by {
                                if json_eq(*self, *other) {
                                    assert((xs@[i as int]).0@ == ys@[i as int].0@ && json_eq(
                                        xs@[i as int].1,
                                        ys@[i as int].1,
                                    ));
                                }
                            }
                        }
                        return false;
                    }
                    i = i + 1;
                }
                proof {
                    assert(json_eq(*self, *other));
                }
                true
            },
            _ => false,
        }
    }

    /// A structurally equal copy of this value.
    pub fn deep_clone(&self) -> (r: JsonValue)
        ensures
            json_eq(*self, r),
        decreases *self,
    {
        match self {
            JsonValue::Null => JsonValue::Null,
            JsonValue::Bool(b) => JsonValue::Bool(*b),
            JsonValue::Int(n) => JsonValue::Int(*n),
            JsonValue::Str(s) => JsonValue::Str(s.clone()),
            JsonValue::Arr(xs) => {
                let n = xs.len();
                let mut out: Vec<JsonValue> = Vec::new();
                let mut i: usize = 0;
                while i < n
                    invariant
                        0 <= i <= n,
                        n == xs@.len(),
                        out@.len() == i,
                        self == JsonValue::Arr(*xs),
                        forall|j: int| 0 <= j < i ==> json_eq(#[trigger] xs@[j], out@[j]),
                    decreases n - i,
                {
                    proof {
                        assert(decreases_to!(*self => self->Arr_0));
                        assert(self->Arr_0 == *xs);
                        assert(decreases_to!(*xs => xs@));
                        assert(decreases_to!(xs@ => xs@[i as int]));
                    }
                    let c = xs[i].deep_clone();
                    out.push(c);
                    i = i + 1;
                }
                JsonValue::Arr(out)
            },
            JsonValue::Obj(xs) => {
                let n = xs.len();
                let mut out: Vec<(String, JsonValue)> = Vec::new();
                let mut i: usize = 0;
                while i < n
                    invariant
                        0 <= i <= n,
                        n == xs@.len(),
                        out@.len() == i,
                        self == JsonValue::Obj(*xs),
                        forall|j: int|
                            0 <= j < i ==> (#[trigger] xs@[j]).0@ == out@[j].0@ && json_eq(
                                xs@[j].1,
                                out@[j].1,
                            ),
                    decreases n - i,
                {
                    let k = xs[i].0.clone();
                    proof {
                        assert(decreases_to!(*self => self->Obj_0));
                        assert(self->Obj_0 == *xs);
                        assert(decreases_to!(*xs => xs@));
                        assert(decreases_to!(xs@ => xs@[i as int]));
                        assert(decreases_to!(xs@[i as int] => xs@[i as int].1));
                    }
                    let v = xs[i].1.deep_clone();
                    out.push((k, v));
                    i = i + 1;
                }
                JsonValue::Obj(out)
            },
        }
    }
}

} // verus!
