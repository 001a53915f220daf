//! The untyped argument values that a tool call carries.
//!
//! `ArgValue` is the library's model of a structured, JSON-like value: the
//! transport hands argument maps over as plain `ArgValue` trees, and every
//! schema default and request body is built from them. The mathematical model
//! of a value is `Val`, built from `Seq` and `int`; `ArgValue@` is the `Val`
//! it denotes.

use vstd::prelude::*;

verus! {

/// The mathematical model of an untyped value: what an `ArgValue` denotes.
pub enum Val {
    Null,
    Bool(bool),
    Int(int),
    Str(Seq<char>),
    Arr(Seq<Val>),
    Obj(Seq<(Seq<char>, Val)>),
}

/// An untyped, JSON-like value: the common representation of tool-call
/// arguments, schema defaults, and request bodies.
#[derive(Debug, PartialEq, Eq)]
pub enum ArgValue {
    Null,
    Bool(bool),
    Int(i64),
    Str(String),
    Arr(Vec<ArgValue>),
    Obj(Vec<(String, ArgValue)>),
}

/// The models of the elements of an array, in order.
pub open spec fn seq_view(items: Seq<ArgValue>) -> Seq<Val>
    decreases items,
{
    if items.len() == 0 {
        Seq::empty()
    } else {
        seq![items[0]@] + seq_view(items.drop_first())
    }
}

/// The models of the fields of an object, as key view and value view, in order.
pub open spec fn fields_view(fields: Seq<(String, ArgValue)>) -> Seq<(Seq<char>, Val)>
    decreases fields,
{
    if fields.len() == 0 {
        Seq::empty()
    } else {
        seq![(fields[0].0@, fields[0].1@)] + fields_view(fields.drop_first())
    }
}

impl View for ArgValue {
    type V = Val;

    open spec fn view(&self) -> Val
        decreases self,
    {
        match self {
            ArgValue::Null => Val::Null,
            ArgValue::Bool(b) => Val::Bool(*b),
            ArgValue::Int(i) => Val::Int(*i as int),
            ArgValue::Str(s) => Val::Str(s@),
            ArgValue::Arr(items) => Val::Arr(seq_view(items@)),
            ArgValue::Obj(fields) => Val::Obj(fields_view(fields@)),
        }
    }
}

/// `seq_view` maps the sequence pointwise.
pub proof fn lemma_seq_view(items: Seq<ArgValue>)
    ensures
        seq_view(items).len() == items.len(),
        forall|i: int| 0 <= i < items.len() ==> seq_view(items)[i] == items[i]@,
    decreases items,
{
    if items.len() > 0 {
        lemma_seq_view(items.drop_first());
        let head = seq![items[0]@];
        let rest = seq_view(items.drop_first());
        assert(seq_view(items) == head + rest);
        assert forall|i: int| 0 <= i < items.len() implies seq_view(items)[i] == items[i]@ by {
            if i == 0 {
                assert((head + rest)[0] == head[0]);
            } else {
                assert((head + rest)[i] == rest[i - 1]);
                assert(items.drop_first()[i - 1] == items[i]);
            }
        }
    }
}

/// `fields_view` maps the sequence pointwise.
pub proof fn lemma_fields_view(fields: Seq<(String, ArgValue)>)
    ensures
        fields_view(fields).len() == fields.len(),
        forall|i: int| 0 <= i < fields.len() ==> fields_view(fields)[i] == (
            fields[i].0@,
            fields[i].1@,
        ),
    decreases fields,
{
    if fields.len() > 0 {
        lemma_fields_view(fields.drop_first());
        let head = seq![(fields[0].0@, fields[0].1@)];
        let rest = fields_view(fields.drop_first());
        assert(fields_view(fields) == head + rest);
        assert forall|i: int| 0 <= i < fields.len() implies fields_view(fields)[i] == (
            fields[i].0@,
            fields[i].1@,
        ) by {
            if i == 0 {
                assert((head + rest)[0] == head[0]);
            } else {
                assert((head + rest)[i] == rest[i - 1]);
                assert(fields.drop_first()[i - 1] == fields[i]);
            }
        }
    }
}

/// The model of an argument map: each entry of the exec map, as key view and
/// value view, in order. An argument map and the fields of an object are
/// modelled alike.
pub open spec fn arg_map_view(m: Seq<(String, ArgValue)>) -> Seq<(Seq<char>, Val)> {
    fields_view(m)
}

/// First-match lookup in an association sequence.
pub open spec fn map_get(m: Seq<(Seq<char>, Val)>, k: Seq<char>) -> Option<Val>
    decreases m.len(),
{
    if m.len() == 0 {
        None
    } else if m[0].0 == k {
        Some(m[0].1)
    } else {
        map_get(m.drop_first(), k)
    }
}

/// Whether an association sequence holds the key at all.
pub open spec fn has_key(m: Seq<(Seq<char>, Val)>, k: Seq<char>) -> bool {
    map_get(m, k) is Some
}

/// If no key among the first `i` entries matches, lookup may start at `i`.
pub proof fn lemma_map_get_skip(m: Seq<(Seq<char>, Val)>, k: Seq<char>, i: int)
    requires
        0 <= i <= m.len(),
        forall|j: int| 0 <= j < i ==> m[j].0 != k,
    ensures
        map_get(m, k) == map_get(m.skip(i), k),
    decreases i,
{
    if i > 0 {
        assert(m.drop_first().skip(i - 1) =~= m.skip(i));
        lemma_map_get_skip(m.drop_first(), k, i - 1);
    } else {
        assert(m.skip(0) =~= m);
    }
}

/// Exact string comparison, stated over the views; compares through owned
/// strings, whose equality the standard specifications pin down.
pub fn str_eq(a: &str, b: &str) -> (r: bool)
    ensures
        r == (a@ == b@),
{
    let sa = a.to_owned();
    let sb = b.to_owned();
    sa == sb
}

/// First-match lookup in an exec argument map, agreeing with `map_get` on the
/// map's view.
pub fn lookup_arg<'a>(m: &'a Vec<(String, ArgValue)>, k: &str) -> (r: Option<&'a ArgValue>)
    ensures
        match r {
            Some(v) => map_get(arg_map_view(m@), k@) == Some(v@),
            None => map_get(arg_map_view(m@), k@) is None,
        },
{
    let ghost mv = arg_map_view(m@);
    proof {
        lemma_fields_view(m@);
    }
    let mut i: usize = 0;
    while i < m.len()
        invariant
            0 <= i <= m.len(),
            mv == arg_map_view(m@),
            mv.len() == m@.len(),
            forall|j: int| 0 <= j < m@.len() ==> mv[j] == (m@[j].0@, m@[j].1@),
            forall|j: int| 0 <= j < i ==> mv[j].0 != k@,
        decreases m.len() - i,
    {
        if str_eq(m[i].0.as_str(), k) {
            proof {
                lemma_map_get_skip(mv, k@, i as int);
                assert(mv.skip(i as int)[0] == mv[i as int]);
            }
            return Some(&m[i].1);
        }
        i = i + 1;
    }
    proof {
        lemma_map_get_skip(mv, k@, m@.len() as int);
        assert(mv.skip(m@.len() as int) =~= Seq::<(Seq<char>, Val)>::empty());
    }
    None
}

/// The string under a key of an association sequence; `None` when the key is
/// absent or its value is not a string.
pub open spec fn spec_opt_str(m: Seq<(Seq<char>, Val)>, k: Seq<char>) -> Option<Seq<char>> {
    match map_get(m, k) {
        Option::Some(Val::Str(s)) => Option::Some(s),
        _ => Option::None,
    }
}

/// The boolean under a key of an association sequence, or a fallback.
pub open spec fn spec_opt_bool_or(m: Seq<(Seq<char>, Val)>, k: Seq<char>, dflt: bool) -> bool {
    match map_get(m, k) {
        Option::Some(Val::Bool(b)) => b,
        _ => dflt,
    }
}

/// The string under a key of an exec argument map, copied out; `None` when
/// the key is absent or its value is not a string.
pub fn opt_str_arg(m: &Vec<(String, ArgValue)>, k: &str) -> (r: Option<String>)
    ensures
        match r {
            Some(s) => spec_opt_str(arg_map_view(m@), k@) == Some(s@),
            None => spec_opt_str(arg_map_view(m@), k@) is None,
        },
{
    match lookup_arg(m, k) {
        Some(v) => match v {
            ArgValue::Str(s) => Some(s.clone()),
            _ => None,
        },
        None => None,
    }
}

/// The boolean under a key of an exec argument map, or the fallback.
pub fn opt_bool_arg_or(m: &Vec<(String, ArgValue)>, k: &str, dflt: bool) -> (r: bool)
    ensures
        r == spec_opt_bool_or(arg_map_view(m@), k@, dflt),
{
    match lookup_arg(m, k) {
        Some(v) => match v {
            ArgValue::Bool(b) => *b,
            _ => dflt,
        },
        None => dflt,
    }
}

/// The model of an optional owned string.
pub open spec fn opt_view(o: Option<String>) -> Option<Seq<char>> {
    match o {
        Option::Some(s) => Option::Some(s@),
        Option::None => Option::None,
    }
}

/// The optional string under a key: absent and null count as nothing, any
/// value other than a string makes the whole record malformed (`None`).
pub open spec fn spec_opt_str_strict(m: Seq<(Seq<char>, Val)>, k: Seq<char>) -> Option<
    Option<Seq<char>>,
> {
    match map_get(m, k) {
        Option::None => Option::Some(Option::None),
        Option::Some(Val::Null) => Option::Some(Option::None),
        Option::Some(Val::Str(s)) => Option::Some(Option::Some(s)),
        Option::Some(_) => Option::None,
    }
}

/// The optional boolean under a key, with the same strictness.
pub open spec fn spec_opt_bool_strict(m: Seq<(Seq<char>, Val)>, k: Seq<char>) -> Option<
    Option<bool>,
> {
    match map_get(m, k) {
        Option::None => Option::Some(Option::None),
        Option::Some(Val::Null) => Option::Some(Option::None),
        Option::Some(Val::Bool(b)) => Option::Some(Option::Some(b)),
        Option::Some(_) => Option::None,
    }
}

/// The optional unsigned number under a key, with the same strictness: an
/// integer outside `u32` also makes the record malformed.
pub open spec fn spec_opt_u32_strict(m: Seq<(Seq<char>, Val)>, k: Seq<char>) -> Option<
    Option<u32>,
> {
    match map_get(m, k) {
        Option::None => Option::Some(Option::None),
        Option::Some(Val::Null) => Option::Some(Option::None),
        Option::Some(Val::Int(x)) => if 0 <= x <= u32::MAX {
            Option::Some(Option::Some(x as u32))
        } else {
            Option::None
        },
        Option::Some(_) => Option::None,
    }
}

/// The optional string under a key of an exec argument map, strictly.
pub fn opt_str_strict(m: &Vec<(String, ArgValue)>, k: &str) -> (r: Option<Option<String>>)
    ensures
        match r {
            Some(o) => spec_opt_str_strict(arg_map_view(m@), k@) == Some(opt_view(o)),
            None => spec_opt_str_strict(arg_map_view(m@), k@) is None,
        },
{
    match lookup_arg(m, k) {
        None => Some(None),
        Some(v) => match v {
            ArgValue::Null => Some(None),
            ArgValue::Str(s) => Some(Some(s.clone())),
            _ => None,
        },
    }
}

/// The optional boolean under a key of an exec argument map, strictly.
pub fn opt_bool_strict(m: &Vec<(String, ArgValue)>, k: &str) -> (r: Option<Option<bool>>)
    ensures
        match r {
            Some(o) => spec_opt_bool_strict(arg_map_view(m@), k@) == Some(o),
            None => spec_opt_bool_strict(arg_map_view(m@), k@) is None,
        },
{
    match lookup_arg(m, k) {
        None => Some(None),
        Some(v) => match v {
            ArgValue::Null => Some(None),
            ArgValue::Bool(b) => Some(Some(*b)),
            _ => None,
        },
    }
}

/// The optional unsigned number under a key of an exec argument map, strictly.
pub fn opt_u32_strict(m: &Vec<(String, ArgValue)>, k: &str) -> (r: Option<Option<u32>>)
    ensures
        match r {
            Some(o) => spec_opt_u32_strict(arg_map_view(m@), k@) == Some(o),
            None => spec_opt_u32_strict(arg_map_view(m@), k@) is None,
        },
{
    match lookup_arg(m, k) {
        None => Some(None),
        Some(v) => match v {
            ArgValue::Null => Some(None),
            ArgValue::Int(x) => {
                if 0 <= *x && *x <= u32::MAX as i64 {
                    Some(Some(*x as u32))
                } else {
                    None
                }
            },
            _ => None,
        },
    }
}

/// An optional string, or a fallback.
pub open spec fn str_or(o: Option<Seq<char>>, d: Seq<char>) -> Seq<char> {
    match o {
        Option::Some(s) => s,
        Option::None => d,
    }
}

/// Lookup of a field in an object value; `None` on any other value.
pub open spec fn obj_get(v: Val, k: Seq<char>) -> Option<Val> {
    match v {
        Val::Obj(fs) => map_get(fs, k),
        _ => Option::None,
    }
}

/// The string a field holds, or a fallback when the field is absent or not a
/// string.
pub open spec fn spec_str_field_or(v: Val, k: Seq<char>, dflt: Seq<char>) -> Seq<char> {
    match obj_get(v, k) {
        Option::Some(Val::Str(s)) => s,
        _ => dflt,
    }
}

/// The boolean a field holds, or a fallback when the field is absent or not a
/// boolean.
pub open spec fn spec_bool_field_or(v: Val, k: Seq<char>, dflt: bool) -> bool {
    match obj_get(v, k) {
        Option::Some(Val::Bool(b)) => b,
        _ => dflt,
    }
}

/// Lookup of a field in an object value; `None` on any other value.
pub fn get_field<'a>(v: &'a ArgValue, k: &str) -> (r: Option<&'a ArgValue>)
    ensures
        match r {
            Some(f) => obj_get(v@, k@) == Some(f@),
            None => obj_get(v@, k@) is None,
        },
{
    match v {
        ArgValue::Obj(fields) => lookup_arg(fields, k),
        _ => None,
    }
}

/// The string a field holds, or the fallback.
pub fn str_field_or<'a>(v: &'a ArgValue, k: &str, dflt: &'a str) -> (r: &'a str)
    ensures
        r@ == spec_str_field_or(v@, k@, dflt@),
{
    match get_field(v, k) {
        Some(f) => match f {
            ArgValue::Str(s) => s.as_str(),
            _ => dflt,
        },
        None => dflt,
    }
}

/// The boolean a field holds, or the fallback.
pub fn bool_field_or(v: &ArgValue, k: &str, dflt: bool) -> (r: bool)
    ensures
        r == spec_bool_field_or(v@, k@, dflt),
{
    match get_field(v, k) {
        Some(f) => match f {
            ArgValue::Bool(b) => *b,
            _ => dflt,
        },
        None => dflt,
    }
}

impl ArgValue {
    /// A structurally equal copy: the duplicate denotes the same `Val`.
    #[verifier::loop_isolation(false)]
    pub fn duplicate(&self) -> (r: ArgValue)
        ensures
            r@ == self@,
        decreases self,
    {
        match self {
            ArgValue::Null => ArgValue::Null,
            ArgValue::Bool(b) => ArgValue::Bool(*b),
            ArgValue::Int(i) => ArgValue::Int(*i),
            ArgValue::Str(s) => ArgValue::Str(s.clone()),
            ArgValue::Arr(items) => {
                let mut out: Vec<ArgValue> = Vec::new();
                let mut k: usize = 0;
                while k < items.len()
                    invariant
                        0 <= k <= items.len(),
                        out@.len() == k as int,
                        forall|j: int| 0 <= j < k ==> out@[j]@ == items@[j]@,
                    decreases items.len() - k,
                {
                    proof {
                        broadcast use vstd::std_specs::vec::axiom_vec_index_decreases;

                        assert(decreases_to!(*self => self->Arr_0));
                        assert(decreases_to!(self->Arr_0 => self->Arr_0[k as int]));
                    }
                    let d = items[k].duplicate();
                    out.push(d);
                    k = k + 1;
                }
                let rv = ArgValue::Arr(out);
                proof {
                    lemma_seq_view(out@);
                    lemma_seq_view(items@);
                    assert(seq_view(out@) =~= seq_view(items@));
                }
                rv
            },
            ArgValue::Obj(fields) => {
                let mut out: Vec<(String, ArgValue)> = Vec::new();
                let mut k: usize = 0;
                while k < fields.len()
                    invariant
                        0 <= k <= fields.len(),
                        out@.len() == k as int,
                        forall|j: int| 0 <= j < k ==> out@[j].0@ == fields@[j].0@
                            && out@[j].1@ == fields@[j].1@,
                    decreases fields.len() - k,
                {
                    proof {
                        broadcast use vstd::std_specs::vec::axiom_vec_index_decreases;

                        assert(decreases_to!(*self => self->Obj_0));
                        assert(decreases_to!(self->Obj_0 => self->Obj_0[k as int]));
                        assert(decreases_to!(self->Obj_0[k as int] => self->Obj_0[k as int].1));
                    }
                    let name = fields[k].0.clone();
                    let d = fields[k].1.duplicate();
                    out.push((name, d));
                    k = k + 1;
                }
                let rv = ArgValue::Obj(out);
                proof {
                    lemma_fields_view(out@);
                    lemma_fields_view(fields@);
                    assert(fields_view(out@) =~= fields_view(fields@));
                }
                rv
            },
        }
    }
}

} // verus!
