//! The argument decoder: untyped argument maps checked against a schema.
//!
//! Decoding first substitutes declared defaults for absent parameters, then
//! enforces, in order: every required name present, every present parameter
//! of its declared type, every enum-constrained parameter within its
//! enumeration. It is total and side-effect-free; the outcome is exactly
//! `spec_decode` of the schema's and the arguments' models.

use vstd::prelude::*;

use crate::schema::ParamDef;
use crate::schema::ParamDefV;
use crate::schema::ParamType;
use crate::schema::SchemaV;
use crate::schema::ToolSchema;
use crate::value::arg_map_view;
use crate::value::has_key;
use crate::value::lemma_fields_view;
use crate::value::lookup_arg;
use crate::value::map_get;
use crate::value::str_eq;
use crate::value::ArgValue;
use crate::value::Val;

verus! {

/// Why decoding an argument map failed.
#[derive(Clone, Copy, PartialEq, Eq, Structural, Debug)]
pub enum DecodeCause {
    MissingRequired,
    TypeMismatch,
    OutOfEnum,
}

/// A decoding failure: the offending field and the cause.
#[derive(Debug)]
pub struct ArgumentDecodeError {
    pub field: String,
    pub cause: DecodeCause,
}

/// The default entry contributed by one parameter: its default, if it has one
/// and the arguments leave it out.
pub open spec fn entry_for(p: ParamDefV, args: Seq<(Seq<char>, Val)>) -> Seq<(Seq<char>, Val)> {
    match p.default {
        Option::Some(d) => if !has_key(args, p.name) {
            seq![(p.name, d)]
        } else {
            Seq::empty()
        },
        Option::None => Seq::empty(),
    }
}

/// The default entries contributed by the first `n` parameters, in order.
pub open spec fn default_entries(
    params: Seq<ParamDefV>,
    args: Seq<(Seq<char>, Val)>,
    n: int,
) -> Seq<(Seq<char>, Val)>
    decreases n,
{
    if n <= 0 {
        Seq::empty()
    } else {
        default_entries(params, args, n - 1) + entry_for(params[n - 1], args)
    }
}

/// The argument map after defaulting: the given entries, then the defaults of
/// the absent parameters, in declaration order.
pub open spec fn with_defaults(s: SchemaV, args: Seq<(Seq<char>, Val)>) -> Seq<(Seq<char>, Val)> {
    args + default_entries(s.params, args, s.params.len() as int)
}

/// Whether a value is of the declared parameter type.
pub open spec fn type_ok(t: ParamType, v: Val) -> bool {
    match t {
        ParamType::Text => v is Str,
        ParamType::Flag => v is Bool,
        ParamType::Number => v is Int,
        ParamType::List => v is Arr,
        ParamType::Record => v is Obj,
    }
}

/// Whether a value lies within the declared enumeration, if there is one.
pub open spec fn enum_ok(allowed: Option<Seq<Seq<char>>>, v: Val) -> bool {
    match allowed {
        Option::None => true,
        Option::Some(vals) => v matches Val::Str(s) && vals.contains(s),
    }
}

/// The complaint a parameter raises against a present value, if any: a type
/// mismatch is reported before an out-of-enumeration value.
pub open spec fn value_issue(p: ParamDefV, v: Val) -> Option<DecodeCause> {
    if !type_ok(p.ptype, v) {
        Option::Some(DecodeCause::TypeMismatch)
    } else if !enum_ok(p.allowed, v) {
        Option::Some(DecodeCause::OutOfEnum)
    } else {
        Option::None
    }
}

/// The complaint a parameter raises against the defaulted map, if any.
pub open spec fn param_issue(p: ParamDefV, m: Seq<(Seq<char>, Val)>) -> Option<DecodeCause> {
    match map_get(m, p.name) {
        Option::None => Option::None,
        Option::Some(v) => value_issue(p, v),
    }
}

/// The earliest required name, among the first `n`, that the map leaves out.
pub open spec fn first_missing(
    required: Seq<Seq<char>>,
    m: Seq<(Seq<char>, Val)>,
    n: int,
) -> Option<Seq<char>>
    decreases n,
{
    if n <= 0 {
        Option::None
    } else {
        match first_missing(required, m, n - 1) {
            Option::Some(f) => Option::Some(f),
            Option::None => if !has_key(m, required[n - 1]) {
                Option::Some(required[n - 1])
            } else {
                Option::None
            },
        }
    }
}

/// The earliest complaint among the first `n` parameters.
pub open spec fn first_issue(
    params: Seq<ParamDefV>,
    m: Seq<(Seq<char>, Val)>,
    n: int,
) -> Option<(Seq<char>, DecodeCause)>
    decreases n,
{
    if n <= 0 {
        Option::None
    } else {
        match first_issue(params, m, n - 1) {
            Option::Some(fc) => Option::Some(fc),
            Option::None => match param_issue(params[n - 1], m) {
                Option::Some(c) => Option::Some((params[n - 1].name, c)),
                Option::None => Option::None,
            },
        }
    }
}

/// What decoding returns: the defaulted map, or the earliest failure, with
/// missing required fields reported before type and enumeration complaints.
pub open spec fn spec_decode(s: SchemaV, args: Seq<(Seq<char>, Val)>) -> Result<
    Seq<(Seq<char>, Val)>,
    (Seq<char>, DecodeCause),
> {
    let m = with_defaults(s, args);
    match first_missing(s.required, m, s.required.len() as int) {
        Option::Some(f) => Result::Err((f, DecodeCause::MissingRequired)),
        Option::None => match first_issue(s.params, m, s.params.len() as int) {
            Option::Some(fc) => Result::Err(fc),
            Option::None => Result::Ok(m),
        },
    }
}

/// Once found, the earliest missing name does not change as the scan goes on.
pub proof fn lemma_first_missing_stable(
    required: Seq<Seq<char>>,
    m: Seq<(Seq<char>, Val)>,
    i: int,
    n: int,
)
    requires
        0 <= i <= n <= required.len(),
        first_missing(required, m, i) is Some,
    ensures
        first_missing(required, m, n) == first_missing(required, m, i),
    decreases n,
{
    if n > i {
        lemma_first_missing_stable(required, m, i, n - 1);
    }
}

/// Once found, the earliest complaint does not change as the scan goes on.
pub proof fn lemma_first_issue_stable(
    params: Seq<ParamDefV>,
    m: Seq<(Seq<char>, Val)>,
    i: int,
    n: int,
)
    requires
        0 <= i <= n <= params.len(),
        first_issue(params, m, i) is Some,
    ensures
        first_issue(params, m, n) == first_issue(params, m, i),
    decreases n,
{
    if n > i {
        lemma_first_issue_stable(params, m, i, n - 1);
    }
}

/// What the scan for a missing required name finds is itself missing, and is
/// one of the first `n` required names.
pub proof fn lemma_first_missing_found(required: Seq<Seq<char>>, m: Seq<(Seq<char>, Val)>, n: int)
    requires
        0 <= n <= required.len(),
    ensures
        first_missing(required, m, n) matches Some(f) ==> !has_key(m, f) && (exists|j: int|
            0 <= j < n && required[j] == f),
    decreases n,
{
    if n > 0 {
        lemma_first_missing_found(required, m, n - 1);
        if first_missing(required, m, n) is Some && first_missing(required, m, n - 1) is None {
            assert(first_missing(required, m, n)->0 == required[n - 1]);
        }
    }
}

/// If some required name among the first `n` is missing, the scan finds one.
pub proof fn lemma_first_missing_exists(
    required: Seq<Seq<char>>,
    m: Seq<(Seq<char>, Val)>,
    i: int,
    n: int,
)
    requires
        0 <= i < n <= required.len(),
        !has_key(m, required[i]),
    ensures
        first_missing(required, m, n) is Some,
    decreases n,
{
    if n - 1 > i {
        lemma_first_missing_exists(required, m, i, n - 1);
    }
}

/// If some parameter among the first `n` raises a complaint, the scan finds
/// one.
pub proof fn lemma_first_issue_exists(
    params: Seq<ParamDefV>,
    m: Seq<(Seq<char>, Val)>,
    i: int,
    n: int,
)
    requires
        0 <= i < n <= params.len(),
        param_issue(params[i], m) is Some,
    ensures
        first_issue(params, m, n) is Some,
    decreases n,
{
    if n - 1 > i {
        lemma_first_issue_exists(params, m, i, n - 1);
    }
}

/// Decoding arguments that leave some required field without a value, even
/// after defaulting, always fails citing a missing required field — a field
/// that is indeed required and absent — whatever the other fields hold.
pub proof fn lemma_missing_required_fails(s: SchemaV, args: Seq<(Seq<char>, Val)>, i: int)
    requires
        0 <= i < s.required.len(),
        !has_key(with_defaults(s, args), s.required[i]),
    ensures
        spec_decode(s, args) matches Err((f, c)) && (c == DecodeCause::MissingRequired && !has_key(
            with_defaults(s, args),
            f,
        ) && (exists|j: int| 0 <= j < s.required.len() && s.required[j] == f)),
{
    let m = with_defaults(s, args);
    lemma_first_missing_exists(s.required, m, i, s.required.len() as int);
    lemma_first_missing_found(s.required, m, s.required.len() as int);
}

/// Decoding arguments in which some parameter's present value lies outside
/// its declared enumeration always fails: with an out-of-enumeration or
/// type-mismatch complaint for that or an earlier parameter, or citing a
/// required field that is also missing — never with success.
pub proof fn lemma_enum_violation_fails(s: SchemaV, args: Seq<(Seq<char>, Val)>, i: int)
    requires
        0 <= i < s.params.len(),
        map_get(with_defaults(s, args), s.params[i].name) matches Some(v) && !enum_ok(
            s.params[i].allowed,
            v,
        ),
    ensures
        spec_decode(s, args) is Err,
{
    let m = with_defaults(s, args);
    assert(param_issue(s.params[i], m) is Some);
    lemma_first_issue_exists(s.params, m, i, s.params.len() as int);
}

/// Whether the string is one of the listed values.
fn value_in_list(vals: &Vec<String>, s: &String) -> (r: bool)
    ensures
        r == Seq::new(vals@.len(), |i: int| vals@[i]@).contains(s@),
{
    let ghost vsv = Seq::new(vals@.len(), |i: int| vals@[i]@);
    let mut i: usize = 0;
    while i < vals.len()
        invariant
            0 <= i <= vals.len(),
            vsv == Seq::new(vals@.len(), |k: int| vals@[k]@),
            forall|j: int| 0 <= j < i ==> vsv[j] != s@,
        decreases vals.len() - i,
    {
        if str_eq(vals[i].as_str(), s.as_str()) {
            assert(vsv[i as int] == s@);
            return true;
        }
        i = i + 1;
    }
    false
}

/// The complaint the parameter raises against a present value, mirroring
/// `value_issue`.
fn check_value(p: &ParamDef, v: &ArgValue) -> (c: Option<DecodeCause>)
    ensures
        c == value_issue(p@, v@),
{
    let matches_type = match (&p.ptype, v) {
        (ParamType::Text, ArgValue::Str(_)) => true,
        (ParamType::Flag, ArgValue::Bool(_)) => true,
        (ParamType::Number, ArgValue::Int(_)) => true,
        (ParamType::List, ArgValue::Arr(_)) => true,
        (ParamType::Record, ArgValue::Obj(_)) => true,
        _ => false,
    };
    if !matches_type {
        return Some(DecodeCause::TypeMismatch);
    }
    match &p.allowed {
        None => None,
        Some(vals) => match v {
            ArgValue::Str(s) => {
                if value_in_list(vals, s) {
                    None
                } else {
                    Some(DecodeCause::OutOfEnum)
                }
            },
            _ => Some(DecodeCause::OutOfEnum),
        },
    }
}

/// Decode an argument map against a schema: substitute defaults, then demand
/// required names, declared types, and enumerated values, in that order. The
/// result is exactly `spec_decode` of the models.
#[verifier::loop_isolation(false)]
pub fn decode_args(schema: &ToolSchema, args: Vec<(String, ArgValue)>) -> (r: Result<
    Vec<(String, ArgValue)>,
    ArgumentDecodeError,
>)
    ensures
        match r {
            Ok(out) => spec_decode(schema@, arg_map_view(args@)) matches Ok(mv) && arg_map_view(
                out@,
            ) == mv,
            Err(e) => spec_decode(schema@, arg_map_view(args@)) matches Err(ev) && ev == (
                e.field@,
                e.cause,
            ),
        },
{
    let ghost args_v = arg_map_view(args@);
    let ghost params_v = schema@.params;

    // Phase 1: collect the defaults of absent parameters.
    let mut extra: Vec<(String, ArgValue)> = Vec::new();
    let mut i: usize = 0;
    while i < schema.params.len()
        invariant
            0 <= i <= schema.params.len(),
            args_v == arg_map_view(args@),
            params_v == schema@.params,
            params_v.len() == schema.params@.len(),
            forall|k: int| 0 <= k < schema.params@.len() ==> params_v[k] == schema.params@[k]@,
            arg_map_view(extra@) == default_entries(params_v, args_v, i as int),
        decreases schema.params.len() - i,
    {
        let p = &schema.params[i];
        let ghost extra_before = extra@;
        if let Some(d) = &p.default {
            if lookup_arg(&args, p.name.as_str()).is_none() {
                let name = p.name.clone();
                let dv = d.duplicate();
                extra.push((name, dv));
                proof {
                    lemma_fields_view(extra_before);
                    lemma_fields_view(extra@);
                    assert(arg_map_view(extra@) =~= arg_map_view(extra_before) + entry_for(
                        params_v[i as int],
                        args_v,
                    ));
                }
            }
        }
        i = i + 1;
    }

    // Append the defaults to the given entries.
    let mut m = args;
    let ghost m_before = m@;
    let mut extras = extra;
    m.append(&mut extras);
    let ghost mv = arg_map_view(m@);
    proof {
        lemma_fields_view(m@);
        lemma_fields_view(m_before);
        lemma_fields_view(extra@);
        assert(mv =~= args_v + default_entries(params_v, args_v, params_v.len() as int));
        assert(mv == with_defaults(schema@, args_v));
    }

    // Phase 2: every required name must be present.
    let ghost required_v = schema@.required;
    let mut j: usize = 0;
    while j < schema.required.len()
        invariant
            0 <= j <= schema.required.len(),
            mv == arg_map_view(m@),
            required_v == schema@.required,
            required_v.len() == schema.required@.len(),
            forall|k: int| 0 <= k < schema.required@.len() ==> required_v[k]
                == schema.required@[k]@,
            first_missing(required_v, mv, j as int) is None,
        decreases schema.required.len() - j,
    {
        if lookup_arg(&m, schema.required[j].as_str()).is_none() {
            proof {
                assert(first_missing(required_v, mv, j as int + 1) == Option::Some(
                    required_v[j as int],
                ));
                lemma_first_missing_stable(required_v, mv, j as int + 1, required_v.len() as int);
            }
            return Err(
                ArgumentDecodeError {
                    field: schema.required[j].clone(),
                    cause: DecodeCause::MissingRequired,
                },
            );
        }
        j = j + 1;
    }

    // Phase 3: every present parameter must match its declared type and
    // enumeration.
    let mut k: usize = 0;
    while k < schema.params.len()
        invariant
            0 <= k <= schema.params.len(),
            mv == arg_map_view(m@),
            params_v == schema@.params,
            params_v.len() == schema.params@.len(),
            forall|t: int| 0 <= t < schema.params@.len() ==> params_v[t] == schema.params@[t]@,
            required_v == schema@.required,
            first_missing(required_v, mv, required_v.len() as int) is None,
            first_issue(params_v, mv, k as int) is None,
        decreases schema.params.len() - k,
    {
        let p = &schema.params[k];
        match lookup_arg(&m, p.name.as_str()) {
            None => {},
            Some(v) => {
                match check_value(p, v) {
                    None => {},
                    Some(c) => {
                        proof {
                            assert(first_issue(params_v, mv, k as int + 1) == Option::Some(
                                (params_v[k as int].name, c),
                            ));
                            lemma_first_issue_stable(
                                params_v,
                                mv,
                                k as int + 1,
                                params_v.len() as int,
                            );
                        }
                        return Err(ArgumentDecodeError { field: p.name.clone(), cause: c });
                    },
                }
            },
        }
        k = k + 1;
    }

    Ok(m)
}

} // verus!
