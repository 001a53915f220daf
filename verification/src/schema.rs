//! Tool schemas: the static description of a callable operation.
//!
//! A schema names a tool, describes it, and declares its parameters: each
//! parameter has a name, a declared type, optionally a set of enumerated
//! allowed string values, and optionally a default that is substituted when
//! the caller leaves the parameter out. `required` lists the parameter names
//! that must be present after defaulting; a well-formed schema only requires
//! names that its parameter list declares.

use vstd::prelude::*;

use crate::value::ArgValue;
use crate::value::Val;

verus! {

/// The declared type of a parameter.
#[derive(Clone, Copy, PartialEq, Eq, Structural, Debug)]
pub enum ParamType {
    Text,
    Flag,
    Number,
    List,
    Record,
}

/// One parameter declaration of a tool schema.
#[derive(Debug, PartialEq, Eq)]
pub struct ParamDef {
    pub name: String,
    pub ptype: ParamType,
    pub allowed: Option<Vec<String>>,
    pub default: Option<ArgValue>,
}

/// The mathematical model of a parameter declaration.
#[verifier::ext_equal]
pub struct ParamDefV {
    pub name: Seq<char>,
    pub ptype: ParamType,
    pub allowed: Option<Seq<Seq<char>>>,
    pub default: Option<Val>,
}

impl View for ParamDef {
    type V = ParamDefV;

    open spec fn view(&self) -> ParamDefV {
        ParamDefV {
            name: self.name@,
            ptype: self.ptype,
            allowed: match self.allowed {
                Option::None => Option::None,
                Option::Some(vs) => Option::Some(Seq::new(vs@.len(), |i: int| vs@[i]@)),
            },
            default: match self.default {
                Option::None => Option::None,
                Option::Some(d) => Option::Some(d@),
            },
        }
    }
}

/// The static description of a callable tool.
#[derive(Debug, PartialEq, Eq)]
pub struct ToolSchema {
    pub name: String,
    pub description: String,
    pub params: Vec<ParamDef>,
    pub required: Vec<String>,
}

/// The mathematical model of a tool schema.
#[verifier::ext_equal]
pub struct SchemaV {
    pub name: Seq<char>,
    pub description: Seq<char>,
    pub params: Seq<ParamDefV>,
    pub required: Seq<Seq<char>>,
}

impl View for ToolSchema {
    type V = SchemaV;

    open spec fn view(&self) -> SchemaV {
        SchemaV {
            name: self.name@,
            description: self.description@,
            params: Seq::new(self.params@.len(), |i: int| self.params@[i]@),
            required: Seq::new(self.required@.len(), |i: int| self.required@[i]@),
        }
    }
}

/// First-match lookup of a parameter declaration by name.
pub open spec fn find_param(params: Seq<ParamDefV>, name: Seq<char>) -> Option<ParamDefV>
    decreases params.len(),
{
    if params.len() == 0 {
        Option::None
    } else if params[0].name == name {
        Option::Some(params[0])
    } else {
        find_param(params.drop_first(), name)
    }
}

/// Whether the parameter list declares the name.
pub open spec fn declares_param(params: Seq<ParamDefV>, name: Seq<char>) -> bool {
    find_param(params, name) is Some
}

/// A schema is well formed when every required name is a declared parameter.
pub open spec fn schema_wf(s: SchemaV) -> bool {
    forall|i: int| 0 <= i < s.required.len() ==> declares_param(s.params, #[trigger] s.required[i])
}

/// If no parameter among the first `i` matches, lookup may start at `i`.
pub proof fn lemma_find_param_skip(params: Seq<ParamDefV>, name: Seq<char>, i: int)
    requires
        0 <= i <= params.len(),
        forall|j: int| 0 <= j < i ==> params[j].name != name,
    ensures
        find_param(params, name) == find_param(params.skip(i), name),
    decreases i,
{
    if i > 0 {
        assert(params.drop_first().skip(i - 1) =~= params.skip(i));
        lemma_find_param_skip(params.drop_first(), name, i - 1);
    } else {
        assert(params.skip(0) =~= params);
    }
}

/// First-match lookup of a parameter in an exec parameter list, agreeing with
/// `find_param` on the views.
pub fn find_param_ref<'a>(params: &'a Vec<ParamDef>, name: &str) -> (r: Option<&'a ParamDef>)
    ensures
        match r {
            Some(p) => find_param(Seq::new(params@.len(), |i: int| params@[i]@), name@) == Some(
                p@,
            ),
            None => find_param(Seq::new(params@.len(), |i: int| params@[i]@), name@) is None,
        },
{
    let ghost pv = Seq::new(params@.len(), |i: int| params@[i]@);
    let mut i: usize = 0;
    while i < params.len()
        invariant
            0 <= i <= params.len(),
            pv == Seq::new(params@.len(), |k: int| params@[k]@),
            forall|j: int| 0 <= j < i ==> pv[j].name != name@,
        decreases params.len() - i,
    {
        if crate::value::str_eq(params[i].name.as_str(), name) {
            proof {
                lemma_find_param_skip(pv, name@, i as int);
                assert(pv.skip(i as int)[0] == pv[i as int]);
            }
            return Some(&params[i]);
        }
        i = i + 1;
    }
    proof {
        lemma_find_param_skip(pv, name@, params@.len() as int);
        assert(pv.skip(params@.len() as int) =~= Seq::<ParamDefV>::empty());
    }
    None
}

/// Whether the schema is well formed: every required name is declared.
pub fn check_schema(schema: &ToolSchema) -> (r: bool)
    ensures
        r == schema_wf(schema@),
{
    let mut i: usize = 0;
    while i < schema.required.len()
        invariant
            0 <= i <= schema.required.len(),
            forall|j: int| 0 <= j < i ==> declares_param(
                schema@.params,
                #[trigger] schema@.required[j],
            ),
        decreases schema.required.len() - i,
    {
        if find_param_ref(&schema.params, schema.required[i].as_str()).is_none() {
            assert(!declares_param(schema@.params, schema@.required[i as int]));
            return false;
        }
        i = i + 1;
    }
    true
}

} // verus!
