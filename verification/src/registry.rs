//! The tool registry: an immutable mapping from tool name to schema and
//! handler.
//!
//! The registry is built once, before any call is served, by `register`;
//! registration refuses a duplicate name and an ill-formed schema, so a
//! registry built through `register` alone holds well-formed schemas under
//! pairwise distinct names. After startup it is only read: `lookup` finds a
//! registration and `list` advertises every schema in registration order.

use vstd::prelude::*;

use crate::schema::check_schema;
use crate::schema::schema_wf;
use crate::schema::ToolSchema;
use crate::value::str_eq;

verus! {

/// A startup-time registration failure; fatal to the process, never to a call.
#[derive(Clone, Copy, PartialEq, Eq, Structural, Debug)]
pub enum RegistryError {
    DuplicateTool,
    InvalidSchema,
}

/// One registration: a schema paired with the handler that serves it.
pub struct ToolEntry<H> {
    pub schema: ToolSchema,
    pub handler: H,
}

/// The index of the first entry registered under the name.
pub open spec fn find_index<H>(entries: Seq<ToolEntry<H>>, name: Seq<char>) -> Option<int>
    decreases entries.len(),
{
    if entries.len() == 0 {
        Option::None
    } else if entries[0].schema.name@ == name {
        Option::Some(0)
    } else {
        match find_index(entries.drop_first(), name) {
            Option::Some(i) => Option::Some(i + 1),
            Option::None => Option::None,
        }
    }
}

/// Whether some entry is registered under the name.
pub open spec fn has_tool<H>(entries: Seq<ToolEntry<H>>, name: Seq<char>) -> bool {
    find_index(entries, name) is Some
}

/// Every registered schema is well formed.
pub open spec fn registry_wf<H>(entries: Seq<ToolEntry<H>>) -> bool {
    forall|i: int| 0 <= i < entries.len() ==> schema_wf(#[trigger] entries[i].schema@)
}

/// Registered names are pairwise distinct.
pub open spec fn names_distinct<H>(entries: Seq<ToolEntry<H>>) -> bool {
    forall|i: int, j: int|
        0 <= i < j < entries.len() ==> (#[trigger] entries[i].schema.name@) != (
        #[trigger] entries[j].schema.name@)
}

/// A found index names the entry it points at, and no earlier entry matches.
pub proof fn lemma_find_index_props<H>(entries: Seq<ToolEntry<H>>, name: Seq<char>)
    ensures
        match find_index(entries, name) {
            Option::Some(i) => 0 <= i < entries.len() && entries[i].schema.name@ == name && (
            forall|j: int| 0 <= j < i ==> (#[trigger] entries[j].schema.name@) != name),
            Option::None => forall|j: int|
                0 <= j < entries.len() ==> (#[trigger] entries[j].schema.name@) != name,
        },
    decreases entries.len(),
{
    if entries.len() > 0 {
        lemma_find_index_props(entries.drop_first(), name);
        assert(forall|j: int|
            1 <= j < entries.len() ==> #[trigger] entries[j] == entries.drop_first()[j - 1]);
    }
}

/// If no entry among the first `i` matches, the search may start at `i`.
pub proof fn lemma_find_index_skip<H>(entries: Seq<ToolEntry<H>>, name: Seq<char>, i: int)
    requires
        0 <= i <= entries.len(),
        forall|j: int| 0 <= j < i ==> (#[trigger] entries[j].schema.name@) != name,
    ensures
        find_index(entries, name) == match find_index(entries.skip(i), name) {
            Option::Some(k) => Option::Some(k + i),
            Option::None => Option::None::<int>,
        },
    decreases i,
{
    if i > 0 {
        assert(entries.drop_first().skip(i - 1) =~= entries.skip(i));
        lemma_find_index_skip(entries.drop_first(), name, i - 1);
    } else {
        assert(entries.skip(0) =~= entries);
    }
}

/// A name that no entry bears is not registered.
pub proof fn lemma_no_tool<H>(entries: Seq<ToolEntry<H>>, name: Seq<char>)
    requires
        forall|j: int| 0 <= j < entries.len() ==> (#[trigger] entries[j].schema.name@) != name,
    ensures
        !has_tool(entries, name),
    decreases entries.len(),
{
    if entries.len() > 0 {
        assert(forall|j: int|
            0 <= j < entries.drop_first().len() ==> #[trigger] entries.drop_first()[j]
                == entries[j + 1]);
        lemma_no_tool(entries.drop_first(), name);
    }
}

/// The process-wide mapping from tool name to registration. Immutable once
/// startup is over: serving code only reads it.
pub struct Registry<H> {
    pub entries: Vec<ToolEntry<H>>,
}

impl<H> Registry<H> {
    /// An empty registry: well formed, with no names to collide.
    pub fn new() -> (r: Registry<H>)
        ensures
            r.entries@.len() == 0,
            registry_wf(r.entries@),
            names_distinct(r.entries@),
    {
        Registry { entries: Vec::new() }
    }

    /// The first entry registered under the name, if any.
    pub fn lookup(&self, name: &str) -> (r: Option<&ToolEntry<H>>)
        ensures
            match r {
                Some(e) => find_index(self.entries@, name@) matches Some(i) && *e
                    == self.entries@[i],
                None => find_index(self.entries@, name@) is None,
            },
    {
        let mut i: usize = 0;
        while i < self.entries.len()
            invariant
                0 <= i <= self.entries.len(),
                forall|j: int| 0 <= j < i ==> (#[trigger] self.entries@[j].schema.name@) != name@,
            decreases self.entries.len() - i,
        {
            if str_eq(self.entries[i].schema.name.as_str(), name) {
                proof {
                    lemma_find_index_skip(self.entries@, name@, i as int);
                    assert(self.entries@.skip(i as int)[0] == self.entries@[i as int]);
                }
                return Some(&self.entries[i]);
            }
            i = i + 1;
        }
        proof {
            lemma_find_index_skip(self.entries@, name@, self.entries@.len() as int);
            assert(self.entries@.skip(self.entries@.len() as int) =~= Seq::<
                ToolEntry<H>,
            >::empty());
        }
        None
    }

    /// Register a tool. Fails with `DuplicateTool` if the name is already
    /// taken (the first registration stays active and the registry is
    /// unchanged), and with `InvalidSchema` if a required name is not a
    /// declared parameter. Well-formedness and distinctness of what was
    /// already registered are preserved either way.
    pub fn register(&mut self, schema: ToolSchema, handler: H) -> (r: Result<(), RegistryError>)
        ensures
            match r {
                Ok(()) => !has_tool(old(self).entries@, schema.name@) && schema_wf(schema@)
                    && final(self).entries@ == old(self).entries@.push(ToolEntry { schema, handler }),
                Err(RegistryError::DuplicateTool) => has_tool(old(self).entries@, schema.name@)
                    && final(self).entries@ == old(self).entries@,
                Err(RegistryError::InvalidSchema) => !has_tool(old(self).entries@, schema.name@)
                    && !schema_wf(schema@) && final(self).entries@ == old(self).entries@,
            },
            registry_wf(old(self).entries@) ==> registry_wf(final(self).entries@),
            names_distinct(old(self).entries@) ==> names_distinct(final(self).entries@),
    {
        let taken = self.lookup(schema.name.as_str()).is_some();
        proof {
            lemma_find_index_props(self.entries@, schema.name@);
        }
        if taken {
            return Err(RegistryError::DuplicateTool);
        }
        if !check_schema(&schema) {
            return Err(RegistryError::InvalidSchema);
        }
        let ghost before = self.entries@;
        let ghost schema_v = schema@;
        let ghost name_v = schema.name@;
        self.entries.push(ToolEntry { schema, handler });
        proof {
            assert forall|i: int, j: int| 0 <= i < j < self.entries@.len() && names_distinct(
                before,
            ) implies (#[trigger] self.entries@[i].schema.name@) != (
            #[trigger] self.entries@[j].schema.name@) by {
                if j == before.len() as int {
                    assert(self.entries@[j].schema.name@ == name_v);
                    assert(self.entries@[i] == before[i]);
                }
            }
        }
        Ok(())
    }

    /// Every registered schema, in registration order, for capability
    /// advertisement.
    pub fn list(&self) -> (r: Vec<&ToolSchema>)
        ensures
            r@.len() == self.entries@.len(),
            forall|i: int| 0 <= i < r@.len() ==> *(#[trigger] r@[i]) == self.entries@[i].schema,
    {
        let mut out: Vec<&ToolSchema> = Vec::new();
        let mut i: usize = 0;
        while i < self.entries.len()
            invariant
                0 <= i <= self.entries.len(),
                out@.len() == i as int,
                forall|j: int| 0 <= j < i ==> *(#[trigger] out@[j]) == self.entries@[j].schema,
            decreases self.entries.len() - i,
        {
            out.push(&self.entries[i].schema);
            i = i + 1;
        }
        out
    }
}

} // verus!
