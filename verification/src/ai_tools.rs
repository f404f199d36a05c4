//! The registry of tools: what each tool is called, what parameters its
//! handler expects, and how it is described to the model.
//!
//! The handlers themselves live in the router that the registry carries;
//! the registry decides which names may be called and with what arguments.

use vstd::prelude::*;
use crate::chat::{descriptor_of, tool_fn_from_type, CapabilityDescriptor};
use crate::error::{BridgeError, RegistryError};
use crate::schema::ParamType;

verus! {

/// `rpc_router::Router`, carried as an opaque value.
#[verifier::external_type_specification]
#[verifier::external_body]
pub struct ExRouter(rpc_router::Router);

/// One registered tool.
#[derive(Debug, PartialEq, Eq)]
pub struct HandlerEntry {
    pub name: String,
    /// The parameters that the handler expects.
    pub expected_schema: ParamType,
    /// The tool as shown to the model.
    pub descriptor: CapabilityDescriptor,
}

/// Whether the type at `i` has the name of an earlier type.
pub open spec fn name_taken(types: Seq<ParamType>, i: int) -> bool {
    exists|j: int| 0 <= j < i && (#[trigger] types[j]).name@ == types[i].name@
}

/// Why the type at `i` cannot be registered after those before it: it has
/// no schema, or its name is taken.
pub open spec fn registration_fault(types: Seq<ParamType>, i: int) -> Option<BridgeError> {
    match types[i].fault() {
        Some(fault) => Some(BridgeError::Schema(fault)),
        None => if name_taken(types, i) {
            Some(BridgeError::Registry(RegistryError::DuplicateName(types[i].name)))
        } else {
            None
        },
    }
}

/// The fault of the first type at or after `from` that cannot be
/// registered; `None` where these types can all be registered.
pub open spec fn registry_fault_from(types: Seq<ParamType>, from: int) -> Option<BridgeError>
    decreases types.len() - from,
{
    if 0 <= from < types.len() {
        match registration_fault(types, from) {
            Some(fault) => Some(fault),
            None => registry_fault_from(types, from + 1),
        }
    } else {
        None
    }
}

/// Why no registry can be built of `types`: the fault of the first type
/// that cannot be registered. `None` where one can be built.
pub open spec fn registry_fault(types: Seq<ParamType>) -> Option<BridgeError> {
    registry_fault_from(types, 0)
}

/// Whether `entries` are what a registry holds for `types`: one entry per
/// type, in order, under the type's name and with the type's descriptor.
pub open spec fn entries_of(entries: Seq<HandlerEntry>, types: Seq<ParamType>) -> bool {
    &&& entries.len() == types.len()
    &&& forall|i: int|
        0 <= i < types.len() ==> {
            &&& (#[trigger] entries[i]).name@ == types[i].name@
            &&& entries[i].expected_schema == types[i]
            &&& entries[i].descriptor@ == descriptor_of(types[i])
        }
}

/// The first entry at or after `from` that is registered under `name`.
pub open spec fn entry_from(entries: Seq<HandlerEntry>, name: Seq<char>, from: int) -> Option<
    HandlerEntry,
>
    decreases entries.len() - from,
{
    if 0 <= from < entries.len() {
        if entries[from].name@ == name {
            Some(entries[from])
        } else {
            entry_from(entries, name, from + 1)
        }
    } else {
        None
    }
}

/// The entry registered under `name`, if there is one.
pub open spec fn entry_for(entries: Seq<HandlerEntry>, name: Seq<char>) -> Option<HandlerEntry> {
    entry_from(entries, name, 0)
}

/// Whether no two entries share a name.
pub open spec fn names_distinct(entries: Seq<HandlerEntry>) -> bool {
    forall|i: int, j: int|
        0 <= i < j < entries.len() ==> (#[trigger] entries[i]).name@ != (#[trigger] entries[j]).name@
}

/// The tools that a conversation offers.
pub struct AiTools {
    router: rpc_router::Router,
    entries: Vec<HandlerEntry>,
}

impl AiTools {
    #[verifier::type_invariant]
    spec fn well_formed(&self) -> bool {
        &&& names_distinct(self.entries@)
        &&& forall|i: int|
            0 <= i < self.entries@.len() ==> {
                &&& (#[trigger] self.entries@[i]).name@ == self.entries@[i].expected_schema.name@
                &&& self.entries@[i].expected_schema.representable()
                &&& self.entries@[i].descriptor@ == descriptor_of(self.entries@[i].expected_schema)
            }
    }

    /// The registered tools, in the order of their registration.
    pub closed spec fn entries(&self) -> Seq<HandlerEntry> {
        self.entries@
    }

    /// The router that holds the handlers.
    pub closed spec fn held_router(&self) -> rpc_router::Router {
        self.router
    }

    /// A registry of the tools whose parameters `tool_types` define, in that
    /// order, with `router` for their handlers. Fails at the first type that
    /// has no schema or whose name an earlier type has.
    pub fn new(router: rpc_router::Router, tool_types: Vec<ParamType>) -> (res: Result<
        AiTools,
        BridgeError,
    >)
        ensures
            match res {
                Ok(tools) => {
                    &&& registry_fault(tool_types@) is None
                    &&& tools.held_router() == router
                    &&& entries_of(tools.entries(), tool_types@)
                    &&& names_distinct(tools.entries())
                },
                Err(e) => registry_fault(tool_types@) == Some(e),
            },
    {
        let ghost types = tool_types@;
        let mut remaining = tool_types;
        let mut entries: Vec<HandlerEntry> = Vec::new();
        while remaining.len() > 0
            invariant
                types == tool_types@,
                entries@.len() + remaining@.len() == types.len(),
                remaining@ =~= types.subrange(entries@.len() as int, types.len() as int),
                entries_of(entries@, types.subrange(0, entries@.len() as int)),
                names_distinct(entries@),
                forall|j: int| 0 <= j < entries@.len() ==> (#[trigger] types[j]).representable(),
                registry_fault(types) == registry_fault_from(types, entries@.len() as int),
            decreases remaining@.len(),
        {
            let ghost i = entries@.len() as int;
            let ty = remaining.remove(0);
            assert(ty == types[i]);
            let descriptor = match tool_fn_from_type(&ty) {
                Ok(descriptor) => descriptor,
                Err(e) => {
                    return Err(e);
                },
            };
            let mut j: usize = 0;
            while j < entries.len()
                invariant
                    j <= entries@.len(),
                    i == entries@.len(),
                    0 <= i < types.len(),
                    ty == types[i],
                    types == tool_types@,
                    ty.representable(),
                    entries_of(entries@, types.subrange(0, i)),
                    registry_fault(types) == registry_fault_from(types, i),
                    forall|k: int| 0 <= k < j ==> (#[trigger] types[k]).name@ != ty.name@,
                decreases entries.len() - j,
            {
                assert(entries@[j as int].name@ == types.subrange(0, i)[j as int].name@);
                if entries[j].name == ty.name {
                    proof {
                        assert(types[j as int].name@ == types[i].name@);
                        assert(name_taken(types, i));
                    }
                    return Err(BridgeError::Registry(RegistryError::DuplicateName(ty.name)));
                }
                j += 1;
            }
            proof {
                assert(!name_taken(types, i));
                assert forall|a: int| 0 <= a < i implies (#[trigger] entries@[a]).name@ != ty.name@ by {
                    assert(entries@[a].name@ == types.subrange(0, i)[a].name@);
                    assert(types[a].name@ != ty.name@);
                }
            }
            let name = ty.name.clone();
            entries.push(HandlerEntry { name, expected_schema: ty, descriptor });
            proof {
                let done = types.subrange(0, i + 1);
                assert forall|k: int| 0 <= k < done.len() implies {
                    &&& (#[trigger] entries@[k]).name@ == done[k].name@
                    &&& entries@[k].expected_schema == done[k]
                    &&& entries@[k].descriptor@ == descriptor_of(done[k])
                } by {
                    if k < i {
                        assert(types.subrange(0, i)[k] == done[k]);
                    }
                }
            }
        }
        proof {
            assert(types.subrange(0, types.len() as int) =~= types);
        }
        Ok(AiTools { router, entries })
    }

    /// The router that holds the handlers.
    pub fn router(&self) -> (router: &rpc_router::Router)
        ensures
            *router == self.held_router(),
    {
        &self.router
    }

    /// How many tools are registered.
    pub fn len(&self) -> (n: usize)
        ensures
            n == self.entries().len(),
    {
        self.entries.len()
    }

    /// The entry registered under `name`, if there is one.
    pub fn resolve(&self, name: &str) -> (found: Option<&HandlerEntry>)
        ensures
            match found {
                Some(entry) => entry_for(self.entries(), name@) == Some(*entry) && entry.name@
                    == name@,
                None => entry_for(self.entries(), name@) is None,
            },
    {
        let wanted = String::from_str(name);
        let mut i: usize = 0;
        while i < self.entries.len()
            invariant
                i <= self.entries@.len(),
                wanted@ == name@,
                entry_for(self.entries@, name@) == entry_from(self.entries@, name@, i as int),
            decreases self.entries.len() - i,
        {
            if self.entries[i].name == wanted {
                return Some(&self.entries[i]);
            }
            i += 1;
        }
        None
    }

    /// The descriptors of the registered tools, in the order of their
    /// registration.
    pub fn chat_tools_clone(&self) -> (tools: Vec<CapabilityDescriptor>)
        ensures
            tools@.len() == self.entries().len(),
            forall|i: int|
                0 <= i < tools@.len() ==> (#[trigger] tools@[i])@ == descriptor_of(
                    self.entries()[i].expected_schema,
                ),
    {
        proof {
            use_type_invariant(self);
        }
        let mut tools: Vec<CapabilityDescriptor> = Vec::new();
        let mut i: usize = 0;
        while i < self.entries.len()
            invariant
                i <= self.entries@.len(),
                tools@.len() == i,
                forall|k: int|
                    0 <= k < self.entries@.len() ==> (#[trigger] self.entries@[k]).descriptor@
                        == descriptor_of(self.entries@[k].expected_schema),
                forall|k: int|
                    0 <= k < i ==> (#[trigger] tools@[k])@ == descriptor_of(
                        self.entries@[k].expected_schema,
                    ),
            decreases self.entries.len() - i,
        {
            tools.push(self.entries[i].descriptor.clone());
            i += 1;
        }
        tools
    }
}

/// Where the type at `i` cannot be registered, no registry can be built
/// of the types from any earlier position on.
pub proof fn lemma_refused_type(types: Seq<ParamType>, from: int, i: int)
    requires
        0 <= from <= i < types.len(),
        registration_fault(types, i) is Some,
    ensures
        registry_fault_from(types, from) is Some,
    decreases i - from,
{
    if from < i {
        lemma_refused_type(types, from + 1, i);
    }
}

/// No registry can be built of types of which two share a name.
pub proof fn lemma_shared_name_is_refused(types: Seq<ParamType>, i: int, j: int)
    requires
        0 <= i < j < types.len(),
        types[i].name@ == types[j].name@,
    ensures
        registry_fault(types) is Some,
{
    assert(name_taken(types, j));
    lemma_refused_type(types, 0, j);
}

/// Types that each have a schema and of which no two share a name can be
/// registered from any position on.
pub proof fn lemma_accepted_from(types: Seq<ParamType>, from: int)
    requires
        0 <= from,
        forall|i: int| 0 <= i < types.len() ==> (#[trigger] types[i]).representable(),
        forall|i: int, j: int|
            0 <= i < j < types.len() ==> (#[trigger] types[i]).name@ != (#[trigger] types[j]).name@,
    ensures
        registry_fault_from(types, from) is None,
    decreases types.len() - from,
{
    if from < types.len() {
        assert(types[from].representable());
        assert(!name_taken(types, from));
        lemma_accepted_from(types, from + 1);
    }
}

/// A registry can be built of types that each have a schema and of which
/// no two share a name.
pub proof fn lemma_distinct_names_are_accepted(types: Seq<ParamType>)
    requires
        forall|i: int| 0 <= i < types.len() ==> (#[trigger] types[i]).representable(),
        forall|i: int, j: int|
            0 <= i < j < types.len() ==> (#[trigger] types[i]).name@ != (#[trigger] types[j]).name@,
    ensures
        registry_fault(types) is None,
{
    lemma_accepted_from(types, 0);
}

/// Among entries with distinct names, the entry at `i` is the one found
/// under its name, from whatever earlier position the search starts.
pub proof fn lemma_entry_found(entries: Seq<HandlerEntry>, from: int, i: int)
    requires
        names_distinct(entries),
        0 <= from <= i < entries.len(),
    ensures
        entry_from(entries, entries[i].name@, from) == Some(entries[i]),
    decreases i - from,
{
    if from < i {
        assert(entries[from].name@ != entries[i].name@);
        lemma_entry_found(entries, from + 1, i);
    }
}

/// In a registry built of `types`, each of the types is found under its
/// name, at its own entry.
pub proof fn lemma_registered_names_resolve(
    entries: Seq<HandlerEntry>,
    types: Seq<ParamType>,
    i: int,
)
    requires
        entries_of(entries, types),
        names_distinct(entries),
        0 <= i < types.len(),
    ensures
        entry_for(entries, types[i].name@) == Some(entries[i]),
        entries[i].expected_schema == types[i],
{
    lemma_entry_found(entries, 0, i);
}

/// Under a name that no entry has, nothing is found.
pub proof fn lemma_unregistered_name(entries: Seq<HandlerEntry>, name: Seq<char>, from: int)
    requires
        0 <= from,
        forall|i: int| 0 <= i < entries.len() ==> (#[trigger] entries[i]).name@ != name,
    ensures
        entry_from(entries, name, from) is None,
    decreases entries.len() - from,
{
    if from < entries.len() {
        assert(entries[from].name@ != name);
        lemma_unregistered_name(entries, name, from + 1);
    }
}

} // verus!
