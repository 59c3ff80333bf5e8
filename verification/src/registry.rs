//! The registry of tools: an ordered collection of tool definitions, each
//! with its implementation, in which no name occurs twice.

use vstd::prelude::*;
use crate::types::{Tool, ToolImplementation, ToolV, ToolsCallResult};

verus! {

/// Why a tool could not be registered.
#[derive(Clone, Copy, Debug, PartialEq, Eq, Structural)]
pub enum RegistryError {
    /// A tool of that name is registered already.
    DuplicateName,
}

/// A registered tool: its definition, as it was when the tool was registered,
/// and its implementation.
pub struct Entry<T> {
    pub definition: Tool,
    pub implementation: T,
}

/// The tools of a server, in the order of their registration.
pub struct ToolRegistry<T> {
    entries: Vec<Entry<T>>,
}

/// The index of the first definition named `name`, or the number of
/// definitions where none has that name.
pub open spec fn position_of(tools: Seq<ToolV>, name: Seq<char>) -> nat
    decreases tools.len(),
{
    if tools.len() > 0 && tools[0].name != name {
        1 + position_of(tools.skip(1), name)
    } else {
        0
    }
}

/// Whether one of the definitions is named `name`.
pub open spec fn has_name(tools: Seq<ToolV>, name: Seq<char>) -> bool {
    position_of(tools, name) < tools.len()
}

/// Whether no two of the definitions share a name.
pub open spec fn distinct_names(tools: Seq<ToolV>) -> bool {
    forall|i: int, j: int|
        0 <= i < j < tools.len() ==> (#[trigger] tools[i]).name != (#[trigger] tools[j]).name
}

/// `position_of` is the index of the first definition of that name.
pub proof fn lemma_position_of(tools: Seq<ToolV>, name: Seq<char>, i: int)
    requires
        0 <= i <= tools.len(),
        forall|j: int| 0 <= j < i ==> (#[trigger] tools[j]).name != name,
        i < tools.len() ==> tools[i].name == name,
    ensures
        position_of(tools, name) == i,
    decreases i,
{
    if i > 0 {
        let rest = tools.skip(1);
        assert forall|j: int| 0 <= j < i - 1 implies (#[trigger] rest[j]).name != name by {
            assert(rest[j] == tools[j + 1]);
        }
        lemma_position_of(rest, name, i - 1);
    }
}

/// What `position_of` finds is named `name`, and nothing before it is.
pub proof fn lemma_position_of_found(tools: Seq<ToolV>, name: Seq<char>)
    ensures
        position_of(tools, name) <= tools.len(),
        has_name(tools, name) ==> tools[position_of(tools, name) as int].name == name,
        forall|j: int| 0 <= j < position_of(tools, name) ==> (#[trigger] tools[j]).name != name,
    decreases tools.len(),
{
    if tools.len() > 0 && tools[0].name != name {
        let rest = tools.skip(1);
        lemma_position_of_found(rest, name);
        assert forall|j: int| 0 <= j < position_of(tools, name) implies (
        #[trigger] tools[j]).name != name by {
            if j > 0 {
                assert(rest[j - 1] == tools[j]);
            }
        }
    }
}

impl<T> ToolRegistry<T> {
    #[verifier::type_invariant]
    spec fn names_differ(&self) -> bool {
        forall|i: int, j: int|
            0 <= i < j < self.entries.len() ==> (#[trigger] self.entries[i]).definition.name@ != (
            #[trigger] self.entries[j]).definition.name@
    }

    /// The definitions of the registered tools, in the order of registration.
    pub closed spec fn view(&self) -> Seq<ToolV> {
        Seq::new(self.entries.len() as nat, |i: int| self.entries[i].definition@)
    }

    /// The implementation registered at `index`.
    pub closed spec fn implementation(&self, index: int) -> T {
        self.entries[index].implementation
    }

    /// Does nothing when run; to the verifier it says that no two registered
    /// tools share a name.
    pub fn names_are_distinct(&self)
        ensures
            distinct_names(self@),
    {
        proof {
            use_type_invariant(self);
            assert forall|i: int, j: int| 0 <= i < j < self@.len() implies (
            #[trigger] self@[i]).name != (#[trigger] self@[j]).name by {
                assert(self.entries[i].definition.name@ != self.entries[j].definition.name@);
            }
        }
    }

    /// A registry without tools.
    pub fn new() -> (r: ToolRegistry<T>)
        ensures
            r@ == Seq::<ToolV>::empty(),
    {
        let r = ToolRegistry { entries: Vec::new() };
        assert(r@ =~= Seq::<ToolV>::empty());
        r
    }

    /// The number of registered tools.
    pub fn len(&self) -> (r: usize)
        ensures
            r == self@.len(),
    {
        self.entries.len()
    }

    /// The index of the tool named `name`.
    pub fn find(&self, name: &str) -> (r: Option<usize>)
        ensures
            match r {
                Some(i) => has_name(self@, name@) && i == position_of(self@, name@),
                None => !has_name(self@, name@),
            },
    {
        let wanted = name.to_owned();
        let mut i: usize = 0;
        while i < self.entries.len()
            invariant
                i <= self.entries.len(),
                wanted@ == name@,
                forall|j: int| 0 <= j < i ==> (#[trigger] self@[j]).name != name@,
            decreases self.entries.len() - i,
        {
            if self.entries[i].definition.name == wanted {
                proof {
                    lemma_position_of(self@, name@, i as int);
                }
                return Some(i);
            }
            i += 1;
        }
        proof {
            lemma_position_of(self@, name@, i as int);
        }
        None
    }

    /// Adds a tool with the definition `definition` at the end, unless a tool
    /// of that name is registered already.
    pub fn register_definition(&mut self, definition: Tool, implementation: T) -> (r: Result<
        (),
        RegistryError,
    >)
        ensures
            match r {
                Ok(()) => {
                    &&& !has_name(old(self)@, definition.name@)
                    &&& final(self)@ == old(self)@.push(definition@)
                    &&& final(self).implementation(old(self)@.len() as int) == implementation
                },
                Err(e) => {
                    &&& e == RegistryError::DuplicateName
                    &&& has_name(old(self)@, definition.name@)
                    &&& *final(self) == *old(self)
                },
            },
            forall|i: int|
                0 <= i < old(self)@.len() ==> final(self).implementation(i)
                    == old(self).implementation(i),
    {
        proof {
            use_type_invariant(&*self);
        }
        if self.find(definition.name.as_str()).is_some() {
            return Err(RegistryError::DuplicateName);
        }
        let ghost before = self@;
        let ghost name = definition.name@;
        proof {
            lemma_position_of_found(before, name);
        }
        let mut entries: Vec<Entry<T>> = Vec::new();
        std::mem::swap(&mut entries, &mut self.entries);
        entries.push(Entry { definition, implementation });
        proof {
            assert forall|i: int, j: int| 0 <= i < j < entries.len() implies (
            #[trigger] entries[i]).definition.name@ != (#[trigger] entries[j]).definition.name@ by {
                if j == entries.len() - 1 {
                    assert(before[i].name != name);
                }
            }
        }
        self.entries = entries;
        assert(self@ =~= before.push(definition@));
        Ok(())
    }

    /// The definition of the tool at `index`.
    pub fn definition(&self, index: usize) -> (r: &Tool)
        requires
            index < self@.len(),
        ensures
            r@ == self@[index as int],
    {
        &self.entries[index].definition
    }

    /// Copies of the definitions, in the order of registration.
    pub fn definitions(&self) -> (r: Vec<Tool>)
        ensures
            crate::types::tool_views(r@) == self@,
    {
        let mut out: Vec<Tool> = Vec::new();
        let mut i: usize = 0;
        while i < self.entries.len()
            invariant
                i <= self.entries.len(),
                out.len() == i,
                forall|j: int| 0 <= j < i ==> (#[trigger] out@[j])@ == self@[j],
            decreases self.entries.len() - i,
        {
            out.push(self.entries[i].definition.duplicate());
            i += 1;
        }
        assert(crate::types::tool_views(out@) =~= self@);
        out
    }
}

impl<T: ToolImplementation> ToolRegistry<T> {
    /// Registers a tool under the definition that it gives of itself: adds it
    /// at the end, unless a tool of that name is registered already.
    pub fn register(&mut self, implementation: T) -> (r: Result<(), RegistryError>)
        ensures
            match r {
                Ok(()) => {
                    &&& final(self)@.len() == old(self)@.len() + 1
                    &&& final(self)@.drop_last() == old(self)@
                    &&& implementation.may_define(final(self)@.last())
                    &&& !has_name(old(self)@, final(self)@.last().name)
                    &&& final(self).implementation(old(self)@.len() as int) == implementation
                },
                Err(e) => {
                    &&& e == RegistryError::DuplicateName
                    &&& *final(self) == *old(self)
                    &&& exists|tool: ToolV|
                        #[trigger] implementation.may_define(tool) && has_name(
                            old(self)@,
                            tool.name,
                        )
                },
            },
            forall|i: int|
                0 <= i < old(self)@.len() ==> final(self).implementation(i)
                    == old(self).implementation(i),
    {
        let definition = implementation.get_tool();
        let r = self.register_definition(definition, implementation);
        proof {
            if r is Ok {
                assert(old(self)@.push(definition@).drop_last() =~= old(self)@);
            } else {
                assert(implementation.may_define(definition@));
            }
        }
        r
    }

    /// Runs the tool at `index` on `arguments`, and returns what the tool
    /// returns.
    pub fn invoke(&self, index: usize, arguments: serde_json::Value) -> (r: ToolsCallResult)
        requires
            index < self@.len(),
        ensures
            self.implementation(index as int).may_return(
                crate::json::value_model(arguments),
                r@,
            ),
    {
        self.entries[index].implementation.call(arguments)
    }
}

/// Where a tool gives one definition of itself, the name in that definition
/// decides: the tool cannot be registered exactly where a tool of that name is
/// registered already.
pub proof fn lemma_register_decided<T: ToolImplementation>(
    tools: Seq<ToolV>,
    implementation: T,
    definition: ToolV,
)
    requires
        forall|tool: ToolV| #[trigger] implementation.may_define(tool) <==> tool == definition,
    ensures
        (exists|tool: ToolV| #[trigger] implementation.may_define(tool) && has_name(tools, tool.name))
            <==> has_name(tools, definition.name),
{
    if has_name(tools, definition.name) {
        assert(implementation.may_define(definition));
    }
}

} // verus!
