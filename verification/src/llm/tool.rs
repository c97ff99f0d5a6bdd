//! The catalogue of tools that a model may call.

use crate::json::{
    ascending_keys, clone_value, error_message, json_text, member_texts, object_text,
    object_value, string_text, string_value, text_before,
};
use crate::llm::error::LLMError;
use crate::table::Table;
use vstd::prelude::*;

verus! {

/// A tool that a model may call: from a JSON value to a JSON value. A tool
/// that cannot use its input answers with a `ToolInputError`.
pub trait Tool: Send + Sync {
    fn call(&self, input: serde_json::Value) -> Result<serde_json::Value, LLMError>;
}

/// The error of a tool whose input could not be read into the type that the
/// tool takes: a `ToolInputError` with what the JSON codec reported.
pub fn tool_input_error(error: &serde_json::Error) -> (r: LLMError)
    ensures
        r is ToolInputError,
{
    LLMError::ToolInputError(error_message(error))
}

/// A boxed tool is a tool: it hands the call on to the tool in the box.
impl<T: Tool + ?Sized> Tool for Box<T> {
    /// The answer is one that the tool in the box gives to `input`.
    fn call(&self, input: serde_json::Value) -> (r: Result<serde_json::Value, LLMError>)
        ensures
            call_ensures(T::call, (&**self, input), r),
    {
        (**self).call(input)
    }
}

/// What the catalogue holds of one tool. `T` is the handle by which it
/// holds the tool; a box takes tools of any kind.
pub struct ToolEntry<T = Box<dyn Tool>> {
    pub tool: T,
    pub description: String,
    /// The JSON Schema of the tool's input.
    pub input_schema: serde_json::Value,
}

impl<T> ToolEntry<T> {
    /// The entry of a tool with its description and the schema of its input.
    pub fn new(tool: T, description: &str, input_schema: serde_json::Value) -> (r: Self)
        ensures
            r.tool == tool,
            r.description@ == description@,
            r.input_schema == input_schema,
    {
        ToolEntry { tool, description: description.to_string(), input_schema }
    }
}

/// The `function` member of a tool's definition: its description, its name
/// and the schema of its parameters.
pub open spec fn function_text(
    name: Seq<char>,
    description: Seq<char>,
    schema_text: Seq<char>,
) -> Seq<char> {
    object_text(
        seq![
            ("description"@, string_text(description)),
            ("name"@, string_text(name)),
            ("parameters"@, schema_text),
        ],
    )
}

/// The definition of a tool as providers expect it: an object with the
/// member `function` and the member `type`, which is "function".
pub open spec fn definition_text(
    name: Seq<char>,
    description: Seq<char>,
    schema_text: Seq<char>,
) -> Seq<char> {
    object_text(
        seq![
            ("function"@, function_text(name, description, schema_text)),
            ("type"@, string_text("function"@)),
        ],
    )
}

/// The definition of the tool `name` with the entry `entry`.
pub open spec fn entry_definition<T>(name: Seq<char>, entry: ToolEntry<T>) -> Seq<char> {
    definition_text(name, entry.description@, json_text(entry.input_schema))
}

/// The keys of a tool's definition stand in ascending order.
proof fn lemma_definition_keys()
    ensures
        text_before("description"@, "name"@),
        text_before("description"@, "parameters"@),
        text_before("name"@, "parameters"@),
        text_before("function"@, "type"@),
{
    reveal_strlit("description");
    reveal_strlit("name");
    reveal_strlit("parameters");
    reveal_strlit("function");
    reveal_strlit("type");
}

/// Builds the definition of one tool.
fn export_entry<T>(name: &str, entry: &ToolEntry<T>) -> (r: serde_json::Value)
    ensures
        json_text(r) == entry_definition(name@, *entry),
{
    proof {
        lemma_definition_keys();
    }
    let mut function: Vec<(String, serde_json::Value)> = Vec::new();
    function.push(("description".to_string(), string_value(entry.description.as_str())));
    function.push(("name".to_string(), string_value(name)));
    function.push(("parameters".to_string(), clone_value(&entry.input_schema)));
    assert(member_texts(function@) =~= seq![
        ("description"@, string_text(entry.description@)),
        ("name"@, string_text(name@)),
        ("parameters"@, json_text(entry.input_schema)),
    ]);
    assert(ascending_keys(member_texts(function@)));
    let function = object_value(function);
    let mut definition: Vec<(String, serde_json::Value)> = Vec::new();
    definition.push(("function".to_string(), function));
    definition.push(("type".to_string(), string_value("function")));
    assert(member_texts(definition@) =~= seq![
        ("function"@, function_text(name@, entry.description@, json_text(entry.input_schema))),
        ("type"@, string_text("function"@)),
    ]);
    assert(ascending_keys(member_texts(definition@)));
    object_value(definition)
}

/// The tools that a model may call, each under its name.
pub struct ToolRegistry<T = Box<dyn Tool>> {
    tools: Table<ToolEntry<T>>,
}

impl<T> ToolRegistry<T> {
    /// The names of the tools, in the order in which they were first registered.
    pub closed spec fn names(&self) -> Seq<Seq<char>> {
        self.tools.keys()
    }

    /// The entries of the tools, each at the place of its name.
    pub closed spec fn entries(&self) -> Seq<ToolEntry<T>> {
        self.tools.values()
    }

    /// Whether a tool is registered under `name`.
    pub open spec fn contains(&self, name: Seq<char>) -> bool {
        self.names().contains(name)
    }

    /// The entry of the tool `name`, where one is registered.
    pub open spec fn entry_of(&self, name: Seq<char>) -> ToolEntry<T> {
        self.entries()[self.names().index_of(name)]
    }

    /// A catalogue without tools.
    pub fn new() -> (r: Self)
        ensures
            r.names() == Seq::<Seq<char>>::empty(),
            r.entries() == Seq::<ToolEntry<T>>::empty(),
    {
        ToolRegistry { tools: Table::new() }
    }

    /// The number of tools.
    pub fn len(&self) -> (r: usize)
        ensures
            r == self.names().len(),
            r == self.entries().len(),
            self.names().no_duplicates(),
    {
        self.tools.len()
    }

    /// Registers `tool` under `name`. A tool that was registered under that
    /// name is replaced and keeps its place; a new name goes to the end.
    pub fn register(
        &mut self,
        name: &str,
        description: &str,
        tool: T,
        input_schema: serde_json::Value,
    )
        ensures
            final(self).contains(name@),
            final(self).entry_of(name@).tool == tool,
            final(self).entry_of(name@).description@ == description@,
            final(self).entry_of(name@).input_schema == input_schema,
            final(self).names() == if old(self).contains(name@) {
                old(self).names()
            } else {
                old(self).names().push(name@)
            },
            final(self).entries().len() == final(self).names().len(),
            forall|i: int|
                0 <= i < old(self).names().len() && old(self).names()[i] != name@
                    ==> #[trigger] final(self).entries()[i] == old(self).entries()[i],
    {
        let _ = self.tools.len();
        let entry = ToolEntry::new(tool, description, input_schema);
        let ghost added = entry;
        let former = self.tools.insert(name.to_string(), entry);
        let _ = self.tools.len();
        proof {
            let names = self.tools.keys();
            let place = names.index_of(name@);
            if former is None {
                assert(names[names.len() - 1] == name@);
            } else {
                assert(old(self).tools.keys().contains(name@));
            }
            assert(names.contains(name@));
            assert(0 <= place < names.len() && names[place] == name@);
            assert(self.tools.values()[place] == added);
        }
    }

    /// The entry of the tool `name`, if one is registered.
    pub fn get(&self, name: &str) -> (r: Option<&ToolEntry<T>>)
        ensures
            match r {
                Some(entry) => self.contains(name@) && *entry == self.entry_of(name@),
                None => !self.contains(name@),
            },
    {
        self.tools.get(name)
    }

    /// Whether `definitions` are the definitions of all tools, in the order
    /// of `names`.
    pub open spec fn exports(&self, definitions: Seq<serde_json::Value>) -> bool {
        &&& definitions.len() == self.names().len()
        &&& forall|i: int|
            0 <= i < definitions.len() ==> json_text(#[trigger] definitions[i])
                == entry_definition(self.names()[i], self.entries()[i])
    }

    /// The definitions of all tools, in the order of `names`.
    pub fn export_all_tools(&self) -> (r: Vec<serde_json::Value>)
        ensures
            self.exports(r@),
    {
        let count = self.tools.len();
        let mut definitions: Vec<serde_json::Value> = Vec::new();
        let mut i: usize = 0;
        while i < count
            invariant
                i <= count,
                count == self.tools.keys().len(),
                count == self.tools.values().len(),
                definitions@.len() == i,
                forall|j: int|
                    0 <= j < i ==> json_text(#[trigger] definitions@[j]) == entry_definition(
                        self.tools.keys()[j],
                        self.tools.values()[j],
                    ),
            decreases count - i,
        {
            let definition = export_entry(self.tools.key_at(i).as_str(), self.tools.value_at(i));
            definitions.push(definition);
            i = i + 1;
        }
        definitions
    }

    /// The definition of the tool `name`, if one is registered.
    pub fn export_tool(&self, name: &str) -> (r: Option<serde_json::Value>)
        ensures
            match r {
                Some(definition) => self.contains(name@) && json_text(definition)
                    == entry_definition(name@, self.entry_of(name@)),
                None => !self.contains(name@),
            },
    {
        match self.tools.get(name) {
            Some(entry) => Some(export_entry(name, entry)),
            None => None,
        }
    }
}

} // verus!
