//! Schema types: the summary of a contract's callable surface.

use crate::text::same_text;
use vstd::prelude::*;

verus! {

/// Schema for a contract function.
#[derive(Debug)]
pub struct FunctionSchema {
    /// Function name.
    pub name: String,
    /// Documentation string.
    pub doc: String,
    /// Input type name (or "()" for no input).
    pub input: String,
    /// Output type name (or "()" for no output).
    pub output: String,
    /// Whether this function requires custom serialization.
    pub custom: bool,
}

/// Schema for a contract event.
#[derive(Debug)]
pub struct EventSchema {
    /// Event topic string.
    pub topic: String,
    /// Event data type name.
    pub data: String,
}

/// Schema for an imported type.
#[derive(Debug)]
pub struct ImportSchema {
    /// The short name used in the contract.
    pub name: String,
    /// The full path to the type.
    pub path: String,
}

/// Complete schema for a contract.
#[derive(Debug)]
pub struct ContractSchema {
    /// Contract name.
    pub name: String,
    /// List of imported types with their full paths.
    pub imports: Vec<ImportSchema>,
    /// List of contract functions.
    pub functions: Vec<FunctionSchema>,
    /// List of contract events.
    pub events: Vec<EventSchema>,
}

/// Model of [`FunctionSchema`].
pub struct FunctionSchemaModel {
    pub name: Seq<char>,
    pub doc: Seq<char>,
    pub input: Seq<char>,
    pub output: Seq<char>,
    pub custom: bool,
}

/// Model of [`EventSchema`].
pub struct EventSchemaModel {
    pub topic: Seq<char>,
    pub data: Seq<char>,
}

/// Model of [`ImportSchema`].
pub struct ImportSchemaModel {
    pub name: Seq<char>,
    pub path: Seq<char>,
}

/// Model of [`ContractSchema`].
pub struct SchemaModel {
    pub name: Seq<char>,
    pub imports: Seq<ImportSchemaModel>,
    pub functions: Seq<FunctionSchemaModel>,
    pub events: Seq<EventSchemaModel>,
}

impl View for FunctionSchema {
    type V = FunctionSchemaModel;

    open spec fn view(&self) -> FunctionSchemaModel {
        FunctionSchemaModel {
            name: self.name@,
            doc: self.doc@,
            input: self.input@,
            output: self.output@,
            custom: self.custom,
        }
    }
}

impl View for EventSchema {
    type V = EventSchemaModel;

    open spec fn view(&self) -> EventSchemaModel {
        EventSchemaModel { topic: self.topic@, data: self.data@ }
    }
}

impl View for ImportSchema {
    type V = ImportSchemaModel;

    open spec fn view(&self) -> ImportSchemaModel {
        ImportSchemaModel { name: self.name@, path: self.path@ }
    }
}

impl View for ContractSchema {
    type V = SchemaModel;

    open spec fn view(&self) -> SchemaModel {
        SchemaModel {
            name: self.name@,
            imports: self.imports@.map_values(|i: ImportSchema| i@),
            functions: self.functions@.map_values(|f: FunctionSchema| f@),
            events: self.events@.map_values(|e: EventSchema| e@),
        }
    }
}

/// The position of the first import called `name`, at or after `from`.
pub open spec fn import_position(imports: Seq<ImportSchemaModel>, name: Seq<char>, from: int)
    -> Option<int>
    decreases imports.len() - from,
{
    if from < 0 || from >= imports.len() {
        None
    } else if imports[from].name == name {
        Some(from)
    } else {
        import_position(imports, name, from + 1)
    }
}

/// The position of the first function called `name`, at or after `from`.
pub open spec fn function_position(
    functions: Seq<FunctionSchemaModel>,
    name: Seq<char>,
    from: int,
) -> Option<int>
    decreases functions.len() - from,
{
    if from < 0 || from >= functions.len() {
        None
    } else if functions[from].name == name {
        Some(from)
    } else {
        function_position(functions, name, from + 1)
    }
}

/// The position of the first event with the topic `topic`, at or after
/// `from`.
pub open spec fn event_position(events: Seq<EventSchemaModel>, topic: Seq<char>, from: int)
    -> Option<int>
    decreases events.len() - from,
{
    if from < 0 || from >= events.len() {
        None
    } else if events[from].topic == topic {
        Some(from)
    } else {
        event_position(events, topic, from + 1)
    }
}

impl ContractSchema {
    /// Returns all imports, in declaration order.
    pub fn iter_imports(&self) -> (r: &Vec<ImportSchema>)
        ensures
            r@ == self.imports@,
    {
        &self.imports
    }

    /// Returns all functions, in declaration order.
    pub fn iter_functions(&self) -> (r: &Vec<FunctionSchema>)
        ensures
            r@ == self.functions@,
    {
        &self.functions
    }

    /// Returns all events, in declaration order.
    pub fn iter_events(&self) -> (r: &Vec<EventSchema>)
        ensures
            r@ == self.events@,
    {
        &self.events
    }

    /// Finds an import by short name: the first one so called.
    pub fn get_import(&self, name: &str) -> (r: Option<&ImportSchema>)
        ensures
            match import_position(self@.imports, name@, 0) {
                Some(at) => r == Some(&self.imports@[at]),
                None => r is None,
            },
    {
        let mut i: usize = 0;
        while i < self.imports.len()
            invariant
                i <= self.imports.len(),
                import_position(self@.imports, name@, 0) == import_position(
                    self@.imports,
                    name@,
                    i as int,
                ),
            decreases self.imports.len() - i,
        {
            proof {
                assert(self@.imports[i as int] == self.imports@[i as int]@);
            }
            if same_text(self.imports[i].name.as_str(), name) {
                return Some(&self.imports[i]);
            }
            i = i + 1;
        }
        None
    }

    /// Finds a function by name: the first one so called.
    pub fn get_function(&self, name: &str) -> (r: Option<&FunctionSchema>)
        ensures
            match function_position(self@.functions, name@, 0) {
                Some(at) => r == Some(&self.functions@[at]),
                None => r is None,
            },
    {
        let mut i: usize = 0;
        while i < self.functions.len()
            invariant
                i <= self.functions.len(),
                function_position(self@.functions, name@, 0) == function_position(
                    self@.functions,
                    name@,
                    i as int,
                ),
            decreases self.functions.len() - i,
        {
            proof {
                assert(self@.functions[i as int] == self.functions@[i as int]@);
            }
            if same_text(self.functions[i].name.as_str(), name) {
                return Some(&self.functions[i]);
            }
            i = i + 1;
        }
        None
    }

    /// Finds an event by topic: the first one with that topic.
    pub fn get_event(&self, topic: &str) -> (r: Option<&EventSchema>)
        ensures
            match event_position(self@.events, topic@, 0) {
                Some(at) => r == Some(&self.events@[at]),
                None => r is None,
            },
    {
        let mut i: usize = 0;
        while i < self.events.len()
            invariant
                i <= self.events.len(),
                event_position(self@.events, topic@, 0) == event_position(
                    self@.events,
                    topic@,
                    i as int,
                ),
            decreases self.events.len() - i,
        {
            proof {
                assert(self@.events[i as int] == self.events@[i as int]@);
            }
            if same_text(self.events[i].topic.as_str(), topic) {
                return Some(&self.events[i]);
            }
            i = i + 1;
        }
        None
    }
}

} // verus!
