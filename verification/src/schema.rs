//! The part of an agent's reflected schema, and of the values that it exchanges, that the shell
//! reads.
use vstd::prelude::*;

verus! {

/// A value that an agent takes or returns.
#[derive(Debug)]
pub enum SchemaValue {
    String(String),
    U8(u8),
    Option { inner: Option<Box<SchemaValue>> },
    List { elements: Vec<SchemaValue> },
    Record { fields: Vec<SchemaValue> },
    /// A value of a kind that no part of the shell surface is made of.
    Other,
}

/// The type of a parameter.
#[derive(Debug, Clone, Copy, PartialEq, Eq, Structural)]
pub enum SchemaType {
    String,
    U8,
    /// A type that no parameter of the shell surface has.
    Other,
}

/// A named parameter.
#[derive(Debug)]
pub struct NamedField {
    pub name: String,
    pub schema: SchemaType,
}

/// What a method takes.
#[derive(Debug)]
pub enum InputSchema {
    Parameters(Vec<NamedField>),
}

/// A method of an agent type.
#[derive(Debug)]
pub struct AgentMethodSchema {
    pub name: String,
    pub input_schema: InputSchema,
}

/// How long an instance of an agent type lives.
#[derive(Debug, Clone, Copy, PartialEq, Eq, Structural)]
pub enum AgentMode {
    /// The instance, and its state, outlives an invocation.
    Durable,
    /// Each invocation runs on a fresh instance.
    Ephemeral,
}

/// The name of an agent type.
#[derive(Debug)]
pub struct AgentTypeName(pub String);

/// An agent type, as reflected.
#[derive(Debug)]
pub struct AgentTypeSchema {
    pub name: AgentTypeName,
    pub methods: Vec<AgentMethodSchema>,
    pub mode: AgentMode,
}

impl AgentMethodSchema {
    /// The parameters of the method, in order.
    pub open spec fn parameters(self) -> Seq<NamedField> {
        self.input_schema->Parameters_0@
    }
}

} // verus!
