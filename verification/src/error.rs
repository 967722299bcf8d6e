//! The ways in which a configuration is refused.

use vstd::prelude::*;

verus! {

/// What a component reference stands for.
#[derive(Clone, Copy, Debug, PartialEq, Eq, Structural)]
pub enum ComponentRole {
    Tokenizer,
    Filter,
}

/// An argument of a component. Each belongs to one kind of component:
/// `min_gram`, `max_gram` and `prefix_only` to the n-gram tokenizer,
/// `length_limit` to `remove_long`, `stemmer_algorithm` to `stemming` and
/// `words` to `stop_word`.
#[derive(Clone, Copy, Debug, PartialEq, Eq, Structural)]
pub enum Argument {
    MinGram,
    MaxGram,
    PrefixOnly,
    LengthLimit,
    StemmerAlgorithm,
    Words,
}

/// What is wrong with an argument.
#[derive(Clone, Copy, Debug, PartialEq, Eq, Structural)]
pub enum ArgumentFault {
    /// The argument is mandatory and the arguments do not hold it.
    Missing,
    /// The argument holds a value of the wrong type.
    WrongType,
    /// The argument holds a value of the right type that the component
    /// cannot take.
    OutOfRange,
}

/// Why a configuration was refused. Every kind is fatal to the whole
/// initialization: nothing is registered when one is returned.
#[derive(Clone, Copy, Debug, PartialEq, Eq, Structural)]
pub enum ConfigError {
    /// The document is not well-formed JSON, or does not have the required
    /// shape of objects, arrays and fields.
    InvalidStructure,
    /// The name of a tokenizer or of a filter has no entry in the catalog.
    UnknownComponent(ComponentRole),
    /// A component refuses one of its arguments.
    ComponentArgument(Argument, ArgumentFault),
}

impl Argument {
    /// The key under which the argument stands.
    pub open spec fn spec_key(self) -> Seq<char> {
        match self {
            Argument::MinGram => "min_gram"@,
            Argument::MaxGram => "max_gram"@,
            Argument::PrefixOnly => "prefix_only"@,
            Argument::LengthLimit => "length_limit"@,
            Argument::StemmerAlgorithm => "stemmer_algorithm"@,
            Argument::Words => "words"@,
        }
    }

    /// The key under which the argument stands.
    pub fn key(&self) -> (key: &'static str)
        ensures
            key@ == self.spec_key(),
    {
        match self {
            Argument::MinGram => "min_gram",
            Argument::MaxGram => "max_gram",
            Argument::PrefixOnly => "prefix_only",
            Argument::LengthLimit => "length_limit",
            Argument::StemmerAlgorithm => "stemmer_algorithm",
            Argument::Words => "words",
        }
    }
}

impl ConfigError {
    /// The text that `message` returns.
    pub open spec fn spec_message(self) -> Seq<char> {
        match self {
            ConfigError::InvalidStructure => "the configuration does not have the required shape"@,
            ConfigError::UnknownComponent(ComponentRole::Tokenizer) => "unknown tokenizer"@,
            ConfigError::UnknownComponent(ComponentRole::Filter) => "unknown filter"@,
            ConfigError::ComponentArgument(_, ArgumentFault::Missing) => "a mandatory argument is missing"@,
            ConfigError::ComponentArgument(_, ArgumentFault::WrongType) => "an argument has the wrong type"@,
            ConfigError::ComponentArgument(_, ArgumentFault::OutOfRange) => "an argument is out of range"@,
        }
    }

    /// A short description of the error.
    pub fn message(&self) -> (text: &'static str)
        ensures
            text@ == self.spec_message(),
    {
        match self {
            ConfigError::InvalidStructure => "the configuration does not have the required shape",
            ConfigError::UnknownComponent(ComponentRole::Tokenizer) => "unknown tokenizer",
            ConfigError::UnknownComponent(ComponentRole::Filter) => "unknown filter",
            ConfigError::ComponentArgument(_, ArgumentFault::Missing) => "a mandatory argument is missing",
            ConfigError::ComponentArgument(_, ArgumentFault::WrongType) => "an argument has the wrong type",
            ConfigError::ComponentArgument(_, ArgumentFault::OutOfRange) => "an argument is out of range",
        }
    }
}

} // verus!
