//! The constructors of the catalog: how the component of each kind is made
//! from its arguments, and which arguments are refused.

use vstd::prelude::*;
use crate::components::{FilterKind, FilterView, StemLanguage, TokenizerKind, word_views};
use crate::error::{Argument, ArgumentFault, ConfigError};
use crate::json::{JsonTree, JsonValue, item_views, tree_field};
use crate::text::same_text;

verus! {

/// How a tokenizer is made from its arguments.
#[derive(Clone, Copy, Debug, PartialEq, Eq, Structural)]
pub enum TokenizerConstructor {
    Facet,
    Ngram,
    Raw,
    Simple,
}

/// How a filter is made from its arguments.
#[derive(Clone, Copy, Debug, PartialEq, Eq, Structural)]
pub enum FilterConstructor {
    AlphaNumOnly,
    AsciiFolding,
    LowerCase,
    RemoveLong,
    Stemming,
    StopWord,
}

/// The member of the arguments under `key`, where there are arguments and
/// they are an object that has one.
pub open spec fn argument(args: Option<JsonTree>, key: Seq<char>) -> Option<JsonTree> {
    match args {
        Some(tree) => tree_field(tree, key),
        None => None,
    }
}

/// The size that the arguments hold for `name`: a non-negative integer that
/// fits a `usize`. Any other number is out of range.
pub open spec fn size_argument(args: Option<JsonTree>, name: Argument) -> Result<
    usize,
    ConfigError,
> {
    match argument(args, name.spec_key()) {
        None => Err(ConfigError::ComponentArgument(name, ArgumentFault::Missing)),
        Some(JsonTree::Number(Some(n))) => if n <= usize::MAX {
            Ok(n as usize)
        } else {
            Err(ConfigError::ComponentArgument(name, ArgumentFault::OutOfRange))
        },
        Some(JsonTree::Number(None)) => Err(
            ConfigError::ComponentArgument(name, ArgumentFault::OutOfRange),
        ),
        Some(_) => Err(ConfigError::ComponentArgument(name, ArgumentFault::WrongType)),
    }
}

/// The flag that the arguments hold for `name`, which is false where they
/// hold none.
pub open spec fn flag_argument(args: Option<JsonTree>, name: Argument) -> Result<
    bool,
    ConfigError,
> {
    match argument(args, name.spec_key()) {
        None => Ok(false),
        Some(JsonTree::Bool(flag)) => Ok(flag),
        Some(_) => Err(ConfigError::ComponentArgument(name, ArgumentFault::WrongType)),
    }
}

/// The language that a stemmer algorithm's name stands for. Names are in
/// lower case.
pub open spec fn language_named(name: Seq<char>) -> Option<StemLanguage> {
    if name == "arabic"@ {
        Some(StemLanguage::Arabic)
    } else if name == "danish"@ {
        Some(StemLanguage::Danish)
    } else if name == "dutch"@ {
        Some(StemLanguage::Dutch)
    } else if name == "english"@ {
        Some(StemLanguage::English)
    } else if name == "finnish"@ {
        Some(StemLanguage::Finnish)
    } else if name == "french"@ {
        Some(StemLanguage::French)
    } else if name == "german"@ {
        Some(StemLanguage::German)
    } else if name == "greek"@ {
        Some(StemLanguage::Greek)
    } else if name == "hungarian"@ {
        Some(StemLanguage::Hungarian)
    } else if name == "italian"@ {
        Some(StemLanguage::Italian)
    } else if name == "norwegian"@ {
        Some(StemLanguage::Norwegian)
    } else if name == "portuguese"@ {
        Some(StemLanguage::Portuguese)
    } else if name == "romanian"@ {
        Some(StemLanguage::Romanian)
    } else if name == "russian"@ {
        Some(StemLanguage::Russian)
    } else if name == "spanish"@ {
        Some(StemLanguage::Spanish)
    } else if name == "swedish"@ {
        Some(StemLanguage::Swedish)
    } else if name == "tamil"@ {
        Some(StemLanguage::Tamil)
    } else if name == "turkish"@ {
        Some(StemLanguage::Turkish)
    } else {
        None
    }
}

/// Every item of `items` is a text.
pub open spec fn all_texts(items: Seq<JsonTree>) -> bool {
    forall|i: int| 0 <= i < items.len() ==> #[trigger] items[i] is Text
}

/// The texts that `items` hold, in order.
pub open spec fn texts_of(items: Seq<JsonTree>) -> Seq<Seq<char>> {
    items.map_values(|item: JsonTree| item->Text_0)
}

/// The tokenizer that a constructor makes from the given arguments.
///
/// The n-gram tokenizer takes `min_gram` and `max_gram`, both mandatory, with
/// `0 < min_gram <= max_gram < usize::MAX`, and an optional boolean
/// `prefix_only`, which is false when it is absent. Its arguments are read in
/// that order, and the first that is at fault is reported. The other
/// tokenizers take no arguments and ignore any they are given.
pub open spec fn constructed_tokenizer(
    constructor: TokenizerConstructor,
    args: Option<JsonTree>,
) -> Result<TokenizerKind, ConfigError> {
    match constructor {
        TokenizerConstructor::Facet => Ok(TokenizerKind::Facet),
        TokenizerConstructor::Raw => Ok(TokenizerKind::Raw),
        TokenizerConstructor::Simple => Ok(TokenizerKind::Simple),
        TokenizerConstructor::Ngram => match size_argument(args, Argument::MinGram) {
            Err(error) => Err(error),
            Ok(min_gram) => match size_argument(args, Argument::MaxGram) {
                Err(error) => Err(error),
                Ok(max_gram) => match flag_argument(args, Argument::PrefixOnly) {
                    Err(error) => Err(error),
                    Ok(prefix_only) => ngram_of(min_gram, max_gram, prefix_only),
                },
            },
        },
    }
}

/// The n-gram tokenizer with the given settings, where they are in range:
/// `min_gram` must not be 0, and `max_gram` must be at least `min_gram` and
/// less than `usize::MAX`.
pub open spec fn ngram_of(min_gram: usize, max_gram: usize, prefix_only: bool) -> Result<
    TokenizerKind,
    ConfigError,
> {
    if min_gram == 0 {
        Err(ConfigError::ComponentArgument(Argument::MinGram, ArgumentFault::OutOfRange))
    } else if max_gram < min_gram || max_gram == usize::MAX {
        Err(ConfigError::ComponentArgument(Argument::MaxGram, ArgumentFault::OutOfRange))
    } else {
        Ok(TokenizerKind::Ngram { min_gram, max_gram, prefix_only })
    }
}

/// The filter that a constructor makes from the given arguments.
///
/// `remove_long` takes a mandatory `length_limit`, `stemming` a mandatory
/// `stemmer_algorithm` that names a language, and `stop_word` a mandatory
/// list `words` of texts. A name that is no language is out of range. The
/// other filters take no arguments and ignore any they are given.
pub open spec fn constructed_filter(constructor: FilterConstructor, args: Option<JsonTree>) -> Result<
    FilterView,
    ConfigError,
> {
    match constructor {
        FilterConstructor::AlphaNumOnly => Ok(FilterView::AlphaNumOnly),
        FilterConstructor::AsciiFolding => Ok(FilterView::AsciiFolding),
        FilterConstructor::LowerCase => Ok(FilterView::LowerCase),
        FilterConstructor::RemoveLong => match size_argument(args, Argument::LengthLimit) {
            Ok(length_limit) => Ok(FilterView::RemoveLong { length_limit }),
            Err(error) => Err(error),
        },
        FilterConstructor::Stemming => match argument(args, Argument::StemmerAlgorithm.spec_key()) {
            None => Err(
                ConfigError::ComponentArgument(Argument::StemmerAlgorithm, ArgumentFault::Missing),
            ),
            Some(JsonTree::Text(name)) => match language_named(name) {
                Some(language) => Ok(FilterView::Stemming { language }),
                None => Err(
                    ConfigError::ComponentArgument(
                        Argument::StemmerAlgorithm,
                        ArgumentFault::OutOfRange,
                    ),
                ),
            },
            Some(_) => Err(
                ConfigError::ComponentArgument(Argument::StemmerAlgorithm, ArgumentFault::WrongType),
            ),
        },
        FilterConstructor::StopWord => match argument(args, Argument::Words.spec_key()) {
            None => Err(ConfigError::ComponentArgument(Argument::Words, ArgumentFault::Missing)),
            Some(JsonTree::Array(items)) => if all_texts(items) {
                Ok(FilterView::StopWord { words: texts_of(items) })
            } else {
                Err(ConfigError::ComponentArgument(Argument::Words, ArgumentFault::WrongType))
            },
            Some(_) => Err(ConfigError::ComponentArgument(Argument::Words, ArgumentFault::WrongType)),
        },
    }
}

/// The view of optional arguments.
pub open spec fn args_view(args: Option<&JsonValue>) -> Option<JsonTree> {
    match args {
        Some(value) => Some(value@),
        None => None,
    }
}

/// The member of the arguments under `key`.
fn argument_of<'a>(args: Option<&'a JsonValue>, key: &str) -> (found: Option<&'a JsonValue>)
    ensures
        match found {
            Some(value) => argument(args_view(args), key@) == Some(value@),
            None => argument(args_view(args), key@) is None,
        },
{
    match args {
        Some(value) => value.field(key),
        None => None,
    }
}

/// The size that the arguments hold for `name`.
fn size_argument_of(args: Option<&JsonValue>, name: Argument) -> (size: Result<usize, ConfigError>)
    ensures
        size == size_argument(args_view(args), name),
{
    match argument_of(args, name.key()) {
        None => Err(ConfigError::ComponentArgument(name, ArgumentFault::Missing)),
        Some(JsonValue::Number(Some(n))) => {
            if *n <= usize::MAX as u64 {
                Ok(*n as usize)
            } else {
                Err(ConfigError::ComponentArgument(name, ArgumentFault::OutOfRange))
            }
        },
        Some(JsonValue::Number(None)) => Err(
            ConfigError::ComponentArgument(name, ArgumentFault::OutOfRange),
        ),
        Some(_) => Err(ConfigError::ComponentArgument(name, ArgumentFault::WrongType)),
    }
}

/// The flag that the arguments hold for `name`.
fn flag_argument_of(args: Option<&JsonValue>, name: Argument) -> (flag: Result<bool, ConfigError>)
    ensures
        flag == flag_argument(args_view(args), name),
{
    match argument_of(args, name.key()) {
        None => Ok(false),
        Some(JsonValue::Bool(flag)) => Ok(*flag),
        Some(_) => Err(ConfigError::ComponentArgument(name, ArgumentFault::WrongType)),
    }
}

/// The language that a stemmer algorithm's name stands for.
pub fn language_by_name(name: &str) -> (language: Option<StemLanguage>)
    ensures
        language == language_named(name@),
{
    if same_text(name, "arabic") {
        Some(StemLanguage::Arabic)
    } else if same_text(name, "danish") {
        Some(StemLanguage::Danish)
    } else if same_text(name, "dutch") {
        Some(StemLanguage::Dutch)
    } else if same_text(name, "english") {
        Some(StemLanguage::English)
    } else if same_text(name, "finnish") {
        Some(StemLanguage::Finnish)
    } else if same_text(name, "french") {
        Some(StemLanguage::French)
    } else if same_text(name, "german") {
        Some(StemLanguage::German)
    } else if same_text(name, "greek") {
        Some(StemLanguage::Greek)
    } else if same_text(name, "hungarian") {
        Some(StemLanguage::Hungarian)
    } else if same_text(name, "italian") {
        Some(StemLanguage::Italian)
    } else if same_text(name, "norwegian") {
        Some(StemLanguage::Norwegian)
    } else if same_text(name, "portuguese") {
        Some(StemLanguage::Portuguese)
    } else if same_text(name, "romanian") {
        Some(StemLanguage::Romanian)
    } else if same_text(name, "russian") {
        Some(StemLanguage::Russian)
    } else if same_text(name, "spanish") {
        Some(StemLanguage::Spanish)
    } else if same_text(name, "swedish") {
        Some(StemLanguage::Swedish)
    } else if same_text(name, "tamil") {
        Some(StemLanguage::Tamil)
    } else if same_text(name, "turkish") {
        Some(StemLanguage::Turkish)
    } else {
        None
    }
}

/// The texts that the items of an array hold, if all of them are texts.
fn texts_in(items: &Vec<JsonValue>) -> (texts: Option<Vec<String>>)
    ensures
        match texts {
            Some(words) => all_texts(item_views(items@)) && word_views(words@) == texts_of(
                item_views(items@),
            ),
            None => !all_texts(item_views(items@)),
        },
{
    let mut words: Vec<String> = Vec::new();
    let mut i: usize = 0;
    while i < items.len()
        invariant
            i <= items@.len(),
            words@.len() == i,
            forall|j: int| 0 <= j < i ==> #[trigger] item_views(items@)[j] is Text,
            forall|j: int| 0 <= j < i ==> (#[trigger] words@[j])@ == item_views(items@)[j]->Text_0,
        decreases items@.len() - i,
    {
        match &items[i] {
            JsonValue::Text(word) => {
                words.push(word.clone());
            },
            _ => {
                assert(!(item_views(items@)[i as int] is Text));
                return None;
            },
        }
        i += 1;
    }
    assert(word_views(words@) =~= texts_of(item_views(items@)));
    Some(words)
}

impl TokenizerConstructor {
    /// Makes the tokenizer from its arguments, or refuses them.
    pub fn construct(&self, args: Option<&JsonValue>) -> (made: Result<TokenizerKind, ConfigError>)
        ensures
            made == constructed_tokenizer(*self, args_view(args)),
            made matches Ok(tokenizer) ==> tokenizer.wf(),
    {
        match self {
            TokenizerConstructor::Facet => Ok(TokenizerKind::Facet),
            TokenizerConstructor::Raw => Ok(TokenizerKind::Raw),
            TokenizerConstructor::Simple => Ok(TokenizerKind::Simple),
            TokenizerConstructor::Ngram => {
                let min_gram = match size_argument_of(args, Argument::MinGram) {
                    Ok(size) => size,
                    Err(error) => { return Err(error); },
                };
                let max_gram = match size_argument_of(args, Argument::MaxGram) {
                    Ok(size) => size,
                    Err(error) => { return Err(error); },
                };
                let prefix_only = match flag_argument_of(args, Argument::PrefixOnly) {
                    Ok(flag) => flag,
                    Err(error) => { return Err(error); },
                };
                if min_gram == 0 {
                    Err(ConfigError::ComponentArgument(Argument::MinGram, ArgumentFault::OutOfRange))
                } else if max_gram < min_gram || max_gram == usize::MAX {
                    Err(ConfigError::ComponentArgument(Argument::MaxGram, ArgumentFault::OutOfRange))
                } else {
                    Ok(TokenizerKind::Ngram { min_gram, max_gram, prefix_only })
                }
            },
        }
    }
}

impl FilterConstructor {
    /// Makes the filter from its arguments, or refuses them.
    pub fn construct(&self, args: Option<&JsonValue>) -> (made: Result<FilterKind, ConfigError>)
        ensures
            match made {
                Ok(filter) => constructed_filter(*self, args_view(args)) == Ok::<
                    FilterView,
                    ConfigError,
                >(filter@),
                Err(error) => constructed_filter(*self, args_view(args)) == Err::<
                    FilterView,
                    ConfigError,
                >(error),
            },
    {
        match self {
            FilterConstructor::AlphaNumOnly => Ok(FilterKind::AlphaNumOnly),
            FilterConstructor::AsciiFolding => Ok(FilterKind::AsciiFolding),
            FilterConstructor::LowerCase => Ok(FilterKind::LowerCase),
            FilterConstructor::RemoveLong => match size_argument_of(args, Argument::LengthLimit) {
                Ok(length_limit) => Ok(FilterKind::RemoveLong { length_limit }),
                Err(error) => Err(error),
            },
            FilterConstructor::Stemming => match argument_of(
                args,
                Argument::StemmerAlgorithm.key(),
            ) {
                None => Err(
                    ConfigError::ComponentArgument(
                        Argument::StemmerAlgorithm,
                        ArgumentFault::Missing,
                    ),
                ),
                Some(JsonValue::Text(name)) => match language_by_name(name.as_str()) {
                    Some(language) => Ok(FilterKind::Stemming { language }),
                    None => Err(
                        ConfigError::ComponentArgument(
                            Argument::StemmerAlgorithm,
                            ArgumentFault::OutOfRange,
                        ),
                    ),
                },
                Some(_) => Err(
                    ConfigError::ComponentArgument(
                        Argument::StemmerAlgorithm,
                        ArgumentFault::WrongType,
                    ),
                ),
            },
            FilterConstructor::StopWord => match argument_of(args, Argument::Words.key()) {
                None => Err(ConfigError::ComponentArgument(Argument::Words, ArgumentFault::Missing)),
                Some(JsonValue::Array(items)) => match texts_in(items) {
                    Some(words) => Ok(FilterKind::StopWord { words }),
                    None => Err(
                        ConfigError::ComponentArgument(Argument::Words, ArgumentFault::WrongType),
                    ),
                },
                Some(_) => Err(
                    ConfigError::ComponentArgument(Argument::Words, ArgumentFault::WrongType),
                ),
            },
        }
    }
}

} // verus!
