use analysis_pipeline::catalog::Catalog;
use analysis_pipeline::constructors::{language_by_name, FilterConstructor, TokenizerConstructor};
use analysis_pipeline::components::{FilterKind, StemLanguage, TokenizerKind};
use analysis_pipeline::error::Argument::{
    self, LengthLimit, MaxGram, MinGram, PrefixOnly, StemmerAlgorithm, Words,
};
use analysis_pipeline::error::ArgumentFault::{Missing, OutOfRange, WrongType};
use analysis_pipeline::error::{ComponentRole, ConfigError};
use analysis_pipeline::json::JsonValue;

fn json(text: &str) -> JsonValue {
    JsonValue::parse(text).unwrap()
}

#[test]
fn builtin_catalog_knows_the_four_tokenizers() {
    let catalog = Catalog::builtin();
    assert_eq!(catalog.resolve_tokenizer("facet"), Ok(TokenizerConstructor::Facet));
    assert_eq!(catalog.resolve_tokenizer("ngram"), Ok(TokenizerConstructor::Ngram));
    assert_eq!(catalog.resolve_tokenizer("raw"), Ok(TokenizerConstructor::Raw));
    assert_eq!(catalog.resolve_tokenizer("simple"), Ok(TokenizerConstructor::Simple));
}

#[test]
fn builtin_catalog_knows_the_six_filters() {
    let catalog = Catalog::builtin();
    assert_eq!(catalog.resolve_filter("alpha_num_only"), Ok(FilterConstructor::AlphaNumOnly));
    assert_eq!(catalog.resolve_filter("ascii_folding"), Ok(FilterConstructor::AsciiFolding));
    assert_eq!(catalog.resolve_filter("lower_case"), Ok(FilterConstructor::LowerCase));
    assert_eq!(catalog.resolve_filter("remove_long"), Ok(FilterConstructor::RemoveLong));
    assert_eq!(catalog.resolve_filter("stemming"), Ok(FilterConstructor::Stemming));
    assert_eq!(catalog.resolve_filter("stop_word"), Ok(FilterConstructor::StopWord));
}

#[test]
fn unknown_kinds_are_refused() {
    let catalog = Catalog::builtin();
    let no_tokenizer = Err(ConfigError::UnknownComponent(ComponentRole::Tokenizer));
    let no_filter = Err(ConfigError::UnknownComponent(ComponentRole::Filter));
    assert_eq!(catalog.resolve_tokenizer("bogus"), no_tokenizer);
    assert_eq!(catalog.resolve_tokenizer(""), no_tokenizer);
    assert_eq!(catalog.resolve_tokenizer("Simple"), no_tokenizer);
    assert_eq!(catalog.resolve_tokenizer("simple "), no_tokenizer);
    assert_eq!(catalog.resolve_tokenizer("lower_case"), no_tokenizer);
    assert_eq!(catalog.resolve_filter("simple"), no_filter);
    assert_eq!(catalog.resolve_filter("lowercase"), no_filter);
    assert_eq!(catalog.resolve_filter(""), no_filter);
}

#[test]
fn tokenizers_without_arguments_ignore_what_they_are_given() {
    let args = json(r#"{"anything": 1}"#);
    assert_eq!(TokenizerConstructor::Facet.construct(None), Ok(TokenizerKind::Facet));
    assert_eq!(TokenizerConstructor::Raw.construct(Some(&args)), Ok(TokenizerKind::Raw));
    assert_eq!(TokenizerConstructor::Simple.construct(Some(&args)), Ok(TokenizerKind::Simple));
}

#[test]
fn ngram_takes_its_sizes_from_the_arguments() {
    let args = json(r#"{"min_gram": 2, "max_gram": 3, "prefix_only": true}"#);
    assert_eq!(
        TokenizerConstructor::Ngram.construct(Some(&args)),
        Ok(TokenizerKind::Ngram { min_gram: 2, max_gram: 3, prefix_only: true })
    );
    let args = json(r#"{"min_gram": 1, "max_gram": 1}"#);
    assert_eq!(
        TokenizerConstructor::Ngram.construct(Some(&args)),
        Ok(TokenizerKind::Ngram { min_gram: 1, max_gram: 1, prefix_only: false })
    );
}

#[test]
fn ngram_reports_the_first_argument_at_fault() {
    assert_eq!(
        TokenizerConstructor::Ngram.construct(None),
        Err(ConfigError::ComponentArgument(MinGram, Missing))
    );
    for (text, argument, fault) in [
        (r#"{}"#, MinGram, Missing),
        (r#"[1, 2]"#, MinGram, Missing),
        (r#"null"#, MinGram, Missing),
        (r#"{"max_gram": 2}"#, MinGram, Missing),
        (r#"{"min_gram": 1}"#, MaxGram, Missing),
        (r#"{"min_gram": "1", "max_gram": 2}"#, MinGram, WrongType),
        (r#"{"min_gram": null, "max_gram": 2}"#, MinGram, WrongType),
        (r#"{"min_gram": 1, "max_gram": [2]}"#, MaxGram, WrongType),
        (r#"{"min_gram": -1, "max_gram": 2}"#, MinGram, OutOfRange),
        (r#"{"min_gram": 1, "max_gram": 2.5}"#, MaxGram, OutOfRange),
        (r#"{"min_gram": 0, "max_gram": 2}"#, MinGram, OutOfRange),
        (r#"{"min_gram": 0, "max_gram": "2"}"#, MaxGram, WrongType),
        (r#"{"min_gram": 3, "max_gram": 2}"#, MaxGram, OutOfRange),
        (r#"{"min_gram": 1, "max_gram": 18446744073709551615}"#, MaxGram, OutOfRange),
        (r#"{"min_gram": 1, "max_gram": 2, "prefix_only": "yes"}"#, PrefixOnly, WrongType),
        (r#"{"min_gram": 1, "max_gram": 2, "prefix_only": 1}"#, PrefixOnly, WrongType),
        (r#"{"min_gram": 1, "max_gram": 2, "prefix_only": null}"#, PrefixOnly, WrongType),
        (r#"{"min_gram": 0, "max_gram": 2, "prefix_only": null}"#, PrefixOnly, WrongType),
    ] {
        assert_eq!(
            TokenizerConstructor::Ngram.construct(Some(&json(text))),
            Err(ConfigError::ComponentArgument(argument, fault)),
            "{}",
            text
        );
    }
}

#[test]
fn filters_without_arguments_ignore_what_they_are_given() {
    let args = json(r#"[1]"#);
    assert!(matches!(FilterConstructor::AlphaNumOnly.construct(None), Ok(FilterKind::AlphaNumOnly)));
    assert!(matches!(
        FilterConstructor::AsciiFolding.construct(Some(&args)),
        Ok(FilterKind::AsciiFolding)
    ));
    assert!(matches!(FilterConstructor::LowerCase.construct(Some(&args)), Ok(FilterKind::LowerCase)));
}

#[test]
fn remove_long_needs_a_length_limit() {
    let args = json(r#"{"length_limit": 50}"#);
    assert!(matches!(
        FilterConstructor::RemoveLong.construct(Some(&args)),
        Ok(FilterKind::RemoveLong { length_limit: 50 })
    ));
    let args = json(r#"{"length_limit": 0, "other": "ignored"}"#);
    assert!(matches!(
        FilterConstructor::RemoveLong.construct(Some(&args)),
        Ok(FilterKind::RemoveLong { length_limit: 0 })
    ));
    assert_eq!(
        FilterConstructor::RemoveLong.construct(None).unwrap_err(),
        ConfigError::ComponentArgument(LengthLimit, Missing)
    );
    for (text, fault) in [
        (r#"{}"#, Missing),
        (r#"{"length_li mit": 50}"#, Missing),
        (r#"{"Length_Limit": 50}"#, Missing),
        (r#"50"#, Missing),
        (r#"{"length_limit": "50"}"#, WrongType),
        (r#"{"length_limit": null}"#, WrongType),
        (r#"{"length_limit": true}"#, WrongType),
        (r#"{"length_limit": -5}"#, OutOfRange),
        (r#"{"length_limit": 1.5}"#, OutOfRange),
        (r#"{"length_limit": 18446744073709551616}"#, OutOfRange),
    ] {
        assert_eq!(
            FilterConstructor::RemoveLong.construct(Some(&json(text))).unwrap_err(),
            ConfigError::ComponentArgument(LengthLimit, fault),
            "{}",
            text
        );
    }
}

#[test]
fn stemming_needs_the_name_of_a_language() {
    let args = json(r#"{"stemmer_algorithm": "english"}"#);
    assert!(matches!(
        FilterConstructor::Stemming.construct(Some(&args)),
        Ok(FilterKind::Stemming { language: StemLanguage::English })
    ));
    assert_eq!(
        FilterConstructor::Stemming.construct(None).unwrap_err(),
        ConfigError::ComponentArgument(StemmerAlgorithm, Missing)
    );
    for (text, fault) in [
        (r#"{}"#, Missing),
        (r#""english""#, Missing),
        (r#"{"stemmer_algorithm": "klingon"}"#, OutOfRange),
        (r#"{"stemmer_algorithm": "English"}"#, OutOfRange),
        (r#"{"stemmer_algorithm": ""}"#, OutOfRange),
        (r#"{"stemmer_algorithm": 3}"#, WrongType),
        (r#"{"stemmer_algorithm": ["english"]}"#, WrongType),
    ] {
        assert_eq!(
            FilterConstructor::Stemming.construct(Some(&json(text))).unwrap_err(),
            ConfigError::ComponentArgument(StemmerAlgorithm, fault),
            "{}",
            text
        );
    }
}

#[test]
fn every_language_has_its_name() {
    let names = [
        ("arabic", StemLanguage::Arabic),
        ("danish", StemLanguage::Danish),
        ("dutch", StemLanguage::Dutch),
        ("english", StemLanguage::English),
        ("finnish", StemLanguage::Finnish),
        ("french", StemLanguage::French),
        ("german", StemLanguage::German),
        ("greek", StemLanguage::Greek),
        ("hungarian", StemLanguage::Hungarian),
        ("italian", StemLanguage::Italian),
        ("norwegian", StemLanguage::Norwegian),
        ("portuguese", StemLanguage::Portuguese),
        ("romanian", StemLanguage::Romanian),
        ("russian", StemLanguage::Russian),
        ("spanish", StemLanguage::Spanish),
        ("swedish", StemLanguage::Swedish),
        ("tamil", StemLanguage::Tamil),
        ("turkish", StemLanguage::Turkish),
    ];
    for (name, language) in names {
        assert_eq!(language_by_name(name), Some(language));
    }
    assert_eq!(language_by_name(""), None);
    assert_eq!(language_by_name("latin"), None);
}

#[test]
fn stop_word_needs_a_list_of_texts() {
    let args = json(r#"{"words": ["the", "a", "the"]}"#);
    match FilterConstructor::StopWord.construct(Some(&args)) {
        Ok(FilterKind::StopWord { words }) => assert_eq!(words, vec!["the", "a", "the"]),
        other => panic!("expected a stop word filter, got {:?}", other),
    }
    let args = json(r#"{"words": []}"#);
    match FilterConstructor::StopWord.construct(Some(&args)) {
        Ok(FilterKind::StopWord { words }) => assert!(words.is_empty()),
        other => panic!("expected a stop word filter, got {:?}", other),
    }
    assert_eq!(
        FilterConstructor::StopWord.construct(None).unwrap_err(),
        ConfigError::ComponentArgument(Words, Missing)
    );
    for (text, fault) in [
        (r#"{}"#, Missing),
        (r#"["the"]"#, Missing),
        (r#"{"words": "the"}"#, WrongType),
        (r#"{"words": ["the", 1]}"#, WrongType),
        (r#"{"words": [["the"]]}"#, WrongType),
        (r#"{"words": {"the": true}}"#, WrongType),
        (r#"{"words": null}"#, WrongType),
    ] {
        assert_eq!(
            FilterConstructor::StopWord.construct(Some(&json(text))).unwrap_err(),
            ConfigError::ComponentArgument(Words, fault),
            "{}",
            text
        );
    }
}

#[test]
fn arguments_stand_under_their_keys() {
    assert_eq!(Argument::MinGram.key(), "min_gram");
    assert_eq!(Argument::MaxGram.key(), "max_gram");
    assert_eq!(Argument::PrefixOnly.key(), "prefix_only");
    assert_eq!(Argument::LengthLimit.key(), "length_limit");
    assert_eq!(Argument::StemmerAlgorithm.key(), "stemmer_algorithm");
    assert_eq!(Argument::Words.key(), "words");
}
