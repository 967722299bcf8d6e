use analysis_pipeline::analyzer::{compile_filter, compile_tokenizer, Analyzer};
use analysis_pipeline::catalog::Catalog;
use analysis_pipeline::components::{FilterKind, StemLanguage, TokenizerKind};
use analysis_pipeline::config::{parse_pipeline, ComponentRef};
use analysis_pipeline::error::{Argument, ArgumentFault, ComponentRole, ConfigError};
use analysis_pipeline::json::JsonValue;
use analysis_pipeline::token::Token;

fn compile(text: &str) -> Result<Analyzer, ConfigError> {
    let value = JsonValue::parse(text).unwrap();
    let pipeline = parse_pipeline("p", &value).unwrap();
    Analyzer::compile(&Catalog::builtin(), &pipeline)
}

fn texts(tokens: &[Token]) -> Vec<String> {
    tokens.iter().map(|token| token.text.clone()).collect()
}

fn offsets(tokens: &[Token]) -> Vec<(usize, usize)> {
    tokens.iter().map(|token| (token.offset_from, token.offset_to)).collect()
}

fn stop(words: &[&str]) -> FilterKind {
    FilterKind::StopWord { words: words.iter().map(|word| word.to_string()).collect() }
}

#[test]
fn compile_makes_the_declared_components_in_order() {
    let analyzer = compile(
        r#"{
            "tokenizer": {"name": "ngram", "args": {"min_gram": 2, "max_gram": 3}},
            "filters": [
                {"name": "stop_word", "args": {"words": ["ab"]}},
                {"name": "lower_case"},
                {"name": "remove_long", "args": {"length_limit": 3}},
                {"name": "lower_case"}
            ]
        }"#,
    )
    .unwrap();
    assert_eq!(
        analyzer.tokenizer(),
        TokenizerKind::Ngram { min_gram: 2, max_gram: 3, prefix_only: false }
    );
    let filters = analyzer.filters();
    assert_eq!(filters.len(), 4);
    assert!(matches!(&filters[0], FilterKind::StopWord { words } if words == &vec!["ab"]));
    assert!(matches!(filters[1], FilterKind::LowerCase));
    assert!(matches!(filters[2], FilterKind::RemoveLong { length_limit: 3 }));
    assert!(matches!(filters[3], FilterKind::LowerCase));
}

const NO_TOKENIZER: ConfigError = ConfigError::UnknownComponent(ComponentRole::Tokenizer);
const NO_FILTER: ConfigError = ConfigError::UnknownComponent(ComponentRole::Filter);

#[test]
fn compile_reports_an_unknown_tokenizer() {
    assert_eq!(compile(r#"{"tokenizer": {"name": "bogus"}}"#).unwrap_err(), NO_TOKENIZER);
    assert_eq!(compile(r#"{"tokenizer": {"name": "lower_case"}}"#).unwrap_err(), NO_TOKENIZER);
}

#[test]
fn compile_reports_an_unknown_filter() {
    assert_eq!(
        compile(r#"{"tokenizer": {"name": "simple"}, "filters": [{"name": "upper_case"}]}"#)
            .unwrap_err(),
        NO_FILTER
    );
    assert_eq!(
        compile(r#"{"tokenizer": {"name": "simple"}, "filters": [{"name": "simple"}]}"#)
            .unwrap_err(),
        NO_FILTER
    );
}

#[test]
fn compile_reports_refused_arguments() {
    assert_eq!(
        compile(r#"{"tokenizer": {"name": "ngram"}}"#).unwrap_err(),
        ConfigError::ComponentArgument(Argument::MinGram, ArgumentFault::Missing)
    );
    assert_eq!(
        compile(r#"{"tokenizer": {"name": "simple"}, "filters": [{"name": "remove_long"}]}"#)
            .unwrap_err(),
        ConfigError::ComponentArgument(Argument::LengthLimit, ArgumentFault::Missing)
    );
}

#[test]
fn an_unknown_kind_is_reported_whatever_its_arguments() {
    assert_eq!(
        compile(r#"{"tokenizer": {"name": "bogus", "args": {"min_gram": 0}}}"#).unwrap_err(),
        NO_TOKENIZER
    );
}

#[test]
fn compile_stops_at_the_first_error() {
    // The tokenizer comes before the filters.
    assert_eq!(
        compile(r#"{"tokenizer": {"name": "ngram"}, "filters": [{"name": "bogus"}]}"#).unwrap_err(),
        ConfigError::ComponentArgument(Argument::MinGram, ArgumentFault::Missing)
    );
    assert_eq!(
        compile(r#"{"tokenizer": {"name": "bogus"}, "filters": [{"name": "stemming"}]}"#)
            .unwrap_err(),
        NO_TOKENIZER
    );
    // Among the filters, the first that fails decides.
    assert_eq!(
        compile(
            r#"{"tokenizer": {"name": "raw"},
                "filters": [{"name": "lower_case"}, {"name": "stemming"}, {"name": "bogus"}]}"#
        )
        .unwrap_err(),
        ConfigError::ComponentArgument(Argument::StemmerAlgorithm, ArgumentFault::Missing)
    );
    assert_eq!(
        compile(
            r#"{"tokenizer": {"name": "raw"},
                "filters": [{"name": "lower_case"}, {"name": "bogus"}, {"name": "stemming"}]}"#
        )
        .unwrap_err(),
        NO_FILTER
    );
}

#[test]
fn compile_of_single_components() {
    let catalog = Catalog::builtin();
    let simple = ComponentRef { kind: "simple".to_string(), args: None };
    assert_eq!(compile_tokenizer(&catalog, &simple), Ok(TokenizerKind::Simple));
    assert_eq!(compile_filter(&catalog, &simple).unwrap_err(), NO_FILTER);
    let lower = ComponentRef { kind: "lower_case".to_string(), args: None };
    assert!(matches!(compile_filter(&catalog, &lower), Ok(FilterKind::LowerCase)));
    assert_eq!(compile_tokenizer(&catalog, &lower), Err(NO_TOKENIZER));
}

#[test]
fn an_analyzer_without_filters_returns_the_tokens_of_its_tokenizer() {
    let analyzer = Analyzer::new(TokenizerKind::Simple, Vec::new());
    assert_eq!(analyzer.analyze("The Cat"), TokenizerKind::Simple.tokenize("The Cat"));
}

#[test]
fn filters_apply_from_left_to_right() {
    let lower_then_stop = Analyzer::new(TokenizerKind::Simple, vec![FilterKind::LowerCase, stop(&["the"])]);
    assert_eq!(texts(&lower_then_stop.analyze("The Cat")), vec!["cat"]);

    // The stop list is case-sensitive: before lower-casing, "The" is no stop word.
    let stop_then_lower = Analyzer::new(TokenizerKind::Simple, vec![stop(&["the"]), FilterKind::LowerCase]);
    assert_eq!(texts(&stop_then_lower.analyze("The Cat")), vec!["the", "cat"]);
}

#[test]
fn swapping_filters_changes_the_result_with_a_capitalized_stop_word() {
    let stop_then_lower = Analyzer::new(TokenizerKind::Simple, vec![stop(&["The"]), FilterKind::LowerCase]);
    assert_eq!(texts(&stop_then_lower.analyze("The Cat")), vec!["cat"]);

    let lower_then_stop = Analyzer::new(TokenizerKind::Simple, vec![FilterKind::LowerCase, stop(&["The"])]);
    assert_eq!(texts(&lower_then_stop.analyze("The Cat")), vec!["the", "cat"]);
}

#[test]
fn filter_order_from_a_configuration() {
    let lower_then_stop = compile(
        r#"{"tokenizer": {"name": "simple"},
            "filters": [{"name": "lower_case"}, {"name": "stop_word", "args": {"words": ["the"]}}]}"#,
    )
    .unwrap();
    assert_eq!(texts(&lower_then_stop.analyze("The Cat")), vec!["cat"]);
    let stop_then_lower = compile(
        r#"{"tokenizer": {"name": "simple"},
            "filters": [{"name": "stop_word", "args": {"words": ["the"]}}, {"name": "lower_case"}]}"#,
    )
    .unwrap();
    assert_eq!(texts(&stop_then_lower.analyze("The Cat")), vec!["the", "cat"]);
}

#[test]
fn a_dropped_token_leaves_no_placeholder() {
    let analyzer = Analyzer::new(TokenizerKind::Simple, vec![FilterKind::RemoveLong { length_limit: 4 }]);
    let tokens = analyzer.analyze("one three two");
    assert_eq!(
        tokens,
        vec![
            Token { text: "one".to_string(), offset_from: 0, offset_to: 3, position: 0, position_length: 1 },
            Token { text: "two".to_string(), offset_from: 10, offset_to: 13, position: 2, position_length: 1 },
        ]
    );
}

#[test]
fn offsets_refer_to_the_source_text_after_rewriting() {
    let analyzer = Analyzer::new(
        TokenizerKind::Simple,
        vec![FilterKind::AsciiFolding, FilterKind::Stemming { language: StemLanguage::English }],
    );
    let tokens = analyzer.analyze("çà running");
    assert_eq!(texts(&tokens), vec!["ca", "run"]);
    assert_eq!(offsets(&tokens), vec![(0, 4), (5, 12)]);
}

#[test]
fn offsets_are_in_order_and_within_the_text() {
    let filters = || {
        vec![
            FilterKind::RemoveLong { length_limit: 6 },
            FilterKind::LowerCase,
            FilterKind::AsciiFolding,
            stop(&["de"]),
            FilterKind::AlphaNumOnly,
        ]
    };
    let text = "Le Château de Kafka, écrit en 1922; ÉTÉ!";
    for tokenizer in [
        TokenizerKind::Simple,
        TokenizerKind::Raw,
        TokenizerKind::Facet,
        TokenizerKind::Ngram { min_gram: 1, max_gram: 9, prefix_only: true },
        TokenizerKind::Ngram { min_gram: 3, max_gram: 3, prefix_only: true },
    ] {
        for analyzer in [Analyzer::new(tokenizer, Vec::new()), Analyzer::new(tokenizer, filters())] {
            let tokens = analyzer.analyze(text);
            for token in &tokens {
                assert!(token.offset_from <= token.offset_to);
                assert!(token.offset_to <= text.len());
            }
            for pair in tokens.windows(2) {
                assert!(pair[0].offset_from <= pair[1].offset_from);
                assert!(pair[0].offset_to <= pair[1].offset_to);
            }
        }
    }
    let analyzer = Analyzer::new(TokenizerKind::Simple, filters());
    let tokens = analyzer.analyze(text);
    assert_eq!(texts(&tokens), vec!["le", "kafka", "en", "1922", "ete"]);
    assert_eq!(offsets(&tokens), vec![(0, 2), (15, 20), (29, 31), (32, 36), (38, 43)]);
}

#[test]
fn the_ends_of_ngrams_are_not_in_order() {
    let analyzer = Analyzer::new(
        TokenizerKind::Ngram { min_gram: 1, max_gram: 3, prefix_only: false },
        Vec::new(),
    );
    let tokens = analyzer.analyze("abc");
    assert_eq!(offsets(&tokens), vec![(0, 1), (0, 2), (0, 3), (1, 2), (1, 3), (2, 3)]);
}

#[test]
fn the_offsets_of_ngrams_lie_within_the_text() {
    let text = "Château écrit";
    for (min_gram, max_gram) in [(1, 1), (1, 4), (2, 3), (5, 20), (13, 13), (14, 15)] {
        let analyzer = Analyzer::new(
            TokenizerKind::Ngram { min_gram, max_gram, prefix_only: false },
            vec![FilterKind::LowerCase],
        );
        for token in analyzer.analyze(text) {
            assert!(token.offset_from <= token.offset_to);
            assert!(token.offset_to <= text.len());
        }
    }
}

#[test]
fn analyzing_twice_gives_the_same_tokens() {
    let analyzer = Analyzer::new(
        TokenizerKind::Simple,
        vec![FilterKind::LowerCase, FilterKind::Stemming { language: StemLanguage::English }, stop(&["a"])],
    );
    let text = "A Tale of Two Cities, retold";
    let first = analyzer.analyze(text);
    let second = analyzer.analyze(text);
    assert_eq!(first, second);
    assert_eq!(texts(&first), vec!["tale", "of", "two", "citi", "retold"]);
}

#[test]
fn text_without_tokens_is_no_error() {
    let analyzer = Analyzer::new(TokenizerKind::Simple, vec![FilterKind::LowerCase]);
    assert!(analyzer.analyze("").is_empty());
    assert!(analyzer.analyze("\u{0}\u{7f} \t\n ...").is_empty());
}

#[test]
fn apply_filters_takes_tokens_from_anywhere() {
    let analyzer = Analyzer::new(
        TokenizerKind::Raw,
        vec![FilterKind::RemoveLong { length_limit: 4 }, stop(&["abc"]), FilterKind::AlphaNumOnly],
    );
    let given = vec![
        Token { text: "abcd".to_string(), offset_from: 9, offset_to: 2, position: 7, position_length: 3 },
        Token { text: "abc".to_string(), offset_from: 1, offset_to: 1, position: 0, position_length: 1 },
        Token { text: "a c".to_string(), offset_from: 0, offset_to: 0, position: 0, position_length: 1 },
        Token { text: "ABC".to_string(), offset_from: 5, offset_to: 8, position: 2, position_length: 0 },
    ];
    assert_eq!(
        analyzer.apply_filters(given.clone()),
        vec![Token { text: "ABC".to_string(), offset_from: 5, offset_to: 8, position: 2, position_length: 0 }]
    );
    let none = Analyzer::new(TokenizerKind::Raw, Vec::new());
    assert_eq!(none.apply_filters(given.clone()), given);
}
