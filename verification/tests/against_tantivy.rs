use analysis_pipeline::analyzer::Analyzer;
use analysis_pipeline::components::{FilterKind, StemLanguage, TokenizerKind};
use analysis_pipeline::token::Token;
use tantivy::tokenizer::{
    AlphaNumOnlyFilter, AsciiFoldingFilter, FacetTokenizer, Language, LowerCaser, NgramTokenizer,
    RawTokenizer, RemoveLongFilter, SimpleTokenizer, Stemmer, StopWordFilter, TextAnalyzer,
};

const TEXTS: [&str; 8] = [
    "",
    "HELLO world!",
    "The quick brown foxes were jumping over the laziest dogs, continually.",
    "Ràmon accentué âäàéè — ÉTÉ Straße ŒUVRE",
    "Die Häuser und die Kinder laufen; les maisons étaient continuellement fermées",
    "los niños corrían rápidamente, gli uomini mangiavano, книги читались",
    "a1 b-2 c_3 d.4  \t\n 5e",
    "top\u{0}middle\u{0}leaf",
];

fn expected(analyzer: &TextAnalyzer, text: &str) -> Vec<Token> {
    let mut stream = analyzer.token_stream(text);
    let mut tokens = Vec::new();
    while let Some(token) = stream.next() {
        tokens.push(Token {
            text: token.text.clone(),
            offset_from: token.offset_from,
            offset_to: token.offset_to,
            position: token.position,
            position_length: token.position_length,
        });
    }
    tokens
}

fn compare(ours: &Analyzer, theirs: &TextAnalyzer) {
    for text in TEXTS {
        assert_eq!(ours.analyze(text), expected(theirs, text), "{:?}", text);
    }
}

#[test]
fn tokenizers_agree_with_tantivy() {
    compare(&Analyzer::new(TokenizerKind::Simple, Vec::new()), &TextAnalyzer::from(SimpleTokenizer));
    compare(&Analyzer::new(TokenizerKind::Raw, Vec::new()), &TextAnalyzer::from(RawTokenizer));
    compare(&Analyzer::new(TokenizerKind::Facet, Vec::new()), &TextAnalyzer::from(FacetTokenizer));
    for (min_gram, max_gram, prefix_only) in
        [(1, 1, false), (1, 3, false), (2, 3, false), (2, 5, true), (3, 3, true), (7, 90, false)]
    {
        compare(
            &Analyzer::new(TokenizerKind::Ngram { min_gram, max_gram, prefix_only }, Vec::new()),
            &TextAnalyzer::from(NgramTokenizer::new(min_gram, max_gram, prefix_only)),
        );
    }
}

#[test]
fn single_filters_agree_with_tantivy() {
    let simple = || TextAnalyzer::from(SimpleTokenizer);
    compare(
        &Analyzer::new(TokenizerKind::Simple, vec![FilterKind::AlphaNumOnly]),
        &simple().filter(AlphaNumOnlyFilter),
    );
    compare(
        &Analyzer::new(TokenizerKind::Simple, vec![FilterKind::AsciiFolding]),
        &simple().filter(AsciiFoldingFilter),
    );
    compare(
        &Analyzer::new(TokenizerKind::Simple, vec![FilterKind::LowerCase]),
        &simple().filter(LowerCaser),
    );
    for length_limit in [0, 1, 4, 6, 40] {
        compare(
            &Analyzer::new(TokenizerKind::Simple, vec![FilterKind::RemoveLong { length_limit }]),
            &simple().filter(RemoveLongFilter::limit(length_limit)),
        );
    }
    let words = vec!["the".to_string(), "Die".to_string(), "les".to_string(), "5e".to_string()];
    compare(
        &Analyzer::new(TokenizerKind::Simple, vec![FilterKind::StopWord { words: words.clone() }]),
        &simple().filter(StopWordFilter::remove(words)),
    );
}

#[test]
fn stemming_agrees_with_tantivy_in_every_language() {
    let languages = [
        (StemLanguage::Arabic, Language::Arabic),
        (StemLanguage::Danish, Language::Danish),
        (StemLanguage::Dutch, Language::Dutch),
        (StemLanguage::English, Language::English),
        (StemLanguage::Finnish, Language::Finnish),
        (StemLanguage::French, Language::French),
        (StemLanguage::German, Language::German),
        (StemLanguage::Greek, Language::Greek),
        (StemLanguage::Hungarian, Language::Hungarian),
        (StemLanguage::Italian, Language::Italian),
        (StemLanguage::Norwegian, Language::Norwegian),
        (StemLanguage::Portuguese, Language::Portuguese),
        (StemLanguage::Romanian, Language::Romanian),
        (StemLanguage::Russian, Language::Russian),
        (StemLanguage::Spanish, Language::Spanish),
        (StemLanguage::Swedish, Language::Swedish),
        (StemLanguage::Tamil, Language::Tamil),
        (StemLanguage::Turkish, Language::Turkish),
    ];
    for (ours, theirs) in languages {
        compare(
            &Analyzer::new(
                TokenizerKind::Simple,
                vec![FilterKind::LowerCase, FilterKind::Stemming { language: ours }],
            ),
            &TextAnalyzer::from(SimpleTokenizer).filter(LowerCaser).filter(Stemmer::new(theirs)),
        );
    }
}

#[test]
fn a_chain_of_all_filters_agrees_with_tantivy() {
    let words = vec!["the".to_string(), "und".to_string()];
    let ours = Analyzer::new(
        TokenizerKind::Simple,
        vec![
            FilterKind::RemoveLong { length_limit: 12 },
            FilterKind::LowerCase,
            FilterKind::AsciiFolding,
            FilterKind::StopWord { words: words.clone() },
            FilterKind::Stemming { language: StemLanguage::English },
            FilterKind::AlphaNumOnly,
        ],
    );
    let theirs = TextAnalyzer::from(SimpleTokenizer)
        .filter(RemoveLongFilter::limit(12))
        .filter(LowerCaser)
        .filter(AsciiFoldingFilter)
        .filter(StopWordFilter::remove(words))
        .filter(Stemmer::new(Language::English))
        .filter(AlphaNumOnlyFilter);
    compare(&ours, &theirs);
}

#[test]
fn filters_after_ngrams_agree_with_tantivy() {
    let ours = Analyzer::new(
        TokenizerKind::Ngram { min_gram: 2, max_gram: 4, prefix_only: false },
        vec![FilterKind::LowerCase, FilterKind::AlphaNumOnly, FilterKind::RemoveLong { length_limit: 4 }],
    );
    let theirs = TextAnalyzer::from(NgramTokenizer::new(2, 4, false))
        .filter(LowerCaser)
        .filter(AlphaNumOnlyFilter)
        .filter(RemoveLongFilter::limit(4));
    compare(&ours, &theirs);
}
