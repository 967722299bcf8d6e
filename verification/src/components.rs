//! The tokenizers and token filters that a pipeline is made of, and what
//! each of them returns.
//!
//! The splitting, folding and stemming themselves are done by `tantivy`.
//! Each of its tokenizers and filters is called in one function of this
//! module, from plain values to plain values.

use vstd::prelude::*;
use crate::text::byte_len;
use crate::token::{
    Token, TokenView, lemma_filter_selects, lemma_rewrite_selects, offsets_ordered, offsets_within,
    selected_from, token_views,
};
use tantivy::tokenizer::{
    AlphaNumOnlyFilter, AsciiFoldingFilter, BoxTokenStream, FacetTokenizer, Language, LowerCaser,
    NgramTokenizer, PreTokenizedStream, PreTokenizedString, RawTokenizer, RemoveLongFilter,
    SimpleTokenizer, Stemmer, StopWordFilter, TokenFilter, Tokenizer,
};

verus! {

/// The language whose stemming rules a stemming filter applies.
#[derive(Clone, Copy, Debug, PartialEq, Eq, Structural)]
pub enum StemLanguage {
    Arabic,
    Danish,
    Dutch,
    English,
    Finnish,
    French,
    German,
    Greek,
    Hungarian,
    Italian,
    Norwegian,
    Portuguese,
    Romanian,
    Russian,
    Spanish,
    Swedish,
    Tamil,
    Turkish,
}

/// A tokenizer with its settings.
#[derive(Clone, Copy, Debug, PartialEq, Eq, Structural)]
pub enum TokenizerKind {
    /// Splits a hierarchical path into the paths of its ancestors.
    Facet,
    /// Emits the character n-grams of `min_gram` to `max_gram` characters;
    /// with `prefix_only`, only those that start the text.
    Ngram { min_gram: usize, max_gram: usize, prefix_only: bool },
    /// Emits the whole text as one token.
    Raw,
    /// Splits the text at every character that is not alphanumeric.
    Simple,
}

impl TokenizerKind {
    /// The settings are such that the tokenizer can be run.
    pub open spec fn wf(self) -> bool {
        match self {
            TokenizerKind::Ngram { min_gram, max_gram, .. } => 0 < min_gram <= max_gram
                < usize::MAX,
            _ => true,
        }
    }

    /// The tokenizer is known to emit its tokens in the order of their
    /// offsets. Every tokenizer is but the n-gram tokenizer that is not held
    /// to the prefix: it emits all the grams that start at one character,
    /// the shortest first, before those that start at the next.
    pub open spec fn keeps_order(self) -> bool {
        match self {
            TokenizerKind::Ngram { prefix_only, .. } => prefix_only,
            _ => true,
        }
    }
}

/// A token filter with its settings.
#[derive(Debug)]
pub enum FilterKind {
    /// Drops the tokens that hold a character other than an ASCII letter or
    /// digit.
    AlphaNumOnly,
    /// Replaces accented and other extended characters by their closest ASCII
    /// equivalent.
    AsciiFolding,
    /// Puts the text of every token in lower case.
    LowerCase,
    /// Drops the tokens whose text takes `length_limit` bytes or more.
    RemoveLong { length_limit: usize },
    /// Reduces every token to its stem in `language`.
    Stemming { language: StemLanguage },
    /// Drops the tokens whose text is one of `words`, compared exactly:
    /// the comparison is case-sensitive.
    StopWord { words: Vec<String> },
}

/// A token filter as a mathematical value.
pub enum FilterView {
    AlphaNumOnly,
    AsciiFolding,
    LowerCase,
    RemoveLong { length_limit: usize },
    Stemming { language: StemLanguage },
    StopWord { words: Seq<Seq<char>> },
}

/// The views of a list of words.
pub open spec fn word_views(words: Seq<String>) -> Seq<Seq<char>> {
    words.map_values(|word: String| word@)
}

impl View for FilterKind {
    type V = FilterView;

    open spec fn view(&self) -> FilterView {
        match self {
            FilterKind::AlphaNumOnly => FilterView::AlphaNumOnly,
            FilterKind::AsciiFolding => FilterView::AsciiFolding,
            FilterKind::LowerCase => FilterView::LowerCase,
            FilterKind::RemoveLong { length_limit } => FilterView::RemoveLong {
                length_limit: *length_limit,
            },
            FilterKind::Stemming { language } => FilterView::Stemming { language: *language },
            FilterKind::StopWord { words } => FilterView::StopWord { words: word_views(words@) },
        }
    }
}

/// The views of a chain of filters.
pub open spec fn filter_views(filters: Seq<FilterKind>) -> Seq<FilterView> {
    filters.map_values(|filter: FilterKind| filter@)
}

/// The tokens that the simple tokenizer makes of a text.
pub uninterp spec fn simple_tokens(text: Seq<char>) -> Seq<TokenView>;

/// The tokens that the facet tokenizer makes of a text.
pub uninterp spec fn facet_tokens(text: Seq<char>) -> Seq<TokenView>;

/// The tokens that the n-gram tokenizer makes of a text.
pub uninterp spec fn ngram_tokens(
    text: Seq<char>,
    min_gram: usize,
    max_gram: usize,
    prefix_only: bool,
) -> Seq<TokenView>;

/// A text in lower case.
pub uninterp spec fn lower_cased(text: Seq<char>) -> Seq<char>;

/// A text with its extended characters folded to ASCII.
pub uninterp spec fn ascii_folded(text: Seq<char>) -> Seq<char>;

/// The stem of a word in a language.
pub uninterp spec fn stemmed(language: StemLanguage, text: Seq<char>) -> Seq<char>;

/// The one token that stands for a whole text.
pub open spec fn whole_text_token(text: Seq<char>) -> TokenView {
    TokenView {
        text,
        offset_from: 0,
        offset_to: byte_len(text),
        position: 0,
        position_length: 1,
    }
}

/// An ASCII letter or digit.
pub open spec fn is_ascii_alphanumeric(c: char) -> bool {
    ||| '0' <= c <= '9'
    ||| 'a' <= c <= 'z'
    ||| 'A' <= c <= 'Z'
}

/// A text made of ASCII letters and digits only. The empty text is one.
pub open spec fn is_alphanumeric_text(text: Seq<char>) -> bool {
    forall|i: int| 0 <= i < text.len() ==> is_ascii_alphanumeric(#[trigger] text[i])
}

/// `token` with `text` in place of its text.
pub open spec fn with_text(token: TokenView, text: Seq<char>) -> TokenView {
    TokenView { text, ..token }
}

#[verifier::external_type_specification]
#[verifier::external_body]
pub struct ExStemmerLanguage(Language);

/// Runs tantivy's `SimpleTokenizer` on `text` and copies the tokens of its
/// stream. The contract names the result, and claims what the tokenizer's
/// source shows of the offsets: each token covers a run of bytes of the
/// text, and the runs follow one another.
#[verifier::external_body]
fn run_simple(text: &str) -> (out: Vec<Token>)
    ensures
        token_views(out@) == simple_tokens(text@),
        offsets_within(token_views(out@), byte_len(text@)),
        offsets_ordered(token_views(out@)),
{
    let mut stream = SimpleTokenizer.token_stream(text);
    let mut out = Vec::new();
    while let Some(t) = stream.next() {
        out.push(Token {
            text: t.text.clone(),
            offset_from: t.offset_from,
            offset_to: t.offset_to,
            position: t.position,
            position_length: t.position_length,
        });
    }
    out
}

/// Runs tantivy's `RawTokenizer` on `text`. Its stream yields one token,
/// which holds the whole text, from byte 0 to the text's length in bytes, at
/// position 0.
#[verifier::external_body]
fn run_raw(text: &str) -> (out: Vec<Token>)
    ensures
        token_views(out@) == seq![whole_text_token(text@)],
{
    let mut stream = RawTokenizer.token_stream(text);
    let mut out = Vec::new();
    while let Some(t) = stream.next() {
        out.push(Token {
            text: t.text.clone(),
            offset_from: t.offset_from,
            offset_to: t.offset_to,
            position: t.position,
            position_length: t.position_length,
        });
    }
    out
}

/// Runs tantivy's `FacetTokenizer` on `text`. The contract names the result,
/// and claims that both offsets of every token are 0: the tokenizer never
/// sets them.
#[verifier::external_body]
fn run_facet(text: &str) -> (out: Vec<Token>)
    ensures
        token_views(out@) == facet_tokens(text@),
        forall|i: int|
            0 <= i < out@.len() ==> (#[trigger] out@[i]).offset_from == 0 && out@[i].offset_to
                == 0,
{
    let mut stream = FacetTokenizer.token_stream(text);
    let mut out = Vec::new();
    while let Some(t) = stream.next() {
        out.push(Token {
            text: t.text.clone(),
            offset_from: t.offset_from,
            offset_to: t.offset_to,
            position: t.position,
            position_length: t.position_length,
        });
    }
    out
}

/// Runs tantivy's `NgramTokenizer` with the given settings on `text`.
/// `NgramTokenizer::new` panics unless `0 < min_gram <= max_gram`, and the
/// stream adds 1 to `max_gram`. The contract names the result, and claims
/// two things of the offsets. They lie within the text: the tokenizer takes
/// the text of a token from the source text, between the token's offsets.
/// With `prefix_only` they are in order: the stream ends at the first gram
/// that does not start at byte 0, and the grams before it end one character
/// after the other.
#[verifier::external_body]
fn run_ngram(text: &str, min_gram: usize, max_gram: usize, prefix_only: bool) -> (out: Vec<Token>)
    requires
        0 < min_gram <= max_gram < usize::MAX,
    ensures
        token_views(out@) == ngram_tokens(text@, min_gram, max_gram, prefix_only),
        offsets_within(token_views(out@), byte_len(text@)),
        prefix_only ==> offsets_ordered(token_views(out@)),
{
    let mut stream = NgramTokenizer::new(min_gram, max_gram, prefix_only).token_stream(text);
    let mut out = Vec::new();
    while let Some(t) = stream.next() {
        out.push(Token {
            text: t.text.clone(),
            offset_from: t.offset_from,
            offset_to: t.offset_to,
            position: t.position,
            position_length: t.position_length,
        });
    }
    out
}

/// Passes `tokens` through tantivy's `AlphaNumOnlyFilter`. The filter keeps a
/// token when every character of its text is an ASCII letter or digit, and
/// hands the kept tokens on unchanged and in order.
#[verifier::external_body]
fn run_alpha_num_only(tokens: Vec<Token>) -> (out: Vec<Token>)
    ensures
        token_views(out@) == token_views(tokens@).filter(
            |t: TokenView| is_alphanumeric_text(t.text),
        ),
{
    let given = tokens.into_iter().map(|t| tantivy::tokenizer::Token {
        text: t.text, offset_from: t.offset_from, offset_to: t.offset_to,
        position: t.position, position_length: t.position_length,
    }).collect();
    let source = PreTokenizedStream::from(PreTokenizedString { text: String::new(), tokens: given });
    let mut stream = AlphaNumOnlyFilter.transform(BoxTokenStream::from(source));
    let mut out = Vec::new();
    while let Some(t) = stream.next() {
        out.push(Token {
            text: t.text.clone(), offset_from: t.offset_from, offset_to: t.offset_to,
            position: t.position, position_length: t.position_length,
        });
    }
    out
}

/// Passes `tokens` through tantivy's `AsciiFoldingFilter`. The filter
/// replaces the text of each token by its folded form, which the contract
/// names, and leaves offsets and positions as they are.
#[verifier::external_body]
fn run_ascii_folding(tokens: Vec<Token>) -> (out: Vec<Token>)
    ensures
        token_views(out@) == token_views(tokens@).map_values(
            |t: TokenView| with_text(t, ascii_folded(t.text)),
        ),
{
    let given = tokens.into_iter().map(|t| tantivy::tokenizer::Token {
        text: t.text, offset_from: t.offset_from, offset_to: t.offset_to,
        position: t.position, position_length: t.position_length,
    }).collect();
    let source = PreTokenizedStream::from(PreTokenizedString { text: String::new(), tokens: given });
    let mut stream = AsciiFoldingFilter.transform(BoxTokenStream::from(source));
    let mut out = Vec::new();
    while let Some(t) = stream.next() {
        out.push(Token {
            text: t.text.clone(), offset_from: t.offset_from, offset_to: t.offset_to,
            position: t.position, position_length: t.position_length,
        });
    }
    out
}

/// Passes `tokens` through tantivy's `LowerCaser`. The filter replaces the
/// text of each token by its lower-case form, which the contract names, and
/// leaves offsets and positions as they are.
#[verifier::external_body]
fn run_lower_case(tokens: Vec<Token>) -> (out: Vec<Token>)
    ensures
        token_views(out@) == token_views(tokens@).map_values(
            |t: TokenView| with_text(t, lower_cased(t.text)),
        ),
{
    let given = tokens.into_iter().map(|t| tantivy::tokenizer::Token {
        text: t.text, offset_from: t.offset_from, offset_to: t.offset_to,
        position: t.position, position_length: t.position_length,
    }).collect();
    let source = PreTokenizedStream::from(PreTokenizedString { text: String::new(), tokens: given });
    let mut stream = LowerCaser.transform(BoxTokenStream::from(source));
    let mut out = Vec::new();
    while let Some(t) = stream.next() {
        out.push(Token {
            text: t.text.clone(), offset_from: t.offset_from, offset_to: t.offset_to,
            position: t.position, position_length: t.position_length,
        });
    }
    out
}

/// Passes `tokens` through tantivy's `RemoveLongFilter` with the given limit.
/// The filter keeps a token when its text is shorter than the limit, in
/// bytes, and hands the kept tokens on unchanged and in order.
#[verifier::external_body]
fn run_remove_long(length_limit: usize, tokens: Vec<Token>) -> (out: Vec<Token>)
    ensures
        token_views(out@) == token_views(tokens@).filter(
            |t: TokenView| byte_len(t.text) < length_limit,
        ),
{
    let given = tokens.into_iter().map(|t| tantivy::tokenizer::Token {
        text: t.text, offset_from: t.offset_from, offset_to: t.offset_to,
        position: t.position, position_length: t.position_length,
    }).collect();
    let source = PreTokenizedStream::from(PreTokenizedString { text: String::new(), tokens: given });
    let mut stream = RemoveLongFilter::limit(length_limit).transform(BoxTokenStream::from(source));
    let mut out = Vec::new();
    while let Some(t) = stream.next() {
        out.push(Token {
            text: t.text.clone(), offset_from: t.offset_from, offset_to: t.offset_to,
            position: t.position, position_length: t.position_length,
        });
    }
    out
}

/// Passes `tokens` through tantivy's `StopWordFilter` made of `words`. The
/// filter drops a token when its text is in the set of words, and hands the
/// others on unchanged and in order.
#[verifier::external_body]
fn run_stop_word(words: &Vec<String>, tokens: Vec<Token>) -> (out: Vec<Token>)
    ensures
        token_views(out@) == token_views(tokens@).filter(
            |t: TokenView| !word_views(words@).contains(t.text),
        ),
{
    let given = tokens.into_iter().map(|t| tantivy::tokenizer::Token {
        text: t.text, offset_from: t.offset_from, offset_to: t.offset_to,
        position: t.position, position_length: t.position_length,
    }).collect();
    let source = PreTokenizedStream::from(PreTokenizedString { text: String::new(), tokens: given });
    let mut stream = StopWordFilter::remove(words.clone()).transform(BoxTokenStream::from(source));
    let mut out = Vec::new();
    while let Some(t) = stream.next() {
        out.push(Token {
            text: t.text.clone(), offset_from: t.offset_from, offset_to: t.offset_to,
            position: t.position, position_length: t.position_length,
        });
    }
    out
}

/// The language of tantivy's stemmer that has the same name.
#[verifier::external_body]
fn stemmer_language(language: StemLanguage) -> Language {
    match language {
        StemLanguage::Arabic => Language::Arabic, StemLanguage::Danish => Language::Danish,
        StemLanguage::Dutch => Language::Dutch, StemLanguage::English => Language::English,
        StemLanguage::Finnish => Language::Finnish, StemLanguage::French => Language::French,
        StemLanguage::German => Language::German, StemLanguage::Greek => Language::Greek,
        StemLanguage::Hungarian => Language::Hungarian, StemLanguage::Italian => Language::Italian,
        StemLanguage::Norwegian => Language::Norwegian, StemLanguage::Portuguese => Language::Portuguese,
        StemLanguage::Romanian => Language::Romanian, StemLanguage::Russian => Language::Russian,
        StemLanguage::Spanish => Language::Spanish, StemLanguage::Swedish => Language::Swedish,
        StemLanguage::Tamil => Language::Tamil, StemLanguage::Turkish => Language::Turkish,
    }
}

/// Passes `tokens` through tantivy's `Stemmer` for `language`. The filter
/// replaces the text of each token by its stem, which the contract names,
/// and leaves offsets and positions as they are.
#[verifier::external_body]
fn run_stemming(language: StemLanguage, tokens: Vec<Token>) -> (out: Vec<Token>)
    ensures
        token_views(out@) == token_views(tokens@).map_values(
            |t: TokenView| with_text(t, stemmed(language, t.text)),
        ),
{
    let given = tokens.into_iter().map(|t| tantivy::tokenizer::Token {
        text: t.text, offset_from: t.offset_from, offset_to: t.offset_to,
        position: t.position, position_length: t.position_length,
    }).collect();
    let source = PreTokenizedStream::from(PreTokenizedString { text: String::new(), tokens: given });
    let mut stream = Stemmer::new(stemmer_language(language)).transform(BoxTokenStream::from(source));
    let mut out = Vec::new();
    while let Some(t) = stream.next() {
        out.push(Token {
            text: t.text.clone(), offset_from: t.offset_from, offset_to: t.offset_to,
            position: t.position, position_length: t.position_length,
        });
    }
    out
}

/// What a tokenizer makes of a text.
pub open spec fn tokenizer_output(tokenizer: TokenizerKind, text: Seq<char>) -> Seq<TokenView> {
    match tokenizer {
        TokenizerKind::Facet => facet_tokens(text),
        TokenizerKind::Ngram { min_gram, max_gram, prefix_only } => ngram_tokens(
            text,
            min_gram,
            max_gram,
            prefix_only,
        ),
        TokenizerKind::Raw => seq![whole_text_token(text)],
        TokenizerKind::Simple => simple_tokens(text),
    }
}

/// What a filter makes of a sequence of tokens.
pub open spec fn filter_output(filter: FilterView, tokens: Seq<TokenView>) -> Seq<TokenView> {
    match filter {
        FilterView::AlphaNumOnly => tokens.filter(|t: TokenView| is_alphanumeric_text(t.text)),
        FilterView::AsciiFolding => tokens.map_values(
            |t: TokenView| with_text(t, ascii_folded(t.text)),
        ),
        FilterView::LowerCase => tokens.map_values(
            |t: TokenView| with_text(t, lower_cased(t.text)),
        ),
        FilterView::RemoveLong { length_limit } => tokens.filter(
            |t: TokenView| byte_len(t.text) < length_limit,
        ),
        FilterView::Stemming { language } => tokens.map_values(
            |t: TokenView| with_text(t, stemmed(language, t.text)),
        ),
        FilterView::StopWord { words } => tokens.filter(|t: TokenView| !words.contains(t.text)),
    }
}

/// A filter drops tokens or rewrites their texts, and does nothing else: the
/// tokens that it returns have the offsets and positions of tokens that it
/// was given, in the same order.
pub proof fn law_filter_selects(filter: FilterView, tokens: Seq<TokenView>)
    ensures
        selected_from(filter_output(filter, tokens), tokens),
{
    match filter {
        FilterView::AlphaNumOnly => {
            lemma_filter_selects(tokens, |t: TokenView| is_alphanumeric_text(t.text));
        },
        FilterView::AsciiFolding => {
            lemma_rewrite_selects(tokens, |t: TokenView| with_text(t, ascii_folded(t.text)));
        },
        FilterView::LowerCase => {
            lemma_rewrite_selects(tokens, |t: TokenView| with_text(t, lower_cased(t.text)));
        },
        FilterView::RemoveLong { length_limit } => {
            lemma_filter_selects(tokens, |t: TokenView| byte_len(t.text) < length_limit);
        },
        FilterView::Stemming { language } => {
            lemma_rewrite_selects(tokens, |t: TokenView| with_text(t, stemmed(language, t.text)));
        },
        FilterView::StopWord { words } => {
            lemma_filter_selects(tokens, |t: TokenView| !words.contains(t.text));
        },
    }
}

impl TokenizerKind {
    /// Whether the settings are such that the tokenizer can be run.
    pub fn is_runnable(&self) -> (runnable: bool)
        ensures
            runnable == self.wf(),
    {
        match self {
            TokenizerKind::Ngram { min_gram, max_gram, .. } => 0 < *min_gram && *min_gram
                <= *max_gram && *max_gram < usize::MAX,
            _ => true,
        }
    }

    /// Splits `text` into tokens. The offsets of the tokens lie within the
    /// text. Where the tokenizer keeps the order, neither the start nor the
    /// end of a token lies before that of an earlier one.
    pub fn tokenize(&self, text: &str) -> (tokens: Vec<Token>)
        requires
            self.wf(),
        ensures
            token_views(tokens@) == tokenizer_output(*self, text@),
            offsets_within(token_views(tokens@), byte_len(text@)),
            self.keeps_order() ==> offsets_ordered(token_views(tokens@)),
    {
        match self {
            TokenizerKind::Facet => run_facet(text),
            TokenizerKind::Ngram { min_gram, max_gram, prefix_only } => run_ngram(
                text,
                *min_gram,
                *max_gram,
                *prefix_only,
            ),
            TokenizerKind::Raw => run_raw(text),
            TokenizerKind::Simple => run_simple(text),
        }
    }
}

impl FilterKind {
    /// Passes `tokens` through the filter.
    pub fn apply(&self, tokens: Vec<Token>) -> (out: Vec<Token>)
        ensures
            token_views(out@) == filter_output(self@, token_views(tokens@)),
    {
        match self {
            FilterKind::AlphaNumOnly => run_alpha_num_only(tokens),
            FilterKind::AsciiFolding => run_ascii_folding(tokens),
            FilterKind::LowerCase => run_lower_case(tokens),
            FilterKind::RemoveLong { length_limit } => run_remove_long(*length_limit, tokens),
            FilterKind::Stemming { language } => run_stemming(*language, tokens),
            FilterKind::StopWord { words } => run_stop_word(words, tokens),
        }
    }
}

} // verus!
