//! The catalog of component kinds: the fixed mapping from the names of
//! tokenizers and filters to their constructors.

use vstd::prelude::*;
use crate::constructors::{FilterConstructor, TokenizerConstructor};
use crate::error::{ComponentRole, ConfigError};
use crate::lookup::{lemma_lookup_finds, lemma_lookup_misses, lookup};
use crate::text::same_text;

verus! {

/// The catalog as a mathematical value: for tokenizers and for filters, the
/// known names with their constructors. Where a name stands twice, the first
/// entry counts.
pub struct CatalogView {
    pub tokenizers: Seq<(Seq<char>, TokenizerConstructor)>,
    pub filters: Seq<(Seq<char>, FilterConstructor)>,
}

/// The fixed mapping from kind names to constructors.
pub struct Catalog {
    tokenizers: Vec<(String, TokenizerConstructor)>,
    filters: Vec<(String, FilterConstructor)>,
}

/// The views of a list of named entries.
pub open spec fn entry_views<C>(entries: Seq<(String, C)>) -> Seq<(Seq<char>, C)> {
    entries.map_values(|entry: (String, C)| (entry.0@, entry.1))
}

/// The catalog that is built in.
pub open spec fn builtin_catalog() -> CatalogView {
    CatalogView {
        tokenizers: seq![
            ("facet"@, TokenizerConstructor::Facet),
            ("ngram"@, TokenizerConstructor::Ngram),
            ("raw"@, TokenizerConstructor::Raw),
            ("simple"@, TokenizerConstructor::Simple),
        ],
        filters: seq![
            ("alpha_num_only"@, FilterConstructor::AlphaNumOnly),
            ("ascii_folding"@, FilterConstructor::AsciiFolding),
            ("lower_case"@, FilterConstructor::LowerCase),
            ("remove_long"@, FilterConstructor::RemoveLong),
            ("stemming"@, FilterConstructor::Stemming),
            ("stop_word"@, FilterConstructor::StopWord),
        ],
    }
}

/// The constructor that a catalog has for a tokenizer kind.
pub open spec fn resolved_tokenizer(catalog: CatalogView, kind: Seq<char>) -> Result<
    TokenizerConstructor,
    ConfigError,
> {
    match lookup(catalog.tokenizers, kind) {
        Some(constructor) => Ok(constructor),
        None => Err(ConfigError::UnknownComponent(ComponentRole::Tokenizer)),
    }
}

/// The constructor that a catalog has for a filter kind.
pub open spec fn resolved_filter(catalog: CatalogView, kind: Seq<char>) -> Result<
    FilterConstructor,
    ConfigError,
> {
    match lookup(catalog.filters, kind) {
        Some(constructor) => Ok(constructor),
        None => Err(ConfigError::UnknownComponent(ComponentRole::Filter)),
    }
}

/// The names that the built-in catalog knows, and no others, resolve: each
/// to the constructor of its kind.
pub proof fn law_builtin_kinds(kind: Seq<char>)
    ensures
        resolved_tokenizer(builtin_catalog(), kind) == if kind == "facet"@ {
            Ok::<TokenizerConstructor, ConfigError>(TokenizerConstructor::Facet)
        } else if kind == "ngram"@ {
            Ok(TokenizerConstructor::Ngram)
        } else if kind == "raw"@ {
            Ok(TokenizerConstructor::Raw)
        } else if kind == "simple"@ {
            Ok(TokenizerConstructor::Simple)
        } else {
            Err(ConfigError::UnknownComponent(ComponentRole::Tokenizer))
        },
        resolved_filter(builtin_catalog(), kind) == if kind == "alpha_num_only"@ {
            Ok::<FilterConstructor, ConfigError>(FilterConstructor::AlphaNumOnly)
        } else if kind == "ascii_folding"@ {
            Ok(FilterConstructor::AsciiFolding)
        } else if kind == "lower_case"@ {
            Ok(FilterConstructor::LowerCase)
        } else if kind == "remove_long"@ {
            Ok(FilterConstructor::RemoveLong)
        } else if kind == "stemming"@ {
            Ok(FilterConstructor::Stemming)
        } else if kind == "stop_word"@ {
            Ok(FilterConstructor::StopWord)
        } else {
            Err(ConfigError::UnknownComponent(ComponentRole::Filter))
        },
{
    let tokenizers = builtin_catalog().tokenizers;
    lemma_lookup_misses(tokenizers, kind);
    if kind == "facet"@ {
        lemma_lookup_finds(tokenizers, kind, 0);
    } else if kind == "ngram"@ {
        lemma_lookup_finds(tokenizers, kind, 1);
    } else if kind == "raw"@ {
        lemma_lookup_finds(tokenizers, kind, 2);
    } else if kind == "simple"@ {
        lemma_lookup_finds(tokenizers, kind, 3);
    }
    let filters = builtin_catalog().filters;
    lemma_lookup_misses(filters, kind);
    if kind == "alpha_num_only"@ {
        lemma_lookup_finds(filters, kind, 0);
    } else if kind == "ascii_folding"@ {
        lemma_lookup_finds(filters, kind, 1);
    } else if kind == "lower_case"@ {
        lemma_lookup_finds(filters, kind, 2);
    } else if kind == "remove_long"@ {
        lemma_lookup_finds(filters, kind, 3);
    } else if kind == "stemming"@ {
        lemma_lookup_finds(filters, kind, 4);
    } else if kind == "stop_word"@ {
        lemma_lookup_finds(filters, kind, 5);
    }
}

/// The value of the first entry under `key`.
fn find<C: Copy>(entries: &Vec<(String, C)>, key: &str) -> (found: Option<C>)
    ensures
        found == lookup(entry_views(entries@), key@),
{
    let ghost all = entry_views(entries@);
    let mut i: usize = 0;
    assert(all.skip(0) =~= all);
    while i < entries.len()
        invariant
            i <= entries@.len(),
            all == entry_views(entries@),
            lookup(all, key@) == lookup(all.skip(i as int), key@),
        decreases entries@.len() - i,
    {
        proof {
            assert(all.skip(i as int)[0] == all[i as int]);
            assert(all.skip(i as int).skip(1) =~= all.skip(i + 1));
        }
        if same_text(entries[i].0.as_str(), key) {
            return Some(entries[i].1);
        }
        i += 1;
    }
    None
}

impl View for Catalog {
    type V = CatalogView;

    closed spec fn view(&self) -> CatalogView {
        CatalogView {
            tokenizers: entry_views(self.tokenizers@),
            filters: entry_views(self.filters@),
        }
    }
}

impl Catalog {
    /// The catalog of the built-in tokenizers and filters.
    pub fn builtin() -> (catalog: Catalog)
        ensures
            catalog@ == builtin_catalog(),
    {
        let mut tokenizers: Vec<(String, TokenizerConstructor)> = Vec::new();
        tokenizers.push(("facet".to_owned(), TokenizerConstructor::Facet));
        tokenizers.push(("ngram".to_owned(), TokenizerConstructor::Ngram));
        tokenizers.push(("raw".to_owned(), TokenizerConstructor::Raw));
        tokenizers.push(("simple".to_owned(), TokenizerConstructor::Simple));
        let mut filters: Vec<(String, FilterConstructor)> = Vec::new();
        filters.push(("alpha_num_only".to_owned(), FilterConstructor::AlphaNumOnly));
        filters.push(("ascii_folding".to_owned(), FilterConstructor::AsciiFolding));
        filters.push(("lower_case".to_owned(), FilterConstructor::LowerCase));
        filters.push(("remove_long".to_owned(), FilterConstructor::RemoveLong));
        filters.push(("stemming".to_owned(), FilterConstructor::Stemming));
        filters.push(("stop_word".to_owned(), FilterConstructor::StopWord));
        assert(entry_views(tokenizers@) =~= builtin_catalog().tokenizers);
        assert(entry_views(filters@) =~= builtin_catalog().filters);
        Catalog { tokenizers, filters }
    }

    /// The constructor for a tokenizer kind, or an error where the catalog
    /// has none.
    pub fn resolve_tokenizer(&self, kind: &str) -> (constructor: Result<
        TokenizerConstructor,
        ConfigError,
    >)
        ensures
            constructor == resolved_tokenizer(self@, kind@),
    {
        match find(&self.tokenizers, kind) {
            Some(constructor) => Ok(constructor),
            None => Err(ConfigError::UnknownComponent(ComponentRole::Tokenizer)),
        }
    }

    /// The constructor for a filter kind, or an error where the catalog has
    /// none.
    pub fn resolve_filter(&self, kind: &str) -> (constructor: Result<
        FilterConstructor,
        ConfigError,
    >)
        ensures
            constructor == resolved_filter(self@, kind@),
    {
        match find(&self.filters, kind) {
            Some(constructor) => Ok(constructor),
            None => Err(ConfigError::UnknownComponent(ComponentRole::Filter)),
        }
    }
}

} // verus!
