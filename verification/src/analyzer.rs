//! Analyzers: one tokenizer and an ordered chain of filters, compiled from a
//! pipeline declaration and applied to texts.

use vstd::prelude::*;
use crate::catalog::{Catalog, CatalogView, resolved_filter, resolved_tokenizer};
use crate::constructors::{constructed_filter, constructed_tokenizer};
use crate::components::{
    FilterKind, FilterView, TokenizerKind, filter_output, filter_views, law_filter_selects,
    tokenizer_output,
};
use crate::config::{ComponentRef, ComponentRefView, PipelineSpec, PipelineSpecView};
use crate::error::ConfigError;
use crate::results::{collected, is_first_failure, lemma_first_failure, values};
use crate::text::byte_len;
use crate::token::{
    Token, TokenView, lemma_selection_keeps_offsets, lemma_selection_reflexive,
    lemma_selection_transitive, offsets_ordered, offsets_within, selected_from, token_views,
};

verus! {

/// An analyzer as a mathematical value.
pub struct AnalyzerView {
    pub tokenizer: TokenizerKind,
    pub filters: Seq<FilterView>,
}

/// The immutable pairing of one tokenizer with a chain of filters.
#[derive(Debug)]
pub struct Analyzer {
    tokenizer: TokenizerKind,
    filters: Vec<FilterKind>,
}

/// The tokenizer that the catalog makes of a component reference: the kind
/// is resolved first, then the arguments are checked.
pub open spec fn compiled_tokenizer(catalog: CatalogView, component: ComponentRefView) -> Result<
    TokenizerKind,
    ConfigError,
> {
    match resolved_tokenizer(catalog, component.kind) {
        Ok(constructor) => constructed_tokenizer(constructor, component.args),
        Err(error) => Err(error),
    }
}

/// The filter that the catalog makes of a component reference.
pub open spec fn compiled_filter(catalog: CatalogView, component: ComponentRefView) -> Result<
    FilterView,
    ConfigError,
> {
    match resolved_filter(catalog, component.kind) {
        Ok(constructor) => constructed_filter(constructor, component.args),
        Err(error) => Err(error),
    }
}

/// What the catalog makes of each of the filters of a pipeline.
pub open spec fn compiled_filters(catalog: CatalogView, components: Seq<ComponentRefView>) -> Seq<
    Result<FilterView, ConfigError>,
> {
    components.map_values(|component: ComponentRefView| compiled_filter(catalog, component))
}

/// The analyzer that a pipeline declaration compiles to, or the first error
/// met: that of the tokenizer, or else that of the first filter that fails.
pub open spec fn compiled(catalog: CatalogView, pipeline: PipelineSpecView) -> Result<
    AnalyzerView,
    ConfigError,
> {
    match compiled_tokenizer(catalog, pipeline.tokenizer) {
        Err(error) => Err(error),
        Ok(tokenizer) => match collected(compiled_filters(catalog, pipeline.filters)) {
            Err(error) => Err(error),
            Ok(filters) => Ok(AnalyzerView { tokenizer, filters }),
        },
    }
}

/// The tokens that come out of a chain of filters, applied from left to
/// right, each to what its predecessor returned.
pub open spec fn filtered(filters: Seq<FilterView>, tokens: Seq<TokenView>) -> Seq<TokenView>
    decreases filters.len(),
{
    if filters.len() == 0 {
        tokens
    } else {
        filter_output(filters.last(), filtered(filters.drop_last(), tokens))
    }
}

/// The tokens that an analyzer makes of a text.
pub open spec fn analysis(analyzer: AnalyzerView, text: Seq<char>) -> Seq<TokenView> {
    filtered(analyzer.filters, tokenizer_output(analyzer.tokenizer, text))
}

/// A chain of filters drops tokens or rewrites their texts, and does nothing
/// else: the tokens that come out have the offsets and positions of tokens
/// that went in, in the same order.
pub proof fn law_chain_selects(filters: Seq<FilterView>, tokens: Seq<TokenView>)
    ensures
        selected_from(filtered(filters, tokens), tokens),
    decreases filters.len(),
{
    if filters.len() == 0 {
        lemma_selection_reflexive(tokens);
    } else {
        let between = filtered(filters.drop_last(), tokens);
        law_chain_selects(filters.drop_last(), tokens);
        law_filter_selects(filters.last(), between);
        lemma_selection_transitive(filtered(filters, tokens), between, tokens);
    }
}

/// Whatever the filters, the tokens of an analysis are tokens of the
/// tokenizer, with their offsets: where those lie within the text, or are in
/// order, so do and are the tokens of the analysis.
pub proof fn law_analysis_keeps_offsets(analyzer: AnalyzerView, text: Seq<char>)
    ensures
        selected_from(analysis(analyzer, text), tokenizer_output(analyzer.tokenizer, text)),
        offsets_within(tokenizer_output(analyzer.tokenizer, text), byte_len(text))
            ==> offsets_within(analysis(analyzer, text), byte_len(text)),
        offsets_ordered(tokenizer_output(analyzer.tokenizer, text)) ==> offsets_ordered(
            analysis(analyzer, text),
        ),
{
    let split = tokenizer_output(analyzer.tokenizer, text);
    law_chain_selects(analyzer.filters, split);
    lemma_selection_keeps_offsets(analysis(analyzer, text), split, byte_len(text));
}

/// An analysis depends on the analyzer and the text alone: two analyses of
/// one text by one analyzer are the same sequence of tokens.
pub proof fn law_analysis_is_repeatable(
    analyzer: AnalyzerView,
    text: Seq<char>,
    first: Seq<TokenView>,
    second: Seq<TokenView>,
)
    requires
        first == analysis(analyzer, text),
        second == analysis(analyzer, text),
    ensures
        first == second,
{
}

/// An analyzer without filters returns what its tokenizer returns.
pub proof fn law_no_filters_no_change(tokenizer: TokenizerKind, text: Seq<char>)
    ensures
        analysis(AnalyzerView { tokenizer, filters: Seq::empty() }, text) == tokenizer_output(
            tokenizer,
            text,
        ),
{
}

/// Adding a filter at the end of a chain passes the analysis of the shorter
/// chain through that filter.
pub proof fn law_last_filter_applies_last(analyzer: AnalyzerView, filter: FilterView, text: Seq<char>)
    ensures
        analysis(
            AnalyzerView { tokenizer: analyzer.tokenizer, filters: analyzer.filters.push(filter) },
            text,
        ) == filter_output(filter, analysis(analyzer, text)),
{
    assert(analyzer.filters.push(filter).drop_last() =~= analyzer.filters);
}

/// A compiled analyzer has the declared tokenizer, with settings with which
/// it can be run, and one filter for each filter of the declaration, in the
/// declared order.
pub proof fn law_compiled_keeps_order(catalog: CatalogView, pipeline: PipelineSpecView)
    requires
        compiled(catalog, pipeline) is Ok,
    ensures
        compiled_tokenizer(catalog, pipeline.tokenizer) == Ok::<TokenizerKind, ConfigError>(
            compiled(catalog, pipeline)->Ok_0.tokenizer,
        ),
        compiled(catalog, pipeline)->Ok_0.tokenizer.wf(),
        compiled(catalog, pipeline)->Ok_0.filters.len() == pipeline.filters.len(),
        forall|i: int|
            0 <= i < pipeline.filters.len() ==> compiled_filter(
                catalog,
                #[trigger] pipeline.filters[i],
            ) == Ok::<FilterView, ConfigError>(compiled(catalog, pipeline)->Ok_0.filters[i]),
{
    let results = compiled_filters(catalog, pipeline.filters);
    assert forall|i: int| 0 <= i < pipeline.filters.len() implies compiled_filter(
        catalog,
        #[trigger] pipeline.filters[i],
    ) == Ok::<FilterView, ConfigError>(compiled(catalog, pipeline)->Ok_0.filters[i]) by {
        assert(results[i] is Ok);
    }
}

impl View for Analyzer {
    type V = AnalyzerView;

    closed spec fn view(&self) -> AnalyzerView {
        AnalyzerView { tokenizer: self.tokenizer, filters: filter_views(self.filters@) }
    }
}

/// Makes the tokenizer that a component reference asks for.
pub fn compile_tokenizer(catalog: &Catalog, component: &ComponentRef) -> (made: Result<
    TokenizerKind,
    ConfigError,
>)
    ensures
        made == compiled_tokenizer(catalog@, component@),
        made matches Ok(tokenizer) ==> tokenizer.wf(),
{
    let constructor = match catalog.resolve_tokenizer(component.kind.as_str()) {
        Ok(constructor) => constructor,
        Err(error) => { return Err(error); },
    };
    match &component.args {
        Some(args) => constructor.construct(Some(args)),
        None => constructor.construct(None),
    }
}

/// Makes the filter that a component reference asks for.
pub fn compile_filter(catalog: &Catalog, component: &ComponentRef) -> (made: Result<
    FilterKind,
    ConfigError,
>)
    ensures
        match made {
            Ok(filter) => compiled_filter(catalog@, component@) == Ok::<FilterView, ConfigError>(
                filter@,
            ),
            Err(error) => compiled_filter(catalog@, component@) == Err::<FilterView, ConfigError>(
                error,
            ),
        },
{
    let constructor = match catalog.resolve_filter(component.kind.as_str()) {
        Ok(constructor) => constructor,
        Err(error) => { return Err(error); },
    };
    match &component.args {
        Some(args) => constructor.construct(Some(args)),
        None => constructor.construct(None),
    }
}

impl Analyzer {
    #[verifier::type_invariant]
    spec fn runnable(self) -> bool {
        self.tokenizer.wf()
    }

    /// An analyzer made of the given tokenizer and filters.
    pub fn new(tokenizer: TokenizerKind, filters: Vec<FilterKind>) -> (analyzer: Analyzer)
        requires
            tokenizer.wf(),
        ensures
            analyzer@ == (AnalyzerView { tokenizer, filters: filter_views(filters@) }),
    {
        Analyzer { tokenizer, filters }
    }

    /// The tokenizer of the analyzer.
    pub fn tokenizer(&self) -> (tokenizer: TokenizerKind)
        ensures
            tokenizer == self@.tokenizer,
            tokenizer.wf(),
    {
        proof {
            use_type_invariant(self);
        }
        self.tokenizer
    }

    /// The filters of the analyzer, in the order in which they apply.
    pub fn filters(&self) -> (filters: &Vec<FilterKind>)
        ensures
            filter_views(filters@) == self@.filters,
    {
        &self.filters
    }

    /// Compiles a pipeline declaration: the tokenizer first, then the
    /// filters in the declared order. The first component that the catalog
    /// does not know, or whose arguments it refuses, ends the compilation
    /// with its error.
    pub fn compile(catalog: &Catalog, pipeline: &PipelineSpec) -> (made: Result<
        Analyzer,
        ConfigError,
    >)
        ensures
            match made {
                Ok(analyzer) => compiled(catalog@, pipeline@) == Ok::<AnalyzerView, ConfigError>(
                    analyzer@,
                ),
                Err(error) => compiled(catalog@, pipeline@) == Err::<AnalyzerView, ConfigError>(
                    error,
                ),
            },
    {
        let tokenizer = match compile_tokenizer(catalog, &pipeline.tokenizer) {
            Ok(tokenizer) => tokenizer,
            Err(error) => { return Err(error); },
        };
        let ghost results = compiled_filters(catalog@, pipeline@.filters);
        let mut filters: Vec<FilterKind> = Vec::new();
        let mut i: usize = 0;
        while i < pipeline.filters.len()
            invariant
                i <= pipeline.filters@.len(),
                tokenizer.wf(),
                compiled_tokenizer(catalog@, pipeline@.tokenizer) == Ok::<
                    TokenizerKind,
                    ConfigError,
                >(tokenizer),
                results == compiled_filters(catalog@, pipeline@.filters),
                results.len() == pipeline.filters@.len(),
                filters@.len() == i,
                forall|j: int| 0 <= j < i ==> #[trigger] results[j] is Ok,
                forall|j: int| 0 <= j < i ==> (#[trigger] filters@[j])@ == results[j]->Ok_0,
            decreases pipeline.filters@.len() - i,
        {
            assert(results[i as int] == compiled_filter(catalog@, pipeline.filters@[i as int]@));
            match compile_filter(catalog, &pipeline.filters[i]) {
                Ok(filter) => {
                    filters.push(filter);
                },
                Err(error) => {
                    proof {
                        assert(is_first_failure(results, i as int));
                        lemma_first_failure(results, i as int);
                    }
                    return Err(error);
                },
            }
            i += 1;
        }
        assert(filter_views(filters@) =~= values(results));
        Ok(Analyzer { tokenizer, filters })
    }

    /// Passes `tokens` through the filters of the analyzer, from the first
    /// to the last, each filter taking what its predecessor returned.
    pub fn apply_filters(&self, tokens: Vec<Token>) -> (filtered_tokens: Vec<Token>)
        ensures
            token_views(filtered_tokens@) == filtered(self@.filters, token_views(tokens@)),
    {
        let ghost given = token_views(tokens@);
        let ghost chain = filter_views(self.filters@);
        let mut tokens = tokens;
        let mut i: usize = 0;
        while i < self.filters.len()
            invariant
                i <= self.filters@.len(),
                chain == filter_views(self.filters@),
                token_views(tokens@) == filtered(chain.take(i as int), given),
            decreases self.filters@.len() - i,
        {
            proof {
                assert(chain.take(i + 1).drop_last() =~= chain.take(i as int));
                assert(chain.take(i + 1).last() == self.filters@[i as int]@);
            }
            tokens = self.filters[i].apply(tokens);
            i += 1;
        }
        assert(chain.take(i as int) =~= chain);
        tokens
    }

    /// Analyzes a text: the tokenizer splits it, and the tokens pass through
    /// each filter in turn.
    ///
    /// The tokens that come out are tokens of the tokenizer, in its order,
    /// with their offsets, which lie within the text. Where the tokenizer
    /// keeps the order, neither the start nor the end of a token lies before
    /// that of an earlier one.
    pub fn analyze(&self, text: &str) -> (tokens: Vec<Token>)
        ensures
            token_views(tokens@) == analysis(self@, text@),
            selected_from(token_views(tokens@), tokenizer_output(self@.tokenizer, text@)),
            offsets_within(token_views(tokens@), byte_len(text@)),
            self@.tokenizer.keeps_order() ==> offsets_ordered(token_views(tokens@)),
    {
        proof {
            use_type_invariant(self);
            law_analysis_keeps_offsets(self@, text@);
        }
        self.apply_filters(self.tokenizer.tokenize(text))
    }
}

} // verus!
