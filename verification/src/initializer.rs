//! Initialization: from the text of a configuration to a registry that
//! holds its analyzers.

use vstd::prelude::*;
use crate::analyzer::{Analyzer, AnalyzerView, compiled};
use crate::catalog::{Catalog, CatalogView, builtin_catalog};
use crate::config::{
    PipelineSpec, PipelineSpecView, configuration_of, parse_configuration, pipeline_views,
};
use crate::error::ConfigError;
use crate::json::{JsonTree, JsonValue, json_document};
use crate::registry::AnalyzerRegistry;
use crate::results::{
    collected, first_failure, is_first_failure, lemma_collected_error, lemma_first_failure, values,
};

verus! {

/// Compiles the analyzers of a configuration and publishes them in a
/// registry. It holds the catalog against which component names are
/// resolved.
pub struct TokenizerInitializer {
    catalog: Catalog,
}

/// What each pipeline of a configuration compiles to.
pub open spec fn compiled_each(catalog: CatalogView, pipelines: Seq<PipelineSpecView>) -> Seq<
    Result<AnalyzerView, ConfigError>,
> {
    pipelines.map_values(|pipeline: PipelineSpecView| compiled(catalog, pipeline))
}

/// The analyzers of a configuration, in the order of their declarations, or
/// the error of the first declaration that does not compile.
pub open spec fn compiled_all(catalog: CatalogView, pipelines: Seq<PipelineSpecView>) -> Result<
    Seq<AnalyzerView>,
    ConfigError,
> {
    collected(compiled_each(catalog, pipelines))
}

/// The registry after the first `count` analyzers have been registered under
/// the names of their declarations, one after the other.
pub open spec fn registered(
    registry: Map<Seq<char>, AnalyzerView>,
    pipelines: Seq<PipelineSpecView>,
    analyzers: Seq<AnalyzerView>,
    count: nat,
) -> Map<Seq<char>, AnalyzerView>
    decreases count,
{
    if count == 0 {
        registry
    } else {
        registered(registry, pipelines, analyzers, (count - 1) as nat).insert(
            pipelines[count - 1].name,
            analyzers[count - 1],
        )
    }
}

/// The registry that the initialization with a document leaves, or the
/// error that it ends with: the document must declare a configuration, and
/// every declaration must compile; then all analyzers are registered, in the
/// order of the document.
pub open spec fn initialized(
    catalog: CatalogView,
    registry: Map<Seq<char>, AnalyzerView>,
    document: JsonTree,
) -> Result<Map<Seq<char>, AnalyzerView>, ConfigError> {
    match configuration_of(document) {
        None => Err(ConfigError::InvalidStructure),
        Some(pipelines) => match compiled_all(catalog, pipelines) {
            Err(error) => Err(error),
            Ok(analyzers) => Ok(registered(registry, pipelines, analyzers, pipelines.len())),
        },
    }
}

/// The registry that the initialization with a text leaves, or the error
/// that it ends with: the text must be a JSON document.
pub open spec fn initialized_from_text(
    catalog: CatalogView,
    registry: Map<Seq<char>, AnalyzerView>,
    text: Seq<char>,
) -> Result<Map<Seq<char>, AnalyzerView>, ConfigError> {
    match json_document(text) {
        None => Err(ConfigError::InvalidStructure),
        Some(document) => initialized(catalog, registry, document),
    }
}

/// Where a name is declared more than once, the last declaration wins: after
/// the registrations, a declared name maps to the analyzer of the last
/// declaration that has that name.
pub proof fn law_last_declaration_wins(
    registry: Map<Seq<char>, AnalyzerView>,
    pipelines: Seq<PipelineSpecView>,
    analyzers: Seq<AnalyzerView>,
    count: nat,
    last: int,
)
    requires
        count <= pipelines.len(),
        0 <= last < count,
        forall|later: int| last < later < count ==> (#[trigger] pipelines[later]).name
            != pipelines[last].name,
    ensures
        registered(registry, pipelines, analyzers, count).contains_key(pipelines[last].name),
        registered(registry, pipelines, analyzers, count)[pipelines[last].name] == analyzers[last],
    decreases count,
{
    if last < count - 1 {
        law_last_declaration_wins(registry, pipelines, analyzers, (count - 1) as nat, last);
        assert(pipelines[count - 1].name != pipelines[last].name);
    }
}

/// The registrations leave every name that is not declared as it was.
pub proof fn law_undeclared_names_stay(
    registry: Map<Seq<char>, AnalyzerView>,
    pipelines: Seq<PipelineSpecView>,
    analyzers: Seq<AnalyzerView>,
    count: nat,
    name: Seq<char>,
)
    requires
        count <= pipelines.len(),
        forall|i: int| 0 <= i < count ==> (#[trigger] pipelines[i]).name != name,
    ensures
        registered(registry, pipelines, analyzers, count).contains_key(name)
            == registry.contains_key(name),
        registered(registry, pipelines, analyzers, count)[name] == registry[name],
    decreases count,
{
    if count > 0 {
        law_undeclared_names_stay(registry, pipelines, analyzers, (count - 1) as nat, name);
        assert(pipelines[count - 1].name != name);
    }
}

/// An initialization that succeeds registers an analyzer under every
/// declared name, and one that fails has met a document without the
/// required shape or a declaration that does not compile.
pub proof fn law_initialization_is_all_or_nothing(
    catalog: CatalogView,
    registry: Map<Seq<char>, AnalyzerView>,
    document: JsonTree,
)
    ensures
        match initialized(catalog, registry, document) {
            Ok(after) => configuration_of(document) is Some && forall|i: int|
                0 <= i < configuration_of(document)->Some_0.len() ==> compiled(
                    catalog,
                    #[trigger] configuration_of(document)->Some_0[i],
                ) is Ok && after.contains_key(configuration_of(document)->Some_0[i].name),
            Err(error) => configuration_of(document) is None || exists|i: int|
                0 <= i < configuration_of(document)->Some_0.len() && compiled(
                    catalog,
                    #[trigger] configuration_of(document)->Some_0[i],
                ) == Err::<AnalyzerView, ConfigError>(error),
        },
{
    if configuration_of(document) is Some {
        let pipelines = configuration_of(document)->Some_0;
        let results = compiled_each(catalog, pipelines);
        match compiled_all(catalog, pipelines) {
            Ok(analyzers) => {
                let after = registered(registry, pipelines, analyzers, pipelines.len());
                assert forall|i: int| 0 <= i < pipelines.len() implies compiled(
                    catalog,
                    #[trigger] pipelines[i],
                ) is Ok && after.contains_key(pipelines[i].name) by {
                    assert(results[i] is Ok);
                    lemma_registered_names(registry, pipelines, analyzers, pipelines.len(), i);
                }
            },
            Err(error) => {
                let i = first_failure(results);
                lemma_collected_error(results);
                assert(compiled(catalog, pipelines[i]) == Err::<AnalyzerView, ConfigError>(error));
            },
        }
    }
}

/// Every name among the first `count` declarations is registered.
proof fn lemma_registered_names(
    registry: Map<Seq<char>, AnalyzerView>,
    pipelines: Seq<PipelineSpecView>,
    analyzers: Seq<AnalyzerView>,
    count: nat,
    i: int,
)
    requires
        count <= pipelines.len(),
        0 <= i < count,
    ensures
        registered(registry, pipelines, analyzers, count).contains_key(pipelines[i].name),
    decreases count,
{
    if i < count - 1 {
        lemma_registered_names(registry, pipelines, analyzers, (count - 1) as nat, i);
    }
}

/// The views of a list of analyzers.
pub open spec fn analyzer_views(analyzers: Seq<Analyzer>) -> Seq<AnalyzerView> {
    analyzers.map_values(|analyzer: Analyzer| analyzer@)
}

impl View for TokenizerInitializer {
    type V = CatalogView;

    closed spec fn view(&self) -> CatalogView {
        self.catalog@
    }
}

impl TokenizerInitializer {
    /// An initializer with the built-in catalog.
    pub fn new() -> (initializer: TokenizerInitializer)
        ensures
            initializer@ == builtin_catalog(),
    {
        TokenizerInitializer { catalog: Catalog::builtin() }
    }

    /// The catalog against which component names are resolved.
    pub fn catalog(&self) -> (catalog: &Catalog)
        ensures
            catalog@ == self@,
    {
        &self.catalog
    }

    /// Compiles every pipeline of a configuration, in order, and stops at
    /// the first that fails.
    pub fn compile_all(&self, pipelines: &Vec<PipelineSpec>) -> (made: Result<
        Vec<Analyzer>,
        ConfigError,
    >)
        ensures
            match made {
                Ok(analyzers) => analyzers@.len() == pipelines@.len() && compiled_all(
                    self@,
                    pipeline_views(pipelines@),
                ) == Ok::<Seq<AnalyzerView>, ConfigError>(analyzer_views(analyzers@)),
                Err(error) => compiled_all(self@, pipeline_views(pipelines@)) == Err::<
                    Seq<AnalyzerView>,
                    ConfigError,
                >(error),
            },
    {
        let ghost results = compiled_each(self@, pipeline_views(pipelines@));
        let mut analyzers: Vec<Analyzer> = Vec::new();
        let mut i: usize = 0;
        while i < pipelines.len()
            invariant
                i <= pipelines@.len(),
                results == compiled_each(self@, pipeline_views(pipelines@)),
                results.len() == pipelines@.len(),
                analyzers@.len() == i,
                forall|j: int| 0 <= j < i ==> #[trigger] results[j] is Ok,
                forall|j: int| 0 <= j < i ==> (#[trigger] analyzers@[j])@ == results[j]->Ok_0,
            decreases pipelines@.len() - i,
        {
            assert(results[i as int] == compiled(self@, pipelines@[i as int]@));
            match Analyzer::compile(&self.catalog, &pipelines[i]) {
                Ok(analyzer) => {
                    analyzers.push(analyzer);
                },
                Err(error) => {
                    proof {
                        assert(is_first_failure(results, i as int));
                        lemma_first_failure(results, i as int);
                    }
                    return Err(error);
                },
            }
            i += 1;
        }
        assert(analyzer_views(analyzers@) =~= values(results));
        Ok(analyzers)
    }

    /// Initializes a registry from a parsed document. Either every analyzer
    /// of the document is registered, in the order of the document, or the
    /// registry is left as it was.
    pub fn init_from_document(
        &self,
        registry: &mut AnalyzerRegistry,
        document: &JsonValue,
    ) -> (done: Result<(), ConfigError>)
        ensures
            match done {
                Ok(()) => initialized(self@, old(registry)@, document@) == Ok::<
                    Map<Seq<char>, AnalyzerView>,
                    ConfigError,
                >(final(registry)@),
                Err(error) => initialized(self@, old(registry)@, document@) == Err::<
                    Map<Seq<char>, AnalyzerView>,
                    ConfigError,
                >(error) && final(registry)@ == old(registry)@,
            },
    {
        let pipelines = match parse_configuration(document) {
            Ok(pipelines) => pipelines,
            Err(error) => { return Err(error); },
        };
        let analyzers = match self.compile_all(&pipelines) {
            Ok(analyzers) => analyzers,
            Err(error) => { return Err(error); },
        };
        let ghost declared = pipeline_views(pipelines@);
        let ghost made = analyzer_views(analyzers@);
        let ghost before = registry@;
        let count = pipelines.len();
        let mut i: usize = 0;
        for analyzer in it: analyzers.into_iter()
            invariant
                i == it.index(),
                it.seq().len() == count == pipelines@.len(),
                declared == pipeline_views(pipelines@),
                made == analyzer_views(it.seq()),
                registry@ == registered(before, declared, made, i as nat),
        {
            registry.register(pipelines[i].name.clone(), analyzer);
            i += 1;
        }
        Ok(())
    }

    /// Initializes a registry from the text of a configuration.
    pub fn init(&mut self, registry: &mut AnalyzerRegistry, config: &str) -> (done: Result<
        (),
        ConfigError,
    >)
        ensures
            final(self)@ == old(self)@,
            match done {
                Ok(()) => initialized_from_text(old(self)@, old(registry)@, config@) == Ok::<
                    Map<Seq<char>, AnalyzerView>,
                    ConfigError,
                >(final(registry)@),
                Err(error) => initialized_from_text(old(self)@, old(registry)@, config@) == Err::<
                    Map<Seq<char>, AnalyzerView>,
                    ConfigError,
                >(error) && final(registry)@ == old(registry)@,
            },
    {
        let document = match JsonValue::parse(config) {
            Ok(document) => document,
            Err(error) => { return Err(error); },
        };
        self.init_from_document(registry, &document)
    }
}

} // verus!
