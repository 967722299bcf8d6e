//! The configuration model: the pipelines that a document declares, and the
//! validation of the document's shape.
//!
//! A configuration is an object. Each member names an analyzer and holds an
//! object with a `tokenizer` and, optionally, a list of `filters`. A
//! tokenizer or filter is an object with a `name`, which is a text, and
//! optional `args` of any shape. Component names are not resolved here.

use vstd::prelude::*;
use crate::error::ConfigError;
use crate::json::{JsonTree, JsonValue, item_views, member_views, tree_field};

verus! {

/// A reference to a component of the catalog: its kind, and the arguments
/// it is to be made with, which are absent where the defaults are wanted.
#[derive(Debug)]
pub struct ComponentRef {
    pub kind: String,
    pub args: Option<JsonValue>,
}

/// A component reference as a mathematical value.
pub struct ComponentRefView {
    pub kind: Seq<char>,
    pub args: Option<JsonTree>,
}

impl View for ComponentRef {
    type V = ComponentRefView;

    open spec fn view(&self) -> ComponentRefView {
        ComponentRefView {
            kind: self.kind@,
            args: match self.args {
                Some(value) => Some(value@),
                None => None,
            },
        }
    }
}

/// The views of a list of component references.
pub open spec fn component_views(components: Seq<ComponentRef>) -> Seq<ComponentRefView> {
    components.map_values(|component: ComponentRef| component@)
}

/// The declaration of one analyzer: its name, its tokenizer, and its filters
/// in the order in which they apply.
#[derive(Debug)]
pub struct PipelineSpec {
    pub name: String,
    pub tokenizer: ComponentRef,
    pub filters: Vec<ComponentRef>,
}

/// A pipeline declaration as a mathematical value.
pub struct PipelineSpecView {
    pub name: Seq<char>,
    pub tokenizer: ComponentRefView,
    pub filters: Seq<ComponentRefView>,
}

impl View for PipelineSpec {
    type V = PipelineSpecView;

    open spec fn view(&self) -> PipelineSpecView {
        PipelineSpecView {
            name: self.name@,
            tokenizer: self.tokenizer@,
            filters: component_views(self.filters@),
        }
    }
}

impl PipelineSpec {
    /// The name is not empty.
    pub open spec fn wf(&self) -> bool {
        self.name@.len() > 0
    }
}

/// The views of a list of pipeline declarations.
pub open spec fn pipeline_views(pipelines: Seq<PipelineSpec>) -> Seq<PipelineSpecView> {
    pipelines.map_values(|pipeline: PipelineSpec| pipeline@)
}

/// The component that `tree` declares: `tree` must be an object whose `name`
/// is a text.
pub open spec fn component_of(tree: JsonTree) -> Option<ComponentRefView> {
    match tree_field(tree, "name"@) {
        Some(JsonTree::Text(kind)) => Some(
            ComponentRefView { kind, args: tree_field(tree, "args"@) },
        ),
        _ => None,
    }
}

/// Every item declares a component.
pub open spec fn all_components(items: Seq<JsonTree>) -> bool {
    forall|i: int| 0 <= i < items.len() ==> component_of(#[trigger] items[i]) is Some
}

/// The components that the items declare, in order.
pub open spec fn components_of(items: Seq<JsonTree>) -> Seq<ComponentRefView> {
    items.map_values(|item: JsonTree| component_of(item)->Some_0)
}

/// The filters that `tree` declares: none where it has no `filters`, and
/// otherwise `filters` must be an array of components.
pub open spec fn filters_of(tree: JsonTree) -> Option<Seq<ComponentRefView>> {
    match tree_field(tree, "filters"@) {
        None => Some(Seq::empty()),
        Some(JsonTree::Array(items)) => if all_components(items) {
            Some(components_of(items))
        } else {
            None
        },
        Some(_) => None,
    }
}

/// The pipeline that the member `name` with value `tree` declares: the name
/// must not be empty, and `tree` must be an object with a `tokenizer`
/// component and well-formed `filters`.
pub open spec fn pipeline_of(name: Seq<char>, tree: JsonTree) -> Option<PipelineSpecView> {
    if name.len() == 0 {
        None
    } else {
        match tree_field(tree, "tokenizer"@) {
            Some(tokenizer_tree) => match (component_of(tokenizer_tree), filters_of(tree)) {
                (Some(tokenizer), Some(filters)) => Some(
                    PipelineSpecView { name, tokenizer, filters },
                ),
                _ => None,
            },
            None => None,
        }
    }
}

/// Every member declares a pipeline.
pub open spec fn all_pipelines(members: Seq<(Seq<char>, JsonTree)>) -> bool {
    forall|i: int|
        0 <= i < members.len() ==> pipeline_of((#[trigger] members[i]).0, members[i].1) is Some
}

/// The pipelines that the members declare, in order.
pub open spec fn pipelines_of(members: Seq<(Seq<char>, JsonTree)>) -> Seq<PipelineSpecView> {
    members.map_values(|member: (Seq<char>, JsonTree)| pipeline_of(member.0, member.1)->Some_0)
}

/// The configuration that a document declares: the document must be an
/// object of which every member declares a pipeline. The pipelines come in
/// the order of the members.
pub open spec fn configuration_of(tree: JsonTree) -> Option<Seq<PipelineSpecView>> {
    match tree {
        JsonTree::Object(members) => if all_pipelines(members) {
            Some(pipelines_of(members))
        } else {
            None
        },
        _ => None,
    }
}

/// Reads a component reference.
pub fn parse_component(value: &JsonValue) -> (parsed: Result<ComponentRef, ConfigError>)
    ensures
        match parsed {
            Ok(component) => component_of(value@) == Some(component@),
            Err(error) => component_of(value@) is None && error == ConfigError::InvalidStructure,
        },
{
    match value.field("name") {
        Some(JsonValue::Text(kind)) => {
            let args = match value.field("args") {
                Some(args) => Some(args.deep_copy()),
                None => None,
            };
            Ok(ComponentRef { kind: kind.clone(), args })
        },
        _ => Err(ConfigError::InvalidStructure),
    }
}

/// Reads the list of filters of a pipeline.
fn parse_filters(value: &JsonValue) -> (parsed: Result<Vec<ComponentRef>, ConfigError>)
    ensures
        match parsed {
            Ok(filters) => filters_of(value@) == Some(component_views(filters@)),
            Err(error) => filters_of(value@) is None && error == ConfigError::InvalidStructure,
        },
{
    match value.field("filters") {
        None => {
            let filters: Vec<ComponentRef> = Vec::new();
            assert(component_views(filters@) =~= Seq::empty());
            Ok(filters)
        },
        Some(JsonValue::Array(items)) => {
            let ghost trees = item_views(items@);
            let mut filters: Vec<ComponentRef> = Vec::new();
            let mut i: usize = 0;
            while i < items.len()
                invariant
                    i <= items@.len(),
                    trees == item_views(items@),
                    tree_field(value@, "filters"@) == Some(JsonTree::Array(trees)),
                    filters@.len() == i,
                    forall|j: int| 0 <= j < i ==> component_of(#[trigger] trees[j]) is Some,
                    forall|j: int|
                        0 <= j < i ==> (#[trigger] filters@[j])@ == component_of(trees[j])->Some_0,
                decreases items@.len() - i,
            {
                match parse_component(&items[i]) {
                    Ok(component) => {
                        filters.push(component);
                    },
                    Err(error) => {
                        assert(component_of(trees[i as int]) is None);
                        return Err(error);
                    },
                }
                i += 1;
            }
            assert(component_views(filters@) =~= components_of(trees));
            Ok(filters)
        },
        Some(_) => Err(ConfigError::InvalidStructure),
    }
}

/// Reads the declaration of the analyzer `name`.
pub fn parse_pipeline(name: &str, value: &JsonValue) -> (parsed: Result<PipelineSpec, ConfigError>)
    ensures
        match parsed {
            Ok(pipeline) => pipeline_of(name@, value@) == Some(pipeline@) && pipeline.wf(),
            Err(error) => pipeline_of(name@, value@) is None && error
                == ConfigError::InvalidStructure,
        },
{
    if name.is_empty() {
        return Err(ConfigError::InvalidStructure);
    }
    let tokenizer = match value.field("tokenizer") {
        Some(tokenizer_value) => match parse_component(tokenizer_value) {
            Ok(tokenizer) => tokenizer,
            Err(error) => { return Err(error); },
        },
        None => { return Err(ConfigError::InvalidStructure); },
    };
    let filters = match parse_filters(value) {
        Ok(filters) => filters,
        Err(error) => { return Err(error); },
    };
    Ok(PipelineSpec { name: name.to_owned(), tokenizer, filters })
}

/// Reads a whole configuration. The document is refused as a whole where any
/// part of it does not have the required shape.
pub fn parse_configuration(document: &JsonValue) -> (parsed: Result<
    Vec<PipelineSpec>,
    ConfigError,
>)
    ensures
        match parsed {
            Ok(pipelines) => configuration_of(document@) == Some(pipeline_views(pipelines@))
                && forall|i: int| 0 <= i < pipelines@.len() ==> (#[trigger] pipelines@[i]).wf(),
            Err(error) => configuration_of(document@) is None && error
                == ConfigError::InvalidStructure,
        },
{
    match document {
        JsonValue::Object(members) => {
            let ghost trees = member_views(members@);
            let mut pipelines: Vec<PipelineSpec> = Vec::new();
            let mut i: usize = 0;
            while i < members.len()
                invariant
                    i <= members@.len(),
                    trees == member_views(members@),
                    document@ == JsonTree::Object(trees),
                    pipelines@.len() == i,
                    forall|j: int|
                        0 <= j < i ==> pipeline_of((#[trigger] trees[j]).0, trees[j].1) is Some,
                    forall|j: int|
                        0 <= j < i ==> (#[trigger] pipelines@[j])@ == pipeline_of(
                            trees[j].0,
                            trees[j].1,
                        )->Some_0,
                    forall|j: int| 0 <= j < i ==> (#[trigger] pipelines@[j]).wf(),
                decreases members@.len() - i,
            {
                match parse_pipeline(members[i].0.as_str(), &members[i].1) {
                    Ok(pipeline) => {
                        pipelines.push(pipeline);
                    },
                    Err(error) => {
                        assert(pipeline_of(trees[i as int].0, trees[i as int].1) is None);
                        return Err(error);
                    },
                }
                i += 1;
            }
            assert(pipeline_views(pipelines@) =~= pipelines_of(trees));
            Ok(pipelines)
        },
        _ => Err(ConfigError::InvalidStructure),
    }
}

} // verus!
