//! Named text-analysis pipelines built from a declarative configuration.
//!
//! A configuration document names analyzers; each pairs one tokenizer with an
//! ordered chain of token filters. The document is validated, every component
//! name is resolved against a fixed catalog, and the compiled analyzers are
//! published in a registry under their names.

pub mod error;
pub mod text;
pub mod results;
pub mod lookup;
pub mod json;
pub mod token;
pub mod components;
pub mod constructors;
pub mod catalog;
pub mod config;
pub mod analyzer;
pub mod registry;
pub mod initializer;
