//! Turns tabular game records (demons, their races, and fusion rules) into an
//! RDF statement collection, and renders that collection as Turtle.
//!
//! The transformation engine is verified: identifier construction, namespace
//! resolution, statement generation, and deduplication of the race set all
//! carry contracts.  The final rendering step and the IRI grammar check are
//! delegated to the sophia crates behind trusted declarations.
use vstd::prelude::*;

pub mod cli;
pub mod identifier;
pub mod namespace;
pub mod vocabulary;
pub mod serializer;
pub mod template;
pub mod term;
pub mod transformer;

verus! {

/// The errors this library reports.  The run is meant to abort on any of
/// them: partial output is never written.
#[derive(Clone, Copy, Debug, PartialEq, Eq, Structural)]
pub enum RdfError {
    /// A base IRI handed in as a namespace is not a well-formed IRI reference.
    InvalidNamespace,
    /// A computed identifier segment cannot form a valid IRI or blank node label.
    InvalidLocalName,
    /// The output sink failed while the serialized text was being written.
    Io,
}

} // verus!
