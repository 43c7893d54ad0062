//! The fixed vocabulary terms shared by every transformer: the RDF type
//! predicate, the schema.org name predicate, and the XSD datatype IRIs.
use vstd::prelude::*;
use crate::term::{SpecTerm, Term};
use vstd::string::*;

verus! {

/// The IRI of the RDF `type` predicate.
pub open spec fn rdf_type_iri() -> Seq<char> {
    "http://www.w3.org/1999/02/22-rdf-syntax-ns#type"@
}

/// The IRI of the schema.org `name` predicate.
pub open spec fn schema_name_iri() -> Seq<char> {
    "https://schema.org/name"@
}

/// The IRI of the XSD string datatype.
pub open spec fn xsd_string_iri() -> Seq<char> {
    "http://www.w3.org/2001/XMLSchema#string"@
}

/// The IRI of the XSD integer datatype.
pub open spec fn xsd_integer_iri() -> Seq<char> {
    "http://www.w3.org/2001/XMLSchema#integer"@
}

/// The RDF `type` predicate term.
pub fn rdf_type_term() -> (t: Term)
    ensures
        t@ == SpecTerm::Iri(rdf_type_iri()),
{
    Term::Iri(String::from_str("http://www.w3.org/1999/02/22-rdf-syntax-ns#type"))
}

/// The schema.org `name` predicate term.
pub fn schema_name_term() -> (t: Term)
    ensures
        t@ == SpecTerm::Iri(schema_name_iri()),
{
    Term::Iri(String::from_str("https://schema.org/name"))
}

/// The lexical text of the XSD string datatype IRI.
pub fn xsd_string_datatype() -> (s: String)
    ensures
        s@ == xsd_string_iri(),
{
    String::from_str("http://www.w3.org/2001/XMLSchema#string")
}

/// The lexical text of the XSD integer datatype IRI.
pub fn xsd_integer_datatype() -> (s: String)
    ensures
        s@ == xsd_integer_iri(),
{
    String::from_str("http://www.w3.org/2001/XMLSchema#integer")
}

} // verus!
