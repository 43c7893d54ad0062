//! Rendering a statement collection as Turtle text.
//!
//! The statements themselves are the library's own verified model; this
//! module converts each term into a sophia term (rejecting malformed IRIs
//! and blank node labels on the way) and lets sophia's Turtle serializer
//! write the text into an in-memory buffer.
use vstd::prelude::*;
use crate::RdfError;
use crate::namespace::is_valid_iri_ref;
use crate::term::{SpecStatement, Statement, Term, is_valid_bnode_id};
use sophia_api::term::SimpleTerm;

verus! {

#[verifier::external_type_specification]
#[verifier::external_body]
pub struct ExSimpleTerm<'a>(SimpleTerm<'a>);

/// The Turtle text sophia's streaming serializer writes for a statement
/// sequence.  In streaming mode the text is a function of that sequence
/// alone: a fixed prefix header, then the statements in order.
pub uninterp spec fn turtle_of(statements: Seq<SpecStatement>) -> Seq<u8>;

/// Relies on `sophia_api::ns::IriRef::new` and `SimpleTerm::Iri`: builds the
/// IRI term for `value`, succeeding exactly when `value` is a well-formed
/// IRI reference.
#[verifier::external_body]
fn sophia_iri_term(value: &str) -> (r: Option<SimpleTerm<'static>>)
    ensures
        r is Some <==> is_valid_iri_ref(value@),
{
    let iri = sophia_api::ns::IriRef::new(sophia_api::MownStr::from(value.to_owned())).ok()?;
    Some(SimpleTerm::Iri(iri))
}

/// Relies on `sophia_api::term::bnode_id::BnodeId::new` and
/// `SimpleTerm::BlankNode`: builds the blank node term for `id`, succeeding
/// exactly when `id` is a valid blank node label.
#[verifier::external_body]
fn sophia_blank_term(id: &str) -> (r: Option<SimpleTerm<'static>>)
    ensures
        r is Some <==> is_valid_bnode_id(id@),
{
    let label = sophia_api::term::bnode_id::BnodeId::new(
        sophia_api::MownStr::from(id.to_owned()),
    ).ok()?;
    Some(SimpleTerm::BlankNode(label))
}

/// Relies on `sophia_api::ns::IriRef::new` and `SimpleTerm::LiteralDatatype`:
/// builds the datatype-tagged literal term, succeeding exactly when the
/// datatype is a well-formed IRI reference (the lexical form is free text).
#[verifier::external_body]
fn sophia_literal_term(lexical: &str, datatype: &str) -> (r: Option<SimpleTerm<'static>>)
    ensures
        r is Some <==> is_valid_iri_ref(datatype@),
{
    let dt = sophia_api::ns::IriRef::new(sophia_api::MownStr::from(datatype.to_owned())).ok()?;
    Some(SimpleTerm::LiteralDatatype(sophia_api::MownStr::from(lexical.to_owned()), dt))
}

/// Converts one term of the library into a sophia term; succeeds exactly
/// when the term is well formed.
fn to_sophia_term(t: &Term) -> (r: Option<SimpleTerm<'static>>)
    ensures
        r is Some <==> t@.wf(),
{
    match t {
        Term::Iri(s) => sophia_iri_term(s.as_str()),
        Term::Literal { lexical, datatype } => sophia_literal_term(
            lexical.as_str(),
            datatype.as_str(),
        ),
        Term::Blank(b) => sophia_blank_term(b.as_str()),
    }
}

/// Converts one statement into a sophia triple; succeeds exactly when all
/// three of its terms are well formed.
fn to_sophia_triple(s: &Statement) -> (r: Option<[SimpleTerm<'static>; 3]>)
    ensures
        r is Some <==> s@.wf(),
{
    let subject = to_sophia_term(&s.subject)?;
    let predicate = to_sophia_term(&s.predicate)?;
    let object = to_sophia_term(&s.object)?;
    Some([subject, predicate, object])
}

/// Relies on `sophia_turtle`'s `TurtleSerializer` in its default streaming
/// mode: the Turtle text written for a triple sequence depends on that
/// sequence alone, and writing into the in-memory buffer does not fail, so
/// the only failure is a statement whose terms do not convert.
#[verifier::external_body]
fn render_turtle(statements: &Vec<Statement>) -> (r: Result<Vec<u8>, RdfError>)
    ensures
        r is Ok <==> (forall|i: int|
            0 <= i < statements.deep_view().len() ==> (#[trigger] statements.deep_view()[i]).wf()),
        r matches Ok(b) ==> b@ == turtle_of(statements.deep_view()),
        r matches Err(e) ==> e == RdfError::InvalidLocalName,
{
    let graph: Option<Vec<[SimpleTerm<'static>; 3]>> =
        statements.iter().map(to_sophia_triple).collect();
    let graph = graph.ok_or(RdfError::InvalidLocalName)?;
    let mut serializer = sophia_turtle::serializer::turtle::TurtleSerializer::new_stringifier();
    sophia_api::serializer::TripleSerializer::serialize_graph(&mut serializer, &graph)
        .map_err(|_| RdfError::Io)?;
    Ok(sophia_api::serializer::Stringifier::as_utf8(&serializer).to_vec())
}

/// Renders the statement collection as Turtle text, ready to be written to
/// an output sink in one piece.  Succeeds exactly when every statement is
/// well formed; a malformed identifier is reported as `InvalidLocalName`
/// and nothing is rendered, so a partial dataset is never produced.
pub fn statements_to_turtle(statements: &Vec<Statement>) -> (r: Result<Vec<u8>, RdfError>)
    ensures
        r is Ok <==> (forall|i: int|
            0 <= i < statements.deep_view().len() ==> (#[trigger] statements.deep_view()[i]).wf()),
        r matches Ok(b) ==> b@ == turtle_of(statements.deep_view()),
        r matches Err(e) ==> e == RdfError::InvalidLocalName,
{
    render_turtle(statements)
}

} // verus!
