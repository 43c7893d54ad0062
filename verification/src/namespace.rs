//! Namespaces: validated base IRIs and resolution of local names to IRI terms.
use vstd::prelude::*;
use crate::RdfError;
use crate::term::{SpecTerm, Term};

verus! {

/// Whether a character sequence is a well-formed (absolute or relative) IRI
/// reference, as decided by sophia's RFC 3987 grammar.
pub uninterp spec fn is_valid_iri_ref(s: Seq<char>) -> bool;

/// Relies on `sophia_api::ns::IriRef::new` (sophia_iri): it accepts a string
/// exactly when the string matches the IRI-reference grammar of RFC 3987.
#[verifier::external_body]
fn check_iri_ref(s: &str) -> (b: bool)
    ensures
        b == is_valid_iri_ref(s@),
{
    sophia_api::ns::IriRef::new(s).is_ok()
}

/// A namespace: a base IRI under which local names are resolved.
///
/// [`Namespace::new`] only accepts well-formed base IRIs, and
/// [`Namespace::get`] re-checks every full IRI it builds, so a malformed name
/// fails at resolution time instead of being emitted.
#[derive(Debug)]
pub struct Namespace {
    base: String,
}

impl View for Namespace {
    type V = Seq<char>;

    closed spec fn view(&self) -> Seq<char> {
        self.base@
    }
}

impl Namespace {
    /// Builds a namespace from a base IRI; rejects a malformed base.
    pub fn new(base: String) -> (r: Result<Namespace, RdfError>)
        ensures
            r is Ok <==> is_valid_iri_ref(base@),
            r matches Ok(ns) ==> ns@ == base@,
            r matches Err(e) ==> e == RdfError::InvalidNamespace,
    {
        if check_iri_ref(base.as_str()) {
            Ok(Namespace { base })
        } else {
            Err(RdfError::InvalidNamespace)
        }
    }

    /// A copy of this namespace with the same base IRI.
    pub fn duplicate(&self) -> (r: Namespace)
        ensures
            r@ == self@,
    {
        Namespace { base: self.base.clone() }
    }

    /// The base IRI this namespace was built from.
    pub fn base(&self) -> (r: &str)
        ensures
            r@ == self@,
    {
        self.base.as_str()
    }

    /// Builds the IRI term for `suffix` under this namespace: the
    /// concatenation of the base IRI and the suffix.  Fails exactly when that
    /// concatenation is not a well-formed IRI reference.
    pub fn get(&self, suffix: &str) -> (r: Result<Term, RdfError>)
        ensures
            r is Ok <==> is_valid_iri_ref(self@ + suffix@),
            r matches Ok(t) ==> t@ == SpecTerm::Iri(self@ + suffix@),
            r matches Err(e) ==> e == RdfError::InvalidLocalName,
    {
        let full = self.base.clone().concat(suffix);
        if check_iri_ref(full.as_str()) {
            Ok(Term::Iri(full))
        } else {
            Err(RdfError::InvalidLocalName)
        }
    }
}

/// What [`resolve`] returns: the full IRI term for `local` under `base`, or
/// the error that names which of the two inputs is at fault.
pub open spec fn spec_resolve(base: Seq<char>, local: Seq<char>) -> Result<SpecTerm, RdfError> {
    if !is_valid_iri_ref(base) {
        Err(RdfError::InvalidNamespace)
    } else if !is_valid_iri_ref(base + local) {
        Err(RdfError::InvalidLocalName)
    } else {
        Ok(SpecTerm::Iri(base + local))
    }
}

/// Resolves `local` under the base IRI `base` in one step: rejects a
/// malformed base as `InvalidNamespace`, and a concatenation that is not a
/// well-formed IRI as `InvalidLocalName`.
pub fn resolve(base: String, local: &str) -> (r: Result<Term, RdfError>)
    ensures
        r matches Ok(t) ==> spec_resolve(base@, local@) matches Ok(s) && t@ == s,
        r matches Err(e) ==> spec_resolve(base@, local@) matches Err(e2) && e == e2,
{
    let ns = Namespace::new(base)?;
    ns.get(local)
}

} // verus!
