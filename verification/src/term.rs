//! The statement model: RDF terms and subject-predicate-object statements.
use vstd::prelude::*;
use crate::namespace::is_valid_iri_ref;

verus! {

/// Whether a character sequence is a valid blank node label (Turtle's
/// `BLANK_NODE_LABEL` rule, without the leading `_:`), as decided by sophia.
pub uninterp spec fn is_valid_bnode_id(s: Seq<char>) -> bool;

/// Relies on `sophia_api::term::bnode_id::BnodeId::new`: it accepts a string
/// exactly when the string matches Turtle's `BLANK_NODE_LABEL` rule.
#[verifier::external_body]
pub(crate) fn check_bnode_id(s: &str) -> (b: bool)
    ensures
        b == is_valid_bnode_id(s@),
{
    sophia_api::term::bnode_id::BnodeId::new(s).is_ok()
}

/// Mathematical model of a [`Term`].
pub enum SpecTerm {
    /// An IRI reference, as the full character sequence.
    Iri(Seq<char>),
    /// A datatype-tagged literal: a lexical form and the IRI of its datatype.
    Literal { lexical: Seq<char>, datatype: Seq<char> },
    /// A blank node, named by its label (without the leading `_:`).
    Blank(Seq<char>),
}

impl SpecTerm {
    /// A term is well formed when the text it holds fits its role: a
    /// well-formed IRI for IRI terms and literal datatypes, a valid blank
    /// node label for blank nodes.  Only well-formed terms serialize.
    pub open spec fn wf(self) -> bool {
        match self {
            SpecTerm::Iri(s) => is_valid_iri_ref(s),
            SpecTerm::Literal { lexical, datatype } => is_valid_iri_ref(datatype),
            SpecTerm::Blank(b) => is_valid_bnode_id(b),
        }
    }
}

/// An RDF term: an IRI reference, a datatype-tagged literal, or a blank node.
#[derive(Clone, Debug, PartialEq, Eq)]
pub enum Term {
    /// An IRI reference, held as the full IRI text.
    Iri(String),
    /// A datatype-tagged literal: a lexical form and the IRI of its datatype.
    Literal { lexical: String, datatype: String },
    /// A blank node, named by its label (without the leading `_:`).
    Blank(String),
}

impl View for Term {
    type V = SpecTerm;

    open spec fn view(&self) -> SpecTerm {
        match self {
            Term::Iri(s) => SpecTerm::Iri(s@),
            Term::Literal { lexical, datatype } => SpecTerm::Literal {
                lexical: lexical@,
                datatype: datatype@,
            },
            Term::Blank(b) => SpecTerm::Blank(b@),
        }
    }
}

impl DeepView for Term {
    type V = SpecTerm;

    open spec fn deep_view(&self) -> SpecTerm {
        self.view()
    }
}

/// Mathematical model of a [`Statement`].
pub struct SpecStatement {
    pub subject: SpecTerm,
    pub predicate: SpecTerm,
    pub object: SpecTerm,
}

impl SpecStatement {
    /// A statement is well formed when all three of its terms are.
    pub open spec fn wf(self) -> bool {
        self.subject.wf() && self.predicate.wf() && self.object.wf()
    }
}

/// One atomic fact: an ordered (subject, predicate, object) triple.
#[derive(Clone, Debug, PartialEq, Eq)]
pub struct Statement {
    pub subject: Term,
    pub predicate: Term,
    pub object: Term,
}

impl View for Statement {
    type V = SpecStatement;

    open spec fn view(&self) -> SpecStatement {
        SpecStatement {
            subject: self.subject@,
            predicate: self.predicate@,
            object: self.object@,
        }
    }
}

impl DeepView for Statement {
    type V = SpecStatement;

    open spec fn deep_view(&self) -> SpecStatement {
        self.view()
    }
}

impl Term {
    /// A copy of this term holding the same text.
    pub fn duplicate(&self) -> (r: Term)
        ensures
            r@ == self@,
    {
        match self {
            Term::Iri(s) => Term::Iri(s.clone()),
            Term::Literal { lexical, datatype } => Term::Literal {
                lexical: lexical.clone(),
                datatype: datatype.clone(),
            },
            Term::Blank(b) => Term::Blank(b.clone()),
        }
    }
}

impl Statement {
    /// Builds the statement (subject, predicate, object).
    pub fn new(subject: Term, predicate: Term, object: Term) -> (r: Statement)
        ensures
            r@ == (SpecStatement { subject: subject@, predicate: predicate@, object: object@ }),
    {
        Statement { subject, predicate, object }
    }
}

} // verus!
