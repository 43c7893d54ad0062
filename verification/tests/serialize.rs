//! Namespace resolution and Turtle rendering, including the round trip
//! through a standards-compliant parser.
use demon_rdf::RdfError;
use demon_rdf::namespace::{Namespace, resolve};
use demon_rdf::serializer::statements_to_turtle;
use demon_rdf::term::{Statement, Term};
use demon_rdf::transformer::{
    BasicFusionRule, BasicFusionRuleTransformer, Demon, DemonTransformer, RaceTransformer,
    Transformer,
};
use sophia_api::parser::TripleParser;
use sophia_api::source::TripleSource;
use sophia_api::term::TermKind;
use sophia_api::triple::Triple;
use sophia_turtle::parser::turtle::TurtleParser;
use std::collections::HashSet;

#[test]
fn namespace_accepts_well_formed_bases() {
    let ns = Namespace::new("http://example.org/".to_string()).unwrap();
    assert_eq!(ns.base(), "http://example.org/");
    // A relative IRI reference is a legal namespace base too.
    assert!(Namespace::new("demons/".to_string()).is_ok());
}

#[test]
fn namespace_rejects_malformed_bases() {
    assert!(matches!(
        Namespace::new("no spaces allowed".to_string()),
        Err(RdfError::InvalidNamespace)
    ));
    assert!(matches!(
        Namespace::new("http://ex/<bad>".to_string()),
        Err(RdfError::InvalidNamespace)
    ));
}

#[test]
fn get_concatenates_and_validates() {
    let ns = Namespace::new("http://ex/d#".to_string()).unwrap();
    assert_eq!(ns.get("Pixie").unwrap(), Term::Iri("http://ex/d#Pixie".to_string()));
    assert_eq!(ns.get("has space"), Err(RdfError::InvalidLocalName));
}

#[test]
fn resolve_names_the_faulty_input() {
    assert_eq!(
        resolve("http://ex/d#".to_string(), "Pixie").unwrap(),
        Term::Iri("http://ex/d#Pixie".to_string())
    );
    assert_eq!(
        resolve("bad base".to_string(), "Pixie"),
        Err(RdfError::InvalidNamespace)
    );
    assert_eq!(
        resolve("http://ex/d#".to_string(), "bad local"),
        Err(RdfError::InvalidLocalName)
    );
}

#[test]
fn malformed_statement_is_rejected_not_rendered() {
    let statements = vec![Statement::new(
        Term::Iri("has space".to_string()),
        Term::Iri("http://ex/p".to_string()),
        Term::Iri("http://ex/o".to_string()),
    )];
    assert_eq!(statements_to_turtle(&statements), Err(RdfError::InvalidLocalName));
    let statements = vec![Statement::new(
        Term::Blank("not a label".to_string()),
        Term::Iri("http://ex/p".to_string()),
        Term::Iri("http://ex/o".to_string()),
    )];
    assert_eq!(statements_to_turtle(&statements), Err(RdfError::InvalidLocalName));
}

#[test]
fn empty_collection_renders_and_parses_to_nothing() {
    let statements: Vec<Statement> = Vec::new();
    let text = String::from_utf8(statements_to_turtle(&statements).unwrap()).unwrap();
    assert_eq!(parse_reprs(&text).len(), 0);
}

/// A canonical textual form for one parsed term; blank node labels are
/// erased, since RDF set equality holds up to blank node naming.
fn term_repr<T: sophia_api::term::Term>(t: T) -> String {
    match t.kind() {
        TermKind::Iri => format!("I:{}", t.iri().unwrap().as_str()),
        TermKind::BlankNode => "B".to_string(),
        TermKind::Literal => format!(
            "L:{}^^{}",
            t.lexical_form().unwrap(),
            t.datatype().unwrap().as_str()
        ),
        _ => panic!("unexpected term kind"),
    }
}

/// The same canonical form for a term of the library.
fn lib_repr(t: &Term) -> String {
    match t {
        Term::Iri(s) => format!("I:{}", s),
        Term::Blank(_) => "B".to_string(),
        Term::Literal { lexical, datatype } => format!("L:{}^^{}", lexical, datatype),
    }
}

fn lib_reprs(statements: &[Statement]) -> HashSet<(String, String, String)> {
    statements
        .iter()
        .map(|s| (lib_repr(&s.subject), lib_repr(&s.predicate), lib_repr(&s.object)))
        .collect()
}

fn parse_reprs(text: &str) -> HashSet<(String, String, String)> {
    let parser = TurtleParser::default();
    let mut out = HashSet::new();
    parser
        .parse_str(text)
        .for_each_triple(|t| {
            out.insert((term_repr(t.s()), term_repr(t.p()), term_repr(t.o())));
        })
        .unwrap();
    out
}

fn ns(base: &str) -> Namespace {
    Namespace::new(base.to_string()).unwrap()
}

#[test]
fn demon_statements_round_trip_through_a_parser() {
    let demon_ns = ns("http://ex/d#");
    let race_ns = ns("http://ex/r#");
    let vocab_ns = ns("http://ex/v#");
    let mut t = DemonTransformer::new(&demon_ns, &race_ns, &vocab_ns).unwrap();
    t.add(Demon::new("Pixie".to_string(), "Fairy".to_string(), "3".to_string()));
    t.add(Demon::new("Jack Frost".to_string(), "Fairy".to_string(), "7".to_string()));
    let statements = t.to_rdf().unwrap();
    let text = String::from_utf8(statements_to_turtle(&statements).unwrap()).unwrap();
    assert_eq!(parse_reprs(&text), lib_reprs(&statements));
}

#[test]
fn race_statements_round_trip_through_a_parser() {
    let race_ns = ns("http://ex/r#");
    let vocab_ns = ns("http://ex/v#");
    let mut t = RaceTransformer::new(&race_ns, &vocab_ns).unwrap();
    t.add("Fairy".to_string());
    t.add("Beast".to_string());
    let statements = t.to_rdf().unwrap();
    let text = String::from_utf8(statements_to_turtle(&statements).unwrap()).unwrap();
    assert_eq!(parse_reprs(&text), lib_reprs(&statements));
}

#[test]
fn fusion_statements_round_trip_through_a_parser() {
    let rules_ns = ns("http://ex/f#");
    let demon_ns = ns("http://ex/d#");
    let race_ns = ns("http://ex/r#");
    let vocab_ns = ns("http://ex/v#");
    let mut t =
        BasicFusionRuleTransformer::new(&rules_ns, &demon_ns, &race_ns, &vocab_ns).unwrap();
    t.add(BasicFusionRule {
        result: "Holy".to_string(),
        demon1: "Fairy".to_string(),
        demon2: "Beast".to_string(),
    });
    t.add(BasicFusionRule {
        result: "*".to_string(),
        demon1: "Holy".to_string(),
        demon2: "Beast".to_string(),
    });
    let statements = t.to_rdf().unwrap();
    assert_eq!(statements.len(), 3);
    let text = String::from_utf8(statements_to_turtle(&statements).unwrap()).unwrap();
    assert_eq!(parse_reprs(&text), lib_reprs(&statements));
}

#[test]
fn to_turtle_matches_the_two_step_pipeline() {
    let demon_ns = ns("http://ex/d#");
    let race_ns = ns("http://ex/r#");
    let vocab_ns = ns("http://ex/v#");
    let mut t = DemonTransformer::new(&demon_ns, &race_ns, &vocab_ns).unwrap();
    t.add(Demon::new("Pixie".to_string(), "Fairy".to_string(), "3".to_string()));
    let two_step = statements_to_turtle(&t.to_rdf().unwrap()).unwrap();
    assert_eq!(t.to_turtle().unwrap(), two_step);
}

#[test]
fn to_turtle_rejects_a_malformed_record() {
    let demon_ns = ns("http://ex/d#");
    let race_ns = ns("http://ex/r#");
    let vocab_ns = ns("http://ex/v#");
    let mut t = DemonTransformer::new(&demon_ns, &race_ns, &vocab_ns).unwrap();
    let mut d = Demon::new("Pixie".to_string(), "Fairy".to_string(), "3".to_string());
    d.iri = "still has spaces".to_string();
    t.add(d);
    assert_eq!(t.to_turtle(), Err(RdfError::InvalidLocalName));
}

#[test]
fn literal_with_quotes_survives_the_round_trip() {
    let demon_ns = ns("http://ex/d#");
    let race_ns = ns("http://ex/r#");
    let vocab_ns = ns("http://ex/v#");
    let mut t = DemonTransformer::new(&demon_ns, &race_ns, &vocab_ns).unwrap();
    let mut d = Demon::new("Pixie".to_string(), "Fairy".to_string(), "3".to_string());
    d.name = "Pixie \"the quick\"\nof Yosuga".to_string();
    t.add(d);
    let statements = t.to_rdf().unwrap();
    let text = String::from_utf8(statements_to_turtle(&statements).unwrap()).unwrap();
    assert_eq!(parse_reprs(&text), lib_reprs(&statements));
}
