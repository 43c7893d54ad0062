//! Scenario tests for the three transformers.
use demon_rdf::RdfError;
use demon_rdf::namespace::Namespace;
use demon_rdf::term::Term;
use demon_rdf::transformer::{
    BasicFusionRule, BasicFusionRuleTransformer, Demon, DemonCharacteristicTransformer,
    DemonTransformer, RaceTransformer, Transformer,
};

fn ns(base: &str) -> Namespace {
    Namespace::new(base.to_string()).unwrap()
}

const XSD_STRING: &str = "http://www.w3.org/2001/XMLSchema#string";
const XSD_INTEGER: &str = "http://www.w3.org/2001/XMLSchema#integer";
const RDF_TYPE: &str = "http://www.w3.org/1999/02/22-rdf-syntax-ns#type";
const SCHEMA_NAME: &str = "https://schema.org/name";

#[test]
fn pixie_yields_four_statements() {
    let demon_ns = ns("http://ex/d#");
    let race_ns = ns("http://ex/r#");
    let vocab_ns = ns("http://ex/v#");
    let mut t = DemonTransformer::new(&demon_ns, &race_ns, &vocab_ns).unwrap();
    t.add(Demon::new("Pixie".to_string(), "Fairy".to_string(), "3".to_string()));
    let statements = t.to_rdf().unwrap();
    assert_eq!(statements.len(), 4);
    let subject = Term::Iri("http://ex/d#Pixie".to_string());
    for s in &statements {
        assert_eq!(s.subject, subject);
    }
    assert_eq!(statements[0].predicate, Term::Iri(RDF_TYPE.to_string()));
    assert_eq!(statements[0].object, Term::Iri("http://ex/v#DemonSmt3".to_string()));
    assert_eq!(statements[1].predicate, Term::Iri(SCHEMA_NAME.to_string()));
    assert_eq!(
        statements[1].object,
        Term::Literal { lexical: "Pixie".to_string(), datatype: XSD_STRING.to_string() }
    );
    assert_eq!(statements[2].predicate, Term::Iri("http://ex/v#isOfRace".to_string()));
    assert_eq!(statements[2].object, Term::Iri("http://ex/r#Fairy".to_string()));
    assert_eq!(statements[3].predicate, Term::Iri("http://ex/v#hasBasedLevel".to_string()));
    assert_eq!(
        statements[3].object,
        Term::Literal { lexical: "3".to_string(), datatype: XSD_INTEGER.to_string() }
    );
}

#[test]
fn demon_name_with_space_gets_underscore_identifier() {
    let demon_ns = ns("http://ex/d#");
    let race_ns = ns("http://ex/r#");
    let vocab_ns = ns("http://ex/v#");
    let mut t = DemonTransformer::new(&demon_ns, &race_ns, &vocab_ns).unwrap();
    let d = Demon::new("Jack Frost".to_string(), "Fairy".to_string(), "7".to_string());
    assert_eq!(d.iri, "Jack_Frost");
    t.add(d);
    let statements = t.to_rdf().unwrap();
    assert_eq!(statements[0].subject, Term::Iri("http://ex/d#Jack_Frost".to_string()));
}

#[test]
fn two_demons_yield_eight_statements_in_order() {
    let demon_ns = ns("http://ex/d#");
    let race_ns = ns("http://ex/r#");
    let vocab_ns = ns("http://ex/v#");
    let mut t = DemonTransformer::new(&demon_ns, &race_ns, &vocab_ns).unwrap();
    t.add(Demon::new("Pixie".to_string(), "Fairy".to_string(), "3".to_string()));
    t.add(Demon::new("Cait Sith".to_string(), "Beast".to_string(), "28".to_string()));
    let statements = t.to_rdf().unwrap();
    assert_eq!(statements.len(), 8);
    assert_eq!(statements[4].subject, Term::Iri("http://ex/d#Cait_Sith".to_string()));
    assert_eq!(statements[6].object, Term::Iri("http://ex/r#Beast".to_string()));
}

#[test]
fn demon_to_rdf_is_deterministic() {
    let demon_ns = ns("http://ex/d#");
    let race_ns = ns("http://ex/r#");
    let vocab_ns = ns("http://ex/v#");
    let mut t = DemonTransformer::new(&demon_ns, &race_ns, &vocab_ns).unwrap();
    t.add(Demon::new("Pixie".to_string(), "Fairy".to_string(), "3".to_string()));
    assert_eq!(t.to_rdf().unwrap(), t.to_rdf().unwrap());
}

#[test]
fn non_numeric_level_is_passed_through() {
    let demon_ns = ns("http://ex/d#");
    let race_ns = ns("http://ex/r#");
    let vocab_ns = ns("http://ex/v#");
    let mut t = DemonTransformer::new(&demon_ns, &race_ns, &vocab_ns).unwrap();
    t.add(Demon::new("Pixie".to_string(), "Fairy".to_string(), "high".to_string()));
    let statements = t.to_rdf().unwrap();
    assert_eq!(
        statements[3].object,
        Term::Literal { lexical: "high".to_string(), datatype: XSD_INTEGER.to_string() }
    );
}

#[test]
fn race_set_collapses_duplicates() {
    let race_ns = ns("http://ex/r#");
    let vocab_ns = ns("http://ex/v#");
    let mut t = RaceTransformer::new(&race_ns, &vocab_ns).unwrap();
    t.add("Fairy".to_string());
    t.add("Beast".to_string());
    t.add("Fairy".to_string());
    assert_eq!(t.races().len(), 2);
    let statements = t.to_rdf().unwrap();
    assert_eq!(statements.len(), 4);
    let fairy = Term::Iri("http://ex/r#Fairy".to_string());
    let beast = Term::Iri("http://ex/r#Beast".to_string());
    assert_eq!(statements[0].subject, fairy);
    assert_eq!(statements[0].predicate, Term::Iri(RDF_TYPE.to_string()));
    assert_eq!(statements[0].object, Term::Iri("http://ex/v#Race".to_string()));
    assert_eq!(statements[1].subject, fairy);
    assert_eq!(statements[1].predicate, Term::Iri(SCHEMA_NAME.to_string()));
    assert_eq!(
        statements[1].object,
        Term::Literal { lexical: "Fairy".to_string(), datatype: XSD_STRING.to_string() }
    );
    assert_eq!(statements[2].subject, beast);
    assert_eq!(statements[3].subject, beast);
}

#[test]
fn identifier_to_rdf_is_deterministic() {
    let race_ns = ns("http://ex/r#");
    let id = "Fairy".to_string();
    let first = RaceTransformer::identifier_to_rdf(&race_ns, &id).unwrap();
    let second = RaceTransformer::identifier_to_rdf(&race_ns, &id).unwrap();
    assert_eq!(first, second);
    assert_eq!(first, Term::Iri("http://ex/r#Fairy".to_string()));
}

#[test]
fn identifier_to_rdf_rejects_malformed_local_name() {
    let race_ns = ns("http://ex/r#");
    let id = "has space".to_string();
    assert_eq!(
        RaceTransformer::identifier_to_rdf(&race_ns, &id),
        Err(RdfError::InvalidLocalName)
    );
}

fn fusion_transformer() -> BasicFusionRuleTransformer {
    let rules_ns = ns("http://ex/f#");
    let demon_ns = ns("http://ex/d#");
    let race_ns = ns("http://ex/r#");
    let vocab_ns = ns("http://ex/v#");
    BasicFusionRuleTransformer::new(&rules_ns, &demon_ns, &race_ns, &vocab_ns).unwrap()
}

fn rule(result: &str, demon1: &str, demon2: &str) -> BasicFusionRule {
    BasicFusionRule {
        result: result.to_string(),
        demon1: demon1.to_string(),
        demon2: demon2.to_string(),
    }
}

#[test]
fn wildcard_rule_yields_no_statements() {
    let mut t = fusion_transformer();
    t.add(rule("*", "Fairy", "Beast"));
    let statements = t.to_rdf().unwrap();
    assert_eq!(statements.len(), 0);
}

#[test]
fn wildcard_anywhere_in_result_excludes_the_rule() {
    let mut t = fusion_transformer();
    t.add(rule("Fairy*", "Fairy", "Beast"));
    t.add(rule("Holy", "Fairy", "Beast"));
    let statements = t.to_rdf().unwrap();
    assert_eq!(statements.len(), 3);
    assert_eq!(statements[2].object, Term::Iri("http://ex/f#Holy".to_string()));
}

#[test]
fn retained_rule_yields_three_statements_on_one_node() {
    let mut t = fusion_transformer();
    t.add(rule("Holy", "Fairy", "Beast"));
    let statements = t.to_rdf().unwrap();
    assert_eq!(statements.len(), 3);
    let node = Term::Blank("Fairy_Beast".to_string());
    for s in &statements {
        assert_eq!(s.subject, node);
    }
    assert_eq!(statements[0].predicate, Term::Iri("http://ex/v#withRace1".to_string()));
    assert_eq!(statements[0].object, Term::Iri("http://ex/r#Fairy".to_string()));
    assert_eq!(statements[1].predicate, Term::Iri("http://ex/v#withRace2".to_string()));
    assert_eq!(statements[1].object, Term::Iri("http://ex/r#Beast".to_string()));
    assert_eq!(
        statements[2].predicate,
        Term::Iri("http://ex/v#fusionRaceResult".to_string())
    );
    assert_eq!(statements[2].object, Term::Iri("http://ex/f#Holy".to_string()));
}

#[test]
fn same_pair_shares_one_node_with_two_results() {
    let mut t = fusion_transformer();
    t.add(rule("Holy", "Fairy", "Beast"));
    t.add(rule("Night", "Fairy", "Beast"));
    let statements = t.to_rdf().unwrap();
    assert_eq!(statements.len(), 6);
    let node = Term::Blank("Fairy_Beast".to_string());
    for s in &statements {
        assert_eq!(s.subject, node);
    }
    // The withRace1 and withRace2 statements of the two rules coincide.
    assert_eq!(statements[0], statements[3]);
    assert_eq!(statements[1], statements[4]);
    // The two result statements are distinct.
    assert_ne!(statements[2], statements[5]);
    assert_eq!(statements[2].object, Term::Iri("http://ex/f#Holy".to_string()));
    assert_eq!(statements[5].object, Term::Iri("http://ex/f#Night".to_string()));
}

#[test]
fn fusion_pair_with_space_is_rejected() {
    let mut t = fusion_transformer();
    t.add(rule("Holy", "has space", "Beast"));
    assert_eq!(t.to_rdf(), Err(RdfError::InvalidLocalName));
}
