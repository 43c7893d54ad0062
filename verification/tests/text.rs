//! Tests for identifier construction, template instantiation, and the
//! configuration defaults.
use demon_rdf::cli::CliArgs;
use demon_rdf::identifier::{contains_char, local_identifier};
use demon_rdf::template::instantiate_template;

#[test]
fn local_identifier_replaces_spaces() {
    assert_eq!(local_identifier("Jack Frost"), "Jack_Frost");
    assert_eq!(local_identifier("A B C"), "A_B_C");
    assert_eq!(local_identifier("Pixie"), "Pixie");
    assert_eq!(local_identifier(""), "");
    assert_eq!(local_identifier("  "), "__");
}

#[test]
fn contains_char_finds_the_wildcard() {
    assert!(contains_char("*", '*'));
    assert!(contains_char("Fairy*", '*'));
    assert!(contains_char("a*b", '*'));
    assert!(!contains_char("Fairy", '*'));
    assert!(!contains_char("", '*'));
}

#[test]
fn template_substitutes_every_placeholder() {
    assert_eq!(
        instantiate_template("@prefix v: <{}> .", "http://ex/v#"),
        "@prefix v: <http://ex/v#> ."
    );
    assert_eq!(instantiate_template("{}-{}", "x"), "x-x");
    assert_eq!(instantiate_template("no placeholder", "x"), "no placeholder");
    assert_eq!(instantiate_template("", "x"), "");
    assert_eq!(instantiate_template("{{}}", "x"), "{x}");
    assert_eq!(instantiate_template("{}", ""), "");
}

#[test]
fn defaults_fill_absent_options_only() {
    let args = CliArgs {
        demon_rdf_namespace: Some("http://ex/d#".to_string()),
        race_rdf_namespace: None,
        vocabulary_namespace: None,
        game_rdf_namespace: None,
        basic_rules_rdf_namespace: None,
        path_vocabulary: None,
        path_game: None,
        out_path: Some("./elsewhere/".to_string()),
    };
    let resolved = args.with_defaults();
    assert_eq!(resolved.demon_rdf_namespace, "http://ex/d#");
    assert_eq!(resolved.race_rdf_namespace, "http://example.org/");
    assert_eq!(resolved.vocabulary_namespace, "http://example.org/");
    assert_eq!(resolved.game_rdf_namespace, "http://example.org/");
    assert_eq!(resolved.basic_rules_rdf_namespace, "http://example.org/");
    assert_eq!(resolved.path_vocabulary, "./vocabulary.ttl_template");
    assert_eq!(resolved.path_game, "./game.ttl_template");
    assert_eq!(resolved.out_path, "./elsewhere/");
}
