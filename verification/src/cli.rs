//! The run's configuration: the optional command-line values and the
//! defaulting rule that fills in every absent one.
use vstd::prelude::*;
use vstd::string::*;

verus! {

/// The options a run may receive: IRI namespaces for the datasets and the
/// vocabulary, and the template and output paths.  Every field is optional;
/// [`CliArgs::with_defaults`] resolves the absent ones.
#[derive(Debug, Default)]
pub struct CliArgs {
    /// IRI namespace of the demon dataset.
    pub demon_rdf_namespace: Option<String>,
    /// IRI namespace of the race dataset.
    pub race_rdf_namespace: Option<String>,
    /// IRI namespace of the vocabulary.
    pub vocabulary_namespace: Option<String>,
    /// IRI namespace of the game.
    pub game_rdf_namespace: Option<String>,
    /// IRI namespace of the basic rules.
    pub basic_rules_rdf_namespace: Option<String>,
    /// Path of the RDF vocabulary template file.
    pub path_vocabulary: Option<String>,
    /// Path of the RDF game template file.
    pub path_game: Option<String>,
    /// Output folder of the datasets.
    pub out_path: Option<String>,
}

/// The configuration with every option resolved.
#[derive(Debug)]
pub struct ResolvedArgs {
    pub demon_rdf_namespace: String,
    pub race_rdf_namespace: String,
    pub vocabulary_namespace: String,
    pub game_rdf_namespace: String,
    pub basic_rules_rdf_namespace: String,
    pub path_vocabulary: String,
    pub path_game: String,
    pub out_path: String,
}

/// The given value, or the default where none was given.
pub open spec fn spec_or_default(given: Option<Seq<char>>, default: Seq<char>) -> Seq<char> {
    match given {
        Some(s) => s,
        None => default,
    }
}

fn or_default(given: Option<String>, default: &str) -> (r: String)
    ensures
        r@ == spec_or_default(given.deep_view(), default@),
{
    match given {
        Some(s) => s,
        None => String::from_str(default),
    }
}

impl CliArgs {
    /// Resolves every absent option to its default: the example namespace
    /// for all five namespaces, and the conventional locations for the two
    /// template files and the output folder.
    pub fn with_defaults(self) -> (r: ResolvedArgs)
        ensures
            r.demon_rdf_namespace@ == spec_or_default(
                self.demon_rdf_namespace.deep_view(),
                "http://example.org/"@,
            ),
            r.race_rdf_namespace@ == spec_or_default(
                self.race_rdf_namespace.deep_view(),
                "http://example.org/"@,
            ),
            r.vocabulary_namespace@ == spec_or_default(
                self.vocabulary_namespace.deep_view(),
                "http://example.org/"@,
            ),
            r.game_rdf_namespace@ == spec_or_default(
                self.game_rdf_namespace.deep_view(),
                "http://example.org/"@,
            ),
            r.basic_rules_rdf_namespace@ == spec_or_default(
                self.basic_rules_rdf_namespace.deep_view(),
                "http://example.org/"@,
            ),
            r.path_vocabulary@ == spec_or_default(
                self.path_vocabulary.deep_view(),
                "./vocabulary.ttl_template"@,
            ),
            r.path_game@ == spec_or_default(self.path_game.deep_view(), "./game.ttl_template"@),
            r.out_path@ == spec_or_default(self.out_path.deep_view(), "./output/"@),
    {
        ResolvedArgs {
            demon_rdf_namespace: or_default(self.demon_rdf_namespace, "http://example.org/"),
            race_rdf_namespace: or_default(self.race_rdf_namespace, "http://example.org/"),
            vocabulary_namespace: or_default(self.vocabulary_namespace, "http://example.org/"),
            game_rdf_namespace: or_default(self.game_rdf_namespace, "http://example.org/"),
            basic_rules_rdf_namespace: or_default(
                self.basic_rules_rdf_namespace,
                "http://example.org/",
            ),
            path_vocabulary: or_default(self.path_vocabulary, "./vocabulary.ttl_template"),
            path_game: or_default(self.path_game, "./game.ttl_template"),
            out_path: or_default(self.out_path, "./output/"),
        }
    }
}

} // verus!
