//! The transformation engine: accumulators that turn game records into RDF
//! statement collections.
//!
//! Each transformer is built once with its vocabulary terms pre-resolved,
//! collects records while the input is parsed, and derives the full statement
//! collection in one pass.  The derivation is specified exactly: the
//! statement sequence each `to_rdf` returns is pinned by a spec function over
//! the accumulated records.
use vstd::prelude::*;
use vstd::string::*;
use crate::RdfError;
use crate::identifier::{local_identifier, spec_contains_char, spec_local_identifier, contains_char};
use crate::namespace::{Namespace, is_valid_iri_ref};
use crate::serializer::{statements_to_turtle, turtle_of};
use crate::term::{SpecStatement, SpecTerm, Statement, Term, is_valid_bnode_id, check_bnode_id};
use crate::vocabulary::{
    rdf_type_iri, rdf_type_term, schema_name_iri, schema_name_term, xsd_integer_datatype,
    xsd_integer_iri, xsd_string_datatype, xsd_string_iri,
};

verus! {

/// Mathematical model of a [`Demon`] record.
#[verifier::ext_equal]
pub struct SpecDemon {
    pub name: Seq<char>,
    pub race: Seq<char>,
    pub lv: Seq<char>,
    pub iri: Seq<char>,
}

/// One entity record: a demon's display name, its race (a foreign key into
/// the race set by value), its string-encoded base level, and the local
/// identifier segment computed from the name.
#[derive(Clone, Debug, PartialEq, Eq)]
pub struct Demon {
    pub name: String,
    pub race: String,
    pub lv: String,
    pub iri: String,
}

impl View for Demon {
    type V = SpecDemon;

    open spec fn view(&self) -> SpecDemon {
        SpecDemon { name: self.name@, race: self.race@, lv: self.lv@, iri: self.iri@ }
    }
}

impl DeepView for Demon {
    type V = SpecDemon;

    open spec fn deep_view(&self) -> SpecDemon {
        self.view()
    }
}

impl Demon {
    /// Builds a record from its three parsed fields and computes the local
    /// identifier segment from the display name (spaces become underscores).
    pub fn new(name: String, race: String, lv: String) -> (r: Demon)
        ensures
            r@.name == name@,
            r@.race == race@,
            r@.lv == lv@,
            r@.iri == spec_local_identifier(name@),
    {
        let iri = local_identifier(name.as_str());
        Demon { name, race, lv, iri }
    }
}

/// Mathematical model of a [`BasicFusionRule`] record.
#[verifier::ext_equal]
pub struct SpecBasicFusionRule {
    pub result: Seq<char>,
    pub demon1: Seq<char>,
    pub demon2: Seq<char>,
}

/// One fusion rule: the race that results from fusing a demon of race
/// `demon1` with one of race `demon2`.  A `result` holding the wildcard
/// marker `*` means "unspecified"; such rules are dropped from the output.
#[derive(Clone, Debug, PartialEq, Eq)]
pub struct BasicFusionRule {
    pub result: String,
    pub demon1: String,
    pub demon2: String,
}

impl View for BasicFusionRule {
    type V = SpecBasicFusionRule;

    open spec fn view(&self) -> SpecBasicFusionRule {
        SpecBasicFusionRule { result: self.result@, demon1: self.demon1@, demon2: self.demon2@ }
    }
}

impl DeepView for BasicFusionRule {
    type V = SpecBasicFusionRule;

    open spec fn deep_view(&self) -> SpecBasicFusionRule {
        self.view()
    }
}

/// Transforms a payload of accumulated records into an RDF statement
/// collection, and renders it as Turtle text for an output sink.
pub trait Transformer {
    /// Derives the full statement collection from the accumulated records.
    fn to_rdf(&self) -> Result<Vec<Statement>, RdfError>;

    /// Derives the statement collection and renders it as Turtle in one
    /// step; the caller only has to write the returned bytes out whole.
    fn to_turtle(&self) -> Result<Vec<u8>, RdfError>;
}

/// The shared naming authority for demon characteristics: every component
/// that needs the term of a race (or of any characteristic identified by a
/// plain string) resolves it through this one operation, so the same string
/// always maps to the same term.
pub trait DemonCharacteristicTransformer {
    /// The IRI term for `id` under `namespace`: the concatenation of the
    /// two, rejected when it is not a well-formed IRI reference.
    fn identifier_to_rdf(namespace: &Namespace, id: &String) -> (r: Result<Term, RdfError>)
        ensures
            r is Ok <==> is_valid_iri_ref(namespace@ + id@),
            r matches Ok(t) ==> t@ == SpecTerm::Iri(namespace@ + id@),
            r matches Err(e) ==> e == RdfError::InvalidLocalName,
    ;
}

/// Mathematical model of a [`DemonTransformer`].
#[verifier::ext_equal]
pub struct SpecDemonTransformer {
    pub demon: Seq<SpecDemon>,
    pub namespace: Seq<char>,
    pub race_namespace: Seq<char>,
    pub demon_term: SpecTerm,
    pub a_term: SpecTerm,
    pub name_term: SpecTerm,
    pub race_term: SpecTerm,
    pub lv_term: SpecTerm,
}

/// Transforms [`Demon`] records into RDF statements: four per record.
pub struct DemonTransformer {
    /// The accumulated records, in insertion order.
    pub demon: Vec<Demon>,
    namespace: Namespace,
    race_namespace: Namespace,
    /// RDF class of the demons.
    demon_term: Term,
    /// RDF type predicate.
    a_term: Term,
    /// RDF predicate to define a name.
    name_term: Term,
    /// RDF predicate to define the race of the demon.
    race_term: Term,
    /// RDF predicate to define the base level of a demon.
    lv_term: Term,
}

impl View for DemonTransformer {
    type V = SpecDemonTransformer;

    closed spec fn view(&self) -> SpecDemonTransformer {
        SpecDemonTransformer {
            demon: self.demon.deep_view(),
            namespace: self.namespace@,
            race_namespace: self.race_namespace@,
            demon_term: self.demon_term@,
            a_term: self.a_term@,
            name_term: self.name_term@,
            race_term: self.race_term@,
            lv_term: self.lv_term@,
        }
    }
}

/// The four statements one [`Demon`] record contributes: its type, its name
/// as a string literal, its race reference, and its base level as an integer
/// literal — all under the one subject resolved from the record's local
/// identifier.
pub open spec fn spec_demon_statements_for(t: SpecDemonTransformer, d: SpecDemon) -> Seq<
    SpecStatement,
> {
    let subject = SpecTerm::Iri(t.namespace + d.iri);
    seq![
        SpecStatement { subject, predicate: t.a_term, object: t.demon_term },
        SpecStatement {
            subject,
            predicate: t.name_term,
            object: SpecTerm::Literal { lexical: d.name, datatype: xsd_string_iri() },
        },
        SpecStatement {
            subject,
            predicate: t.race_term,
            object: SpecTerm::Iri(t.race_namespace + d.race),
        },
        SpecStatement {
            subject,
            predicate: t.lv_term,
            object: SpecTerm::Literal { lexical: d.lv, datatype: xsd_integer_iri() },
        },
    ]
}

/// The statement collection for a sequence of records, in insertion order.
pub open spec fn spec_demon_statements(t: SpecDemonTransformer, demons: Seq<SpecDemon>) -> Seq<
    SpecStatement,
>
    decreases demons.len(),
{
    if demons.len() == 0 {
        Seq::empty()
    } else {
        spec_demon_statements(t, demons.drop_last()) + spec_demon_statements_for(
            t,
            demons.last(),
        )
    }
}

/// Whether one record's identifiers resolve: its subject IRI under the
/// entity namespace and its race IRI under the race namespace.
pub open spec fn spec_demon_record_ok(t: SpecDemonTransformer, d: SpecDemon) -> bool {
    is_valid_iri_ref(t.namespace + d.iri) && is_valid_iri_ref(t.race_namespace + d.race)
}

/// Whether every accumulated record resolves.
pub open spec fn spec_demon_ok(t: SpecDemonTransformer, demons: Seq<SpecDemon>) -> bool {
    forall|i: int| 0 <= i < demons.len() ==> spec_demon_record_ok(t, #[trigger] demons[i])
}

impl DemonTransformer {
    /// Builds the transformer with its vocabulary terms pre-resolved: the
    /// demon class and the race and level predicates under the vocabulary
    /// namespace, plus the fixed RDF type and schema.org name predicates.
    /// Fails when one of the vocabulary terms does not resolve.
    pub fn new(
        namespace: &Namespace,
        race_namespace: &Namespace,
        vocabulary_namespace: &Namespace,
    ) -> (r: Result<DemonTransformer, RdfError>)
        ensures
            r is Ok <==> is_valid_iri_ref(vocabulary_namespace@ + "DemonSmt3"@) && is_valid_iri_ref(
                vocabulary_namespace@ + "isOfRace"@,
            ) && is_valid_iri_ref(vocabulary_namespace@ + "hasBasedLevel"@),
            r matches Ok(t) ==> t@ == (SpecDemonTransformer {
                demon: Seq::empty(),
                namespace: namespace@,
                race_namespace: race_namespace@,
                demon_term: SpecTerm::Iri(vocabulary_namespace@ + "DemonSmt3"@),
                a_term: SpecTerm::Iri(rdf_type_iri()),
                name_term: SpecTerm::Iri(schema_name_iri()),
                race_term: SpecTerm::Iri(vocabulary_namespace@ + "isOfRace"@),
                lv_term: SpecTerm::Iri(vocabulary_namespace@ + "hasBasedLevel"@),
            }),
            r matches Err(e) ==> e == RdfError::InvalidLocalName,
    {
        let demon_term = vocabulary_namespace.get("DemonSmt3")?;
        let race_term = vocabulary_namespace.get("isOfRace")?;
        let lv_term = vocabulary_namespace.get("hasBasedLevel")?;
        let built = DemonTransformer {
            demon: Vec::new(),
            namespace: namespace.duplicate(),
            race_namespace: race_namespace.duplicate(),
            demon_term,
            a_term: rdf_type_term(),
            name_term: schema_name_term(),
            race_term,
            lv_term,
        };
        proof {
            assert(built@ =~= (SpecDemonTransformer {
                demon: Seq::empty(),
                namespace: namespace@,
                race_namespace: race_namespace@,
                demon_term: SpecTerm::Iri(vocabulary_namespace@ + "DemonSmt3"@),
                a_term: SpecTerm::Iri(rdf_type_iri()),
                name_term: SpecTerm::Iri(schema_name_iri()),
                race_term: SpecTerm::Iri(vocabulary_namespace@ + "isOfRace"@),
                lv_term: SpecTerm::Iri(vocabulary_namespace@ + "hasBasedLevel"@),
            }));
        }
        Ok(built)
    }

    /// Appends a record; the statement collection is derived later.
    pub fn add(&mut self, record: Demon)
        ensures
            final(self)@ == (SpecDemonTransformer {
                demon: old(self)@.demon.push(record@),
                ..old(self)@
            }),
    {
        self.demon.push(record);
        proof {
            assert(self.demon.deep_view() =~= old(self).demon.deep_view().push(record@));
        }
    }
}

impl Transformer for DemonTransformer {
    /// Derives four statements per record, in insertion order.  Fails with
    /// `InvalidLocalName` exactly when some record's subject or race does
    /// not resolve to a well-formed IRI.
    fn to_rdf(&self) -> (r: Result<Vec<Statement>, RdfError>)
        ensures
            r is Ok <==> spec_demon_ok(self@, self@.demon),
            r matches Ok(v) ==> v.deep_view() == spec_demon_statements(self@, self@.demon),
            r matches Err(e) ==> e == RdfError::InvalidLocalName,
    {
        let string_datatype = xsd_string_datatype();
        let integer_datatype = xsd_integer_datatype();
        let mut statements: Vec<Statement> = Vec::new();
        let n = self.demon.len();
        let mut i: usize = 0;
        while i < n
            invariant
                i <= n,
                n == self@.demon.len(),
                forall|j: int| 0 <= j < i ==> spec_demon_record_ok(self@, #[trigger] self@.demon[j]),
                statements.deep_view() == spec_demon_statements(self@, self@.demon.take(i as int)),
                string_datatype@ == xsd_string_iri(),
                integer_datatype@ == xsd_integer_iri(),
            decreases n - i,
        {
            let d = &self.demon[i];
            let subject = self.namespace.get(d.iri.as_str())?;
            let race_object = self.race_namespace.get(d.race.as_str())?;
            let ghost before = statements.deep_view();
            statements.push(
                Statement::new(subject.duplicate(), self.a_term.duplicate(), self.demon_term.duplicate()),
            );
            statements.push(
                Statement::new(
                    subject.duplicate(),
                    self.name_term.duplicate(),
                    Term::Literal { lexical: d.name.clone(), datatype: string_datatype.clone() },
                ),
            );
            statements.push(
                Statement::new(subject.duplicate(), self.race_term.duplicate(), race_object),
            );
            statements.push(
                Statement::new(
                    subject,
                    self.lv_term.duplicate(),
                    Term::Literal { lexical: d.lv.clone(), datatype: integer_datatype.clone() },
                ),
            );
            proof {
                assert(statements.deep_view() =~= before + spec_demon_statements_for(
                    self@,
                    self@.demon[i as int],
                ));
                assert(self@.demon.take(i + 1).drop_last() =~= self@.demon.take(i as int));
                assert(self@.demon.take(i + 1).last() == self@.demon[i as int]);
            }
            i = i + 1;
        }
        proof {
            assert(self@.demon.take(n as int) =~= self@.demon);
        }
        Ok(statements)
    }

    /// Renders the derived statements as Turtle.  Succeeds exactly when
    /// every record resolves and every derived statement is well formed.
    fn to_turtle(&self) -> (r: Result<Vec<u8>, RdfError>)
        ensures
            r is Ok <==> spec_demon_ok(self@, self@.demon) && (forall|i: int|
                0 <= i < spec_demon_statements(self@, self@.demon).len()
                    ==> (#[trigger] spec_demon_statements(self@, self@.demon)[i]).wf()),
            r matches Ok(b) ==> b@ == turtle_of(spec_demon_statements(self@, self@.demon)),
            r matches Err(e) ==> e == RdfError::InvalidLocalName,
    {
        let statements = self.to_rdf()?;
        statements_to_turtle(&statements)
    }
}

/// Mathematical model of a [`RaceTransformer`].
#[verifier::ext_equal]
pub struct SpecRaceTransformer {
    pub races: Seq<Seq<char>>,
    pub namespace: Seq<char>,
    pub race_term: SpecTerm,
    pub a_term: SpecTerm,
    pub name_term: SpecTerm,
}

impl SpecRaceTransformer {
    /// The race set holds no duplicates: insertion collapses repeated names.
    pub open spec fn wf(self) -> bool {
        forall|i: int, j: int|
            #![trigger self.races[i], self.races[j]]
            0 <= i < j < self.races.len() ==> self.races[i] != self.races[j]
    }
}

/// Collects the set of distinct race names seen across [`Demon`] records and
/// transforms each into RDF statements: two per race.
pub struct RaceTransformer {
    races: Vec<String>,
    namespace: Namespace,
    /// RDF object to define a Race.
    race_term: Term,
    /// RDF type predicate.
    a_term: Term,
    /// RDF predicate to define a name.
    name_term: Term,
}

impl View for RaceTransformer {
    type V = SpecRaceTransformer;

    closed spec fn view(&self) -> SpecRaceTransformer {
        SpecRaceTransformer {
            races: self.races.deep_view(),
            namespace: self.namespace@,
            race_term: self.race_term@,
            a_term: self.a_term@,
            name_term: self.name_term@,
        }
    }
}

/// The two statements one race contributes: its type and its name as a
/// string literal, both under the subject given by the naming authority.
pub open spec fn spec_race_statements_for(t: SpecRaceTransformer, race: Seq<char>) -> Seq<
    SpecStatement,
> {
    let subject = SpecTerm::Iri(t.namespace + race);
    seq![
        SpecStatement { subject, predicate: t.a_term, object: t.race_term },
        SpecStatement {
            subject,
            predicate: t.name_term,
            object: SpecTerm::Literal { lexical: race, datatype: xsd_string_iri() },
        },
    ]
}

/// The statement collection for a sequence of race names, in order.
pub open spec fn spec_race_statements(t: SpecRaceTransformer, races: Seq<Seq<char>>) -> Seq<
    SpecStatement,
>
    decreases races.len(),
{
    if races.len() == 0 {
        Seq::empty()
    } else {
        spec_race_statements(t, races.drop_last()) + spec_race_statements_for(t, races.last())
    }
}

/// Whether every collected race name resolves under the race namespace.
pub open spec fn spec_race_ok(t: SpecRaceTransformer, races: Seq<Seq<char>>) -> bool {
    forall|i: int| 0 <= i < races.len() ==> is_valid_iri_ref(t.namespace + #[trigger] races[i])
}

impl RaceTransformer {
    /// Builds the transformer with its vocabulary terms pre-resolved: the
    /// race class under the vocabulary namespace, plus the fixed RDF type
    /// and schema.org name predicates.  Fails when the race class does not
    /// resolve.
    pub fn new(namespace: &Namespace, vocabulary_namespace: &Namespace) -> (r: Result<
        RaceTransformer,
        RdfError,
    >)
        ensures
            r is Ok <==> is_valid_iri_ref(vocabulary_namespace@ + "Race"@),
            r matches Ok(t) ==> t@ == (SpecRaceTransformer {
                races: Seq::empty(),
                namespace: namespace@,
                race_term: SpecTerm::Iri(vocabulary_namespace@ + "Race"@),
                a_term: SpecTerm::Iri(rdf_type_iri()),
                name_term: SpecTerm::Iri(schema_name_iri()),
            }),
            r matches Ok(t) ==> t@.wf(),
            r matches Err(e) ==> e == RdfError::InvalidLocalName,
    {
        let race_term = vocabulary_namespace.get("Race")?;
        let built = RaceTransformer {
            races: Vec::new(),
            namespace: namespace.duplicate(),
            race_term,
            a_term: rdf_type_term(),
            name_term: schema_name_term(),
        };
        proof {
            assert(built@ =~= (SpecRaceTransformer {
                races: Seq::empty(),
                namespace: namespace@,
                race_term: SpecTerm::Iri(vocabulary_namespace@ + "Race"@),
                a_term: SpecTerm::Iri(rdf_type_iri()),
                name_term: SpecTerm::Iri(schema_name_iri()),
            }));
        }
        Ok(built)
    }

    /// The collected race names, in first-seen order.
    pub fn races(&self) -> (r: &Vec<String>)
        ensures
            r.deep_view() == self@.races,
    {
        &self.races
    }

    /// Set-inserts a race name: a name already present is not added again,
    /// so duplicates collapse.
    pub fn add(&mut self, race: String)
        ensures
            final(self)@ == (SpecRaceTransformer {
                races: if old(self)@.races.contains(race@) {
                    old(self)@.races
                } else {
                    old(self)@.races.push(race@)
                },
                ..old(self)@
            }),
            old(self)@.wf() ==> final(self)@.wf(),
    {
        let n = self.races.len();
        let mut i: usize = 0;
        while i < n
            invariant
                i <= n,
                n == self@.races.len(),
                forall|j: int| 0 <= j < i ==> self@.races[j] != race@,
            decreases n - i,
        {
            if self.races[i].eq(&race) {
                proof {
                    assert(self@.races[i as int] == race@);
                    assert(self@.races.contains(race@));
                }
                return ;
            }
            i = i + 1;
        }
        proof {
            assert(!old(self)@.races.contains(race@));
        }
        self.races.push(race);
        proof {
            assert(self.races.deep_view() =~= old(self).races.deep_view().push(race@));
        }
    }
}

impl DemonCharacteristicTransformer for RaceTransformer {
    fn identifier_to_rdf(namespace: &Namespace, id: &String) -> (r: Result<Term, RdfError>) {
        namespace.get(id.as_str())
    }
}

impl Transformer for RaceTransformer {
    /// Derives two statements per collected race, in first-seen order.
    /// Fails with `InvalidLocalName` exactly when some race name does not
    /// resolve to a well-formed IRI.
    fn to_rdf(&self) -> (r: Result<Vec<Statement>, RdfError>)
        ensures
            r is Ok <==> spec_race_ok(self@, self@.races),
            r matches Ok(v) ==> v.deep_view() == spec_race_statements(self@, self@.races),
            r matches Err(e) ==> e == RdfError::InvalidLocalName,
    {
        let string_datatype = xsd_string_datatype();
        let mut statements: Vec<Statement> = Vec::new();
        let n = self.races.len();
        let mut i: usize = 0;
        while i < n
            invariant
                i <= n,
                n == self@.races.len(),
                forall|j: int| 0 <= j < i ==> is_valid_iri_ref(self@.namespace + #[trigger] self@.races[j]),
                statements.deep_view() == spec_race_statements(self@, self@.races.take(i as int)),
                string_datatype@ == xsd_string_iri(),
            decreases n - i,
        {
            let race = &self.races[i];
            let subject = Self::identifier_to_rdf(&self.namespace, race)?;
            let ghost before = statements.deep_view();
            statements.push(
                Statement::new(subject.duplicate(), self.a_term.duplicate(), self.race_term.duplicate()),
            );
            statements.push(
                Statement::new(
                    subject,
                    self.name_term.duplicate(),
                    Term::Literal { lexical: race.clone(), datatype: string_datatype.clone() },
                ),
            );
            proof {
                assert(statements.deep_view() =~= before + spec_race_statements_for(
                    self@,
                    self@.races[i as int],
                ));
                assert(self@.races.take(i + 1).drop_last() =~= self@.races.take(i as int));
                assert(self@.races.take(i + 1).last() == self@.races[i as int]);
            }
            i = i + 1;
        }
        proof {
            assert(self@.races.take(n as int) =~= self@.races);
        }
        Ok(statements)
    }

    /// Renders the derived statements as Turtle.  Succeeds exactly when
    /// every race resolves and every derived statement is well formed.
    fn to_turtle(&self) -> (r: Result<Vec<u8>, RdfError>)
        ensures
            r is Ok <==> spec_race_ok(self@, self@.races) && (forall|i: int|
                0 <= i < spec_race_statements(self@, self@.races).len()
                    ==> (#[trigger] spec_race_statements(self@, self@.races)[i]).wf()),
            r matches Ok(b) ==> b@ == turtle_of(spec_race_statements(self@, self@.races)),
            r matches Err(e) ==> e == RdfError::InvalidLocalName,
    {
        let statements = self.to_rdf()?;
        statements_to_turtle(&statements)
    }
}

/// Mathematical model of a [`BasicFusionRuleTransformer`].
#[verifier::ext_equal]
pub struct SpecBasicFusionRuleTransformer {
    pub rules: Seq<SpecBasicFusionRule>,
    pub namespace: Seq<char>,
    pub race_namespace: Seq<char>,
    pub demon_namespace: Seq<char>,
    pub with_race_1_term: SpecTerm,
    pub with_race_2_term: SpecTerm,
    pub fusion_race_result_term: SpecTerm,
}

/// Transforms [`BasicFusionRule`] records into RDF statements: three per
/// retained rule, attached to one anonymous node per (demon1, demon2) pair.
pub struct BasicFusionRuleTransformer {
    /// The accumulated rules, in insertion order.
    pub rules: Vec<BasicFusionRule>,
    namespace: Namespace,
    race_namespace: Namespace,
    demon_namespace: Namespace,
    with_race_1_term: Term,
    with_race_2_term: Term,
    fusion_race_result_term: Term,
}

impl View for BasicFusionRuleTransformer {
    type V = SpecBasicFusionRuleTransformer;

    closed spec fn view(&self) -> SpecBasicFusionRuleTransformer {
        SpecBasicFusionRuleTransformer {
            rules: self.rules.deep_view(),
            namespace: self.namespace@,
            race_namespace: self.race_namespace@,
            demon_namespace: self.demon_namespace@,
            with_race_1_term: self.with_race_1_term@,
            with_race_2_term: self.with_race_2_term@,
            fusion_race_result_term: self.fusion_race_result_term@,
        }
    }
}

/// Whether a rule's `result` carries the wildcard marker, which excludes the
/// rule from the output.
pub open spec fn spec_rule_is_wildcard(rule: SpecBasicFusionRule) -> bool {
    spec_contains_char(rule.result, '*')
}

/// The label of the anonymous node synthesized for a fusion pair: the two
/// input race names joined by an underscore.  The label depends on the
/// ordered pair alone, so the same pair always yields the same node within
/// one run.
pub open spec fn spec_fusion_node_label(demon1: Seq<char>, demon2: Seq<char>) -> Seq<char> {
    demon1 + "_"@ + demon2
}

/// The three statements one retained rule contributes: the anonymous pair
/// node linked to its two input races and to the resulting race.
pub open spec fn spec_fusion_statements_for(
    t: SpecBasicFusionRuleTransformer,
    rule: SpecBasicFusionRule,
) -> Seq<SpecStatement> {
    let node = SpecTerm::Blank(spec_fusion_node_label(rule.demon1, rule.demon2));
    seq![
        SpecStatement {
            subject: node,
            predicate: t.with_race_1_term,
            object: SpecTerm::Iri(t.race_namespace + rule.demon1),
        },
        SpecStatement {
            subject: node,
            predicate: t.with_race_2_term,
            object: SpecTerm::Iri(t.race_namespace + rule.demon2),
        },
        SpecStatement {
            subject: node,
            predicate: t.fusion_race_result_term,
            object: SpecTerm::Iri(t.namespace + rule.result),
        },
    ]
}

/// The statement collection for a sequence of rules, in insertion order;
/// wildcard rules contribute nothing.
pub open spec fn spec_fusion_statements(
    t: SpecBasicFusionRuleTransformer,
    rules: Seq<SpecBasicFusionRule>,
) -> Seq<SpecStatement>
    decreases rules.len(),
{
    if rules.len() == 0 {
        Seq::empty()
    } else {
        let prefix = spec_fusion_statements(t, rules.drop_last());
        if spec_rule_is_wildcard(rules.last()) {
            prefix
        } else {
            prefix + spec_fusion_statements_for(t, rules.last())
        }
    }
}

/// Whether one retained rule's identifiers are emittable: a valid blank
/// node label for the pair and well-formed IRIs for the three race terms.
/// A wildcard rule is skipped, so it is always acceptable.
pub open spec fn spec_fusion_rule_ok(
    t: SpecBasicFusionRuleTransformer,
    rule: SpecBasicFusionRule,
) -> bool {
    !spec_rule_is_wildcard(rule) ==> is_valid_bnode_id(
        spec_fusion_node_label(rule.demon1, rule.demon2),
    ) && is_valid_iri_ref(t.race_namespace + rule.demon1) && is_valid_iri_ref(
        t.race_namespace + rule.demon2,
    ) && is_valid_iri_ref(t.namespace + rule.result)
}

/// Whether every accumulated rule is emittable or skipped.
pub open spec fn spec_fusion_ok(
    t: SpecBasicFusionRuleTransformer,
    rules: Seq<SpecBasicFusionRule>,
) -> bool {
    forall|i: int| 0 <= i < rules.len() ==> spec_fusion_rule_ok(t, #[trigger] rules[i])
}

impl BasicFusionRuleTransformer {
    /// Builds the transformer with its three fusion predicates pre-resolved
    /// under the vocabulary namespace.  Fails when one of them does not
    /// resolve.
    pub fn new(
        namespace: &Namespace,
        demon_namespace: &Namespace,
        race_namespace: &Namespace,
        vocabulary_namespace: &Namespace,
    ) -> (r: Result<BasicFusionRuleTransformer, RdfError>)
        ensures
            r is Ok <==> is_valid_iri_ref(vocabulary_namespace@ + "withRace1"@) && is_valid_iri_ref(
                vocabulary_namespace@ + "withRace2"@,
            ) && is_valid_iri_ref(vocabulary_namespace@ + "fusionRaceResult"@),
            r matches Ok(t) ==> t@ == (SpecBasicFusionRuleTransformer {
                rules: Seq::empty(),
                namespace: namespace@,
                race_namespace: race_namespace@,
                demon_namespace: demon_namespace@,
                with_race_1_term: SpecTerm::Iri(vocabulary_namespace@ + "withRace1"@),
                with_race_2_term: SpecTerm::Iri(vocabulary_namespace@ + "withRace2"@),
                fusion_race_result_term: SpecTerm::Iri(
                    vocabulary_namespace@ + "fusionRaceResult"@,
                ),
            }),
            r matches Err(e) ==> e == RdfError::InvalidLocalName,
    {
        let with_race_1_term = vocabulary_namespace.get("withRace1")?;
        let with_race_2_term = vocabulary_namespace.get("withRace2")?;
        let fusion_race_result_term = vocabulary_namespace.get("fusionRaceResult")?;
        let built = BasicFusionRuleTransformer {
            rules: Vec::new(),
            namespace: namespace.duplicate(),
            race_namespace: race_namespace.duplicate(),
            demon_namespace: demon_namespace.duplicate(),
            with_race_1_term,
            with_race_2_term,
            fusion_race_result_term,
        };
        proof {
            assert(built@ =~= (SpecBasicFusionRuleTransformer {
                rules: Seq::empty(),
                namespace: namespace@,
                race_namespace: race_namespace@,
                demon_namespace: demon_namespace@,
                with_race_1_term: SpecTerm::Iri(vocabulary_namespace@ + "withRace1"@),
                with_race_2_term: SpecTerm::Iri(vocabulary_namespace@ + "withRace2"@),
                fusion_race_result_term: SpecTerm::Iri(
                    vocabulary_namespace@ + "fusionRaceResult"@,
                ),
            }));
        }
        Ok(built)
    }

    /// Appends a rule; no deduplication is applied.
    pub fn add(&mut self, rule: BasicFusionRule)
        ensures
            final(self)@ == (SpecBasicFusionRuleTransformer {
                rules: old(self)@.rules.push(rule@),
                ..old(self)@
            }),
    {
        self.rules.push(rule);
        proof {
            assert(self.rules.deep_view() =~= old(self).rules.deep_view().push(rule@));
        }
    }
}

impl Transformer for BasicFusionRuleTransformer {
    /// Derives three statements per retained rule, in insertion order; a
    /// rule whose `result` holds the wildcard marker is dropped entirely.
    /// Fails with `InvalidLocalName` exactly when a retained rule's pair
    /// label is not a valid blank node label or one of its race terms does
    /// not resolve.
    fn to_rdf(&self) -> (r: Result<Vec<Statement>, RdfError>)
        ensures
            r is Ok <==> spec_fusion_ok(self@, self@.rules),
            r matches Ok(v) ==> v.deep_view() == spec_fusion_statements(self@, self@.rules),
            r matches Err(e) ==> e == RdfError::InvalidLocalName,
    {
        let mut statements: Vec<Statement> = Vec::new();
        let n = self.rules.len();
        let mut i: usize = 0;
        while i < n
            invariant
                i <= n,
                n == self@.rules.len(),
                forall|j: int| 0 <= j < i ==> spec_fusion_rule_ok(self@, #[trigger] self@.rules[j]),
                statements.deep_view() == spec_fusion_statements(self@, self@.rules.take(i as int)),
            decreases n - i,
        {
            let rule = &self.rules[i];
            let ghost before = statements.deep_view();
            if !contains_char(rule.result.as_str(), '*') {
                let label = rule.demon1.clone().concat("_").concat(rule.demon2.as_str());
                if !check_bnode_id(label.as_str()) {
                    return Err(RdfError::InvalidLocalName);
                }
                let race_1_object = RaceTransformer::identifier_to_rdf(
                    &self.race_namespace,
                    &rule.demon1,
                )?;
                let race_2_object = RaceTransformer::identifier_to_rdf(
                    &self.race_namespace,
                    &rule.demon2,
                )?;
                let result_object = RaceTransformer::identifier_to_rdf(
                    &self.namespace,
                    &rule.result,
                )?;
                let node = Term::Blank(label);
                statements.push(
                    Statement::new(
                        node.duplicate(),
                        self.with_race_1_term.duplicate(),
                        race_1_object,
                    ),
                );
                statements.push(
                    Statement::new(
                        node.duplicate(),
                        self.with_race_2_term.duplicate(),
                        race_2_object,
                    ),
                );
                statements.push(
                    Statement::new(node, self.fusion_race_result_term.duplicate(), result_object),
                );
                proof {
                    assert(statements.deep_view() =~= before + spec_fusion_statements_for(
                        self@,
                        self@.rules[i as int],
                    ));
                }
            }
            proof {
                assert(self@.rules.take(i + 1).drop_last() =~= self@.rules.take(i as int));
                assert(self@.rules.take(i + 1).last() == self@.rules[i as int]);
            }
            i = i + 1;
        }
        proof {
            assert(self@.rules.take(n as int) =~= self@.rules);
        }
        Ok(statements)
    }

    /// Renders the derived statements as Turtle.  Succeeds exactly when
    /// every retained rule is emittable and every derived statement is well
    /// formed.
    fn to_turtle(&self) -> (r: Result<Vec<u8>, RdfError>)
        ensures
            r is Ok <==> spec_fusion_ok(self@, self@.rules) && (forall|i: int|
                0 <= i < spec_fusion_statements(self@, self@.rules).len()
                    ==> (#[trigger] spec_fusion_statements(self@, self@.rules)[i]).wf()),
            r matches Ok(b) ==> b@ == turtle_of(spec_fusion_statements(self@, self@.rules)),
            r matches Err(e) ==> e == RdfError::InvalidLocalName,
    {
        let statements = self.to_rdf()?;
        statements_to_turtle(&statements)
    }
}

/// What resolving `id` under `namespace` may return, as the contract of
/// [`DemonCharacteristicTransformer::identifier_to_rdf`] states it: the
/// concatenated IRI exactly when it is well formed, `InvalidLocalName`
/// otherwise.
pub open spec fn spec_resolves_to(
    namespace: Seq<char>,
    id: Seq<char>,
    r: Result<SpecTerm, RdfError>,
) -> bool {
    &&& r is Ok <==> is_valid_iri_ref(namespace + id)
    &&& r matches Ok(t) ==> t == SpecTerm::Iri(namespace + id)
    &&& r matches Err(e) ==> e == RdfError::InvalidLocalName
}

/// Naming-authority determinism (law): any two outcomes of resolving the
/// same identifier under the same namespace are identical, so the same race
/// string always maps to the same term across all transformers and runs.
pub proof fn lemma_identifier_to_rdf_deterministic(
    namespace: Seq<char>,
    id: Seq<char>,
    r1: Result<SpecTerm, RdfError>,
    r2: Result<SpecTerm, RdfError>,
)
    requires
        spec_resolves_to(namespace, id, r1),
        spec_resolves_to(namespace, id, r2),
    ensures
        r1 == r2,
{
}

/// The statement collection of a demon transformer holds exactly four
/// statements per accumulated record.
pub proof fn lemma_demon_statements_len(t: SpecDemonTransformer, demons: Seq<SpecDemon>)
    ensures
        spec_demon_statements(t, demons).len() == 4 * demons.len(),
    decreases demons.len(),
{
    if demons.len() > 0 {
        lemma_demon_statements_len(t, demons.drop_last());
    }
}

/// Four statements per record, one subject (law): record `k` contributes
/// exactly the four statements at positions `4k` to `4k + 3`, and all four
/// carry the same subject — the record's identifier resolved under the
/// entity namespace.
pub proof fn lemma_demon_statements_shape(
    t: SpecDemonTransformer,
    demons: Seq<SpecDemon>,
    k: int,
)
    requires
        0 <= k < demons.len(),
    ensures
        spec_demon_statements(t, demons).len() == 4 * demons.len(),
        forall|j: int|
            4 * k <= j < 4 * k + 4 ==> (#[trigger] spec_demon_statements(t, demons)[j]).subject
                == SpecTerm::Iri(t.namespace + demons[k].iri),
    decreases demons.len(),
{
    lemma_demon_statements_len(t, demons);
    if k == demons.len() - 1 {
        lemma_demon_statements_len(t, demons.drop_last());
    } else {
        lemma_demon_statements_shape(t, demons.drop_last(), k);
        lemma_demon_statements_len(t, demons.drop_last());
    }
}

/// Wildcard exclusion (law): a rule whose result carries the wildcard
/// marker contributes no statements — appending it to the accumulated rules
/// leaves the statement collection unchanged.
pub proof fn lemma_wildcard_rule_excluded(
    t: SpecBasicFusionRuleTransformer,
    rules: Seq<SpecBasicFusionRule>,
    rule: SpecBasicFusionRule,
)
    requires
        spec_rule_is_wildcard(rule),
    ensures
        spec_fusion_statements(t, rules.push(rule)) == spec_fusion_statements(t, rules),
{
    assert(rules.push(rule).drop_last() =~= rules);
    assert(rules.push(rule).last() == rule);
}

/// How many of the accumulated rules are retained, i.e. carry no wildcard.
pub open spec fn spec_retained_count(rules: Seq<SpecBasicFusionRule>) -> int
    decreases rules.len(),
{
    if rules.len() == 0 {
        0
    } else {
        spec_retained_count(rules.drop_last()) + if spec_rule_is_wildcard(rules.last()) {
            0int
        } else {
            1int
        }
    }
}

/// Three statements per retained rule (law): the statement collection of a
/// fusion transformer holds exactly three statements for every rule without
/// a wildcard, and none for the others.
pub proof fn lemma_fusion_statements_len(
    t: SpecBasicFusionRuleTransformer,
    rules: Seq<SpecBasicFusionRule>,
)
    ensures
        spec_fusion_statements(t, rules).len() == 3 * spec_retained_count(rules),
    decreases rules.len(),
{
    if rules.len() > 0 {
        lemma_fusion_statements_len(t, rules.drop_last());
    }
}

/// Two statements per race (law): the statement collection of a race
/// transformer holds exactly two statements for each collected race.
pub proof fn lemma_race_statements_len(t: SpecRaceTransformer, races: Seq<Seq<char>>)
    ensures
        spec_race_statements(t, races).len() == 2 * races.len(),
    decreases races.len(),
{
    if races.len() > 0 {
        lemma_race_statements_len(t, races.drop_last());
    }
}

/// Appending the same sequence on the left keeps distinct sequences
/// distinct.
proof fn lemma_append_left_cancel(a: Seq<char>, x: Seq<char>, y: Seq<char>)
    requires
        a + x == a + y,
    ensures
        x == y,
{
    assert(x =~= (a + x).skip(a.len() as int));
    assert(y =~= (a + y).skip(a.len() as int));
}

/// Shared anonymous node (law): two retained rules over the same ordered
/// (demon1, demon2) pair put their statements on one and the same anonymous
/// node; their `withRace1` and `withRace2` statements coincide, and two
/// such rules with distinct results contribute two distinct
/// `fusionRaceResult` statements under that node.
pub proof fn lemma_shared_fusion_node(
    t: SpecBasicFusionRuleTransformer,
    r1: SpecBasicFusionRule,
    r2: SpecBasicFusionRule,
)
    requires
        r1.demon1 == r2.demon1,
        r1.demon2 == r2.demon2,
    ensures
        spec_fusion_statements_for(t, r1)[0] == spec_fusion_statements_for(t, r2)[0],
        spec_fusion_statements_for(t, r1)[1] == spec_fusion_statements_for(t, r2)[1],
        forall|i: int, j: int|
            #![trigger spec_fusion_statements_for(t, r1)[i], spec_fusion_statements_for(t, r2)[j]]
            0 <= i < 3 && 0 <= j < 3 ==> spec_fusion_statements_for(t, r1)[i].subject
                == spec_fusion_statements_for(t, r2)[j].subject,
        r1.result != r2.result ==> spec_fusion_statements_for(t, r1)[2]
            != spec_fusion_statements_for(t, r2)[2],
{
    if r1.result != r2.result {
        if spec_fusion_statements_for(t, r1)[2] == spec_fusion_statements_for(t, r2)[2] {
            assert(t.namespace + r1.result == t.namespace + r2.result);
            lemma_append_left_cancel(t.namespace, r1.result, r2.result);
        }
    }
}

} // verus!
