//! IUCN Red List conservation modelling: categories, assessments, threat
//! classification and the urgency score, together with the deterministic
//! sample lookup that stands in for the external Red List source.

use vstd::prelude::*;
use vstd::string::StringExecFns;
use crate::calendar::CalendarDate;
use crate::error::DatabaseError;
use crate::text::str_eq;

verus! {

/// IUCN Red List conservation categories
#[derive(Debug, Clone, Copy, PartialEq, Eq, Structural)]
pub enum IUCNCategory {
    /// Not Evaluated - species has not been evaluated against the criteria
    NotEvaluated,
    /// Data Deficient - inadequate information to make assessment
    DataDeficient,
    /// Least Concern - species is widespread and abundant
    LeastConcern,
    /// Near Threatened - species is close to qualifying for threatened category
    NearThreatened,
    /// Vulnerable - species faces high risk of extinction in the wild
    Vulnerable,
    /// Endangered - species faces very high risk of extinction in the wild
    Endangered,
    /// Critically Endangered - species faces extremely high risk of extinction
    CriticallyEndangered,
    /// Extinct in the Wild - species survives only in cultivation/captivity
    ExtinctInWild,
    /// Extinct - no reasonable doubt that the last individual has died
    Extinct,
}

/// Population trend for conservation assessment
#[derive(Debug, Clone, Copy, PartialEq, Eq, Structural)]
pub enum PopulationTrend {
    Increasing,
    Stable,
    Decreasing,
    Unknown,
}

/// IUCN Red List assessment data
#[derive(Debug, Clone)]
pub struct ConservationAssessment {
    /// IUCN Red List category
    pub category: IUCNCategory,
    /// Assessment criteria (A, B, C, D, or E with subcriteria)
    pub criteria: Option<String>,
    /// Date of assessment
    pub assessment_date: CalendarDate,
    /// Current population trend
    pub population_trend: PopulationTrend,
    /// Major threats to the species
    pub threats: Vec<String>,
    /// Conservation actions in place
    pub conservation_actions: Vec<String>,
    /// Conservation actions needed
    pub actions_needed: Vec<String>,
    /// Assessor information
    pub assessor: Option<String>,
    /// Who checked the assessment
    pub reviewer: Option<String>,
}

/// The standard two-letter code of a category.
pub open spec fn category_code(c: IUCNCategory) -> Seq<char> {
    match c {
        IUCNCategory::NotEvaluated => "NE"@,
        IUCNCategory::DataDeficient => "DD"@,
        IUCNCategory::LeastConcern => "LC"@,
        IUCNCategory::NearThreatened => "NT"@,
        IUCNCategory::Vulnerable => "VU"@,
        IUCNCategory::Endangered => "EN"@,
        IUCNCategory::CriticallyEndangered => "CR"@,
        IUCNCategory::ExtinctInWild => "EW"@,
        IUCNCategory::Extinct => "EX"@,
    }
}

/// The categories counted as threatened: VU, EN, CR, EW, EX.
pub open spec fn threatened_category(c: IUCNCategory) -> bool {
    c is Vulnerable || c is Endangered || c is CriticallyEndangered || c is ExtinctInWild
        || c is Extinct
}

/// The urgency score of a category. The table is literal, not derived from
/// the ordinal: DataDeficient scores 3, below NearThreatened's 4.
pub open spec fn priority_of(c: IUCNCategory) -> int {
    match c {
        IUCNCategory::Extinct => 10,
        IUCNCategory::ExtinctInWild => 9,
        IUCNCategory::CriticallyEndangered => 8,
        IUCNCategory::Endangered => 7,
        IUCNCategory::Vulnerable => 6,
        IUCNCategory::NearThreatened => 4,
        IUCNCategory::DataDeficient => 3,
        IUCNCategory::LeastConcern => 1,
        IUCNCategory::NotEvaluated => 0,
    }
}

impl IUCNCategory {
    /// The standard two-letter Red List code of this category.
    pub fn code(&self) -> (r: String)
        ensures
            r@ == category_code(*self),
    {
        match *self {
            IUCNCategory::NotEvaluated => String::from_str("NE"),
            IUCNCategory::DataDeficient => String::from_str("DD"),
            IUCNCategory::LeastConcern => String::from_str("LC"),
            IUCNCategory::NearThreatened => String::from_str("NT"),
            IUCNCategory::Vulnerable => String::from_str("VU"),
            IUCNCategory::Endangered => String::from_str("EN"),
            IUCNCategory::CriticallyEndangered => String::from_str("CR"),
            IUCNCategory::ExtinctInWild => String::from_str("EW"),
            IUCNCategory::Extinct => String::from_str("EX"),
        }
    }
}

/// Check if a species is threatened (VU, EN, CR, EW, EX)
pub fn is_species_threatened(assessment: &ConservationAssessment) -> (r: bool)
    ensures
        r == threatened_category(assessment.category),
{
    match assessment.category {
        IUCNCategory::Vulnerable => true,
        IUCNCategory::Endangered => true,
        IUCNCategory::CriticallyEndangered => true,
        IUCNCategory::ExtinctInWild => true,
        IUCNCategory::Extinct => true,
        _ => false,
    }
}

/// Get conservation priority score (0-10, higher = more urgent)
pub fn get_conservation_priority(assessment: &ConservationAssessment) -> (r: u8)
    ensures
        r as int == priority_of(assessment.category),
{
    match assessment.category {
        IUCNCategory::Extinct => 10,
        IUCNCategory::ExtinctInWild => 9,
        IUCNCategory::CriticallyEndangered => 8,
        IUCNCategory::Endangered => 7,
        IUCNCategory::Vulnerable => 6,
        IUCNCategory::NearThreatened => 4,
        IUCNCategory::DataDeficient => 3,
        IUCNCategory::LeastConcern => 1,
        IUCNCategory::NotEvaluated => 0,
    }
}

/// The sample assessment served for Cannabis sativa.
pub open spec fn cannabis_sample(a: ConservationAssessment) -> bool {
    &&& a.category is NotEvaluated
    &&& a.criteria is None
    &&& a.assessment_date == (CalendarDate { year: 2024, month: 1, day: 1 })
    &&& a.population_trend is Unknown
    &&& a.threats@.len() == 2
    &&& a.threats@[0]@ == "Legal restrictions"@
    &&& a.threats@[1]@ == "Habitat loss"@
    &&& a.conservation_actions@.len() == 1
    &&& a.conservation_actions@[0]@ == "Cultivation programs"@
    &&& a.actions_needed@.len() == 1
    &&& a.actions_needed@[0]@ == "Legal status review"@
    &&& a.assessor matches Some(s) && s@ == "Mock Assessment"@
    &&& a.reviewer is None
}

/// The sample assessment served for Welwitschia mirabilis.
pub open spec fn welwitschia_sample(a: ConservationAssessment) -> bool {
    &&& a.category is NearThreatened
    &&& a.criteria matches Some(c) && c@ == "A2acd"@
    &&& a.assessment_date == (CalendarDate { year: 2019, month: 7, day: 18 })
    &&& a.population_trend is Decreasing
    &&& a.threats@.len() == 2
    &&& a.threats@[0]@ == "Climate change"@
    &&& a.threats@[1]@ == "Collection"@
    &&& a.conservation_actions@.len() == 1
    &&& a.conservation_actions@[0]@ == "Protected areas"@
    &&& a.actions_needed@.len() == 1
    &&& a.actions_needed@[0]@ == "Population monitoring"@
    &&& a.assessor matches Some(s) && s@ == "IUCN Species Specialist Group"@
    &&& a.reviewer matches Some(s) && s@ == "IUCN Red List Unit"@
}

/// Fetch conservation status for a species by scientific name: a
/// deterministic sample lookup standing in for the external Red List
/// source. Unrecognised names yield `None`, never an error.
pub fn fetch_assessment(scientific_name: &str) -> (r: Option<ConservationAssessment>)
    ensures
        scientific_name@ == "Cannabis sativa"@ ==> (r matches Some(a) && cannabis_sample(a)),
        scientific_name@ == "Welwitschia mirabilis"@ ==> (r matches Some(a)
            && welwitschia_sample(a)),
        scientific_name@ != "Cannabis sativa"@ && scientific_name@ != "Welwitschia mirabilis"@
            ==> r is None,
{
    proof {
        reveal_strlit("Cannabis sativa");
        reveal_strlit("Welwitschia mirabilis");
        assert("Cannabis sativa"@.len() == 15);
        assert("Welwitschia mirabilis"@.len() == 21);
    }
    if str_eq(scientific_name, "Cannabis sativa") {
        let mut threats: Vec<String> = Vec::new();
        threats.push(String::from_str("Legal restrictions"));
        threats.push(String::from_str("Habitat loss"));
        let mut conservation_actions: Vec<String> = Vec::new();
        conservation_actions.push(String::from_str("Cultivation programs"));
        let mut actions_needed: Vec<String> = Vec::new();
        actions_needed.push(String::from_str("Legal status review"));
        Some(
            ConservationAssessment {
                category: IUCNCategory::NotEvaluated,
                criteria: None,
                assessment_date: CalendarDate { year: 2024, month: 1, day: 1 },
                population_trend: PopulationTrend::Unknown,
                threats,
                conservation_actions,
                actions_needed,
                assessor: Some(String::from_str("Mock Assessment")),
                reviewer: None,
            },
        )
    } else if str_eq(scientific_name, "Welwitschia mirabilis") {
        let mut threats: Vec<String> = Vec::new();
        threats.push(String::from_str("Climate change"));
        threats.push(String::from_str("Collection"));
        let mut conservation_actions: Vec<String> = Vec::new();
        conservation_actions.push(String::from_str("Protected areas"));
        let mut actions_needed: Vec<String> = Vec::new();
        actions_needed.push(String::from_str("Population monitoring"));
        Some(
            ConservationAssessment {
                category: IUCNCategory::NearThreatened,
                criteria: Some(String::from_str("A2acd")),
                assessment_date: CalendarDate { year: 2019, month: 7, day: 18 },
                population_trend: PopulationTrend::Decreasing,
                threats,
                conservation_actions,
                actions_needed,
                assessor: Some(String::from_str("IUCN Species Specialist Group")),
                reviewer: Some(String::from_str("IUCN Red List Unit")),
            },
        )
    } else {
        None
    }
}

/// The integration boundary's collapse: a transport failure and a lookup
/// that found nothing both become `None`, so conservation enrichment never
/// fails a caller.
pub fn resolve_conservation_lookup(
    outcome: Result<Option<ConservationAssessment>, DatabaseError>,
) -> (r: Option<ConservationAssessment>)
    ensures
        outcome matches Ok(found) ==> r == found,
        outcome is Err ==> r is None,
{
    match outcome {
        Ok(found) => found,
        Err(_) => None,
    }
}

/// Law: every category's priority score lies between 0 and 10.
pub proof fn lemma_priority_score_range(c: IUCNCategory)
    ensures
        0 <= priority_of(c) <= 10,
{
}

/// Law: a category is threatened exactly when it is Vulnerable, Endangered,
/// CriticallyEndangered, ExtinctInWild or Extinct.
pub proof fn lemma_threatened_categories(c: IUCNCategory)
    ensures
        threatened_category(c) <==> (c is Vulnerable || c is Endangered
            || c is CriticallyEndangered || c is ExtinctInWild || c is Extinct),
{
}

/// Law: the threatened categories are exactly those whose priority score
/// reaches 6.
pub proof fn lemma_threatened_iff_high_priority(c: IUCNCategory)
    ensures
        threatened_category(c) <==> priority_of(c) >= 6,
{
}

} // verus!
