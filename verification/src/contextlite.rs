//! Context integration for plant knowledge retrieval: query assembly,
//! response validation, and the rule-based extraction of cultivation
//! recommendations from free text.

use vstd::prelude::*;
use vstd::string::StringExecFns;
use crate::error::DatabaseError;
use crate::ids::EntityId;
use crate::ids::uuid_text;
use crate::text::contains_sub;
use crate::text::is_substring;
use crate::text::lower_of;
use crate::text::string_views;
use crate::text::to_lower;
use crate::types::CultivationRecord;
use crate::types::Species;

verus! {

/// Full confidence, in micro-units: a confidence score is valid when it
/// lies between 0 and this value.
pub const CONFIDENCE_SCALE: i64 = 1_000_000;

/// Context handle for botanical knowledge retrieval. The network client
/// itself lives with the collaborator; the handle carries the workspace.
#[derive(Debug, Clone)]
pub struct BotanicalContext {
    pub workspace_id: String,
}

/// Plant context query parameters
#[derive(Debug, Clone)]
pub struct PlantContextQuery {
    pub plant_id: EntityId,
    pub query: String,
    pub include_cultivation_history: bool,
    pub include_species_data: bool,
    pub max_documents: usize,
    pub max_tokens: usize,
}

/// Plant context response with assembled insights. The confidence score is
/// carried in micro-units; see `CONFIDENCE_SCALE`.
#[derive(Debug, Clone)]
pub struct PlantContextResponse {
    pub plant_id: EntityId,
    pub query: String,
    pub context: String,
    pub recommendations: Vec<String>,
    pub relevant_documents: Vec<ContextDocument>,
    pub confidence_score: i64,
}

/// Context document metadata. The relevance score is carried in
/// micro-units, as the confidence score is.
#[derive(Debug, Clone)]
pub struct ContextDocument {
    pub id: String,
    pub title: String,
    pub source: String,
    pub relevance_score: i64,
    pub content_snippet: String,
}

/// The rule-table output, in fixed table order, on already-lowercased text.
/// Rules are independent: several may fire on one text.
pub open spec fn rule_recommendations(low: Seq<char>) -> Seq<Seq<char>> {
    let s0 = Seq::<Seq<char>>::empty();
    let s1 = if is_substring("nutrient"@, low) && is_substring("deficiency"@, low) {
        s0.push("Consider adjusting nutrient levels"@)
    } else {
        s0
    };
    let s2 = if is_substring("water"@, low) && (is_substring("over"@, low) || is_substring(
        "under"@,
        low,
    )) {
        s1.push("Review watering schedule"@)
    } else {
        s1
    };
    let s3 = if is_substring("light"@, low) && is_substring("stress"@, low) {
        s2.push("Adjust lighting conditions"@)
    } else {
        s2
    };
    let s4 = if is_substring("ph"@, low) {
        s3.push("Check and adjust soil/water pH levels"@)
    } else {
        s3
    };
    let s5 = if is_substring("harvest"@, low) && is_substring("ready"@, low) {
        s4.push("Consider harvest timing evaluation"@)
    } else {
        s4
    };
    let s6 = if is_substring("temperature"@, low) {
        s5.push("Monitor temperature conditions"@)
    } else {
        s5
    };
    let s7 = if is_substring("pest"@, low) || is_substring("insect"@, low) {
        s6.push("Check for pest management needs"@)
    } else {
        s6
    };
    let s8 = if is_substring("disease"@, low) || is_substring("fungus"@, low) {
        s7.push("Evaluate plant health and disease prevention"@)
    } else {
        s7
    };
    if is_substring("pruning"@, low) || is_substring("trim"@, low) {
        s8.push("Consider pruning and plant training techniques"@)
    } else {
        s8
    }
}

/// The recommendations owed to a context text: nothing for empty input, the
/// rule-table output on the lowercased text, and the single fallback line
/// when the input is non-empty but no rule fires.
pub open spec fn extracted_recommendations(text: Seq<char>) -> Seq<Seq<char>> {
    if text.len() == 0 {
        Seq::empty()
    } else {
        let fired = rule_recommendations(lower_of(text));
        if fired.len() == 0 {
            seq!["Review cultivation data and environmental conditions"@]
        } else {
            fired
        }
    }
}

/// Extract recommendations from context text
#[verifier::rlimit(100)]
pub fn extract_recommendations(context: &str) -> (recommendations: Vec<String>)
    ensures
        string_views(recommendations@) == extracted_recommendations(context@),
{
    let mut recommendations: Vec<String> = Vec::new();
    if context.is_empty() {
        proof {
            assert(string_views(recommendations@) =~= extracted_recommendations(context@));
        }
        return recommendations;
    }
    let context_lower = to_lower(context);
    let low = context_lower.as_str();
    if contains_sub(low, "nutrient") && contains_sub(low, "deficiency") {
        recommendations.push(String::from_str("Consider adjusting nutrient levels"));
    }
    if contains_sub(low, "water") && (contains_sub(low, "over") || contains_sub(low, "under")) {
        recommendations.push(String::from_str("Review watering schedule"));
    }
    if contains_sub(low, "light") && contains_sub(low, "stress") {
        recommendations.push(String::from_str("Adjust lighting conditions"));
    }
    if contains_sub(low, "ph") {
        recommendations.push(String::from_str("Check and adjust soil/water pH levels"));
    }
    if contains_sub(low, "harvest") && contains_sub(low, "ready") {
        recommendations.push(String::from_str("Consider harvest timing evaluation"));
    }
    if contains_sub(low, "temperature") {
        recommendations.push(String::from_str("Monitor temperature conditions"));
    }
    if contains_sub(low, "pest") || contains_sub(low, "insect") {
        recommendations.push(String::from_str("Check for pest management needs"));
    }
    if contains_sub(low, "disease") || contains_sub(low, "fungus") {
        recommendations.push(String::from_str("Evaluate plant health and disease prevention"));
    }
    if contains_sub(low, "pruning") || contains_sub(low, "trim") {
        recommendations.push(String::from_str("Consider pruning and plant training techniques"));
    }
    if recommendations.len() == 0 {
        recommendations.push(
            String::from_str("Review cultivation data and environmental conditions"),
        );
    }
    proof {
        assert(string_views(recommendations@) =~= extracted_recommendations(context@));
    }
    recommendations
}

/// The query text built for a species: the genus identifier, the epithet,
/// and the user's question.
pub open spec fn context_query_text(
    genus_id: u128,
    epithet: Seq<char>,
    user_query: Seq<char>,
) -> Seq<char> {
    "Species: "@ + uuid_text(genus_id) + seq![' '] + epithet + " - "@ + user_query
}

/// Build context query from plant data
pub fn build_plant_context_query(
    species: &Species,
    records: &[CultivationRecord],
    user_query: &str,
) -> (r: PlantContextQuery)
    ensures
        r.plant_id == species.id,
        r.query@ == context_query_text(
            species.genus_id.value,
            species.specific_epithet@,
            user_query@,
        ),
        r.include_cultivation_history == (records@.len() > 0),
        r.include_species_data == true,
        r.max_documents == 10usize,
        r.max_tokens == 4000usize,
{
    let genus_text = species.genus_id.to_text();
    let query = String::from_str("Species: ").concat(genus_text.as_str()).concat(" ").concat(
        species.get_specific_epithet(),
    ).concat(" - ").concat(user_query);
    proof {
        reveal_strlit(" ");
        assert(" "@ =~= seq![' ']);
        assert(query@ =~= context_query_text(
            species.genus_id.value,
            species.specific_epithet@,
            user_query@,
        ));
    }
    PlantContextQuery {
        plant_id: species.id,
        query,
        include_cultivation_history: records.len() > 0,
        include_species_data: true,
        max_documents: 10,
        max_tokens: 4000,
    }
}

/// The sample context text assembled for a species and question.
pub open spec fn mock_context_text(epithet: Seq<char>, query: Seq<char>) -> Seq<char> {
    "Context for "@ + epithet + " ("@ + query + ")"@
}

impl BotanicalContext {
    /// Create new botanical context client handle for a workspace.
    pub fn new(_base_url: &str, _auth_token: &str, workspace_id: &str) -> (r: Result<
        BotanicalContext,
        DatabaseError,
    >)
        ensures
            r matches Ok(c) && c.workspace_id@ == workspace_id@,
    {
        Ok(BotanicalContext { workspace_id: String::from_str(workspace_id) })
    }

    /// Get plant care recommendations: a deterministic sample response
    /// assembled from the species and the question.
    pub fn get_plant_recommendations(
        &self,
        species: &Species,
        _cultivation_records: &[CultivationRecord],
        query: &str,
    ) -> (r: Result<PlantContextResponse, DatabaseError>)
        ensures
            r matches Ok(resp) && ({
                &&& resp.plant_id == species.id
                &&& resp.query@ == query@
                &&& resp.context@ == mock_context_text(species.specific_epithet@, query@)
                &&& string_views(resp.recommendations@) == seq!["Mock recommendation"@]
                &&& resp.relevant_documents@.len() == 0
                &&& resp.confidence_score == 800_000i64
            }),
    {
        let context = String::from_str("Context for ").concat(species.get_specific_epithet())
            .concat(" (").concat(query).concat(")");
        let mut recommendations: Vec<String> = Vec::new();
        recommendations.push(String::from_str("Mock recommendation"));
        proof {
            assert(string_views(recommendations@) =~= seq!["Mock recommendation"@]);
        }
        Ok(
            PlantContextResponse {
                plant_id: species.id,
                query: String::from_str(query),
                context,
                recommendations,
                relevant_documents: Vec::new(),
                confidence_score: 800_000,
            },
        )
    }

    /// Query general botanical knowledge: a deterministic sample answer.
    pub fn query_botanical_knowledge(&self, query: &str) -> (r: Result<String, DatabaseError>)
        ensures
            r matches Ok(s) && s@ == "Mock botanical knowledge for: "@ + query@,
    {
        Ok(String::from_str("Mock botanical knowledge for: ").concat(query))
    }

    /// Accept plant data for the knowledge base. Indexing is the
    /// collaborator's work, so accepting the data always succeeds.
    pub fn index_plant_data(&self, _species: &Species, _records: &[CultivationRecord]) -> (r:
        Result<(), DatabaseError>)
        ensures
            r is Ok,
    {
        Ok(())
    }
}

/// Validate context response quality: the query and context must be
/// non-empty and the confidence score within range; checked in that order.
pub fn validate_context_response(response: &PlantContextResponse) -> (r: Result<
    (),
    DatabaseError,
>)
    ensures
        response.query@.len() == 0 ==> (r matches Err(e) && e matches
            DatabaseError::ValidationError(m) && m@ == "Query cannot be empty"@),
        response.query@.len() > 0 && response.context@.len() == 0 ==> (r matches Err(e)
            && e matches DatabaseError::ValidationError(m) && m@ == "Context cannot be empty"@),
        response.query@.len() > 0 && response.context@.len() > 0 && !(0
            <= response.confidence_score <= CONFIDENCE_SCALE) ==> (r matches Err(e) && e matches
            DatabaseError::ValidationError(m) && m@
            == "Confidence score must be between 0.0 and 1.0"@),
        response.query@.len() > 0 && response.context@.len() > 0 && 0
            <= response.confidence_score <= CONFIDENCE_SCALE ==> r is Ok,
{
    if response.query.as_str().is_empty() {
        return Err(DatabaseError::validation("Query cannot be empty"));
    }
    if response.context.as_str().is_empty() {
        return Err(DatabaseError::validation("Context cannot be empty"));
    }
    if response.confidence_score < 0 || response.confidence_score > CONFIDENCE_SCALE {
        return Err(DatabaseError::validation("Confidence score must be between 0.0 and 1.0"));
    }
    Ok(())
}

} // verus!
