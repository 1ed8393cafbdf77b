use botanica::contextlite::{
    build_plant_context_query, extract_recommendations, validate_context_response,
    BotanicalContext, PlantContextResponse, CONFIDENCE_SCALE,
};
use botanica::ids::EntityId;
use botanica::types::{CultivationRecord, GrowthStage, Species};

fn sample_species(epithet: &str) -> Species {
    Species::new(
        EntityId::fresh(),
        epithet.to_string(),
        "L.".to_string(),
        Some(1753),
        None,
    )
}

fn response_with(query: &str, context: &str, confidence_score: i64) -> PlantContextResponse {
    PlantContextResponse {
        plant_id: EntityId::fresh(),
        query: query.to_string(),
        context: context.to_string(),
        recommendations: vec![],
        relevant_documents: vec![],
        confidence_score,
    }
}

/// A confidence given in plain units, expressed in the micro-unit scale.
fn confidence(score: f32) -> i64 {
    (score as f64 * CONFIDENCE_SCALE as f64).round() as i64
}

#[test]
fn test_botanical_context_creation() {
    let context = BotanicalContext::new(
        "http://localhost:8090",
        "test-token",
        "budsy-cultivation",
    )
    .expect("Failed to create context");

    assert_eq!(context.workspace_id, "budsy-cultivation");
}

#[test]
fn test_mock_recommendations() {
    let context = BotanicalContext::new("http://localhost:8090", "test-token", "test-workspace")
        .expect("Failed to create context");

    let species = sample_species("test_species");

    let records = vec![CultivationRecord::new(
        species.id,
        GrowthStage::Vegetative,
        "test_cultivator".to_string(),
    )];

    let response = context
        .get_plant_recommendations(&species, &records, "How is my plant doing?")
        .expect("Failed to get recommendations");

    assert_eq!(response.plant_id, species.id);
    assert!(!response.recommendations.is_empty());
}

#[test]
fn mock_recommendation_content() {
    let context = BotanicalContext::new("http://localhost:8090", "test-token", "test-workspace")
        .expect("Failed to create context");
    let species = sample_species("rubiginosa");

    let response = context
        .get_plant_recommendations(&species, &[], "How is my plant doing?")
        .expect("Failed to get recommendations");

    assert_eq!(
        response.context,
        "Context for rubiginosa (How is my plant doing?)"
    );
    assert_eq!(response.query, "How is my plant doing?");
    assert_eq!(response.recommendations, vec!["Mock recommendation".to_string()]);
    assert!(response.relevant_documents.is_empty());
    assert_eq!(response.confidence_score, confidence(0.8));
}

#[test]
fn botanical_knowledge_answer() {
    let context = BotanicalContext::new("http://localhost:8090", "test-token", "test-workspace")
        .expect("Failed to create context");

    let answer = context
        .query_botanical_knowledge("soil drainage")
        .expect("Failed to query");
    assert_eq!(answer, "Mock botanical knowledge for: soil drainage");
}

#[test]
fn index_plant_data_accepts() {
    let context = BotanicalContext::new("http://localhost:8090", "test-token", "test-workspace")
        .expect("Failed to create context");
    let species = sample_species("rubiginosa");

    assert!(context.index_plant_data(&species, &[]).is_ok());
}

#[test]
fn test_cultivation_module() {
    let stage = GrowthStage::Seedling;
    assert_eq!(format!("{:?}", stage), "Seedling");

    let stage = GrowthStage::Flowering;
    assert_eq!(format!("{:?}", stage), "Flowering");

    let stage = GrowthStage::Harvest;
    assert_eq!(format!("{:?}", stage), "Harvest");
}

#[test]
fn test_recommendation_extraction() {
    // Test nutrient deficiency detection
    let nutrient_context = "The plant shows signs of nutrient deficiency";
    let recommendations = extract_recommendations(nutrient_context);
    assert!(recommendations.contains(&"Consider adjusting nutrient levels".to_string()));

    // Test watering issues
    let water_context = "Plant appears to be overwatered";
    let recommendations = extract_recommendations(water_context);
    assert!(recommendations.contains(&"Review watering schedule".to_string()));

    // Test pH issues
    let ph_context = "Check the pH levels in soil";
    let recommendations = extract_recommendations(ph_context);
    assert!(recommendations.contains(&"Check and adjust soil/water pH levels".to_string()));

    // Test empty context
    let empty_recommendations = extract_recommendations("");
    assert!(empty_recommendations.is_empty());

    // Test general case
    let general_context = "General plant concern";
    let recommendations = extract_recommendations(general_context);
    assert!(!recommendations.is_empty());
    assert!(recommendations
        .contains(&"Review cultivation data and environmental conditions".to_string()));
}

#[test]
fn test_contextlite_error_handling() {
    let context = BotanicalContext::new("http://localhost:8090", "invalid_token", "invalid_workspace");
    assert!(context.is_ok());

    let recommendations = extract_recommendations("");
    assert!(recommendations.is_empty());

    let recommendations = extract_recommendations("malformed data");
    assert!(!recommendations.is_empty());
}

#[test]
fn unrelated_text_yields_only_fallback() {
    let recommendations = extract_recommendations("unrelated text");
    assert_eq!(
        recommendations,
        vec!["Review cultivation data and environmental conditions".to_string()]
    );
}

#[test]
fn extraction_is_case_insensitive() {
    // Would fail if the input were not folded to lower case first.
    let recommendations = extract_recommendations("NUTRIENT DEFICIENCY detected");
    assert!(recommendations.contains(&"Consider adjusting nutrient levels".to_string()));
    assert!(!recommendations
        .contains(&"Review cultivation data and environmental conditions".to_string()));
}

#[test]
fn rules_fire_independently_in_table_order() {
    let text = "overwatered plant under temperature stress with low light and pest insects";
    let recommendations = extract_recommendations(text);
    assert_eq!(
        recommendations,
        vec![
            "Review watering schedule".to_string(),
            "Adjust lighting conditions".to_string(),
            "Monitor temperature conditions".to_string(),
            "Check for pest management needs".to_string(),
        ]
    );
}

#[test]
fn test_build_plant_context_query() {
    let species = sample_species("testspecies");

    let records = vec![CultivationRecord::new(
        species.id,
        GrowthStage::Vegetative,
        "test_cultivator".to_string(),
    )];

    let query = build_plant_context_query(&species, &records, "How is my plant?");

    assert_eq!(query.plant_id, species.id);
    assert!(query.query.contains("testspecies"));
    assert!(query.query.contains("How is my plant?"));
    assert!(query.include_cultivation_history);
    assert!(query.include_species_data);
    assert_eq!(query.max_documents, 10);
    assert_eq!(query.max_tokens, 4000);
}

#[test]
fn context_query_embeds_genus_id_text() {
    let mut species = sample_species("rubiginosa");
    species.genus_id = EntityId { value: 0x123e4567_e89b_12d3_a456_426614174000u128 };

    let query = build_plant_context_query(&species, &[], "watering?");
    assert_eq!(
        query.query,
        "Species: 123e4567-e89b-12d3-a456-426614174000 rubiginosa - watering?"
    );
    assert!(!query.include_cultivation_history);
}

#[test]
fn test_validate_context_response() {
    let valid_response = PlantContextResponse {
        plant_id: EntityId::fresh(),
        query: "Test query".to_string(),
        context: "Test context".to_string(),
        recommendations: vec!["Test recommendation".to_string()],
        relevant_documents: vec![],
        confidence_score: confidence(0.8),
    };

    assert!(validate_context_response(&valid_response).is_ok());

    // Test invalid confidence score
    let invalid_confidence = response_with("Test query", "Test context", confidence(1.5));
    assert!(validate_context_response(&invalid_confidence).is_err());

    // Test empty query
    let empty_query = response_with("", "Test context", confidence(0.5));
    assert!(validate_context_response(&empty_query).is_err());
}

#[test]
fn confidence_bounds_are_inclusive() {
    assert!(validate_context_response(&response_with("q", "c", confidence(0.0))).is_ok());
    assert!(validate_context_response(&response_with("q", "c", confidence(1.0))).is_ok());
    assert!(validate_context_response(&response_with("q", "c", confidence(1.5))).is_err());
    assert!(validate_context_response(&response_with("q", "c", confidence(-0.1))).is_err());
}

#[test]
fn empty_context_is_rejected() {
    let err = validate_context_response(&response_with("q", "", confidence(0.5)));
    match err {
        Err(botanica::error::DatabaseError::ValidationError(msg)) => {
            assert_eq!(msg, "Context cannot be empty");
        }
        _ => panic!("Expected ValidationError"),
    }
}
