use botanica::darwin_core::{
    create_occurrence_record, species_to_darwin_core_taxon, validate_darwin_core_record,
    BasisOfRecord, DarwinCoreOccurrence, OccurrenceStatus, TaxonRank,
};
use botanica::ids::EntityId;
use botanica::types::Species;

/// A coordinate in degrees expressed in the record's micro-degree scale.
fn micro(degrees: f64) -> i64 {
    (degrees * 1_000_000.0).round() as i64
}

fn sample_species() -> Species {
    Species::new(
        EntityId::fresh(), // genus_id
        "rubiginosa".to_string(),
        "L.".to_string(),
        None,
        None,
    )
}

#[test]
fn test_darwin_core_conversion() {
    let species = sample_species();

    let darwin_taxon = species_to_darwin_core_taxon(&species, "Rosa");
    assert_eq!(darwin_taxon.scientific_name, "Rosa rubiginosa");
    assert_eq!(darwin_taxon.scientific_name_authorship, Some("L.".to_string()));
    assert_eq!(darwin_taxon.taxon_rank, TaxonRank::Species);
}

#[test]
fn test_occurrence_creation() {
    let species = sample_species();

    let occurrence = create_occurrence_record(
        &species,
        "Rosa",                                        // genus_name
        "Rosaceae",                                    // family_name
        Some((micro(40.7128), micro(-74.0060))),       // NYC coordinates
        Some("J. Smith"),
    );

    assert_eq!(occurrence.scientific_name, "Rosa rubiginosa");
    assert_eq!(occurrence.decimal_latitude, Some(micro(40.7128)));
    assert_eq!(occurrence.recorded_by, Some("J. Smith".to_string()));
}

fn bare_occurrence() -> DarwinCoreOccurrence {
    DarwinCoreOccurrence {
        occurrence_id: EntityId::fresh(),
        scientific_name: "Rosa rubiginosa".to_string(),
        kingdom: Some("Plantae".to_string()),
        phylum: None,
        class: None,
        order: None,
        family: Some("Rosaceae".to_string()),
        genus: Some("Rosa".to_string()),
        specific_epithet: Some("rubiginosa".to_string()),
        event_date: None,
        event_time: None,
        recorded_by: None,
        decimal_latitude: None,
        decimal_longitude: None,
        coordinate_uncertainty_in_meters: None,
        country: None,
        state_province: None,
        locality: None,
        basis_of_record: BasisOfRecord::PreservedSpecimen,
        occurrence_status: OccurrenceStatus::Present,
        catalog_number: None,
        collection_code: None,
        institution_code: None,
        individual_count: Some(1),
        life_stage: None,
        reproductive_condition: None,
        establishment_means: None,
        preparations: None,
    }
}

#[test]
fn test_record_validation() {
    let occurrence = bare_occurrence();

    let warnings = validate_darwin_core_record(&occurrence);
    assert_eq!(warnings.len(), 3); // Missing coords, date, collector
}

#[test]
fn warnings_come_in_fixed_order() {
    let occurrence = bare_occurrence();

    let warnings = validate_darwin_core_record(&occurrence);
    assert_eq!(
        warnings,
        vec![
            "Missing geographic coordinates".to_string(),
            "Missing collection date".to_string(),
            "Missing collector information".to_string(),
        ]
    );
}

#[test]
fn complete_record_yields_no_warnings() {
    let mut occurrence = bare_occurrence();
    occurrence.decimal_latitude = Some(micro(40.7128));
    occurrence.decimal_longitude = Some(micro(-74.0060));
    occurrence.event_date = botanica::calendar::CalendarDate::from_ymd(2024, 1, 1);
    occurrence.recorded_by = Some("J. Smith".to_string());

    let warnings = validate_darwin_core_record(&occurrence);
    assert!(warnings.is_empty());
}

#[test]
fn zero_coordinate_axis_is_stored_as_absent() {
    // The zero-as-absent convention: an axis equal to exactly zero is
    // dropped, even though the equator and prime meridian are real places.
    let species = sample_species();

    let occurrence = create_occurrence_record(
        &species,
        "Rosa",
        "Rosaceae",
        Some((0, micro(-74.0060))),
        None,
    );

    assert_eq!(occurrence.decimal_latitude, None);
    assert_eq!(occurrence.decimal_longitude, Some(micro(-74.0060)));
    assert_eq!(occurrence.recorded_by, None);
}

#[test]
fn occurrence_end_to_end_fields() {
    let species = Species::new(
        EntityId::fresh(),
        "rubiginosa".to_string(),
        "L.".to_string(),
        None,
        None,
    );

    let occurrence = create_occurrence_record(
        &species,
        "Rosa",
        "Rosaceae",
        Some((micro(40.7128), micro(-74.0060))),
        Some("J. Smith"),
    );

    assert_eq!(occurrence.scientific_name, "Rosa rubiginosa");
    assert_eq!(occurrence.decimal_latitude, Some(micro(40.7128)));
    assert_eq!(occurrence.decimal_longitude, Some(micro(-74.0060)));
    assert_eq!(occurrence.recorded_by, Some("J. Smith".to_string()));
    assert_eq!(occurrence.kingdom, Some("Plantae".to_string()));
    assert_eq!(occurrence.family, Some("Rosaceae".to_string()));
    assert_eq!(occurrence.genus, Some("Rosa".to_string()));
    assert_eq!(occurrence.specific_epithet, Some("rubiginosa".to_string()));
    assert_eq!(occurrence.individual_count, Some(1));
    assert_eq!(occurrence.basis_of_record, BasisOfRecord::PreservedSpecimen);
    assert_eq!(occurrence.occurrence_status, OccurrenceStatus::Present);
}

#[test]
fn taxon_name_follows_genus_and_epithet() {
    let species = Species::new(
        EntityId::fresh(),
        "mirabilis".to_string(),
        "Hook.f.".to_string(),
        Some(1863),
        None,
    );

    let taxon = species_to_darwin_core_taxon(&species, "Welwitschia");
    assert_eq!(taxon.scientific_name, "Welwitschia mirabilis");
    assert_eq!(
        taxon.scientific_name_authorship,
        Some("Hook.f.".to_string())
    );
}
