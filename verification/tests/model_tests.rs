use botanica::calendar::CalendarDate;
use botanica::ids::EntityId;
use botanica::types::{CultivationRecord, GrowthStage, Species};

#[test]
fn valid_dates_are_accepted() {
    assert_eq!(
        CalendarDate::from_ymd(2024, 1, 1),
        Some(CalendarDate { year: 2024, month: 1, day: 1 })
    );
    assert_eq!(
        CalendarDate::from_ymd(2019, 7, 18),
        Some(CalendarDate { year: 2019, month: 7, day: 18 })
    );
    assert!(CalendarDate::from_ymd(2024, 12, 31).is_some());
}

#[test]
fn impossible_dates_are_rejected() {
    assert_eq!(CalendarDate::from_ymd(2024, 0, 1), None);
    assert_eq!(CalendarDate::from_ymd(2024, 13, 1), None);
    assert_eq!(CalendarDate::from_ymd(2024, 2, 30), None);
    assert_eq!(CalendarDate::from_ymd(2024, 4, 31), None);
    assert_eq!(CalendarDate::from_ymd(2024, 1, 0), None);
}

#[test]
fn leap_year_rules() {
    assert!(CalendarDate::from_ymd(2024, 2, 29).is_some());
    assert!(CalendarDate::from_ymd(2023, 2, 29).is_none());
    assert!(CalendarDate::from_ymd(2000, 2, 29).is_some());
    assert!(CalendarDate::from_ymd(1900, 2, 29).is_none());
    assert!(CalendarDate::from_ymd(-44, 2, 29).is_some());
}

#[test]
fn entity_id_text_is_hyphenated_hex() {
    let zero = EntityId { value: 0 };
    assert_eq!(zero.to_text(), "00000000-0000-0000-0000-000000000000");

    let known = EntityId { value: 0x123e4567_e89b_12d3_a456_426614174000u128 };
    assert_eq!(known.to_text(), "123e4567-e89b-12d3-a456-426614174000");

    let max = EntityId { value: u128::MAX };
    assert_eq!(max.to_text(), "ffffffff-ffff-ffff-ffff-ffffffffffff");
}

#[test]
fn fresh_ids_are_distinct() {
    let a = EntityId::fresh();
    let b = EntityId::fresh();
    assert_ne!(a, b);
}

#[test]
fn species_keeps_its_fields() {
    let genus_id = EntityId::fresh();
    let species = Species::new(
        genus_id,
        "rubiginosa".to_string(),
        "L.".to_string(),
        Some(1753),
        Some("sweet briar".to_string()),
    );
    assert_eq!(species.genus_id, genus_id);
    assert_eq!(species.get_specific_epithet(), "rubiginosa");
    assert_eq!(species.get_authority(), "L.");
    assert_eq!(species.publication_year, Some(1753));
    assert_eq!(species.common_name, Some("sweet briar".to_string()));
}

#[test]
fn cultivation_record_keeps_its_fields() {
    let species_id = EntityId::fresh();
    let record = CultivationRecord::new(
        species_id,
        GrowthStage::Flowering,
        "weekly check".to_string(),
    );
    assert_eq!(record.species_id, species_id);
    assert_eq!(record.growth_stage, GrowthStage::Flowering);
    assert_eq!(record.notes, Some("weekly check".to_string()));
}
