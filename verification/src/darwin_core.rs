//! Darwin Core compliant data structures for professional botanical
//! applications: the Occurrence and Taxon exchange records, the conversion
//! from the internal species model, and the record-completeness check.
//!
//! Latitude and longitude are carried as signed micro-degrees, and the
//! coordinate uncertainty as whole meters, so that every geographic value
//! is a plain integer.

use vstd::prelude::*;
use vstd::string::StringExecFns;
use crate::calendar::CalendarDate;
use crate::ids::EntityId;
use crate::text::string_views;
use crate::types::Species;

verus! {

/// Basis of Record - how the record was created
#[derive(Debug, Clone, Copy, PartialEq, Eq, Structural)]
pub enum BasisOfRecord {
    PreservedSpecimen,
    FossilSpecimen,
    LivingSpecimen,
    HumanObservation,
    MachineObservation,
    MaterialSample,
    Event,
    Taxon,
    Occurrence,
}

/// Occurrence Status - whether the organism was present or absent
#[derive(Debug, Clone, Copy, PartialEq, Eq, Structural)]
pub enum OccurrenceStatus {
    Present,
    Absent,
}

/// How the organism came to be at the location
#[derive(Debug, Clone, Copy, PartialEq, Eq, Structural)]
pub enum EstablishmentMeans {
    Native,
    Introduced,
    Naturalised,
    Invasive,
    Managed,
    Cultivated,
}

/// Taxonomic Status following Darwin Core
#[derive(Debug, Clone, Copy, PartialEq, Eq, Structural)]
pub enum TaxonomicStatus {
    Accepted,
    Synonym,
    DoubtfulSynonym,
    Misapplied,
    Homonym,
    ProvisionallyAccepted,
}

/// Taxonomic Rank following Darwin Core
#[derive(Debug, Clone, Copy, PartialEq, Eq, Structural)]
pub enum TaxonRank {
    Kingdom,
    Phylum,
    Class,
    Order,
    Family,
    Genus,
    Species,
    Subspecies,
    Variety,
    Form,
    Cultivar,
}

/// Nomenclatural Code governing the scientific name
#[derive(Debug, Clone, Copy, PartialEq, Eq, Structural)]
pub enum NomenclaturalCode {
    /// International Code of Nomenclature for algae, fungi, and plants
    ICN,
    /// International Code of Zoological Nomenclature
    ICZN,
    /// International Code of Nomenclature of Prokaryotes
    ICNP,
    /// International Code of Virus Classification and Nomenclature
    ICVCN,
}

/// Darwin Core Occurrence record - core standard for biodiversity data
#[derive(Debug, Clone)]
pub struct DarwinCoreOccurrence {
    pub occurrence_id: EntityId,
    pub scientific_name: String,
    pub kingdom: Option<String>,
    pub phylum: Option<String>,
    pub class: Option<String>,
    pub order: Option<String>,
    pub family: Option<String>,
    pub genus: Option<String>,
    pub specific_epithet: Option<String>,
    /// Event information
    pub event_date: Option<CalendarDate>,
    /// Seconds since the Unix epoch.
    pub event_time: Option<i64>,
    pub recorded_by: Option<String>,
    /// Location, in signed micro-degrees.
    pub decimal_latitude: Option<i64>,
    pub decimal_longitude: Option<i64>,
    /// Uncertainty radius in whole meters.
    pub coordinate_uncertainty_in_meters: Option<u64>,
    pub country: Option<String>,
    pub state_province: Option<String>,
    pub locality: Option<String>,
    /// Record metadata
    pub basis_of_record: BasisOfRecord,
    pub occurrence_status: OccurrenceStatus,
    pub catalog_number: Option<String>,
    pub collection_code: Option<String>,
    pub institution_code: Option<String>,
    /// Additional fields
    pub individual_count: Option<i32>,
    pub life_stage: Option<String>,
    pub reproductive_condition: Option<String>,
    pub establishment_means: Option<EstablishmentMeans>,
    pub preparations: Option<String>,
}

/// Darwin Core Taxon record for nomenclatural data
#[derive(Debug, Clone)]
pub struct DarwinCoreTaxon {
    pub taxon_id: EntityId,
    pub scientific_name: String,
    pub scientific_name_authorship: Option<String>,
    pub taxonomic_status: TaxonomicStatus,
    pub taxon_rank: TaxonRank,
    pub nomenclatural_code: Option<NomenclaturalCode>,
    pub nomenclatural_status: Option<String>,
    pub parent_name_usage_id: Option<EntityId>,
    pub accepted_name_usage_id: Option<EntityId>,
    pub original_name_usage_id: Option<EntityId>,
}

/// The binomial scientific name: genus, one space, specific epithet.
pub open spec fn binomial_name(genus: Seq<char>, epithet: Seq<char>) -> Seq<char> {
    genus + seq![' '] + epithet
}

/// Builds the binomial name string from its two parts.
fn build_binomial(genus_name: &str, epithet: &str) -> (r: String)
    ensures
        r@ == binomial_name(genus_name@, epithet@),
{
    let r = String::from_str(genus_name).concat(" ").concat(epithet);
    proof {
        reveal_strlit(" ");
        assert(" "@ =~= seq![' ']);
    }
    r
}

/// Convert a Botanica Species to a Darwin Core Taxon. Always succeeds: the
/// name is the binomial of the genus and epithet, the status Accepted, the
/// rank Species, and the code ICN, the plant code, for every input.
pub fn species_to_darwin_core_taxon(species: &Species, genus_name: &str) -> (r: DarwinCoreTaxon)
    ensures
        r.scientific_name@ == binomial_name(genus_name@, species.specific_epithet@),
        r.scientific_name_authorship matches Some(a) && a@ == species.authority@,
        r.taxonomic_status is Accepted,
        r.taxon_rank is Species,
        r.nomenclatural_code == Some(NomenclaturalCode::ICN),
        r.nomenclatural_status is None,
        r.parent_name_usage_id is None,
        r.accepted_name_usage_id is None,
        r.original_name_usage_id is None,
{
    DarwinCoreTaxon {
        taxon_id: EntityId::fresh(),
        scientific_name: build_binomial(genus_name, species.get_specific_epithet()),
        scientific_name_authorship: Some(String::from_str(species.get_authority())),
        taxonomic_status: TaxonomicStatus::Accepted,
        taxon_rank: TaxonRank::Species,
        nomenclatural_code: Some(NomenclaturalCode::ICN),
        nomenclatural_status: None,
        parent_name_usage_id: None,
        accepted_name_usage_id: None,
        original_name_usage_id: None,
    }
}

/// Create a Darwin Core Occurrence from Botanica data. Coordinates come as
/// micro-degrees; an axis whose value is exactly zero is stored as absent,
/// the documented convention of this record format.
pub fn create_occurrence_record(
    species: &Species,
    genus_name: &str,
    family_name: &str,
    location: Option<(i64, i64)>,
    collection_info: Option<&str>,
) -> (r: DarwinCoreOccurrence)
    ensures
        r.scientific_name@ == binomial_name(genus_name@, species.specific_epithet@),
        r.kingdom matches Some(k) && k@ == "Plantae"@,
        r.phylum is None,
        r.class is None,
        r.order is None,
        r.family matches Some(f) && f@ == family_name@,
        r.genus matches Some(g) && g@ == genus_name@,
        r.specific_epithet matches Some(e) && e@ == species.specific_epithet@,
        r.event_date is None,
        r.event_time is None,
        collection_info matches Some(c) ==> (r.recorded_by matches Some(s) && s@ == c@),
        collection_info is None ==> r.recorded_by is None,
        location matches Some(loc) ==> r.decimal_latitude == (if loc.0 != 0 {
            Some(loc.0)
        } else {
            None
        }),
        location matches Some(loc) ==> r.decimal_longitude == (if loc.1 != 0 {
            Some(loc.1)
        } else {
            None
        }),
        location is None ==> r.decimal_latitude is None && r.decimal_longitude is None,
        r.coordinate_uncertainty_in_meters is None,
        r.country is None,
        r.state_province is None,
        r.locality is None,
        r.basis_of_record is PreservedSpecimen,
        r.occurrence_status is Present,
        r.catalog_number is None,
        r.collection_code is None,
        r.institution_code is None,
        r.individual_count == Some(1i32),
        r.life_stage is None,
        r.reproductive_condition is None,
        r.establishment_means is None,
        r.preparations is None,
{
    let (lat, lon): (i64, i64) = match location {
        Some(l) => l,
        None => (0, 0),
    };
    let recorded_by = match collection_info {
        Some(c) => Some(String::from_str(c)),
        None => None,
    };
    DarwinCoreOccurrence {
        occurrence_id: EntityId::fresh(),
        scientific_name: build_binomial(genus_name, species.get_specific_epithet()),
        kingdom: Some(String::from_str("Plantae")),
        phylum: None,
        class: None,
        order: None,
        family: Some(String::from_str(family_name)),
        genus: Some(String::from_str(genus_name)),
        specific_epithet: Some(String::from_str(species.get_specific_epithet())),
        event_date: None,
        event_time: None,
        recorded_by,
        decimal_latitude: if lat != 0 {
            Some(lat)
        } else {
            None
        },
        decimal_longitude: if lon != 0 {
            Some(lon)
        } else {
            None
        },
        coordinate_uncertainty_in_meters: None,
        country: None,
        state_province: None,
        locality: None,
        basis_of_record: BasisOfRecord::PreservedSpecimen,
        occurrence_status: OccurrenceStatus::Present,
        catalog_number: None,
        collection_code: None,
        institution_code: None,
        individual_count: Some(1),
        life_stage: None,
        reproductive_condition: None,
        establishment_means: None,
        preparations: None,
    }
}

/// The completeness warnings owed to a record: one each for missing
/// coordinates, missing date and missing recorder, in that fixed order.
pub open spec fn completeness_warnings(r: DarwinCoreOccurrence) -> Seq<Seq<char>> {
    let base = Seq::<Seq<char>>::empty();
    let after_coords = if r.decimal_latitude is None || r.decimal_longitude is None {
        base.push("Missing geographic coordinates"@)
    } else {
        base
    };
    let after_date = if r.event_date is None {
        after_coords.push("Missing collection date"@)
    } else {
        after_coords
    };
    if r.recorded_by is None {
        after_date.push("Missing collector information"@)
    } else {
        after_date
    }
}

/// Validate Darwin Core record completeness. A pure advisory check: an
/// empty result means the record is complete, and no input ever fails.
pub fn validate_darwin_core_record(record: &DarwinCoreOccurrence) -> (warnings: Vec<String>)
    ensures
        string_views(warnings@) == completeness_warnings(*record),
{
    let mut warnings: Vec<String> = Vec::new();
    if record.decimal_latitude.is_none() || record.decimal_longitude.is_none() {
        warnings.push(String::from_str("Missing geographic coordinates"));
    }
    if record.event_date.is_none() {
        warnings.push(String::from_str("Missing collection date"));
    }
    if record.recorded_by.is_none() {
        warnings.push(String::from_str("Missing collector information"));
    }
    proof {
        assert(string_views(warnings@) =~= completeness_warnings(*record));
    }
    warnings
}

} // verus!
