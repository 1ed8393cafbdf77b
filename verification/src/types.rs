//! The internal taxonomic entities that the persistence collaborator hands
//! in: species rows and cultivation records. The crate only reads them.

use vstd::prelude::*;
use crate::ids::EntityId;

verus! {

/// Growth stage of a cultivated plant.
#[derive(Debug, Clone, PartialEq, Eq, Structural)]
pub enum GrowthStage {
    Seedling,
    Vegetative,
    Flowering,
    Harvest,
}

/// A species entity as the persistence layer supplies it.
#[derive(Debug, Clone)]
pub struct Species {
    pub id: EntityId,
    pub genus_id: EntityId,
    pub specific_epithet: String,
    pub authority: String,
    pub publication_year: Option<i32>,
    pub common_name: Option<String>,
}

impl Species {
    /// A new species row under the given genus, with a fresh identifier.
    pub fn new(
        genus_id: EntityId,
        specific_epithet: String,
        authority: String,
        publication_year: Option<i32>,
        common_name: Option<String>,
    ) -> (r: Species)
        ensures
            r.genus_id == genus_id,
            r.specific_epithet == specific_epithet,
            r.authority == authority,
            r.publication_year == publication_year,
            r.common_name == common_name,
    {
        Species {
            id: EntityId::fresh(),
            genus_id,
            specific_epithet,
            authority,
            publication_year,
            common_name,
        }
    }

    /// The specific epithet of the binomial name.
    pub fn get_specific_epithet(&self) -> (r: &str)
        ensures
            r@ == self.specific_epithet@,
    {
        self.specific_epithet.as_str()
    }

    /// The naming authority.
    pub fn get_authority(&self) -> (r: &str)
        ensures
            r@ == self.authority@,
    {
        self.authority.as_str()
    }
}

/// One cultivation observation for a species.
#[derive(Debug, Clone)]
pub struct CultivationRecord {
    pub species_id: EntityId,
    pub growth_stage: GrowthStage,
    pub notes: Option<String>,
}

impl CultivationRecord {
    /// A new record of the given stage, annotated with a note.
    pub fn new(species_id: EntityId, growth_stage: GrowthStage, notes: String) -> (r:
        CultivationRecord)
        ensures
            r.species_id == species_id,
            r.growth_stage == growth_stage,
            r.notes == Some(notes),
    {
        CultivationRecord { species_id, growth_stage, notes: Some(notes) }
    }
}

} // verus!
