//! References from one model to another, as declared and as materialised.

use vstd::prelude::*;
use crate::model::Record;
use crate::name_map::NameMap;

verus! {

pub type RelationshipTypes = NameMap<RelationshipType>;

pub type Relationships = NameMap<Relationship>;

/// A declared reference to another model, which is named by its type name.
#[derive(Debug, Clone, Copy)]
pub enum RelationshipType {
    /// At most one record of the target model.
    BelongsTo(&'static str),
    /// Any number of records of the target model.
    HasMany(&'static str),
}

/// The records that a relationship of one record holds.
#[derive(Debug)]
pub enum Relationship {
    BelongsTo(Option<Record>),
    HasMany(Vec<Record>),
}

impl RelationshipType {
    /// Whether `r` is the empty relationship of this cardinality: no record
    /// for a to-one reference, no records for a to-many reference.
    pub open spec fn is_empty_form(self, r: Relationship) -> bool {
        match self {
            RelationshipType::BelongsTo(_) => r == Relationship::BelongsTo(None),
            RelationshipType::HasMany(_) => r is HasMany && r->HasMany_0@.len() == 0,
        }
    }

    /// The empty relationship of this cardinality.
    pub fn to_relationship(&self) -> (r: Relationship)
        ensures
            self.is_empty_form(r),
    {
        match self {
            RelationshipType::BelongsTo(_) => Relationship::BelongsTo(None),
            RelationshipType::HasMany(_) => Relationship::HasMany(Vec::new()),
        }
    }
}

} // verus!
