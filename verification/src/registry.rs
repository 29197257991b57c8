//! The models of a process, found by their type names.

use vstd::prelude::*;
use crate::model::ModelDef;
use crate::name_map::NameMap;
use crate::relationship::RelationshipType;

verus! {

/// The models that were defined, by type name. A model is defined once:
/// what is defined first under a name stays.
pub struct Registry {
    models: NameMap<ModelDef>,
}

impl View for Registry {
    type V = Map<Seq<char>, ModelDef>;

    closed spec fn view(&self) -> Map<Seq<char>, ModelDef> {
        self.models@
    }
}

impl RelationshipType {
    /// The type name of the model that the relationship points at.
    pub open spec fn target_name(self) -> Seq<char> {
        match self {
            RelationshipType::BelongsTo(ty) => ty@,
            RelationshipType::HasMany(ty) => ty@,
        }
    }
}

impl Registry {
    /// The registry without a model.
    pub fn new() -> (r: Registry)
        ensures
            r@ == Map::<Seq<char>, ModelDef>::empty(),
    {
        Registry { models: NameMap::new() }
    }

    /// Defines `model` under its type name, unless a model of that name is
    /// defined already: then the registry stays as it is. Returns whether
    /// it defined the model.
    pub fn define(&mut self, model: ModelDef) -> (defined: bool)
        ensures
            defined == !old(self)@.contains_key(model.ty@),
            final(self)@ == (if defined {
                old(self)@.insert(model.ty@, model)
            } else {
                old(self)@
            }),
    {
        if self.models.contains(model.ty) {
            false
        } else {
            self.models.insert(model.ty.to_owned(), model);
            true
        }
    }

    /// The model that is defined under the type name `ty`.
    pub fn lookup(&self, ty: &str) -> (r: Option<&ModelDef>)
        ensures
            r == (if self@.contains_key(ty@) {
                Some(&self@[ty@])
            } else {
                None
            }),
    {
        self.models.get(ty)
    }

    /// The model that `relationship` points at, if it is defined.
    pub fn target(&self, relationship: &RelationshipType) -> (r: Option<&ModelDef>)
        ensures
            r == (if self@.contains_key(relationship.target_name()) {
                Some(&self@[relationship.target_name()])
            } else {
                None
            }),
    {
        match relationship {
            RelationshipType::BelongsTo(ty) => self.models.get(ty),
            RelationshipType::HasMany(ty) => self.models.get(ty),
        }
    }
}

} // verus!
