//! Model metadata, and the records that are shaped by it.

use vstd::prelude::*;
use crate::attribute::{Attribute, AttributeType, AttributeTypes, Attributes};
use crate::name_map::NameMap;
use crate::query::{Filter, Query};
use crate::relationship::{Relationship, RelationshipType, RelationshipTypes, Relationships};

verus! {

pub type Model<'a> = &'a ModelDef;

/// The description of one entity: the name of its table, the name of its
/// primary-key column, and its declared attributes and relationships.
#[derive(Debug)]
pub struct ModelDef {
    pub ty: &'static str,
    pub primary_key: &'static str,
    pub attributes: AttributeTypes,
    pub relationships: RelationshipTypes,
}

/// Starts the description of a model that has no attribute and no
/// relationship yet.
pub fn model(ty: &'static str, primary_key: &'static str) -> (m: ModelDef)
    ensures
        m.ty@ == ty@,
        m.primary_key@ == primary_key@,
        m.attributes@ == Map::<Seq<char>, AttributeType>::empty(),
        m.relationships@ == Map::<Seq<char>, RelationshipType>::empty(),
{
    ModelDef {
        ty: ty,
        primary_key: primary_key,
        attributes: NameMap::new(),
        relationships: NameMap::new(),
    }
}

/// Why a value has no place in the records of a model.
#[derive(Debug, Clone, Copy, PartialEq, Eq)]
pub enum SchemaViolation {
    /// The model declares no attribute of the name.
    UndeclaredAttribute,
    /// The value is not of the kind that the model declares for the name.
    KindMismatch,
}

/// One row of a model: its primary key, its attributes by name, and its
/// relationships by name.
#[derive(Debug)]
pub struct Record {
    pub id: Attribute,
    pub ty: &'static str,
    pub attributes: Attributes,
    pub relationships: Relationships,
}

impl ModelDef {
    /// Declares the attribute `name` with the kind `ty`, in place of an
    /// earlier declaration of that name.
    pub fn attribute(self, name: &'static str, ty: AttributeType) -> (m: ModelDef)
        ensures
            m.ty@ == self.ty@,
            m.primary_key@ == self.primary_key@,
            m.attributes@ == self.attributes@.insert(name@, ty),
            m.relationships@ == self.relationships@,
    {
        let mut m = self;
        m.attributes.insert(name.to_owned(), ty);
        m
    }

    /// Declares the relationship `name`, in place of an earlier declaration
    /// of that name.
    pub fn relationship(self, name: &'static str, relationship: RelationshipType) -> (m:
        ModelDef)
        ensures
            m.ty@ == self.ty@,
            m.primary_key@ == self.primary_key@,
            m.attributes@ == self.attributes@,
            m.relationships@ == self.relationships@.insert(name@, relationship),
    {
        let mut m = self;
        m.relationships.insert(name.to_owned(), relationship);
        m
    }

    /// Whether a value of the kind `kind` can be the attribute `name` of a
    /// record of this model.
    pub open spec fn admits(&self, name: Seq<char>, kind: AttributeType) -> Result<
        (),
        SchemaViolation,
    > {
        if !self.attributes@.contains_key(name) {
            Err(SchemaViolation::UndeclaredAttribute)
        } else if self.attributes@[name] != kind {
            Err(SchemaViolation::KindMismatch)
        } else {
            Ok(())
        }
    }

    /// Checks that `attribute` can be the attribute `name` of a record of
    /// this model: that the name is declared, and with the value's kind.
    pub fn check(&self, name: &str, attribute: &Attribute) -> (r: Result<(), SchemaViolation>)
        ensures
            r == self.admits(name@, attribute.kind()),
    {
        match self.attributes.get(name) {
            None => Err(SchemaViolation::UndeclaredAttribute),
            Some(declared) => if *declared == attribute.attribute_type() {
                Ok(())
            } else {
                Err(SchemaViolation::KindMismatch)
            },
        }
    }

    /// Whether `r` is the empty record of this model: a NULL text primary
    /// key, every declared attribute NULL of its kind, every declared
    /// relationship empty.
    pub open spec fn is_shell(&self, r: Record) -> bool {
        &&& r.id == Attribute::String(None)
        &&& r.ty@ == self.ty@
        &&& r.attributes@ == self.attributes@.map_values(|t: AttributeType| t.absent())
        &&& r.relationships@.dom() == self.relationships@.dom()
        &&& forall|k: Seq<char>| #[trigger]
            self.relationships@.contains_key(k) ==> self.relationships@[k].is_empty_form(
                r.relationships@[k],
            )
    }

    /// The empty record of this model.
    pub fn create(&self) -> (r: Record)
        ensures
            self.is_shell(r),
    {
        let mut attributes: Attributes = NameMap::new();
        let na = self.attributes.len();
        let mut i: usize = 0;
        while i < na
            invariant
                i <= na,
                na == self.attributes.pairs().len(),
                forall|k: Seq<char>| #[trigger]
                    attributes@.contains_key(k) <==> exists|j: int|
                        0 <= j < i && (#[trigger] self.attributes.pairs()[j]).0 == k,
                forall|k: Seq<char>| #[trigger]
                    attributes@.contains_key(k) ==> self.attributes@.contains_key(k)
                        && attributes@[k] == self.attributes@[k].absent(),
            decreases na - i,
        {
            let name = self.attributes.name_at(i);
            let value = self.attributes.value_at(i).to_attribute();
            attributes.insert(name.to_owned(), value);
            i += 1;
        }
        let mut relationships: Relationships = NameMap::new();
        let nr = self.relationships.len();
        let mut i: usize = 0;
        while i < nr
            invariant
                i <= nr,
                nr == self.relationships.pairs().len(),
                forall|k: Seq<char>| #[trigger]
                    relationships@.contains_key(k) <==> exists|j: int|
                        0 <= j < i && (#[trigger] self.relationships.pairs()[j]).0 == k,
                forall|k: Seq<char>| #[trigger]
                    relationships@.contains_key(k) ==> self.relationships@.contains_key(k)
                        && self.relationships@[k].is_empty_form(relationships@[k]),
            decreases nr - i,
        {
            let name = self.relationships.name_at(i);
            let value = self.relationships.value_at(i).to_relationship();
            relationships.insert(name.to_owned(), value);
            i += 1;
        }
        proof {
            assert(attributes@ =~= self.attributes@.map_values(|t: AttributeType| t.absent()));
            assert(relationships@.dom() =~= self.relationships@.dom());
        }
        Record {
            id: Attribute::String(None),
            ty: self.ty,
            attributes: attributes,
            relationships: relationships,
        }
    }
}

impl ModelDef {
    /// The query for the row whose primary key is `id`: the first row
    /// whose primary-key column equals `id`.
    pub open spec fn find_spec<'a>(&'a self, id: &'a Attribute) -> Query<'a> {
        Query { limit: Some(1i32), ..self.find_by_spec(self.primary_key, id) }
    }

    /// The query for the row whose primary key is `id`.
    pub fn find<'a>(&'a self, id: &'a Attribute) -> (q: Query<'a>)
        ensures
            q == self.find_spec(id),
    {
        Query::new(self).where_(self.primary_key).eq(id).limit(1)
    }

    /// The query for every row of this model's table whose column `name`
    /// equals `filter`.
    pub open spec fn find_by_spec<'a>(&'a self, name: &'a str, filter: &'a Attribute) -> Query<
        'a,
    > {
        Query {
            model: self,
            included: None,
            fields: None,
            sort: None,
            filter: Some(Filter::Equal(name, filter)),
            offset: None,
            limit: None,
        }
    }

    /// The query for the rows whose column `name` equals `filter`.
    pub fn find_by<'a>(&'a self, name: &'a str, filter: &'a Attribute) -> (q: Query<'a>)
        ensures
            q == self.find_by_spec(name, filter),
    {
        Query::new(self).where_(name).eq(filter)
    }

    /// The query for the rows whose column `name` is one of `filters`.
    pub fn find_in<'a>(&'a self, name: &'a str, filters: Vec<&'a Attribute>) -> (q: Query<'a>)
        ensures
            q == (Query {
                model: self,
                included: None,
                fields: None,
                sort: None,
                filter: Some(Filter::In(name, filters)),
                offset: None,
                limit: None,
            }),
    {
        Query::new(self).where_(name).in_(filters)
    }
}

impl Record {
    /// The attribute stored under `name`, if the record has one.
    pub fn get(&self, name: &str) -> (r: Option<&Attribute>)
        ensures
            r == (if self.attributes@.contains_key(name@) {
                Some(&self.attributes@[name@])
            } else {
                None
            }),
    {
        self.attributes.get(name)
    }

    /// Gives the attribute `name` a new value. A name that the record does
    /// not have leaves the record as it is.
    pub fn set(&mut self, name: &str, attribute: Attribute)
        ensures
            final(self).attributes@ == (if old(self).attributes@.contains_key(name@) {
                old(self).attributes@.insert(name@, attribute)
            } else {
                old(self).attributes@
            }),
            final(self).attributes@.dom() == old(self).attributes@.dom(),
            final(self).id == old(self).id,
            final(self).ty == old(self).ty,
            final(self).relationships == old(self).relationships,
    {
        let _ = self.attributes.replace(name, attribute);
    }

    /// The record of the to-one relationship `name`: `None` where the record
    /// has no relationship of that name or the relationship is to-many.
    pub fn get_one(&self, name: &str) -> (r: Option<&Option<Record>>)
        ensures
            r == (if self.relationships@.contains_key(name@)
                && self.relationships@[name@] is BelongsTo {
                Some(&self.relationships@[name@]->BelongsTo_0)
            } else {
                None
            }),
    {
        match self.relationships.get(name) {
            Some(relationship) => match relationship {
                Relationship::BelongsTo(r) => Some(r),
                _ => None,
            },
            None => None,
        }
    }

    /// The records of the to-many relationship `name`: `None` where the
    /// record has no relationship of that name or the relationship is to-one.
    pub fn get_many(&self, name: &str) -> (r: Option<&Vec<Record>>)
        ensures
            r == (if self.relationships@.contains_key(name@)
                && self.relationships@[name@] is HasMany {
                Some(&self.relationships@[name@]->HasMany_0)
            } else {
                None
            }),
    {
        match self.relationships.get(name) {
            Some(relationship) => match relationship {
                Relationship::HasMany(r) => Some(r),
                _ => None,
            },
            None => None,
        }
    }
}

/// The records that one query gave, in the order in which they came.
#[derive(Debug)]
pub struct RecordSet {
    records: Vec<Record>,
}

impl View for RecordSet {
    type V = Seq<Record>;

    closed spec fn view(&self) -> Seq<Record> {
        self.records@
    }
}

impl RecordSet {
    /// The set of the given records, in their order.
    pub fn new(records: Vec<Record>) -> (s: RecordSet)
        ensures
            s@ == records@,
    {
        RecordSet { records: records }
    }

    /// The first record, if there is one.
    pub fn first(&self) -> (r: Option<&Record>)
        ensures
            r == (if self@.len() > 0 {
                Some(&self@[0])
            } else {
                None
            }),
    {
        if self.records.len() > 0 {
            Some(&self.records[0])
        } else {
            None
        }
    }
}

} // verus!
