//! Queries against a model, and the filter trees that they carry.

use vstd::prelude::*;
use crate::attribute::{Attribute, Attributes};
use crate::adapter::Adapter;
use crate::model::{ModelDef, RecordSet};
use crate::serializer::{is_extracted, SimpleSerializer};
use crate::store::records_of;

verus! {

/// The direction of one sort entry.
#[derive(Debug, Clone, Copy, PartialEq, Eq)]
pub enum SortOrder {
    ASC,
    DESC,
}

/// A boolean expression over the columns of one table.
#[derive(Debug)]
pub enum Filter<'a> {
    IsNull(&'a str),
    IsNotNull(&'a str),
    Equal(&'a str, &'a Attribute),
    In(&'a str, Vec<&'a Attribute>),
    And(Box<Filter<'a>>, Box<Filter<'a>>),
    Or(Box<Filter<'a>>, Box<Filter<'a>>),
}

/// What to read from the table of one model.
#[derive(Debug)]
pub struct Query<'a> {
    pub model: &'a ModelDef,
    pub included: Option<Vec<&'a ModelDef>>,
    pub fields: Option<Vec<&'a str>>,
    pub sort: Option<Vec<(&'a str, SortOrder)>>,
    pub filter: Option<Filter<'a>>,
    pub offset: Option<i32>,
    pub limit: Option<i32>,
}

/// A column name waiting for the comparison that makes it the query's
/// filter.
pub struct WhereFilterBuilder<'a> {
    pub query: Query<'a>,
    pub name: &'a str,
}

/// A column name waiting for the comparison that is joined to the query's
/// filter by `AND`.
pub struct AndFilterBuilder<'a> {
    pub query: Query<'a>,
    pub name: &'a str,
}

/// A column name waiting for the comparison that is joined to the query's
/// filter by `OR`.
pub struct OrFilterBuilder<'a> {
    pub query: Query<'a>,
    pub name: &'a str,
}

/// Whether `set` holds the records of an adapter's answer for `model`: a
/// failure for a failure, and else one record of each row, in the order of
/// the rows, each column taken as the attribute of its name.
pub open spec fn is_record_set_of(
    model: ModelDef,
    answer: Option<Vec<Attributes>>,
    set: Option<RecordSet>,
) -> bool {
    &&& set is Some <==> answer is Some
    &&& set is Some ==> set->Some_0@.len() == answer->Some_0@.len()
    &&& set is Some ==> forall|i: int|
        0 <= i < answer->Some_0@.len() ==> is_extracted(
            model,
            (#[trigger] answer->Some_0@[i])@,
            set->Some_0@[i],
        )
}

/// The records of an adapter's answer: a failure for a failure, and else
/// one record of each row, in the order of the rows, each column taken as
/// the attribute of its name.
pub fn record_set_of(model: &ModelDef, answer: Option<Vec<Attributes>>) -> (set: Option<
    RecordSet,
>)
    ensures
        is_record_set_of(*model, answer, set),
{
    match records_of(model, &SimpleSerializer, answer) {
        Some(records) => Some(RecordSet::new(records)),
        None => None,
    }
}

impl<'a> Query<'a> {
    /// This query with `filter` as its filter.
    pub open spec fn with_filter(self, filter: Filter<'a>) -> Query<'a> {
        Query { filter: Some(filter), ..self }
    }

    /// This query with `filter` joined to the right of its filter by `AND`.
    pub open spec fn with_and(self, filter: Filter<'a>) -> Query<'a>
        recommends
            self.filter is Some,
    {
        self.with_filter(Filter::And(Box::new(self.filter.unwrap()), Box::new(filter)))
    }

    /// This query with `filter` joined to the right of its filter by `OR`.
    pub open spec fn with_or(self, filter: Filter<'a>) -> Query<'a>
        recommends
            self.filter is Some,
    {
        self.with_filter(Filter::Or(Box::new(self.filter.unwrap()), Box::new(filter)))
    }

    /// The query that reads every row and every column of `model`'s table.
    pub fn new(model: &'a ModelDef) -> (q: Query<'a>)
        ensures
            q == (Query {
                model: model,
                included: None,
                fields: None,
                sort: None,
                filter: None,
                offset: None,
                limit: None,
            }),
    {
        Query {
            model: model,
            included: None,
            fields: None,
            sort: None,
            filter: None,
            offset: None,
            limit: None,
        }
    }

    /// Hands the query to `adapter` and gives what `record_set_of` makes of
    /// the adapter's answer for the query's model: a failure where the
    /// adapter fails, and else one record of each row that it gave, in the
    /// order of the rows.
    pub fn get<A: Adapter>(self, adapter: &A) -> (set: Option<RecordSet>)
        ensures
            exists|answer: Option<Vec<Attributes>>| #[trigger]
                adapter.answers(self, answer) && is_record_set_of(*self.model, answer, set),
    {
        let answer = adapter.query(&self);
        let ghost given = answer;
        let set = record_set_of(self.model, answer);
        assert(adapter.answers(self, given) && is_record_set_of(*self.model, given, set));
        set
    }

    /// Sets the models that are read along with the target.
    pub fn including(self, models: Vec<&'a ModelDef>) -> (q: Query<'a>)
        ensures
            q == (Query { included: Some(models), ..self }),
    {
        let mut q = self;
        q.included = Some(models);
        q
    }

    /// Sets the columns that are read.
    pub fn select(self, fields: Vec<&'a str>) -> (q: Query<'a>)
        ensures
            q == (Query { fields: Some(fields), ..self }),
    {
        let mut q = self;
        q.fields = Some(fields);
        q
    }

    /// The sort entries of this query, none where no order was asked for.
    pub open spec fn sort_entries(self) -> Seq<(&'a str, SortOrder)> {
        match self.sort {
            Some(sort) => sort@,
            None => Seq::empty(),
        }
    }

    /// Adds a sort entry after those that the query has.
    pub fn order_by(self, name: &'a str, order: SortOrder) -> (q: Query<'a>)
        ensures
            q.sort is Some,
            q.sort_entries() == self.sort_entries().push((name, order)),
            q.model == self.model,
            q.included == self.included,
            q.fields == self.fields,
            q.filter == self.filter,
            q.offset == self.offset,
            q.limit == self.limit,
    {
        let mut q = self;
        let mut sort = match q.sort.take() {
            Some(sort) => sort,
            None => Vec::new(),
        };
        sort.push((name, order));
        q.sort = Some(sort);
        q
    }

    /// Sets the number of rows to pass over.
    pub fn offset(self, offset: i32) -> (q: Query<'a>)
        ensures
            q == (Query { offset: Some(offset), ..self }),
    {
        let mut q = self;
        q.offset = Some(offset);
        q
    }

    /// Sets the greatest number of rows to read.
    pub fn limit(self, limit: i32) -> (q: Query<'a>)
        ensures
            q == (Query { limit: Some(limit), ..self }),
    {
        let mut q = self;
        q.limit = Some(limit);
        q
    }

    /// Names the column of the comparison that becomes the query's filter.
    pub fn where_(self, name: &'a str) -> (b: WhereFilterBuilder<'a>)
        ensures
            b.query == self,
            b.name == name,
    {
        WhereFilterBuilder { query: self, name: name }
    }

    /// Names the column of a comparison that is joined to the query's filter
    /// by `AND`. The query must have a filter already.
    pub fn and(self, name: &'a str) -> (b: AndFilterBuilder<'a>)
        requires
            self.filter is Some,
        ensures
            b.query == self,
            b.name == name,
    {
        AndFilterBuilder { query: self, name: name }
    }

    /// Names the column of a comparison that is joined to the query's filter
    /// by `OR`. The query must have a filter already.
    pub fn or(self, name: &'a str) -> (b: OrFilterBuilder<'a>)
        requires
            self.filter is Some,
        ensures
            b.query == self,
            b.name == name,
    {
        OrFilterBuilder { query: self, name: name }
    }
}

impl<'a> WhereFilterBuilder<'a> {
    /// Completes the comparison: the column is NULL.
    pub fn is_null(self) -> (q: Query<'a>)
        ensures
            q == self.query.with_filter(Filter::IsNull(self.name)),
    {
        let mut q = self.query;
        q.filter = Some(Filter::IsNull(self.name));
        q
    }

    /// Completes the comparison: the column is not NULL.
    pub fn is_not_null(self) -> (q: Query<'a>)
        ensures
            q == self.query.with_filter(Filter::IsNotNull(self.name)),
    {
        let mut q = self.query;
        q.filter = Some(Filter::IsNotNull(self.name));
        q
    }

    /// Completes the comparison: the column equals `attribute`.
    pub fn eq(self, attribute: &'a Attribute) -> (q: Query<'a>)
        ensures
            q == self.query.with_filter(Filter::Equal(self.name, attribute)),
    {
        let mut q = self.query;
        q.filter = Some(Filter::Equal(self.name, attribute));
        q
    }

    /// Completes the comparison: the column is one of `attributes`.
    pub fn in_(self, attributes: Vec<&'a Attribute>) -> (q: Query<'a>)
        ensures
            q == self.query.with_filter(Filter::In(self.name, attributes)),
    {
        let mut q = self.query;
        q.filter = Some(Filter::In(self.name, attributes));
        q
    }
}

impl<'a> AndFilterBuilder<'a> {
    /// Completes the comparison: the column is NULL.
    pub fn is_null(self) -> (q: Query<'a>)
        requires
            self.query.filter is Some,
        ensures
            q == self.query.with_and(Filter::IsNull(self.name)),
    {
        let mut q = self.query;
        let left = q.filter.take().unwrap();
        q.filter = Some(Filter::And(Box::new(left), Box::new(Filter::IsNull(self.name))));
        q
    }

    /// Completes the comparison: the column is not NULL.
    pub fn is_not_null(self) -> (q: Query<'a>)
        requires
            self.query.filter is Some,
        ensures
            q == self.query.with_and(Filter::IsNotNull(self.name)),
    {
        let mut q = self.query;
        let left = q.filter.take().unwrap();
        q.filter = Some(Filter::And(Box::new(left), Box::new(Filter::IsNotNull(self.name))));
        q
    }

    /// Completes the comparison: the column equals `attribute`.
    pub fn eq(self, attribute: &'a Attribute) -> (q: Query<'a>)
        requires
            self.query.filter is Some,
        ensures
            q == self.query.with_and(Filter::Equal(self.name, attribute)),
    {
        let mut q = self.query;
        let left = q.filter.take().unwrap();
        q.filter = Some(
            Filter::And(Box::new(left), Box::new(Filter::Equal(self.name, attribute))),
        );
        q
    }

    /// Completes the comparison: the column is one of `attributes`.
    pub fn in_(self, attributes: Vec<&'a Attribute>) -> (q: Query<'a>)
        requires
            self.query.filter is Some,
        ensures
            q == self.query.with_and(Filter::In(self.name, attributes)),
    {
        let mut q = self.query;
        let left = q.filter.take().unwrap();
        q.filter = Some(Filter::And(Box::new(left), Box::new(Filter::In(self.name, attributes))));
        q
    }
}

impl<'a> OrFilterBuilder<'a> {
    /// Completes the comparison: the column is NULL.
    pub fn is_null(self) -> (q: Query<'a>)
        requires
            self.query.filter is Some,
        ensures
            q == self.query.with_or(Filter::IsNull(self.name)),
    {
        let mut q = self.query;
        let left = q.filter.take().unwrap();
        q.filter = Some(Filter::Or(Box::new(left), Box::new(Filter::IsNull(self.name))));
        q
    }

    /// Completes the comparison: the column is not NULL.
    pub fn is_not_null(self) -> (q: Query<'a>)
        requires
            self.query.filter is Some,
        ensures
            q == self.query.with_or(Filter::IsNotNull(self.name)),
    {
        let mut q = self.query;
        let left = q.filter.take().unwrap();
        q.filter = Some(Filter::Or(Box::new(left), Box::new(Filter::IsNotNull(self.name))));
        q
    }

    /// Completes the comparison: the column equals `attribute`.
    pub fn eq(self, attribute: &'a Attribute) -> (q: Query<'a>)
        requires
            self.query.filter is Some,
        ensures
            q == self.query.with_or(Filter::Equal(self.name, attribute)),
    {
        let mut q = self.query;
        let left = q.filter.take().unwrap();
        q.filter = Some(Filter::Or(Box::new(left), Box::new(Filter::Equal(self.name, attribute))));
        q
    }

    /// Completes the comparison: the column is one of `attributes`.
    pub fn in_(self, attributes: Vec<&'a Attribute>) -> (q: Query<'a>)
        requires
            self.query.filter is Some,
        ensures
            q == self.query.with_or(Filter::In(self.name, attributes)),
    {
        let mut q = self.query;
        let left = q.filter.take().unwrap();
        q.filter = Some(Filter::Or(Box::new(left), Box::new(Filter::In(self.name, attributes))));
        q
    }
}

} // verus!
